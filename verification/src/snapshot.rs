//! The two snapshots a poll cycle works with.

use vstd::prelude::*;

use crate::key::SectionKey;
use crate::kvmap::KvMap;

verus! {

/// Free-seat count per reported section. A key that is absent was not
/// reported this poll; the diff treats that like a count of zero.
pub type SeatSnapshot = KvMap<SectionKey, u64>;

/// Display label per section, built from the catalog data. Best effort:
/// a missing label falls back to a fixed marker when a message is rendered.
pub type NameSnapshot = KvMap<SectionKey, String>;

} // verus!
