//! Watches seat availability for university course sections.
//!
//! The crate is organised around one poll cycle: parse the two JSON
//! snapshots that an external source reports (`fetch`), compare the new
//! seat snapshot against the previous one (`diff`), render one message
//! per qualifying transition (`notify`), and carry the new snapshot as
//! the baseline for the next cycle (`poll`).

pub mod diff;
pub mod fetch;
pub mod json;
pub mod key;
pub mod kvmap;
pub mod notify;
pub mod poll;
pub mod snapshot;

pub use key::SectionKey;
