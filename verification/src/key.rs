//! Composite identity of a course section.

use vstd::prelude::*;

verus! {

/// Identifies one course section: the stream, the block inside the stream,
/// and the course offered in that block. Equality is structural over the
/// triple; the key carries no ordering semantics.
#[derive(PartialEq, Eq, Structural, Hash, Clone, Copy, Debug)]
pub struct SectionKey {
    pub stream_id: u64,
    pub block_id: u64,
    pub course_id: u64,
}

impl SectionKey {
    pub fn new(stream_id: u64, block_id: u64, course_id: u64) -> (r: SectionKey)
        ensures
            r == (SectionKey { stream_id, block_id, course_id }),
    {
        SectionKey { stream_id, block_id, course_id }
    }
}

} // verus!
