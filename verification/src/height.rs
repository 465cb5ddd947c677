//! Chain heights: a `(revision, block number)` pair.
//!
//! Heights are comparable only within a single revision; the revision is the
//! monotonic numeric epoch carried in the chain id's suffix.

use vstd::prelude::*;

verus! {

/// A point in a chain's history: a revision number and a block number
/// within that revision.
#[derive(Clone, Copy, PartialEq, Eq, Structural, Debug, Hash)]
pub struct Height {
    pub revision: u64,
    pub height: u64,
}

impl Height {
    /// Build a height from its two components.
    pub fn new_with_revision(revision: u64, height: u64) -> (h: Height)
        ensures
            h.revision == revision,
            h.height == height,
    {
        Height { revision, height }
    }

    /// The next height in the same revision.
    pub fn increment(self) -> (h: Height)
        requires
            self.height < u64::MAX,
        ensures
            h.revision == self.revision,
            h.height == self.height + 1,
    {
        Height { revision: self.revision, height: self.height + 1 }
    }
}

} // verus!
