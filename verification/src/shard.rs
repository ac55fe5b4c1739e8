use vstd::prelude::*;

verus! {

/// The identity of a shard: one scheduler pinned to one CPU core.
#[derive(Debug, Clone, Copy, PartialEq, Eq, Hash, Structural)]
pub struct ShardId(pub usize);

impl ShardId {
    /// Names the shard with the given index.
    pub fn new(id: usize) -> (r: Self)
        ensures
            r.0 == id,
    {
        ShardId(id)
    }

    /// The index of this shard.
    pub fn as_usize(&self) -> (r: usize)
        ensures
            r == self.0,
    {
        self.0
    }
}

} // verus!
