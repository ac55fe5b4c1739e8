use vstd::prelude::*;

verus! {

/// Where an entry of a sharded slab lives: its slot in the slab of shard
/// `route`.
#[derive(Debug, Clone, Copy, PartialEq, Eq, Structural)]
pub struct SlabIndex {
    pub local: usize,
    pub route: usize,
}

/// What a request to a sharded slab is about.
#[derive(Debug, Clone, Copy, PartialEq, Eq, Structural)]
pub enum SlabTarget {
    /// Store a new value.
    Insert,
    /// Read or remove the entry at this index.
    Existing(SlabIndex),
}

/// The shard of a sharded slab that handles a request: new values go round
/// robin, starting at `cursor`, over the `targets` shards; requests about
/// an existing entry go to the shard that holds it.
pub fn route_slab_request(target: SlabTarget, cursor: &mut usize, targets: usize) -> (r: usize)
    requires
        targets > 0,
        *old(cursor) < targets,
    ensures
        *final(cursor) < targets,
        match target {
            SlabTarget::Insert => r == *old(cursor) && *final(cursor) == (*old(cursor) + 1)
                % (targets as int),
            SlabTarget::Existing(index) => r == index.route && *final(cursor) == *old(cursor),
        },
{
    match target {
        SlabTarget::Insert => {
            let prev = *cursor;
            *cursor = (*cursor + 1) % targets;
            prev
        },
        SlabTarget::Existing(index) => index.route,
    }
}

/// The shard a request after `k` earlier inserts lands on, when the
/// round robin started at `start`.
pub open spec fn round_robin_shard(start: int, k: int, targets: int) -> int {
    (start + k) % targets
}

/// Round-robin insertion spreads evenly: any `targets` consecutive inserts
/// land on every shard, each exactly once.
pub proof fn law_round_robin_covers_every_shard(start: int, targets: int, shard: int)
    requires
        targets > 0,
        0 <= start < targets,
        0 <= shard < targets,
    ensures
        exists|k: int| 0 <= k < targets && #[trigger] round_robin_shard(start, k, targets) == shard,
        forall|k1: int, k2: int|
            0 <= k1 < targets && 0 <= k2 < targets && round_robin_shard(start, k1, targets)
                == shard && round_robin_shard(start, k2, targets) == shard ==> k1 == k2,
{
    let k = if shard >= start {
        shard - start
    } else {
        shard - start + targets
    };
    assert(round_robin_shard(start, k, targets) == shard) by {
        if shard >= start {
            assert(start + k == shard);
        } else {
            assert(start + k == shard + targets);
            vstd::arithmetic::div_mod::lemma_mod_add_multiples_vanish(shard, targets);
        }
        vstd::arithmetic::div_mod::lemma_small_mod(shard as nat, targets as nat);
    }
    assert forall|k1: int, k2: int|
        0 <= k1 < targets && 0 <= k2 < targets && round_robin_shard(start, k1, targets) == shard
            && round_robin_shard(start, k2, targets) == shard implies k1 == k2 by {
        lemma_round_robin_index(start, k1, targets);
        lemma_round_robin_index(start, k2, targets);
    }
}

/// The round-robin shard after `k` inserts, written without `%`.
proof fn lemma_round_robin_index(start: int, k: int, targets: int)
    requires
        targets > 0,
        0 <= start < targets,
        0 <= k < targets,
    ensures
        start + k < targets ==> round_robin_shard(start, k, targets) == start + k,
        start + k >= targets ==> round_robin_shard(start, k, targets) == start + k - targets,
{
    if start + k < targets {
        vstd::arithmetic::div_mod::lemma_small_mod((start + k) as nat, targets as nat);
    } else {
        vstd::arithmetic::div_mod::lemma_mod_add_multiples_vanish(start + k - targets, targets);
        vstd::arithmetic::div_mod::lemma_small_mod((start + k - targets) as nat, targets as nat);
    }
}

/// The shard of a sharded hash map that holds a key with hash `hash`.
pub fn route_by_hash(hash: u64, targets: usize) -> (r: usize)
    requires
        targets > 0,
    ensures
        r == hash % (targets as u64),
        r < targets,
{
    (hash % (targets as u64)) as usize
}

} // verus!
