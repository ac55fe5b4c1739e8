use crate::routing::SlabIndex;
use crate::slots::SlotArena;
use std::marker::PhantomData;
use vstd::prelude::*;

verus! {

/// The actor that holds one shard's part of a sharded slab.
pub struct ShardedSlabActor<V>(PhantomData<V>);

/// A request to one shard of a sharded slab, with the channel its answer
/// goes to: `G` answers a lookup, `I` an insertion, `R` a removal.
pub enum HashMapRequest<V, G, I, R> {
    Get(SlabIndex, G),
    Insert(V, I),
    Remove(SlabIndex, R),
}

/// The answer to a request, to be sent on its channel.
pub enum SlabReply<V, G, I, R> {
    /// The value found at the index, if any.
    Value(G, Option<V>),
    /// Where the new value was stored.
    Inserted(I, SlabIndex),
    /// The value taken out of the index, if there was one.
    Removed(R, Option<V>),
}

impl<V: Clone> ShardedSlabActor<V> {
    /// The state a shard of the slab starts with: its number among the
    /// slab's shards and no entries.
    pub fn pre_start(arguments: usize) -> (r: (usize, SlotArena<V>))
        ensures
            r.0 == arguments,
            r.1@ == Map::<usize, V>::empty(),
    {
        (arguments, SlotArena::new())
    }

    /// Serves one request on this shard's entries: a lookup answers a clone
    /// of the stored value, an insertion stores the value in a free slot
    /// and answers where (this shard, that slot), and a removal answers the
    /// value it took out. The shard's number never changes.
    pub fn handle<G, I, R>(message: HashMapRequest<V, G, I, R>, state: &mut (usize, SlotArena<V>)) -> (r:
        SlabReply<V, G, I, R>)
        ensures
            final(state).0 == old(state).0,
            match message {
                HashMapRequest::Get(k, g) => {
                    &&& final(state).1@ == old(state).1@
                    &&& r matches SlabReply::Value(rg, found) && rg == g && match found {
                        Some(v) => old(state).1@.contains_key(k.local) && cloned(
                            old(state).1@[k.local],
                            v,
                        ),
                        None => !old(state).1@.contains_key(k.local),
                    }
                },
                HashMapRequest::Insert(v, i) => {
                    r matches SlabReply::Inserted(ri, index) && ri == i && index.route == old(state).0
                        && !old(state).1@.contains_key(index.local) && final(state).1@ == old(
                        state,
                    ).1@.insert(index.local, v)
                },
                HashMapRequest::Remove(k, t) => {
                    r matches SlabReply::Removed(rt, taken) && rt == t && match taken {
                        Some(v) => old(state).1@.contains_key(k.local) && v == old(state).1@[k.local]
                            && final(state).1@ == old(state).1@.remove(k.local),
                        None => !old(state).1@.contains_key(k.local) && final(state).1@ == old(
                            state,
                        ).1@,
                    }
                },
            },
    {
        match message {
            HashMapRequest::Get(k, res) => {
                let found = state.1.get(k.local).cloned();
                SlabReply::Value(res, found)
            },
            HashMapRequest::Insert(v, tx) => {
                let local = state.1.insert(v);
                SlabReply::Inserted(tx, SlabIndex { local, route: state.0 })
            },
            HashMapRequest::Remove(k, tx) => {
                let taken = state.1.try_remove(k.local);
                SlabReply::Removed(tx, taken)
            },
        }
    }
}

/// On one shard of a sharded slab, a value stored under a fresh slot is
/// found there until it is removed; removing it frees the slot, so a second
/// removal finds nothing; other slots are left as they were.
pub proof fn law_slab_read_after_write<V>(m: Map<usize, V>, local: usize, v: V, other: usize)
    requires
        !m.contains_key(local),
        other != local,
    ensures
        m.insert(local, v).contains_key(local) && m.insert(local, v)[local] == v,
        m.insert(local, v).remove(local) == m,
        !m.insert(local, v).remove(local).contains_key(local),
        m.insert(local, v).contains_key(other) == m.contains_key(other),
        m.contains_key(other) ==> m.insert(local, v)[other] == m[other],
{
    assert(m.insert(local, v).remove(local) =~= m);
}

} // verus!
