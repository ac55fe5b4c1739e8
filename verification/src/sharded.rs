use crate::collections::MonoHashMap;
use crate::mono::Mono;
use std::collections::HashMap;
use std::hash::Hash;
use std::marker::PhantomData;
use vstd::prelude::*;
use vstd::std_specs::hash::obeys_key_model;

verus! {

broadcast use vstd::std_specs::hash::group_hash_axioms;

/// The actor that holds one shard's part of a sharded hash map.
pub struct HashMapShardActor<K, V>(PhantomData<HashMap<K, V>>);

/// A request to one shard of a sharded hash map, with the channel the
/// answer goes to: `G` answers a lookup, `A` acknowledges a change.
pub enum HashMapRequest<K, V, G, A> {
    Get(K, G),
    Insert(K, V, A),
    Remove(K, A),
}

/// The answer to a request, to be sent on its channel.
pub enum HashMapReply<V, G, A> {
    /// The value found for the key, if any.
    Value(G, Option<V>),
    /// The change was made.
    Ack(A),
}

impl<K: Eq + Hash, V: Clone> HashMapShardActor<K, V> {
    /// The state a shard of the map starts with: an empty map.
    pub fn pre_start() -> (r: MonoHashMap<K, V>)
        ensures
            r.value()@ == Map::<K, V>::empty(),
    {
        Mono::<HashMap<K, V>>::new()
    }

    /// Serves one request on this shard's map: a lookup answers a clone of
    /// the stored value, an insert stores the pair and a removal drops the
    /// key; both of the latter are acknowledged.
    pub fn handle<G, A>(message: HashMapRequest<K, V, G, A>, state: &mut MonoHashMap<K, V>) -> (r:
        HashMapReply<V, G, A>)
        ensures
            obeys_key_model::<K>() ==> match message {
                HashMapRequest::Get(k, g) => {
                    &&& final(state).value()@ == old(state).value()@
                    &&& r matches HashMapReply::Value(rg, found) && rg == g && match found {
                        Some(v) => old(state).value()@.contains_key(k) && cloned(
                            old(state).value()@[k],
                            v,
                        ),
                        None => !old(state).value()@.contains_key(k),
                    }
                },
                HashMapRequest::Insert(k, v, a) => {
                    &&& final(state).value()@ == old(state).value()@.insert(k, v)
                    &&& r == HashMapReply::<V, G, A>::Ack(a)
                },
                HashMapRequest::Remove(k, a) => {
                    &&& final(state).value()@ == old(state).value()@.remove(k)
                    &&& r == HashMapReply::<V, G, A>::Ack(a)
                },
            },
    {
        match message {
            HashMapRequest::Get(k, res) => {
                let found = state.get().get(&k).cloned();
                HashMapReply::Value(res, found)
            },
            HashMapRequest::Insert(k, v, tx) => {
                state.get_mut().insert(k, v);
                HashMapReply::Ack(tx)
            },
            HashMapRequest::Remove(k, tx) => {
                state.get_mut().remove(&k);
                HashMapReply::Ack(tx)
            },
        }
    }
}


/// A lookup on a shard's map after a key was inserted finds the inserted
/// value, and after the key was removed finds nothing; other keys are left
/// as they were.
pub proof fn law_read_after_write<K, V>(m: Map<K, V>, k: K, v: V, other: K)
    requires
        other != k,
    ensures
        m.insert(k, v).contains_key(k) && m.insert(k, v)[k] == v,
        !m.remove(k).contains_key(k),
        m.insert(k, v).contains_key(other) == m.contains_key(other),
        m.remove(k).contains_key(other) == m.contains_key(other),
        m.contains_key(other) ==> m.insert(k, v)[other] == m[other] && m.remove(k)[other]
            == m[other],
{
}

} // verus!
