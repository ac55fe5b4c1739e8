use std::collections::HashMap;
use std::hash::Hash;
use vstd::prelude::*;
use vstd::std_specs::hash::obeys_key_model;

verus! {

broadcast use vstd::std_specs::hash::group_hash_axioms;

/// Cloning values of `T` gives back an identical value.
pub open spec fn clones_are_exact<T: Clone>() -> bool {
    forall|a: T, b: T| #[trigger] cloned(a, b) ==> a == b
}

/// Both directions of a translator after `key` was paired with `value`.
pub open spec fn translator_after_insert<K, V>(
    maps: (Map<K, V>, Map<V, K>),
    key: K,
    value: V,
) -> (Map<K, V>, Map<V, K>) {
    (maps.0.insert(key, value), maps.1.insert(value, key))
}

/// A pair of maps that translate names in both directions: forwards from
/// key to value, backwards from value to key.
pub struct TwoWayTranslator<K, V> {
    forward: HashMap<K, V>,
    backward: HashMap<V, K>,
}

impl<K, V> View for TwoWayTranslator<K, V> {
    type V = (Map<K, V>, Map<V, K>);

    closed spec fn view(&self) -> (Map<K, V>, Map<V, K>) {
        (self.forward@, self.backward@)
    }
}

impl<K, V> TwoWayTranslator<K, V> where K: Hash + Eq + Clone, V: Hash + Eq + Clone {
    /// An empty translator.
    pub fn new() -> (r: Self)
        ensures
            r@ == (Map::<K, V>::empty(), Map::<V, K>::empty()),
    {
        TwoWayTranslator { forward: HashMap::new(), backward: HashMap::new() }
    }

    /// Pairs `key` with `value` in both directions, replacing what either
    /// of them was paired with before. The forward map stores clones of
    /// both; where cloning is exact this is `translator_after_insert`.
    pub fn insert(&mut self, key: K, value: V)
        ensures
            obeys_key_model::<K>() && obeys_key_model::<V>() ==> {
                &&& exists|k: K, v: V|
                    #![trigger cloned(key, k), cloned(value, v)]
                    cloned(key, k) && cloned(value, v) && final(self)@.0 == old(self)@.0.insert(
                        k,
                        v,
                    )
                &&& final(self)@.1 == old(self)@.1.insert(value, key)
            },
            obeys_key_model::<K>() && obeys_key_model::<V>() && clones_are_exact::<K>()
                && clones_are_exact::<V>() ==> final(self)@ == translator_after_insert(
                old(self)@,
                key,
                value,
            ),
    {
        let k = key.clone();
        let v = value.clone();
        let ghost (gk, gv) = (k, v);
        assert(cloned(key, gk) && cloned(value, gv));
        self.forward.insert(k, v);
        self.backward.insert(value, key);
    }

    /// The value paired with `key`, if any.
    pub fn forwards(&self, key: &K) -> (r: Option<&V>)
        ensures
            obeys_key_model::<K>() ==> match r {
                Some(v) => self@.0.contains_key(*key) && self@.0[*key] == *v,
                None => !self@.0.contains_key(*key),
            },
    {
        self.forward.get(key)
    }

    /// The key paired with `value`, if any.
    pub fn backwards(&self, value: &V) -> (r: Option<&K>)
        ensures
            obeys_key_model::<V>() ==> match r {
                Some(k) => self@.1.contains_key(*value) && self@.1[*value] == *k,
                None => !self@.1.contains_key(*value),
            },
    {
        self.backward.get(value)
    }
}

/// After pairing `key` with `value`, the key translates forwards to the
/// value and the value backwards to the key.
pub proof fn law_insert_then_translate<K, V>(maps: (Map<K, V>, Map<V, K>), key: K, value: V)
    ensures
        translator_after_insert(maps, key, value).0.contains_key(key),
        translator_after_insert(maps, key, value).0[key] == value,
        translator_after_insert(maps, key, value).1.contains_key(value),
        translator_after_insert(maps, key, value).1[value] == key,
{
}

/// Pairing `key` with `value` leaves every other key's forward translation
/// and every other value's backward translation as it was.
pub proof fn law_insert_keeps_others<K, V>(
    maps: (Map<K, V>, Map<V, K>),
    key: K,
    value: V,
    other_key: K,
    other_value: V,
)
    requires
        other_key != key,
        other_value != value,
    ensures
        translator_after_insert(maps, key, value).0.contains_key(other_key) == maps.0.contains_key(
            other_key,
        ),
        translator_after_insert(maps, key, value).0[other_key] == maps.0[other_key],
        translator_after_insert(maps, key, value).1.contains_key(other_value)
            == maps.1.contains_key(other_value),
        translator_after_insert(maps, key, value).1[other_value] == maps.1[other_value],
{
}

/// Both directions of a translator after the pairs `pairs` were inserted,
/// in order, into an empty one.
pub open spec fn translator_after_inserts<K, V>(pairs: Seq<(K, V)>) -> (Map<K, V>, Map<V, K>)
    decreases pairs.len(),
{
    if pairs.len() == 0 {
        (Map::empty(), Map::empty())
    } else {
        translator_after_insert(
            translator_after_inserts(pairs.drop_last()),
            pairs.last().0,
            pairs.last().1,
        )
    }
}

/// Inserting one more pair extends the sequence of inserts by that pair.
pub proof fn law_inserts_step<K, V>(pairs: Seq<(K, V)>, key: K, value: V)
    ensures
        translator_after_inserts(pairs.push((key, value))) == translator_after_insert(
            translator_after_inserts(pairs),
            key,
            value,
        ),
{
    assert(pairs.push((key, value)).drop_last() =~= pairs);
}

/// Insert `j` of `pairs` is the last one that pairs key `key`.
pub open spec fn last_key_insert<K, V>(pairs: Seq<(K, V)>, key: K, j: int) -> bool {
    &&& 0 <= j < pairs.len()
    &&& pairs[j].0 == key
    &&& forall|i: int| j < i < pairs.len() ==> (#[trigger] pairs[i]).0 != key
}

/// Insert `j` of `pairs` is the last one that pairs value `value`.
pub open spec fn last_value_insert<K, V>(pairs: Seq<(K, V)>, value: V, j: int) -> bool {
    &&& 0 <= j < pairs.len()
    &&& pairs[j].1 == value
    &&& forall|i: int| j < i < pairs.len() ==> (#[trigger] pairs[i]).1 != value
}

proof fn lemma_key_present<K, V>(pairs: Seq<(K, V)>, key: K, j: int)
    requires
        0 <= j < pairs.len(),
        pairs[j].0 == key,
    ensures
        translator_after_inserts(pairs).0.contains_key(key),
    decreases pairs.len(),
{
    if j < pairs.len() - 1 {
        lemma_key_present(pairs.drop_last(), key, j);
    }
}

proof fn lemma_key_absent<K, V>(pairs: Seq<(K, V)>, key: K)
    requires
        forall|j: int| 0 <= j < pairs.len() ==> (#[trigger] pairs[j]).0 != key,
    ensures
        !translator_after_inserts(pairs).0.contains_key(key),
    decreases pairs.len(),
{
    if pairs.len() > 0 {
        let init = pairs.drop_last();
        assert forall|j: int| 0 <= j < init.len() implies (#[trigger] init[j]).0 != key by {
            assert(init[j] == pairs[j]);
        }
        assert(pairs[pairs.len() - 1].0 != key);
        lemma_key_absent(init, key);
    }
}

proof fn lemma_key_last<K, V>(pairs: Seq<(K, V)>, key: K, j: int)
    requires
        last_key_insert(pairs, key, j),
    ensures
        translator_after_inserts(pairs).0[key] == pairs[j].1,
    decreases pairs.len(),
{
    let n = pairs.len() - 1;
    if j < n {
        let init = pairs.drop_last();
        assert(pairs[n].0 != key);
        assert forall|i: int| j < i < init.len() implies (#[trigger] init[i]).0 != key by {
            assert(init[i] == pairs[i]);
        }
        lemma_key_last(init, key, j);
    }
}

proof fn lemma_value_present<K, V>(pairs: Seq<(K, V)>, value: V, j: int)
    requires
        0 <= j < pairs.len(),
        pairs[j].1 == value,
    ensures
        translator_after_inserts(pairs).1.contains_key(value),
    decreases pairs.len(),
{
    if j < pairs.len() - 1 {
        lemma_value_present(pairs.drop_last(), value, j);
    }
}

proof fn lemma_value_absent<K, V>(pairs: Seq<(K, V)>, value: V)
    requires
        forall|j: int| 0 <= j < pairs.len() ==> (#[trigger] pairs[j]).1 != value,
    ensures
        !translator_after_inserts(pairs).1.contains_key(value),
    decreases pairs.len(),
{
    if pairs.len() > 0 {
        let init = pairs.drop_last();
        assert forall|j: int| 0 <= j < init.len() implies (#[trigger] init[j]).1 != value by {
            assert(init[j] == pairs[j]);
        }
        assert(pairs[pairs.len() - 1].1 != value);
        lemma_value_absent(init, value);
    }
}

proof fn lemma_value_last<K, V>(pairs: Seq<(K, V)>, value: V, j: int)
    requires
        last_value_insert(pairs, value, j),
    ensures
        translator_after_inserts(pairs).1[value] == pairs[j].0,
    decreases pairs.len(),
{
    let n = pairs.len() - 1;
    if j < n {
        let init = pairs.drop_last();
        assert(pairs[n].1 != value);
        assert forall|i: int| j < i < init.len() implies (#[trigger] init[i]).1 != value by {
            assert(init[i] == pairs[i]);
        }
        lemma_value_last(init, value, j);
    }
}

/// After a sequence of inserts into an empty translator, a key translates
/// forwards exactly when some insert paired it, and then to the value of
/// the last such insert; a value translates backwards exactly when some
/// insert paired it, and then to the key of the last such insert.
pub proof fn law_translate_after_inserts<K, V>(pairs: Seq<(K, V)>, key: K, value: V)
    ensures
        translator_after_inserts(pairs).0.contains_key(key) <==> exists|j: int|
            0 <= j < pairs.len() && (#[trigger] pairs[j]).0 == key,
        forall|j: int| #[trigger]
            last_key_insert(pairs, key, j) ==> translator_after_inserts(pairs).0[key]
                == pairs[j].1,
        translator_after_inserts(pairs).1.contains_key(value) <==> exists|j: int|
            0 <= j < pairs.len() && (#[trigger] pairs[j]).1 == value,
        forall|j: int| #[trigger]
            last_value_insert(pairs, value, j) ==> translator_after_inserts(pairs).1[value]
                == pairs[j].0,
{
    if exists|j: int| 0 <= j < pairs.len() && (#[trigger] pairs[j]).0 == key {
        let j = choose|j: int| 0 <= j < pairs.len() && (#[trigger] pairs[j]).0 == key;
        lemma_key_present(pairs, key, j);
    } else {
        lemma_key_absent(pairs, key);
    }
    if exists|j: int| 0 <= j < pairs.len() && (#[trigger] pairs[j]).1 == value {
        let j = choose|j: int| 0 <= j < pairs.len() && (#[trigger] pairs[j]).1 == value;
        lemma_value_present(pairs, value, j);
    } else {
        lemma_value_absent(pairs, value);
    }
    assert forall|j: int| #[trigger] last_key_insert(pairs, key, j) implies translator_after_inserts(
        pairs,
    ).0[key] == pairs[j].1 by {
        lemma_key_last(pairs, key, j);
    }
    assert forall|j: int| #[trigger] last_value_insert(pairs, value, j) implies translator_after_inserts(
        pairs,
    ).1[value] == pairs[j].0 by {
        lemma_value_last(pairs, value, j);
    }
}

} // verus!
