use crate::foreign::Foreign;
use crate::mono::Mono;
use std::borrow::{Cow, ToOwned};
use std::collections::{BTreeMap, BTreeSet, HashMap, HashSet, VecDeque};
use std::hash::RandomState;
use std::mem::MaybeUninit;
use vstd::prelude::*;
use vstd::std_specs::btree::{increasing_seq, key_obeys_cmp_spec};
use vstd::std_specs::hash::{builds_valid_hashers, obeys_key_model};
use vstd::std_specs::maybe_uninit::MaybeUninitAdditionalSpecFns;
use vstd::utf8::{decode_utf8, encode_utf8, valid_utf8};

verus! {

/// A thread-bound growable array.
pub type MonoVec<T> = Mono<Vec<T>>;

/// A thread-bound hash map.
pub type MonoHashMap<K, V, S = RandomState> = Mono<HashMap<K, V, S>>;

/// A thread-bound hash set.
pub type MonoHashSet<T, S = RandomState> = Mono<HashSet<T, S>>;

/// A thread-bound double-ended queue.
pub type MonoVecDeque<T> = Mono<VecDeque<T>>;

/// A thread-bound ordered map.
pub type MonoBTreeMap<K, V> = Mono<BTreeMap<K, V>>;

/// A thread-bound ordered set.
pub type MonoBTreeSet<T> = Mono<BTreeSet<T>>;

/// A thread-bound box.
pub type MonoBox<T> = Mono<Box<T>>;

/// A thread-bound string.
pub type MonoString = Mono<String>;

/// A thread-bound clone-on-write value.
pub type MonoCow<'a, B> = Mono<Cow<'a, B>>;

/// `Cow::into_owned`: owned data is handed back as it is; borrowed data is
/// copied by the type's own `ToOwned::to_owned`, so what comes back for it
/// depends on that impl and is left unsaid here.
#[verifier::external_body]
fn cow_into_owned<'a, B: ?Sized + ToOwned>(c: Cow<'a, B>) -> (r: <B as ToOwned>::Owned)
    ensures
        match c {
            Cow::Owned(o) => r == o,
            Cow::Borrowed(_) => true,
        },
{
    c.into_owned()
}

/// `n` is the length of the longest prefix of `bytes` that is valid UTF-8,
/// and `bytes` as a whole is not valid UTF-8.
pub open spec fn longest_valid_prefix(bytes: Seq<u8>, n: int) -> bool {
    &&& 0 <= n < bytes.len()
    &&& valid_utf8(bytes.subrange(0, n))
    &&& forall|k: int| n < k <= bytes.len() ==> !valid_utf8(#[trigger] bytes.subrange(0, k))
}

/// Why bytes are not a string: the bytes, handed back, and the length of
/// their longest prefix that is valid UTF-8.
#[derive(Clone, Debug, PartialEq, Eq)]
pub struct FromUtf8Failure {
    pub bytes: Vec<u8>,
    pub valid_up_to: usize,
}

impl FromUtf8Failure {
    /// The bytes that are not a string.
    pub fn as_bytes(&self) -> (r: &[u8])
        ensures
            r@ == self.bytes@,
    {
        self.bytes.as_slice()
    }

    /// Hands the bytes back.
    pub fn into_bytes(self) -> (r: Vec<u8>)
        ensures
            r@ == self.bytes@,
    {
        self.bytes
    }

    /// The length of the longest prefix of the bytes that is valid UTF-8.
    pub fn valid_up_to(&self) -> (r: usize)
        ensures
            r == self.valid_up_to,
    {
        self.valid_up_to
    }
}

/// `Box::write`: the same allocation, now holding `value`.
#[verifier::external_body]
fn box_write<T>(boxed: Box<MaybeUninit<T>>, value: T) -> (r: Box<T>)
    ensures
        *r == value,
{
    Box::<MaybeUninit<T>>::write(boxed, value)
}

/// `Vec::into_boxed_slice`: the same elements, in a boxed slice.
#[verifier::external_body]
fn vec_into_boxed_slice<T>(v: Vec<T>) -> (r: Box<[T]>)
    ensures
        r@ == v@,
{
    v.into_boxed_slice()
}

/// `Vec::leak`: the elements, in memory that is never freed.
#[verifier::external_body]
fn vec_leak<T>(v: Vec<T>) -> (r: &'static mut [T])
    ensures
        (*r)@ == v@,
{
    v.leak()
}

/// `Box::leak`: the boxed value, in memory that is never freed.
#[verifier::external_body]
fn box_leak<T>(b: Box<T>) -> (r: &'static mut T)
    ensures
        *r == *b,
{
    Box::leak(b)
}

/// `String::leak`: the characters, in memory that is never freed.
#[verifier::external_body]
fn string_leak(s: String) -> (r: &'static mut str)
    ensures
        (*r)@ == s@,
{
    s.leak()
}

/// `Vec::into_flattened`: the arrays' elements one after another. It
/// panics when the flattened length would not fit in a `usize`, so that is
/// excluded.
#[verifier::external_body]
fn vec_into_flattened<T, const N: usize>(v: Vec<[T; N]>) -> (r: Vec<T>)
    requires
        v@.len() * N <= usize::MAX,
    ensures
        r@.len() == v@.len() * N,
        forall|i: int, j: int|
            0 <= i < v@.len() && 0 <= j < N ==> #[trigger] r@[i * N + j] == v@[i]@[j],
{
    v.into_flattened()
}

/// `keys` lists every key of `m` exactly once.
pub open spec fn each_key_once<K, V>(keys: Seq<K>, m: Map<K, V>) -> bool {
    &&& keys.to_set() == m.dom()
    &&& keys.no_duplicates()
}

/// `keys` lists every key of `m` exactly once, in ascending order.
pub open spec fn keys_in_order<K, V>(keys: Seq<K>, m: Map<K, V>) -> bool {
    &&& each_key_once(keys, m)
    &&& increasing_seq(keys)
}

/// `values` holds the value of each entry of `m` once, listed in some
/// order of the keys.
pub open spec fn each_value_once<K, V>(values: Seq<V>, m: Map<K, V>) -> bool {
    exists|keys: Seq<K>| #[trigger] each_key_once(keys, m) && values == keys.map_values(|k: K| m[k])
}

/// `values` holds the value of each entry of `m` once, in the ascending
/// order of their keys.
pub open spec fn values_in_key_order<K, V>(values: Seq<V>, m: Map<K, V>) -> bool {
    exists|keys: Seq<K>| #[trigger] keys_in_order(keys, m) && values == keys.map_values(|k: K| m[k])
}

/// `BTreeMap::into_keys`, gathered into a vector: each key once, in
/// ascending order (for keys whose `Ord` is lawful).
#[verifier::external_body]
fn btree_map_into_keys<K, V>(m: BTreeMap<K, V>) -> (r: Vec<K>)
    ensures
        key_obeys_cmp_spec::<K>() ==> keys_in_order(r@, m@),
{
    m.into_keys().collect()
}

/// `BTreeMap::into_values`, gathered into a vector: the values in the
/// ascending order of their keys (for keys whose `Ord` is lawful).
#[verifier::external_body]
fn btree_map_into_values<K, V>(m: BTreeMap<K, V>) -> (r: Vec<V>)
    ensures
        key_obeys_cmp_spec::<K>() ==> values_in_key_order(r@, m@),
{
    m.into_values().collect()
}

/// `HashMap::into_keys`, gathered into a vector: each key once, in the
/// map's own (unspecified) order (for keys whose `Hash` and `Eq` are
/// lawful, and a hasher that is).
#[verifier::external_body]
fn hash_map_into_keys<K, V, S>(m: HashMap<K, V, S>) -> (r: Vec<K>)
    ensures
        obeys_key_model::<K>() && builds_valid_hashers::<S>() ==> each_key_once(r@, m@),
{
    m.into_keys().collect()
}

/// `HashMap::into_values`, gathered into a vector: each entry's value
/// once, in the map's own (unspecified) order (for keys whose `Hash` and
/// `Eq` are lawful, and a hasher that is).
#[verifier::external_body]
fn hash_map_into_values<K, V, S>(m: HashMap<K, V, S>) -> (r: Vec<V>)
    ensures
        obeys_key_model::<K>() && builds_valid_hashers::<S>() ==> each_value_once(r@, m@),
{
    m.into_values().collect()
}

/// `HashMap::with_hasher`: an empty map using `hasher`.
#[verifier::external_body]
fn hash_map_with_hasher<K, V, S>(hasher: S) -> (map: HashMap<K, V, S>)
    ensures
        map@.is_empty(),
{
    HashMap::with_hasher(hasher)
}

/// `HashMap::with_capacity_and_hasher`: an empty map using `hasher`.
#[verifier::external_body]
fn hash_map_with_capacity_and_hasher<K, V, S>(capacity: usize, hasher: S) -> (r: HashMap<K, V, S>)
    ensures
        r@.is_empty(),
{
    HashMap::with_capacity_and_hasher(capacity, hasher)
}

/// `HashSet::with_capacity_and_hasher`: an empty set using `hasher`.
#[verifier::external_body]
fn hash_set_with_capacity_and_hasher<T, S>(capacity: usize, hasher: S) -> (r: HashSet<T, S>)
    ensures
        r@.is_empty(),
{
    HashSet::with_capacity_and_hasher(capacity, hasher)
}

/// `String::with_capacity`: an empty string.
#[verifier::external_body]
fn string_with_capacity(capacity: usize) -> (r: String)
    ensures
        r@ == Seq::<char>::empty(),
{
    String::with_capacity(capacity)
}

/// `String::from_utf8`: the decoded string when the bytes are valid UTF-8;
/// otherwise its error, taken apart into the bytes it hands back and its
/// `utf8_error().valid_up_to()`, the largest length of a prefix that
/// `from_utf8` would accept.
#[verifier::external_body]
fn string_from_utf8(bytes: Vec<u8>) -> (r: Result<String, FromUtf8Failure>)
    ensures
        r is Ok <==> valid_utf8(bytes@),
        r is Ok ==> r->Ok_0@ == decode_utf8(bytes@),
        r is Err ==> r->Err_0.bytes@ == bytes@ && longest_valid_prefix(
            bytes@,
            r->Err_0.valid_up_to as int,
        ),
{
    match String::from_utf8(bytes) {
        Ok(s) => Ok(s),
        Err(e) => {
            let valid_up_to = e.utf8_error().valid_up_to();
            Err(FromUtf8Failure { bytes: e.into_bytes(), valid_up_to })
        },
    }
}

/// `String::into_bytes`: the UTF-8 encoding of the string.
#[verifier::external_body]
fn string_into_bytes(s: String) -> (r: Vec<u8>)
    ensures
        r@ == encode_utf8(s@),
{
    s.into_bytes()
}

/// `String::into_boxed_str`: the same characters, in a boxed `str`.
#[verifier::external_body]
fn string_into_boxed_str(s: String) -> (r: Box<str>)
    ensures
        r@ == s@,
{
    s.into_boxed_str()
}

impl<T> Mono<Vec<T>> {
    /// An empty vector.
    pub fn new() -> (r: Self)
        ensures
            r.value()@ == Seq::<T>::empty(),
    {
        Mono::from_const(Vec::new())
    }

    /// An empty vector with room for `capacity` elements.
    pub fn with_capacity(capacity: usize) -> (r: Self)
        ensures
            r.value()@ == Seq::<T>::empty(),
    {
        Mono::from_const(Vec::with_capacity(capacity))
    }

    /// Gives up the vector's memory for good and hands out its elements.
    pub fn leak(self) -> (r: &'static mut [T])
        ensures
            (*r)@ == self.value()@,
    {
        vec_leak(self.into_inner())
    }

    /// The same elements in a boxed slice.
    pub fn into_boxed_slice(self) -> (r: Mono<Box<[T]>>)
        ensures
            r.value()@ == self.value()@,
    {
        Mono::from_const(vec_into_boxed_slice(self.into_inner()))
    }
}

impl<T, const N: usize> Mono<Vec<[T; N]>> {
    /// The arrays' elements, one after another. The flattened length must
    /// fit in a `usize`.
    pub fn into_flattened(self) -> (r: Mono<Vec<T>>)
        requires
            self.value()@.len() * N <= usize::MAX,
        ensures
            r.value()@.len() == self.value()@.len() * N,
            forall|i: int, j: int|
                0 <= i < self.value()@.len() && 0 <= j < N ==> #[trigger] r.value()@[i * N + j]
                    == self.value()@[i]@[j],
    {
        Mono::from_const(vec_into_flattened(self.into_inner()))
    }
}

impl<K, V> MonoHashMap<K, V, RandomState> {
    /// An empty map.
    pub fn new() -> (r: Self)
        ensures
            r.value()@ == Map::<K, V>::empty(),
    {
        Mono::from_const(HashMap::new())
    }

    /// An empty map with room for `capacity` entries.
    pub fn with_capacity(capacity: usize) -> (r: Self)
        ensures
            r.value()@ == Map::<K, V>::empty(),
    {
        Mono::from_const(HashMap::with_capacity(capacity))
    }
}

impl<K, V, S> MonoHashMap<K, V, S> {
    /// An empty map that hashes with `hash_builder`.
    pub fn with_hasher(hash_builder: S) -> (r: Self)
        ensures
            r.value()@ == Map::<K, V>::empty(),
    {
        Mono::from_const(hash_map_with_hasher(hash_builder))
    }

    /// An empty map with room for `capacity` entries that hashes with `hasher`.
    pub fn with_capacity_and_hasher(capacity: usize, hasher: S) -> (r: Self)
        ensures
            r.value()@ == Map::<K, V>::empty(),
    {
        Mono::from_const(hash_map_with_capacity_and_hasher(capacity, hasher))
    }

    /// The keys, each once, in the map's own order.
    pub fn into_keys(self) -> (r: Mono<Vec<K>>)
        ensures
            obeys_key_model::<K>() && builds_valid_hashers::<S>() ==> each_key_once(
                r.value()@,
                self.value()@,
            ),
    {
        Mono::from_const(hash_map_into_keys(self.into_inner()))
    }

    /// The value of each entry once, in the map's own order.
    pub fn into_values(self) -> (r: Mono<Vec<V>>)
        ensures
            obeys_key_model::<K>() && builds_valid_hashers::<S>() ==> each_value_once(
                r.value()@,
                self.value()@,
            ),
    {
        Mono::from_const(hash_map_into_values(self.into_inner()))
    }
}

impl<K, V, S> Foreign<HashMap<K, V, S>> {
    /// The keys, each once, in the map's own order, with the same origin.
    pub fn into_keys(self) -> (r: Foreign<Vec<K>>)
        ensures
            r.origin() == self.origin(),
            obeys_key_model::<K>() && builds_valid_hashers::<S>() ==> each_key_once(
                r.value()@,
                self.value()@,
            ),
    {
        let origin = self.origin_shard();
        Foreign::new(hash_map_into_keys(self.into_value()), origin)
    }

    /// The value of each entry once, in the map's own order, with the same
    /// origin.
    pub fn into_values(self) -> (r: Foreign<Vec<V>>)
        ensures
            r.origin() == self.origin(),
            obeys_key_model::<K>() && builds_valid_hashers::<S>() ==> each_value_once(
                r.value()@,
                self.value()@,
            ),
    {
        let origin = self.origin_shard();
        Foreign::new(hash_map_into_values(self.into_value()), origin)
    }
}

impl<T> Mono<HashSet<T, RandomState>> {
    /// An empty set.
    pub fn new() -> (r: Self)
        ensures
            r.value()@ == Set::<T>::empty(),
    {
        Mono::from_const(HashSet::new())
    }

    /// An empty set with room for `capacity` elements.
    pub fn with_capacity(capacity: usize) -> (r: Self)
        ensures
            r.value()@ == Set::<T>::empty(),
    {
        Mono::from_const(HashSet::with_capacity(capacity))
    }
}

impl<T, S> Mono<HashSet<T, S>> {
    /// An empty set with room for `capacity` elements that hashes with `hasher`.
    pub fn with_capacity_and_hasher(capacity: usize, hasher: S) -> (r: Self)
        ensures
            r.value()@ == Set::<T>::empty(),
    {
        Mono::from_const(hash_set_with_capacity_and_hasher(capacity, hasher))
    }
}

impl<T> MonoVecDeque<T> {
    /// An empty queue.
    pub fn new() -> (r: Self)
        ensures
            r.value()@ == Seq::<T>::empty(),
    {
        Mono::from_const(VecDeque::new())
    }

    /// An empty queue with room for `capacity` elements.
    pub fn with_capacity(capacity: usize) -> (r: Self)
        ensures
            r.value()@ == Seq::<T>::empty(),
    {
        Mono::from_const(VecDeque::with_capacity(capacity))
    }
}

impl<K, V> MonoBTreeMap<K, V> {
    /// An empty ordered map.
    pub fn new() -> (r: Self)
        ensures
            r.value()@ == Map::<K, V>::empty(),
    {
        Mono::from_const(BTreeMap::new())
    }

    /// The keys, each once, in ascending order.
    pub fn into_keys(self) -> (r: Mono<Vec<K>>)
        ensures
            key_obeys_cmp_spec::<K>() ==> keys_in_order(r.value()@, self.value()@),
    {
        Mono::from_const(btree_map_into_keys(self.into_inner()))
    }

    /// The values, in the ascending order of their keys.
    pub fn into_values(self) -> (r: Mono<Vec<V>>)
        ensures
            key_obeys_cmp_spec::<K>() ==> values_in_key_order(r.value()@, self.value()@),
    {
        Mono::from_const(btree_map_into_values(self.into_inner()))
    }
}

impl<K, V> Foreign<BTreeMap<K, V>> {
    /// The keys, each once, in ascending order, with the same origin.
    pub fn into_keys(self) -> (r: Foreign<Vec<K>>)
        ensures
            r.origin() == self.origin(),
            key_obeys_cmp_spec::<K>() ==> keys_in_order(r.value()@, self.value()@),
    {
        let origin = self.origin_shard();
        Foreign::new(btree_map_into_keys(self.into_value()), origin)
    }

    /// The values, in the ascending order of their keys, with the same
    /// origin.
    pub fn into_values(self) -> (r: Foreign<Vec<V>>)
        ensures
            r.origin() == self.origin(),
            key_obeys_cmp_spec::<K>() ==> values_in_key_order(r.value()@, self.value()@),
    {
        let origin = self.origin_shard();
        Foreign::new(btree_map_into_values(self.into_value()), origin)
    }
}

impl<T> MonoBTreeSet<T> {
    /// An empty ordered set.
    pub fn new() -> (r: Self)
        ensures
            r.value()@ == Set::<T>::empty(),
    {
        Mono::from_const(BTreeSet::new())
    }
}

impl<T> Mono<Box<T>> {
    /// Boxes `x`.
    pub fn new(x: T) -> (r: Self)
        ensures
            *r.value() == x,
    {
        Mono::from_const(Box::new(x))
    }

    /// A box whose contents are not initialized yet.
    pub fn new_uninit() -> (r: Mono<Box<MaybeUninit<T>>>)
        ensures
            r.value().as_option() is None,
    {
        Mono::from_const(Box::new(MaybeUninit::uninit()))
    }
}

impl<T> MonoBox<T> {
    /// Gives up the box's memory for good and hands out its value.
    pub fn leak(b: Self) -> (r: &'static mut T)
        ensures
            *r == *b.value(),
    {
        box_leak(b.into_inner())
    }
}

impl<T> Mono<Box<[T]>> {
    /// A boxed slice of `len` elements, none of them initialized.
    pub fn new_uninit_slice(len: usize) -> (r: Mono<Box<[MaybeUninit<T>]>>)
        ensures
            r.value()@.len() == len,
            forall|i: int| 0 <= i < len ==> #[trigger] r.value()@[i].as_option() is None,
    {
        let mut v: Vec<MaybeUninit<T>> = Vec::with_capacity(len);
        let mut i: usize = 0;
        while i < len
            invariant
                i <= len,
                v@.len() == i,
                forall|k: int| 0 <= k < i ==> #[trigger] v@[k].as_option() is None,
            decreases len - i,
        {
            v.push(MaybeUninit::uninit());
            i = i + 1;
        }
        Mono::from_const(vec_into_boxed_slice(v))
    }
}

impl<T> MonoBox<MaybeUninit<T>> {
    /// Initializes the box with `value`.
    pub fn write(boxed: Self, value: T) -> (r: Mono<Box<T>>)
        ensures
            *r.value() == value,
    {
        Mono::from_const(box_write(boxed.into_inner(), value))
    }
}

impl MonoString {
    /// An empty string.
    pub fn new() -> (r: Self)
        ensures
            r.value()@ == Seq::<char>::empty(),
    {
        Mono::from_const(String::new())
    }

    /// An empty string with room for `capacity` bytes.
    pub fn with_capacity(capacity: usize) -> (r: Self)
        ensures
            r.value()@ == Seq::<char>::empty(),
    {
        Mono::from_const(string_with_capacity(capacity))
    }

    /// Decodes UTF-8 bytes; fails exactly when they are not valid UTF-8,
    /// handing the bytes back with the length of their longest valid prefix.
    pub fn from_utf8(vec: Mono<Vec<u8>>) -> (r: Result<Mono<String>, FromUtf8Failure>)
        ensures
            r is Ok <==> valid_utf8(vec.value()@),
            r is Ok ==> r->Ok_0.value()@ == decode_utf8(vec.value()@),
            r is Err ==> r->Err_0.bytes@ == vec.value()@ && longest_valid_prefix(
                vec.value()@,
                r->Err_0.valid_up_to as int,
            ),
    {
        match string_from_utf8(vec.into_inner()) {
            Ok(s) => Ok(Mono::from_const(s)),
            Err(e) => Err(e),
        }
    }

    /// The UTF-8 encoding of the string.
    pub fn into_bytes(self) -> (r: Mono<Vec<u8>>)
        ensures
            r.value()@ == encode_utf8(self.value()@),
    {
        Mono::from_const(string_into_bytes(self.into_inner()))
    }

    /// Gives up the string's memory for good and hands out its characters.
    pub fn leak(self) -> (r: &'static mut str)
        ensures
            (*r)@ == self.value()@,
    {
        string_leak(self.into_inner())
    }

    /// The same characters, in a boxed `str`.
    pub fn into_boxed_str(self) -> (r: Mono<Box<str>>)
        ensures
            r.value()@ == self.value()@,
    {
        Mono::from_const(string_into_boxed_str(self.into_inner()))
    }
}


impl<T> Foreign<Vec<T>> {
    /// The same elements in a boxed slice, with the same origin.
    pub fn into_boxed_slice(self) -> (r: Foreign<Box<[T]>>)
        ensures
            r.value()@ == self.value()@,
            r.origin() == self.origin(),
    {
        let origin = self.origin_shard();
        Foreign::new(vec_into_boxed_slice(self.into_value()), origin)
    }
}

impl<T, const N: usize> Foreign<Vec<[T; N]>> {
    /// The arrays' elements, one after another, with the same origin. The
    /// flattened length must fit in a `usize`.
    pub fn into_flattened(self) -> (r: Foreign<Vec<T>>)
        requires
            self.value()@.len() * N <= usize::MAX,
        ensures
            r.origin() == self.origin(),
            r.value()@.len() == self.value()@.len() * N,
            forall|i: int, j: int|
                0 <= i < self.value()@.len() && 0 <= j < N ==> #[trigger] r.value()@[i * N + j]
                    == self.value()@[i]@[j],
    {
        let origin = self.origin_shard();
        Foreign::new(vec_into_flattened(self.into_value()), origin)
    }
}

impl Foreign<String> {
    /// Decodes UTF-8 bytes, keeping their origin; fails exactly when they
    /// are not valid UTF-8, handing the bytes back (no longer bound to the
    /// origin) with the length of their longest valid prefix.
    pub fn from_utf8(vec: Foreign<Vec<u8>>) -> (r: Result<Foreign<String>, FromUtf8Failure>)
        ensures
            r is Ok <==> valid_utf8(vec.value()@),
            r is Ok ==> r->Ok_0.value()@ == decode_utf8(vec.value()@) && r->Ok_0.origin()
                == vec.origin(),
            r is Err ==> r->Err_0.bytes@ == vec.value()@ && longest_valid_prefix(
                vec.value()@,
                r->Err_0.valid_up_to as int,
            ),
    {
        let origin = vec.origin_shard();
        match string_from_utf8(vec.into_value()) {
            Ok(s) => Ok(Foreign::new(s, origin)),
            Err(e) => Err(e),
        }
    }

    /// The same characters in a boxed `str`, with the same origin.
    pub fn into_boxed_str(self) -> (r: Foreign<Box<str>>)
        ensures
            r.value()@ == self.value()@,
            r.origin() == self.origin(),
    {
        let origin = self.origin_shard();
        Foreign::new(string_into_boxed_str(self.into_value()), origin)
    }
}

impl<T> Foreign<Box<MaybeUninit<T>>> {
    /// Initializes the box with `value`, keeping its origin.
    pub fn write(boxed: Self, value: T) -> (r: Foreign<Box<T>>)
        ensures
            *r.value() == value,
            r.origin() == boxed.origin(),
    {
        let origin = boxed.origin_shard();
        Foreign::new(box_write(boxed.into_value(), value), origin)
    }
}


impl<'a, B: ?Sized + ToOwned> MonoCow<'a, B> {
    /// Whether the value is borrowed.
    pub fn is_borrowed(&self) -> (r: bool)
        ensures
            r == self.value() is Borrowed,
    {
        match self.get() {
            Cow::Borrowed(_) => true,
            _ => false,
        }
    }

    /// Whether the value is owned.
    pub fn is_owned(&self) -> (r: bool)
        ensures
            r == self.value() is Owned,
    {
        !self.is_borrowed()
    }

    /// The owned data: owned data as it is, borrowed data through
    /// `ToOwned::to_owned` (of which nothing is stated).
    pub fn into_owned(self) -> (r: Mono<<B as ToOwned>::Owned>)
        ensures
            match self.value() {
                Cow::Owned(o) => r.value() == o,
                Cow::Borrowed(_) => true,
            },
    {
        Mono::from_const(cow_into_owned(self.into_inner()))
    }
}

/// A thread-bound clone-on-write value is owned exactly when it is not
/// borrowed.
pub proof fn law_owned_iff_not_borrowed<'a, B: ?Sized + ToOwned>(c: MonoCow<'a, B>)
    ensures
        (c.value() is Owned) <==> !(c.value() is Borrowed),
{
}

} // verus!
