use monorail::collections::{
    MonoBTreeMap, MonoBTreeSet, MonoBox, MonoCow, MonoHashMap, MonoHashSet, MonoString, MonoVec,
    MonoVecDeque,
};
use monorail::foreign::Foreign;
use monorail::mono::Mono;
use monorail::shard::ShardId;
use std::borrow::Cow;
use std::collections::hash_map::RandomState;

#[test]
fn vec_constructors_start_empty() {
    let v: MonoVec<u8> = MonoVec::new();
    assert!(v.get().is_empty());
    let w: MonoVec<u8> = MonoVec::with_capacity(16);
    assert!(w.get().is_empty());
    assert!(w.get().capacity() >= 16);
}

#[test]
fn vec_into_boxed_slice_keeps_elements() {
    let v = Mono::from_const(vec![4u8, 5, 6]);
    let b = v.into_boxed_slice();
    assert_eq!(&**b.get(), &[4u8, 5, 6][..]);
}

#[test]
fn vec_into_flattened_concatenates() {
    let v = Mono::from_const(vec![[1u8, 2], [3, 4], [5, 6]]);
    let f = v.into_flattened();
    assert_eq!(f.into_inner(), vec![1u8, 2, 3, 4, 5, 6]);
}

#[test]
fn vec_leak_hands_out_elements() {
    let v = Mono::from_const(vec![9u16, 8]);
    let leaked: &'static mut [u16] = v.leak();
    assert_eq!(leaked, &[9u16, 8][..]);
}

#[test]
fn hash_collections_start_empty() {
    let m: MonoHashMap<u32, u32> = MonoHashMap::new();
    assert!(m.get().is_empty());
    let m: MonoHashMap<u32, u32> = MonoHashMap::with_capacity(8);
    assert!(m.get().is_empty());
    let m: MonoHashMap<u32, u32, RandomState> = MonoHashMap::with_hasher(RandomState::new());
    assert!(m.get().is_empty());
    let m: MonoHashMap<u32, u32, RandomState> =
        MonoHashMap::with_capacity_and_hasher(4, RandomState::new());
    assert!(m.get().is_empty());
    let s: MonoHashSet<u32> = MonoHashSet::new();
    assert!(s.get().is_empty());
    let s: MonoHashSet<u32> = MonoHashSet::with_capacity(3);
    assert!(s.get().is_empty());
    let s: MonoHashSet<u32, RandomState> =
        MonoHashSet::with_capacity_and_hasher(3, RandomState::new());
    assert!(s.get().is_empty());
}

#[test]
fn ordered_and_queue_collections_start_empty() {
    let q: MonoVecDeque<u8> = MonoVecDeque::new();
    assert!(q.get().is_empty());
    let q: MonoVecDeque<u8> = MonoVecDeque::with_capacity(5);
    assert!(q.get().is_empty());
    let m: MonoBTreeMap<u8, u8> = MonoBTreeMap::new();
    assert!(m.get().is_empty());
    let s: MonoBTreeSet<u8> = MonoBTreeSet::new();
    assert!(s.get().is_empty());
}

#[test]
fn boxes() {
    let b = MonoBox::new(17u64);
    assert_eq!(**b.get(), 17);
    let leaked: &'static mut u64 = MonoBox::leak(b);
    assert_eq!(*leaked, 17);
    let u = MonoBox::<u32>::new_uninit();
    let w = MonoBox::write(u, 99u32);
    assert_eq!(**w.get(), 99);
    let s = MonoBox::<[u8]>::new_uninit_slice(4);
    assert_eq!(s.get().len(), 4);
}

#[test]
fn strings() {
    let s = MonoString::new();
    assert!(s.get().is_empty());
    let s = MonoString::with_capacity(10);
    assert!(s.get().is_empty());
    let ok = MonoString::from_utf8(Mono::from_const("héllo".as_bytes().to_vec())).unwrap();
    assert_eq!(ok.get().as_str(), "héllo");
    let bad = MonoString::from_utf8(Mono::from_const(vec![0xffu8, 0xfe]));
    assert!(bad.is_err());
    let err = match bad {
        Err(e) => e,
        Ok(_) => panic!("invalid bytes decoded"),
    };
    assert_eq!(err.as_bytes(), &[0xffu8, 0xfe][..]);
    assert_eq!(err.valid_up_to(), 0);
    let err = match MonoString::from_utf8(Mono::from_const(vec![b'a', b'b', 0xc3, b'x'])) {
        Err(e) => e,
        Ok(_) => panic!("invalid bytes decoded"),
    };
    assert_eq!(err.valid_up_to(), 2);
    assert_eq!(err.into_bytes(), vec![b'a', b'b', 0xc3, b'x']);
    let bytes = Mono::from_const(String::from("hé")).into_bytes();
    assert_eq!(bytes.into_inner(), vec![b'h', 0xc3, 0xa9]);
    let boxed = Mono::from_const(String::from("abc")).into_boxed_str();
    assert_eq!(&**boxed.get(), "abc");
    let leaked: &'static mut str = Mono::from_const(String::from("xyz")).leak();
    assert_eq!(leaked, "xyz");
}

#[test]
fn cows() {
    let borrowed: MonoCow<'_, str> = Mono::from_const(Cow::Borrowed("hi"));
    assert!(borrowed.is_borrowed());
    assert!(!borrowed.is_owned());
    assert_eq!(borrowed.into_owned().into_inner(), String::from("hi"));
    let owned: MonoCow<'_, str> = Mono::from_const(Cow::Owned(String::from("yo")));
    assert!(owned.is_owned());
    assert!(!owned.is_borrowed());
    assert_eq!(owned.into_owned().into_inner(), String::from("yo"));
}

#[test]
fn foreign_conversions_keep_origin() {
    let f = Foreign::new(vec![1u8, 2], ShardId::new(3));
    let b = f.into_boxed_slice();
    assert_eq!(b.origin_shard(), ShardId::new(3));
    assert_eq!(&**b.get(), &[1u8, 2][..]);

    let f = Foreign::new(vec![[1u8, 2], [3, 4]], ShardId::new(2));
    let flat = f.into_flattened();
    assert_eq!((flat.get().clone(), flat.origin_shard()), (vec![1u8, 2, 3, 4], ShardId::new(2)));

    let f = Foreign::new("ok".as_bytes().to_vec(), ShardId::new(1));
    let s = Foreign::<String>::from_utf8(f).unwrap();
    assert_eq!((s.get().as_str(), s.origin_shard()), ("ok", ShardId::new(1)));
    let boxed = s.into_boxed_str();
    assert_eq!((&**boxed.get(), boxed.origin_shard()), ("ok", ShardId::new(1)));

    let bad = Foreign::new(vec![b'o', 0xc3u8], ShardId::new(1));
    let err = match Foreign::<String>::from_utf8(bad) {
        Err(e) => e,
        Ok(_) => panic!("invalid bytes decoded"),
    };
    assert_eq!((err.as_bytes(), err.valid_up_to()), (&[b'o', 0xc3u8][..], 1));

    let u = Foreign::new(Box::new(std::mem::MaybeUninit::<u8>::uninit()), ShardId::new(6));
    let w = Foreign::write(u, 5u8);
    assert_eq!((**w.get(), w.origin_shard()), (5, ShardId::new(6)));
}

#[test]
fn btree_map_keys_and_values_come_out_in_key_order() {
    let mut m: MonoBTreeMap<u32, &str> = MonoBTreeMap::new();
    m.get_mut().insert(30, "c");
    m.get_mut().insert(10, "a");
    m.get_mut().insert(20, "b");
    let mut n: MonoBTreeMap<u32, &str> = MonoBTreeMap::new();
    n.get_mut().insert(2, "y");
    n.get_mut().insert(1, "x");
    assert_eq!(m.into_keys().into_inner(), vec![10, 20, 30]);
    assert_eq!(n.into_values().into_inner(), vec!["x", "y"]);
}

#[test]
fn foreign_btree_map_keys_keep_the_origin() {
    let mut m = std::collections::BTreeMap::new();
    m.insert(5u8, 50u8);
    m.insert(1, 10);
    let f = Foreign::new(m.clone(), ShardId::new(3));
    let keys = f.into_keys();
    assert_eq!(keys.origin_shard(), ShardId::new(3));
    assert_eq!(keys.into_value(), vec![1, 5]);
    let g = Foreign::new(m, ShardId::new(2));
    let values = g.into_values();
    assert_eq!(values.origin_shard(), ShardId::new(2));
    assert_eq!(values.into_value(), vec![10, 50]);
}

#[test]
fn hash_map_keys_and_values_hold_each_entry_once() {
    let mut m: MonoHashMap<u32, u32> = MonoHashMap::new();
    m.get_mut().insert(1, 100);
    m.get_mut().insert(2, 200);
    m.get_mut().insert(3, 300);
    let mut keys = m.into_keys().into_inner();
    keys.sort();
    assert_eq!(keys, vec![1, 2, 3]);
    let mut n: MonoHashMap<u32, u32> = MonoHashMap::new();
    n.get_mut().insert(7, 70);
    n.get_mut().insert(8, 80);
    let mut values = n.into_values().into_inner();
    values.sort();
    assert_eq!(values, vec![70, 80]);
}

#[test]
fn foreign_hash_map_keys_and_values_keep_the_origin() {
    let mut m = std::collections::HashMap::new();
    m.insert(4u16, 'd');
    let keys = Foreign::new(m.clone(), ShardId::new(1)).into_keys();
    assert_eq!(keys.origin_shard(), ShardId::new(1));
    assert_eq!(keys.into_value(), vec![4]);
    let values = Foreign::new(m, ShardId::new(0)).into_values();
    assert_eq!(values.origin_shard(), ShardId::new(0));
    assert_eq!(values.into_value(), vec!['d']);
}
