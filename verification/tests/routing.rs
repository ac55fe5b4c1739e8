use monorail::routing::{route_by_hash, route_slab_request, SlabIndex, SlabTarget};
use monorail::scheduler::{must_wait, schedule_target, ScheduleTarget};
use monorail::collections::MonoHashMap;
use monorail::sharded::{HashMapReply, HashMapRequest, HashMapShardActor};
use monorail::sharded_slab::{ShardedSlabActor, SlabReply};
use monorail::slots::SlotArena;
use std::hash::{DefaultHasher, Hash, Hasher};

#[test]
fn slab_inserts_go_round_robin() {
    let mut cursor = 0;
    let targets: Vec<usize> = (0..7).map(|_| route_slab_request(SlabTarget::Insert, &mut cursor, 3)).collect();
    assert_eq!(targets, vec![0, 1, 2, 0, 1, 2, 0]);
    let idx = SlabIndex { local: 4, route: 2 };
    assert_eq!(route_slab_request(SlabTarget::Existing(idx), &mut cursor, 3), 2);
    assert_eq!(cursor, 1);
}

#[test]
fn hash_routing() {
    assert_eq!(route_by_hash(10, 4), 2);
    assert_eq!(route_by_hash(u64::MAX, 7), (u64::MAX % 7) as usize);
}

#[test]
fn scheduling() {
    assert_eq!(schedule_target(true, true), ScheduleTarget::LocalQueue);
    assert_eq!(schedule_target(false, true), ScheduleTarget::ForeignQueue { wake: true });
    assert_eq!(schedule_target(false, false), ScheduleTarget::ForeignQueue { wake: false });
    assert!(must_wait(0));
    assert!(!must_wait(2));
}

#[test]
fn hash_map_shard_serves_requests() {
    let mut state = HashMapShardActor::<&str, String>::pre_start();
    let r = HashMapShardActor::handle(HashMapRequest::<_, _, u8, u8>::Insert("hello", String::from("bye"), 1u8), &mut state);
    assert!(matches!(r, HashMapReply::Ack(1)));
    let r = HashMapShardActor::<&str, String>::handle(HashMapRequest::<_, _, u8, u8>::Get("hello", 2u8), &mut state);
    match r {
        HashMapReply::Value(2, Some(v)) => assert_eq!(v, "bye"),
        _ => panic!("value missing"),
    }
    let r = HashMapShardActor::handle(HashMapRequest::<_, String, u8, u8>::Remove("hello", 3u8), &mut state);
    assert!(matches!(r, HashMapReply::Ack(3)));
    let r = HashMapShardActor::<&str, String>::handle(HashMapRequest::<_, _, u8, u8>::Get("hello", 4u8), &mut state);
    assert!(matches!(r, HashMapReply::Value(4, None)));
}

/// A sharded slab over six shards, served request by request: inserts go
/// round robin, lookups go to the shard named in the index.
#[test]
fn test_router_distributed_slab() {
    let targets = 6usize;
    let mut shards: Vec<(usize, SlotArena<&'static str>)> =
        (0..targets).map(ShardedSlabActor::<&'static str>::pre_start).collect();
    let mut cursor = 0usize;
    let mut insert = |shards: &mut Vec<(usize, SlotArena<&'static str>)>, value: &'static str| {
        let shard = route_slab_request(SlabTarget::Insert, &mut cursor, targets);
        match ShardedSlabActor::handle(monorail::sharded_slab::HashMapRequest::<_, (), (), ()>::Insert(value, ()), &mut shards[shard]) {
            SlabReply::Inserted((), index) => index,
            _ => panic!("an insertion is answered with its index"),
        }
    };
    let get = |shards: &mut Vec<(usize, SlotArena<&'static str>)>, index| {
        let mut unused = 0usize;
        let shard = route_slab_request(SlabTarget::Existing(index), &mut unused, targets);
        match ShardedSlabActor::handle(monorail::sharded_slab::HashMapRequest::<_, (), (), ()>::Get(index, ()), &mut shards[shard]) {
            SlabReply::Value((), found) => found,
            _ => panic!("a lookup is answered with a value"),
        }
    };

    let what = insert(&mut shards, "what");
    assert_eq!(get(&mut shards, what), Some("what"));
    let what = insert(&mut shards, "hello");
    assert_eq!(get(&mut shards, what), Some("hello"));
    let what = insert(&mut shards, "cool");
    assert_eq!(get(&mut shards, what), Some("cool"));
}

/// A sharded hash map over six shards, served request by request: every
/// request goes to the shard its key hashes to.
#[test]
fn test_router_distributed_hashmap() {
    let targets = 6usize;
    let mut shards: Vec<MonoHashMap<String, usize>> =
        (0..targets).map(|_| HashMapShardActor::<String, usize>::pre_start()).collect();
    let route = |key: &String| {
        let mut hasher = DefaultHasher::new();
        key.hash(&mut hasher);
        route_by_hash(hasher.finish(), targets)
    };
    let insert = |shards: &mut Vec<MonoHashMap<String, usize>>, key: String, value: usize| {
        let shard = route(&key);
        match HashMapShardActor::handle(HashMapRequest::<_, _, (), ()>::Insert(key, value, ()), &mut shards[shard]) {
            HashMapReply::Ack(()) => {}
            _ => panic!("an insertion is acknowledged"),
        }
    };
    let get = |shards: &mut Vec<MonoHashMap<String, usize>>, key: String| {
        let shard = route(&key);
        match HashMapShardActor::handle(HashMapRequest::<_, usize, (), ()>::Get(key, ()), &mut shards[shard]) {
            HashMapReply::Value((), found) => found,
            _ => panic!("a lookup is answered with a value"),
        }
    };

    insert(&mut shards, "hello".to_string(), 4);
    insert(&mut shards, "bye".to_string(), 3);
    assert_eq!(get(&mut shards, "hello".to_string()), Some(4));
    assert_eq!(get(&mut shards, "bye".to_string()), Some(3));
    assert_eq!(get(&mut shards, "carl".to_string()), None);
}
