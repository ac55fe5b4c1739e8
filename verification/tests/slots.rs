use monorail::bridge::{BridgeDropCancelGuard, TicketTable};
use monorail::routing::SlabIndex;
use monorail::shard::ShardId;
use monorail::sharded_slab::{HashMapRequest, ShardedSlabActor, SlabReply};
use monorail::slots::SlotArena;
use monorail::task::TaskControlHeader;

#[test]
fn arena_finds_values_by_their_slot_and_reuses_freed_slots() {
    let mut arena: SlotArena<&str> = SlotArena::new();
    let a = arena.insert("a");
    let b = arena.insert("b");
    assert_ne!(a, b);
    assert_eq!(arena.get(a), Some(&"a"));
    assert_eq!(arena.get(b), Some(&"b"));
    assert_eq!(arena.try_remove(a), Some("a"));
    assert_eq!(arena.try_remove(a), None);
    assert!(!arena.contains(a));
    assert_eq!(arena.get(a), None);
    let c = arena.insert("c");
    assert_eq!(c, a);
    assert_eq!(arena.get(c), Some(&"c"));
    assert_eq!(arena.get(b), Some(&"b"));
    assert_eq!(arena.get(99), None);
    assert_eq!(arena.try_remove(99), None);
}

#[test]
fn slab_shard_stores_under_its_route_and_answers_lookups() {
    let mut state = ShardedSlabActor::<String>::pre_start(4);
    assert_eq!(state.0, 4);
    let index = match ShardedSlabActor::handle(HashMapRequest::<String, u8, u8, u8>::Insert("what".to_string(), 2), &mut state) {
        SlabReply::Inserted(tx, index) => {
            assert_eq!(tx, 2u8);
            index
        }
        _ => panic!("an insertion is answered with its index"),
    };
    assert_eq!(index.route, 4);
    match ShardedSlabActor::handle(HashMapRequest::<String, u8, u8, u8>::Get(index, 7), &mut state) {
        SlabReply::Value(tx, found) => {
            assert_eq!(tx, 7);
            assert_eq!(found, Some("what".to_string()));
        }
        _ => panic!("a lookup is answered with a value"),
    }
    match ShardedSlabActor::handle(HashMapRequest::<String, u8, u8, u8>::Remove(index, 8), &mut state) {
        SlabReply::Removed(tx, taken) => {
            assert_eq!(tx, 8);
            assert_eq!(taken, Some("what".to_string()));
        }
        _ => panic!("a removal is answered with what it took"),
    }
    match ShardedSlabActor::handle(HashMapRequest::<String, u8, u8, u8>::Get(index, 9), &mut state) {
        SlabReply::Value(_, found) => assert_eq!(found, None),
        _ => panic!("a lookup is answered with a value"),
    }
    let missing = SlabIndex { local: 40, route: 4 };
    match ShardedSlabActor::handle(HashMapRequest::<String, u8, u8, u8>::Remove(missing, 1), &mut state) {
        SlabReply::Removed(_, taken) => assert_eq!(taken, None),
        _ => panic!("a removal is answered with what it took"),
    }
}

#[test]
fn a_ticket_is_settled_once() {
    let mut table: TicketTable<&str> = TicketTable::new();
    let first = table.issue("first");
    let second = table.issue("second");
    assert_ne!(first, second);
    assert!(table.is_pending(first));
    assert_eq!(table.settle(first), Some("first"));
    assert!(!table.is_pending(first));
    assert_eq!(table.settle(first), None);
    assert_eq!(table.settle(second), Some("second"));
    assert_eq!(table.settle(second), None);
}

#[test]
fn guard_frees_the_ticket_only_when_unanswered() {
    let guard = BridgeDropCancelGuard::new(ShardId::new(0), ShardId::new(2), 5);
    assert_eq!(guard.on_drop(), Some((ShardId::new(0), ShardId::new(2), 5)));
    let mut answered = BridgeDropCancelGuard::new(ShardId::new(1), ShardId::new(3), 6);
    answered.mark_resolved();
    assert_eq!(answered.on_drop(), None);
}

/// A task sent from shard 0 to shard 1 with a ticket: shard 1 reads where
/// the outcome goes from the header, and shard 0 settles the ticket with
/// the outcome, the shard id of shard 1.
#[test]
fn test_bridge_demultiplex() {
    let mut answer: Option<ShardId> = None;
    {
        let mut table: TicketTable<Box<dyn FnOnce(ShardId) + '_>> = TicketTable::new();
        let ticket = table.issue(Box::new(|ru| answer = Some(ru)));
        let header = TaskControlHeader::WithReturn { origin: ShardId::new(0), ticket };

        let (source, slot) = header.reply_to().expect("the task waits for its outcome");
        assert_eq!(source, ShardId::new(0));
        let ru = ShardId::new(1);

        let resolver = table.settle(slot).expect("the ticket is pending");
        resolver(ru);
        assert!(table.settle(slot).is_none());
    }
    assert_eq!(answer.map(|ru| ru.as_usize()), Some(1));
}
