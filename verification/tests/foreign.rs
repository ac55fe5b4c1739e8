use std::sync::atomic::{AtomicUsize, Ordering};

use monorail::foreign::{Foreign, Release};
use monorail::mono::Mono;
use monorail::shard::ShardId;

#[test]
fn test_special_drop() {}

#[test]
fn release_sends_home_when_needed() {
    let f = Foreign::new(vec![1u8, 2, 3], ShardId::new(1));
    match f.release(ShardId::new(2), true) {
        Release::SendHome(home, g) => {
            assert_eq!(home, ShardId::new(1));
            match g.release(home, true) {
                Release::DropHere(v) => assert_eq!(v, vec![1u8, 2, 3]),
                Release::SendHome(..) => panic!("released twice"),
            }
        }
        Release::DropHere(_) => panic!("dropped away from its origin"),
    }
}

#[test]
fn release_drops_here_without_drop_glue() {
    let f = Foreign::new(7u32, ShardId::new(1));
    assert!(matches!(f.release(ShardId::new(3), false), Release::DropHere(7)));
}

#[test]
fn project_keeps_origin() {
    let f = Mono::from_const(20u32).make_foreign(ShardId::new(4));
    let g = f.project(|x| x + 1);
    assert_eq!(g.origin_shard(), ShardId::new(4));
    assert_eq!(*g.get(), 21);
}

#[test]
fn try_project_keeps_origin_on_both_sides() {
    let f = Foreign::new(5i32, ShardId::new(2));
    let bad = f.try_project(|x| if x > 10 { Ok(x) } else { Err("small") });
    match bad {
        Err(e) => {
            assert_eq!(e.origin_shard(), ShardId::new(2));
            assert_eq!(*e.get(), "small");
        }
        Ok(_) => panic!("expected an error"),
    }
}

#[test]
fn invert_result_moves_error_out() {
    let f: Foreign<Result<u8, &str>> = Foreign::new(Err("no"), ShardId::new(0));
    assert!(matches!(f.invert_result(), Err("no")));
    let g: Foreign<Result<u8, &str>> = Foreign::new(Ok(3), ShardId::new(5));
    let ok = g.invert_result().unwrap();
    assert_eq!((*ok.get(), ok.origin_shard()), (3, ShardId::new(5)));
}

static CURRENT_SHARD: AtomicUsize = AtomicUsize::new(usize::MAX);
static DROPPED_ON: AtomicUsize = AtomicUsize::new(usize::MAX);
static DROPS: AtomicUsize = AtomicUsize::new(0);

struct CheckedDrop;

impl Drop for CheckedDrop {
    fn drop(&mut self) {
        DROPPED_ON.store(CURRENT_SHARD.load(Ordering::SeqCst), Ordering::SeqCst);
        DROPS.fetch_add(1, Ordering::SeqCst);
    }
}

#[test]
fn test_foreign_return() {
    // A box made foreign on shard 1 and dropped on shard 2 is sent back and
    // its destructor runs on shard 1, once. Each hop is what the runtime
    // does when it drops a foreign value on a shard.
    let checked = Mono::<Box<CheckedDrop>>::new(CheckedDrop).make_foreign(ShardId::new(1));
    let needs_drop = std::mem::needs_drop::<Box<CheckedDrop>>();
    let mut current = ShardId::new(2);
    let mut pending = Some(checked);
    while let Some(foreign) = pending.take() {
        CURRENT_SHARD.store(current.as_usize(), Ordering::SeqCst);
        match foreign.release(current, needs_drop) {
            Release::SendHome(home, back) => {
                current = home;
                pending = Some(back);
            }
            Release::DropHere(value) => drop(value),
        }
    }
    assert_eq!(DROPPED_ON.load(Ordering::SeqCst), 1);
    assert_eq!(DROPS.load(Ordering::SeqCst), 1);
}

#[test]
fn foreign_derefs_to_its_value() {
    let f = Foreign::new(String::from("abc"), ShardId::new(4));
    assert_eq!(f.len(), 3);
    assert_eq!(&*f, "abc");
}
