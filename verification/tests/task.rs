use std::any::Any;
use std::future::Future;
use std::pin::Pin;

use monorail::shard::ShardId;
use monorail::task::{TaskAllocation, TaskControlBlock, TaskControlHeader};

#[test]
fn header_reply_route() {
    assert_eq!(TaskControlHeader::FireAndForget.reply_to(), None);
    let h = TaskControlHeader::WithReturn { origin: ShardId::new(2), ticket: 5 };
    assert_eq!(h.reply_to(), Some((ShardId::new(2), 5)));
}

#[test]
fn healthy_task_lifecycle() {
    let mut tcb: TaskControlBlock<fn() -> u8, (), u8, usize, &str> =
        TaskControlBlock::create(TaskControlHeader::FireAndForget, || 3);
    assert_eq!(*tcb.header(), TaskControlHeader::FireAndForget);
    let f = tcb.take_functor();
    assert!(tcb.store_run(Ok(f())));
    assert!(tcb.store_poll(Ok(3usize)));
    assert_eq!(tcb.take_result(), 3);
}

#[test]
fn panicking_task_reports_panic() {
    let mut tcb: TaskControlBlock<u8, u16, u8, usize, &str> =
        TaskControlBlock::create_local(TaskControlHeader::FireAndForget, 1);
    let _ = tcb.take_functor();
    assert!(!tcb.store_run(Err("I am a panic!")));
    assert_eq!(tcb.take_panic(), "I am a panic!");

    let mut tcb: TaskControlBlock<u8, (), u8, usize, &str> =
        TaskControlBlock::create(TaskControlHeader::FireAndForget, 1);
    let _ = tcb.take_functor();
    assert!(tcb.store_run(Ok(0)));
    assert!(!tcb.store_poll(Err("I panicked :(")));
    assert_eq!(tcb.take_panic(), "I panicked :(");
    let _unused: Option<TaskAllocation<u8, u8, u8, u8>> = None;
}

type Payload = Box<dyn Any + Send>;
type BoxedFuture = Pin<Box<dyn Future<Output = usize>>>;

#[test]
fn task_control_block_basic() {
    let mut task: TaskControlBlock<_, (), BoxedFuture, usize, Payload> =
        TaskControlBlock::create(TaskControlHeader::FireAndForget, || -> BoxedFuture {
            Box::pin(async move { 3 })
        });
    let functor = task.take_functor();
    assert!(task.store_run(Ok(functor())));
    let output = smol::future::block_on(task.future_mut());
    assert!(task.store_poll(Ok(output)));
    assert_eq!(task.take_result(), 3);
}

#[test]
fn task_control_closure_panic() {
    let mut task: TaskControlBlock<_, (), BoxedFuture, usize, Payload> =
        TaskControlBlock::create(TaskControlHeader::FireAndForget, || -> BoxedFuture {
            panic!("I am a panic!")
        });
    // Running this closure panics; the runtime catches the panic and hands
    // its payload to the block.
    let _functor = task.take_functor();
    let healthy = task.store_run(Err(Box::new("I am a panic!") as Payload));
    assert!(!healthy);
    let payload = task.take_panic();
    assert_eq!(*payload.downcast::<&str>().unwrap(), "I am a panic!");
}

#[test]
fn task_control_future_panic() {
    let mut task: TaskControlBlock<_, (), BoxedFuture, usize, Payload> =
        TaskControlBlock::create(TaskControlHeader::FireAndForget, || -> BoxedFuture {
            Box::pin(async move { panic!("I panicked :(") })
        });
    let functor = task.take_functor();
    assert!(task.store_run(Ok(functor())));
    // Polling this future panics; the runtime catches the panic and hands
    // its payload to the block.
    let healthy = task.store_poll(Err(Box::new("I panicked :(") as Payload));
    assert!(!healthy);
    let payload = task.take_panic();
    assert_eq!(*payload.downcast::<&str>().unwrap(), "I panicked :(");
}
