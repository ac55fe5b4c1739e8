use vstd::prelude::*;

verus! {

/// Tasks taken from the shard's own queue in one scheduler round.
pub const LOCAL_TASKS_PER_ROUND: usize = 6;

/// Tasks taken from the queue of tasks woken by other threads in one
/// scheduler round.
pub const FOREIGN_TASKS_PER_ROUND: usize = 3;

/// Where a woken task goes.
#[derive(Clone, Copy, Debug, PartialEq, Eq, Structural)]
pub enum ScheduleTarget {
    /// The shard's own queue: the task was woken on the shard's thread.
    LocalQueue,
    /// The queue shared with other threads; `wake` says whether the parked
    /// shard must be woken through its eventfd first.
    ForeignQueue { wake: bool },
}

/// Where a task woken on some thread is queued: on the shard's own thread
/// it goes to the local queue; from any other thread it goes to the shared
/// queue, and the shard is woken when it has parked on its eventfd.
pub fn schedule_target(on_origin_thread: bool, shard_parked: bool) -> (r: ScheduleTarget)
    ensures
        on_origin_thread ==> r == ScheduleTarget::LocalQueue,
        !on_origin_thread ==> r == (ScheduleTarget::ForeignQueue { wake: shard_parked }),
{
    if on_origin_thread {
        ScheduleTarget::LocalQueue
    } else {
        ScheduleTarget::ForeignQueue { wake: shard_parked }
    }
}

/// A shard whose local queue is empty waits on its ring (after arming its
/// timer) before running tasks; otherwise it runs tasks straight away.
pub fn must_wait(local_queue_len: usize) -> (r: bool)
    ensures
        r == (local_queue_len == 0),
{
    local_queue_len == 0
}

} // verus!
