use crate::shard::ShardId;
use std::marker::PhantomData;
use vstd::prelude::*;

verus! {

/// What the receiving shard does with a task's outcome.
#[derive(Clone, Copy, Debug, PartialEq, Eq, Structural)]
pub enum TaskControlHeader {
    /// Nobody waits for the outcome.
    FireAndForget,
    /// Shard `origin` waits for the outcome under ticket `ticket`.
    WithReturn { origin: ShardId, ticket: usize },
}

impl TaskControlHeader {
    /// Where the outcome of the task goes: the waiting shard and the ticket
    /// it waits under, or nowhere.
    pub fn reply_to(&self) -> (r: Option<(ShardId, usize)>)
        ensures
            match *self {
                TaskControlHeader::FireAndForget => r is None,
                TaskControlHeader::WithReturn { origin, ticket } => r == Some((origin, ticket)),
            },
    {
        match self {
            TaskControlHeader::FireAndForget => None,
            TaskControlHeader::WithReturn { origin, ticket } => Some((*origin, *ticket)),
        }
    }
}

/// Stage marker: the task has not run yet.
pub struct Init;

/// Stage marker: the task's future may be polled (it borrows for `'a`).
pub struct Pollable<'a>(PhantomData<&'a ()>);

/// Stage marker: the task panicked.
pub struct Panicked;

/// Stage marker: the task produced its output.
pub struct Ready;

/// The stage of a task: the closure to run, the future it returned, the
/// output, the panic payload, or nothing once the content was moved out.
pub enum TaskAllocation<T, F, O, P> {
    Functor(T),
    Future(F),
    Result(O),
    Panic(P),
    Empty,
}

/// A task that travels between shards: its header and its current stage.
/// `A` is the type of the argument the closure is run with, `P` the panic
/// payload.
pub struct TaskControlBlock<T, A, F, O, P> {
    header: TaskControlHeader,
    allocation: TaskAllocation<T, F, O, P>,
    _marker: PhantomData<A>,
}

/// The stage after the closure ran: its future, or the panic it raised.
pub open spec fn after_run<T, F, O, P>(outcome: Result<F, P>) -> TaskAllocation<T, F, O, P> {
    match outcome {
        Ok(f) => TaskAllocation::Future(f),
        Err(p) => TaskAllocation::Panic(p),
    }
}

/// The stage after the future completed: its output, or the panic it
/// raised.
pub open spec fn after_poll<T, F, O, P>(outcome: Result<O, P>) -> TaskAllocation<T, F, O, P> {
    match outcome {
        Ok(o) => TaskAllocation::Result(o),
        Err(p) => TaskAllocation::Panic(p),
    }
}

impl<T, A, F, O, P> TaskControlBlock<T, A, F, O, P> {
    /// The header of the task.
    pub closed spec fn spec_header(&self) -> TaskControlHeader {
        self.header
    }

    /// The current stage of the task.
    pub closed spec fn stage(&self) -> TaskAllocation<T, F, O, P> {
        self.allocation
    }

    /// A task that will run `functor` with an argument of type `A`.
    pub fn create_local(header: TaskControlHeader, functor: T) -> (r: Self)
        ensures
            r.spec_header() == header,
            r.stage() == TaskAllocation::<T, F, O, P>::Functor(functor),
    {
        TaskControlBlock {
            header,
            allocation: TaskAllocation::Functor(functor),
            _marker: PhantomData,
        }
    }

    /// The header of the task.
    pub fn header(&self) -> (r: &TaskControlHeader)
        ensures
            *r == self.spec_header(),
    {
        &self.header
    }

    /// Takes the closure out to run it.
    pub fn take_functor(&mut self) -> (r: T)
        requires
            old(self).stage() is Functor,
        ensures
            r == old(self).stage()->Functor_0,
            final(self).stage() == TaskAllocation::<T, F, O, P>::Empty,
            final(self).spec_header() == old(self).spec_header(),
    {
        let mut stage = TaskAllocation::Empty;
        std::mem::swap(&mut stage, &mut self.allocation);
        match stage {
            TaskAllocation::Functor(f) => f,
            _ => vstd::pervasive::unreached(),
        }
    }

    /// Stores what running the closure gave: the future to poll, or the
    /// panic. Answers whether the task is still healthy.
    pub fn store_run(&mut self, outcome: Result<F, P>) -> (r: bool)
        requires
            old(self).stage() is Empty,
        ensures
            r == outcome is Ok,
            final(self).stage() == after_run::<T, F, O, P>(outcome),
            final(self).spec_header() == old(self).spec_header(),
    {
        match outcome {
            Ok(f) => {
                self.allocation = TaskAllocation::Future(f);
                true
            },
            Err(p) => {
                self.allocation = TaskAllocation::Panic(p);
                false
            },
        }
    }

    /// The future to poll.
    pub fn future_mut(&mut self) -> (r: &mut F)
        requires
            old(self).stage() is Future,
        ensures
            *r == old(self).stage()->Future_0,
            final(self).stage() == TaskAllocation::<T, F, O, P>::Future(*final(r)),
            final(self).spec_header() == old(self).spec_header(),
    {
        match &mut self.allocation {
            TaskAllocation::Future(f) => f,
            _ => vstd::pervasive::unreached(),
        }
    }

    /// Stores what the completed future gave: the output, or the panic.
    /// Answers whether the task is still healthy.
    pub fn store_poll(&mut self, outcome: Result<O, P>) -> (r: bool)
        requires
            old(self).stage() is Future,
        ensures
            r == outcome is Ok,
            final(self).stage() == after_poll::<T, F, O, P>(outcome),
            final(self).spec_header() == old(self).spec_header(),
    {
        match outcome {
            Ok(o) => {
                self.allocation = TaskAllocation::Result(o);
                true
            },
            Err(p) => {
                self.allocation = TaskAllocation::Panic(p);
                false
            },
        }
    }

    /// Moves the output out; the task is empty afterwards.
    pub fn take_result(&mut self) -> (r: O)
        requires
            old(self).stage() is Result,
        ensures
            r == old(self).stage()->Result_0,
            final(self).stage() == TaskAllocation::<T, F, O, P>::Empty,
            final(self).spec_header() == old(self).spec_header(),
    {
        let mut stage = TaskAllocation::Empty;
        std::mem::swap(&mut stage, &mut self.allocation);
        match stage {
            TaskAllocation::Result(o) => o,
            _ => vstd::pervasive::unreached(),
        }
    }

    /// Moves the panic payload out; the task is empty afterwards.
    pub fn take_panic(&mut self) -> (r: P)
        requires
            old(self).stage() is Panic,
        ensures
            r == old(self).stage()->Panic_0,
            final(self).stage() == TaskAllocation::<T, F, O, P>::Empty,
            final(self).spec_header() == old(self).spec_header(),
    {
        let mut stage = TaskAllocation::Empty;
        std::mem::swap(&mut stage, &mut self.allocation);
        match stage {
            TaskAllocation::Panic(p) => p,
            _ => vstd::pervasive::unreached(),
        }
    }
}

impl<T, F, O, P> TaskControlBlock<T, (), F, O, P> {
    /// A task that runs `functor` with no argument, so that it can be sent
    /// to another shard.
    pub fn create(header: TaskControlHeader, functor: T) -> (r: Self)
        ensures
            r.spec_header() == header,
            r.stage() == TaskAllocation::<T, F, O, P>::Functor(functor),
    {
        TaskControlBlock {
            header,
            allocation: TaskAllocation::Functor(functor),
            _marker: PhantomData,
        }
    }
}

/// The output a task hands out is exactly the one its future produced, and
/// a panic raised at either step is what the task reports instead.
pub proof fn law_outcome_is_preserved<T, F, O, P>(run: Result<F, P>, poll: Result<O, P>)
    ensures
        run is Err ==> after_run::<T, F, O, P>(run) == TaskAllocation::<T, F, O, P>::Panic(
            run->Err_0,
        ),
        poll is Ok ==> after_poll::<T, F, O, P>(poll) == TaskAllocation::<T, F, O, P>::Result(
            poll->Ok_0,
        ),
        poll is Err ==> after_poll::<T, F, O, P>(poll) == TaskAllocation::<T, F, O, P>::Panic(
            poll->Err_0,
        ),
{
}

} // verus!
