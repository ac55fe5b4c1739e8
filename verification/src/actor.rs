use crate::select::Select2Result;
use crate::shard::ShardId;
use crate::signals::ActorSignal;
use vstd::prelude::*;

verus! {

/// The address of an actor without its message type: the shard it runs on
/// and its slot in that shard's actor table.
#[derive(Clone, Copy, Debug, PartialEq, Eq, Hash, Structural)]
pub struct AnonymousAddr {
    pub shard: ShardId,
    pub local_index: u64,
}

/// How a supervised child ended.
#[derive(Clone, Copy, Debug, PartialEq, Eq, Structural)]
pub enum SupervisorMsgType {
    Stopped,
    Killed,
}

/// The notice a child sends to its parent when it ends.
#[derive(Clone, Copy, Debug, PartialEq, Eq, Structural)]
pub struct SupervisorMessage {
    pub source: AnonymousAddr,
    pub msg_type: SupervisorMsgType,
}

/// Why looking up a registered actor failed.
#[derive(Clone, Copy, Debug, PartialEq, Eq, Structural)]
pub enum ResolutionError {
    /// The name is registered for an actor of another type.
    IncorrectType,
    /// Nothing is registered under the name.
    NoEntry,
}

/// Why turning an address into a local handle failed.
#[derive(Clone, Copy, Debug, PartialEq, Eq, Structural)]
pub enum ActorManagementError {
    /// The actor lives on another shard.
    NotLocal,
    /// The actor has already ended.
    ActorNoLongerExists,
    /// The shard that owns the actor did not answer.
    PromiseError,
}

/// A message as it arrives in an actor's mailbox.
pub enum NormalActorMessage<M, C> {
    /// A call carrying a reply channel.
    Call(C),
    /// An ordinary message.
    Message(M),
    /// A child reports how it ended.
    Supervision(SupervisorMessage),
}

/// What an actor's event loop acts on next.
pub enum ActorMessage<M, C> {
    Signal(ActorSignal),
    Call(C),
    Message(M),
    Supervision(SupervisorMessage),
}

/// The report a child that ended by `reason` sends to its parent.
pub open spec fn report_kind(reason: ActorSignal) -> SupervisorMsgType {
    match reason {
        ActorSignal::Kill => SupervisorMsgType::Killed,
        ActorSignal::Stop => SupervisorMsgType::Stopped,
    }
}

/// What an actor's event loop does with the first of its mailbox and its
/// signal bus that became ready: a signal ends the loop, a mailbox message
/// is handled, and a closed mailbox (`Err`) is passed on.
pub fn multiplex_actor_channels<M, C, E>(
    ready: Select2Result<Result<NormalActorMessage<M, C>, E>, ActorSignal>,
) -> (r: Result<ActorMessage<M, C>, E>)
    ensures
        match ready {
            Select2Result::Left(Ok(NormalActorMessage::Call(c))) => r == Ok::<
                ActorMessage<M, C>,
                E,
            >(ActorMessage::Call(c)),
            Select2Result::Left(Ok(NormalActorMessage::Message(m))) => r == Ok::<
                ActorMessage<M, C>,
                E,
            >(ActorMessage::Message(m)),
            Select2Result::Left(Ok(NormalActorMessage::Supervision(s))) => r == Ok::<
                ActorMessage<M, C>,
                E,
            >(ActorMessage::Supervision(s)),
            Select2Result::Left(Err(e)) => r == Err::<ActorMessage<M, C>, E>(e),
            Select2Result::Right(sig) => r == Ok::<ActorMessage<M, C>, E>(
                ActorMessage::Signal(sig),
            ),
        },
{
    match ready {
        Select2Result::Left(received) => match received {
            Ok(NormalActorMessage::Call(call)) => Ok(ActorMessage::Call(call)),
            Ok(NormalActorMessage::Message(me)) => Ok(ActorMessage::Message(me)),
            Ok(NormalActorMessage::Supervision(superv)) => Ok(ActorMessage::Supervision(superv)),
            Err(e) => Err(e),
        },
        Select2Result::Right(sig) => Ok(ActorMessage::Signal(sig)),
    }
}

/// How an actor winds down once it ended by `reason`: the signal it passes
/// on to its children (the same one: a killed actor kills its children, a
/// stopped one stops them), and, when it has a parent, the notice for it.
pub fn death_plan(reason: ActorSignal, this: AnonymousAddr, parent: Option<AnonymousAddr>) -> (r: (
    ActorSignal,
    Option<(AnonymousAddr, SupervisorMessage)>,
))
    ensures
        r.0 == reason,
        match parent {
            Some(p) => r.1 == Some((p, SupervisorMessage { source: this, msg_type: report_kind(reason) })),
            None => r.1 is None,
        },
{
    let report = match parent {
        Some(p) => {
            let msg_type = match reason {
                ActorSignal::Kill => SupervisorMsgType::Killed,
                ActorSignal::Stop => SupervisorMsgType::Stopped,
            };
            Some((p, SupervisorMessage { source: this, msg_type }))
        },
        None => None,
    };
    (reason, report)
}

/// Looks up a registered name: `entry` is the registered address, if any,
/// and `type_matches` whether it was registered for the requested actor
/// type.
pub fn resolve_registration(entry: Option<AnonymousAddr>, type_matches: bool) -> (r: Result<
    AnonymousAddr,
    ResolutionError,
>)
    ensures
        entry is None ==> r == Err::<AnonymousAddr, ResolutionError>(ResolutionError::NoEntry),
        entry is Some && !type_matches ==> r == Err::<AnonymousAddr, ResolutionError>(
            ResolutionError::IncorrectType,
        ),
        entry is Some && type_matches ==> r == Ok::<AnonymousAddr, ResolutionError>(
            entry->Some_0,
        ),
{
    match entry {
        Some(addr) => {
            if !type_matches {
                Err(ResolutionError::IncorrectType)
            } else {
                Ok(addr)
            }
        },
        None => Err(ResolutionError::NoEntry),
    }
}

/// Whether the actor table of shard `manager` may hand out a local handle
/// for `addr`: only for actors of that shard (`NotLocal` otherwise) that
/// still occupy their slot (`present`; `ActorNoLongerExists` otherwise).
pub fn translate_local(manager: ShardId, addr: AnonymousAddr, present: bool) -> (r: Result<
    (),
    ActorManagementError,
>)
    ensures
        manager != addr.shard ==> r == Err::<(), ActorManagementError>(
            ActorManagementError::NotLocal,
        ),
        manager == addr.shard && !present ==> r == Err::<(), ActorManagementError>(
            ActorManagementError::ActorNoLongerExists,
        ),
        manager == addr.shard && present ==> r == Ok::<(), ActorManagementError>(()),
{
    if manager != addr.shard {
        Err(ActorManagementError::NotLocal)
    } else if !present {
        Err(ActorManagementError::ActorNoLongerExists)
    } else {
        Ok(())
    }
}

/// Whether the actor table of shard `manager` manages `addr`: never for
/// actors of other shards, else exactly when the slot is occupied.
pub fn is_managed(manager: ShardId, addr: AnonymousAddr, present: bool) -> (r: bool)
    ensures
        r == (manager == addr.shard && present),
{
    manager == addr.shard && present
}

/// The report a parent receives tells exactly how the child ended: two
/// ends are reported alike only when they are the same.
pub proof fn law_parent_learns_how_child_ended(a: ActorSignal, b: ActorSignal)
    ensures
        report_kind(a) == report_kind(b) <==> a == b,
{
}


/// One step of winding an actor down.
#[derive(Clone, Copy, Debug, PartialEq, Eq, Structural)]
pub enum ShutdownStep {
    /// Pass the signal on to local child number `.0`.
    SignalChild(usize, ActorSignal),
    /// Pass the signal on to linked actor number `.0` of another shard.
    SignalForeign(usize, ActorSignal),
    /// Wait until local child number `.0` has ended.
    AwaitChild(usize),
    /// Remove the actor from its shard's table.
    Unmanage(AnonymousAddr),
    /// Run the actor's `post_stop`.
    PostStop,
    /// Send the notice to the parent.
    Report(AnonymousAddr, SupervisorMessage),
    /// Nothing is left to do.
    Done,
}

/// The steps, in order, of winding down actor `this` that ended by
/// `reason`, with `children` local children, `foreigns` linked actors on
/// other shards and the given parent: signal every child, then every linked
/// actor, wait for every child, leave the table, run `post_stop`, and last
/// report to the parent, if any.
pub open spec fn shutdown_steps(
    reason: ActorSignal,
    this: AnonymousAddr,
    parent: Option<AnonymousAddr>,
    children: nat,
    foreigns: nat,
) -> Seq<ShutdownStep> {
    Seq::new(children, |i: int| ShutdownStep::SignalChild(i as usize, reason)) + Seq::new(
        foreigns,
        |i: int| ShutdownStep::SignalForeign(i as usize, reason),
    ) + Seq::new(children, |i: int| ShutdownStep::AwaitChild(i as usize)) + seq![
        ShutdownStep::Unmanage(this),
        ShutdownStep::PostStop,
    ] + match parent {
        Some(p) => seq![
            ShutdownStep::Report(p, SupervisorMessage { source: this, msg_type: report_kind(reason) }),
        ],
        None => Seq::<ShutdownStep>::empty(),
    }
}

/// Where an actor is in winding down.
pub struct ShutdownPlan {
    reason: ActorSignal,
    this: AnonymousAddr,
    parent: Option<AnonymousAddr>,
    children: usize,
    foreigns: usize,
    phase: usize,
    idx: usize,
}

impl ShutdownPlan {
    /// All the steps of this shutdown.
    pub closed spec fn steps(&self) -> Seq<ShutdownStep> {
        shutdown_steps(self.reason, self.this, self.parent, self.children as nat, self.foreigns as nat)
    }

    /// How many steps have been handed out.
    pub closed spec fn position(&self) -> nat {
        let c = self.children as nat;
        let f = self.foreigns as nat;
        if self.phase == 0 {
            self.idx as nat
        } else if self.phase == 1 {
            c + self.idx as nat
        } else if self.phase == 2 {
            c + f + self.idx as nat
        } else if self.phase == 3 {
            c + f + c
        } else if self.phase == 4 {
            c + f + c + 1
        } else if self.phase == 5 {
            c + f + c + 2
        } else {
            self.steps().len()
        }
    }

    /// The phase and its counter are consistent.
    pub closed spec fn wf(&self) -> bool {
        &&& self.phase <= 6
        &&& self.phase == 0 ==> self.idx <= self.children
        &&& self.phase == 1 ==> self.idx <= self.foreigns
        &&& self.phase == 2 ==> self.idx <= self.children
    }

    /// The shutdown of actor `this`, ended by `reason`, with `children`
    /// local children and `foreigns` linked actors on other shards.
    pub fn new(
        reason: ActorSignal,
        this: AnonymousAddr,
        parent: Option<AnonymousAddr>,
        children: usize,
        foreigns: usize,
    ) -> (r: Self)
        ensures
            r.wf(),
            r.steps() == shutdown_steps(reason, this, parent, children as nat, foreigns as nat),
            r.position() == 0,
    {
        ShutdownPlan { reason, this, parent, children, foreigns, phase: 0, idx: 0 }
    }

    /// The next step to perform: the steps come out in order, then `Done`
    /// for ever.
    pub fn next_step(&mut self) -> (r: ShutdownStep)
        requires
            old(self).wf(),
        ensures
            final(self).wf(),
            final(self).steps() == old(self).steps(),
            old(self).position() < old(self).steps().len() ==> r == old(self).steps()[old(
                self,
            ).position() as int] && final(self).position() == old(self).position() + 1,
            old(self).position() >= old(self).steps().len() ==> r == ShutdownStep::Done
                && final(self).position() == old(self).position(),
    {
        proof {
            lemma_shutdown_steps(self.reason, self.this, self.parent, self.children as nat, self.foreigns as nat);
        }
        if self.phase == 0 {
            if self.idx < self.children {
                let i = self.idx;
                self.idx = self.idx + 1;
                return ShutdownStep::SignalChild(i, self.reason);
            }
            self.phase = 1;
            self.idx = 0;
        }
        if self.phase == 1 {
            if self.idx < self.foreigns {
                let i = self.idx;
                self.idx = self.idx + 1;
                return ShutdownStep::SignalForeign(i, self.reason);
            }
            self.phase = 2;
            self.idx = 0;
        }
        if self.phase == 2 {
            if self.idx < self.children {
                let i = self.idx;
                self.idx = self.idx + 1;
                return ShutdownStep::AwaitChild(i);
            }
            self.phase = 3;
            self.idx = 0;
        }
        if self.phase == 3 {
            self.phase = 4;
            return ShutdownStep::Unmanage(self.this);
        }
        if self.phase == 4 {
            self.phase = 5;
            return ShutdownStep::PostStop;
        }
        if self.phase == 5 {
            self.phase = 6;
            let (_, report) = death_plan(self.reason, self.this, self.parent);
            match report {
                Some((p, message)) => {
                    return ShutdownStep::Report(p, message);
                },
                None => {
                    return ShutdownStep::Done;
                },
            }
        }
        ShutdownStep::Done
    }
}

/// The shape of the shutdown steps, position by position.
proof fn lemma_shutdown_steps(
    reason: ActorSignal,
    this: AnonymousAddr,
    parent: Option<AnonymousAddr>,
    children: nat,
    foreigns: nat,
)
    ensures
        ({
            let s = shutdown_steps(reason, this, parent, children, foreigns);
            let c = children as int;
            let f = foreigns as int;
            &&& s.len() == c + f + c + 2 + (if parent is Some { 1int } else { 0int })
            &&& forall|i: int| 0 <= i < c ==> #[trigger] s[i] == ShutdownStep::SignalChild(i as usize, reason)
            &&& forall|j: int| 0 <= j < f ==> #[trigger] s[c + j] == ShutdownStep::SignalForeign(j as usize, reason)
            &&& forall|k: int| 0 <= k < c ==> #[trigger] s[c + f + k] == ShutdownStep::AwaitChild(k as usize)
            &&& s[c + f + c] == ShutdownStep::Unmanage(this)
            &&& s[c + f + c + 1] == ShutdownStep::PostStop
            &&& parent is Some ==> s[c + f + c + 2] == ShutdownStep::Report(
                parent->Some_0,
                SupervisorMessage { source: this, msg_type: report_kind(reason) },
            )
        }),
{
    let c = children as int;
    let f = foreigns as int;
    let a = Seq::new(children, |i: int| ShutdownStep::SignalChild(i as usize, reason));
    let b = Seq::new(foreigns, |i: int| ShutdownStep::SignalForeign(i as usize, reason));
    let d = Seq::new(children, |i: int| ShutdownStep::AwaitChild(i as usize));
    let e = seq![ShutdownStep::Unmanage(this), ShutdownStep::PostStop];
    let g = match parent {
        Some(p) => seq![
            ShutdownStep::Report(p, SupervisorMessage { source: this, msg_type: report_kind(reason) }),
        ],
        None => Seq::<ShutdownStep>::empty(),
    };
    let s = shutdown_steps(reason, this, parent, children, foreigns);
    assert(s == a + b + d + e + g);
    assert forall|j: int| 0 <= j < f implies #[trigger] s[c + j] == ShutdownStep::SignalForeign(j as usize, reason) by {
        assert(s[c + j] == (a + b)[c + j]);
    }
    assert forall|k: int| 0 <= k < c implies #[trigger] s[c + f + k] == ShutdownStep::AwaitChild(k as usize) by {
        assert(s[c + f + k] == (a + b + d)[c + f + k]);
    }
    assert(s[c + f + c] == (a + b + d + e)[c + f + c]);
    assert(s[c + f + c + 1] == (a + b + d + e)[c + f + c + 1]);
}

/// An actor winds down in this order: every local child and every linked
/// actor of another shard is passed the signal the actor ended by; then
/// every local child is awaited; only then does the actor leave its
/// shard's table, then run `post_stop`, and its parent, if any, hears last,
/// with the notice that tells how it ended.
pub proof fn law_shutdown_order(
    reason: ActorSignal,
    this: AnonymousAddr,
    parent: Option<AnonymousAddr>,
    children: nat,
    foreigns: nat,
)
    ensures
        ({
            let s = shutdown_steps(reason, this, parent, children, foreigns);
            let c = children as int;
            let f = foreigns as int;
            &&& s.len() == c + f + c + 2 + (if parent is Some { 1int } else { 0int })
            &&& forall|i: int| 0 <= i < c ==> #[trigger] s[i] == ShutdownStep::SignalChild(i as usize, reason)
            &&& forall|j: int| 0 <= j < f ==> #[trigger] s[c + j] == ShutdownStep::SignalForeign(j as usize, reason)
            &&& forall|k: int| 0 <= k < c ==> #[trigger] s[c + f + k] == ShutdownStep::AwaitChild(k as usize)
            &&& s[c + f + c] == ShutdownStep::Unmanage(this)
            &&& s[c + f + c + 1] == ShutdownStep::PostStop
            &&& match parent {
                Some(p) => s.last() == ShutdownStep::Report(
                    p,
                    SupervisorMessage { source: this, msg_type: report_kind(reason) },
                ),
                None => s.last() == ShutdownStep::PostStop,
            }
        }),
{
    lemma_shutdown_steps(reason, this, parent, children, foreigns);
}

/// Why an actor could not be spawned from a builder.
#[derive(Clone, Copy, Debug, PartialEq, Eq, Structural)]
pub enum BuilderError {
    /// No arguments were given; an actor cannot start without them.
    MissingArguments,
}

/// Collects what spawning an actor needs: its start-up arguments and,
/// optionally, a name to register it under.
pub struct ActorBuilder<Args> {
    args: Option<Args>,
    registration_name: Option<&'static str>,
}

impl<Args> ActorBuilder<Args> {
    /// The arguments given so far.
    pub closed spec fn args(&self) -> Option<Args> {
        self.args
    }

    /// The registration name given so far.
    pub closed spec fn name(&self) -> Option<&'static str> {
        self.registration_name
    }

    /// A builder with nothing set.
    pub fn new() -> (r: Self)
        ensures
            r.args() is None,
            r.name() is None,
    {
        ActorBuilder { args: None, registration_name: None }
    }

    /// Sets the start-up arguments.
    pub fn with_args(self, args: Args) -> (r: Self)
        ensures
            r.args() == Some(args),
            r.name() == self.name(),
    {
        ActorBuilder { args: Some(args), registration_name: self.registration_name }
    }

    /// Registers the actor under `name` once it is spawned.
    pub fn with_name(self, name: &'static str) -> (r: Self)
        ensures
            r.args() == self.args(),
            r.name() == Some(name),
    {
        ActorBuilder { args: self.args, registration_name: Some(name) }
    }

    /// What spawning needs: the arguments (required) and the name to
    /// register under, if any.
    pub fn into_parts(self) -> (r: Result<(Args, Option<&'static str>), BuilderError>)
        ensures
            self.args() is None ==> r == Err::<(Args, Option<&'static str>), BuilderError>(
                BuilderError::MissingArguments,
            ),
            self.args() is Some ==> r == Ok::<(Args, Option<&'static str>), BuilderError>(
                (self.args()->Some_0, self.name()),
            ),
    {
        match self.args {
            Some(args) => Ok((args, self.registration_name)),
            None => Err(BuilderError::MissingArguments),
        }
    }
}

} // verus!
