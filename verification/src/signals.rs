use vstd::prelude::*;

verus! {

/// A lifecycle signal sent to an actor.
#[derive(Clone, Copy, Debug, PartialEq, Eq, Structural)]
pub enum ActorSignal {
    /// Finish gracefully: stop children, then run `post_stop`.
    Stop,
    /// Terminate at once, even in the middle of handling a message.
    Kill,
}

/// How urgently a signal must be seen. A waiter only receives signals of
/// at least its own priority.
#[derive(Clone, Copy, PartialEq, Eq, PartialOrd, Ord, Debug, Structural)]
pub enum SignalPriority {
    NonCritical,
    Interrupt,
}

/// The rank of a priority: `NonCritical` ranks below `Interrupt`.
pub open spec fn priority_rank(p: SignalPriority) -> int {
    match p {
        SignalPriority::NonCritical => 0,
        SignalPriority::Interrupt => 1,
    }
}

impl SignalPriority {
    /// Whether a signal of priority `self` reaches a waiter of priority `other`.
    pub fn reaches(&self, other: &SignalPriority) -> (r: bool)
        ensures
            r == (priority_rank(*self) >= priority_rank(*other)),
    {
        match (self, other) {
            (SignalPriority::NonCritical, SignalPriority::Interrupt) => false,
            _ => true,
        }
    }
}

/// A pending signal and the priority it was raised with.
#[derive(Clone, Copy, Debug, PartialEq, Eq, Structural)]
pub struct SignalBusEvent {
    pub event: ActorSignal,
    pub priority: SignalPriority,
}

/// The mailbox for lifecycle signals of one actor: it holds at most one
/// pending signal; a new one replaces an older one that no waiter took.
pub struct SignalBus {
    message: Option<SignalBusEvent>,
}

/// The pending signal after `event` was raised with `priority` on a bus
/// whose pending signal was `pending`: the older one is replaced.
pub open spec fn bus_after_raise(
    pending: Option<SignalBusEvent>,
    event: ActorSignal,
    priority: SignalPriority,
) -> Option<SignalBusEvent> {
    Some(SignalBusEvent { event, priority })
}

/// What a waiter of priority `priority` receives from a bus whose pending
/// signal is `pending`, and what is left pending afterwards.
pub open spec fn bus_receive(pending: Option<SignalBusEvent>, priority: SignalPriority) -> (
    Option<ActorSignal>,
    Option<SignalBusEvent>,
) {
    match pending {
        Some(e) => if priority_rank(e.priority) >= priority_rank(priority) {
            (Some(e.event), None)
        } else {
            (None, pending)
        },
        None => (None, None),
    }
}

impl View for SignalBus {
    type V = Option<SignalBusEvent>;

    closed spec fn view(&self) -> Option<SignalBusEvent> {
        self.message
    }
}

impl SignalBus {
    /// An empty bus.
    pub fn new() -> (r: Self)
        ensures
            r@ == None::<SignalBusEvent>,
    {
        SignalBus { message: None }
    }

    /// Removes the pending signal, whatever its priority, and returns it.
    pub fn clear_signal(&mut self) -> (r: Option<ActorSignal>)
        ensures
            final(self)@ == None::<SignalBusEvent>,
            r == match old(self)@ {
                Some(e) => Some(e.event),
                None => None,
            },
    {
        match self.message.take() {
            Some(e) => Some(e.event),
            None => None,
        }
    }

    /// Makes `event` the pending signal, replacing any older one.
    pub fn raise(&mut self, event: ActorSignal, priority: SignalPriority)
        ensures
            final(self)@ == bus_after_raise(old(self)@, event, priority),
    {
        self.message = Some(SignalBusEvent { event, priority });
    }

    /// One check of a waiter of priority `priority`: takes the pending
    /// signal when it reaches the waiter, else leaves the bus as it is.
    /// A `Some` answer means the waiter wakes with that signal (and the
    /// other waiters must be notified that the bus changed).
    pub fn try_receive(&mut self, priority: SignalPriority) -> (r: Option<ActorSignal>)
        ensures
            (r, final(self)@) == bus_receive(old(self)@, priority),
    {
        match self.message {
            None => None,
            Some(e) => {
                if e.priority.reaches(&priority) {
                    self.message = None;
                    Some(e.event)
                } else {
                    None
                }
            },
        }
    }
}

/// Checking a bus never invents a signal: a waiter receives only the
/// signal that was pending, what is left pending afterwards is that same
/// signal or nothing, and checking a bus with nothing pending receives
/// nothing and leaves nothing pending.
pub proof fn law_receive_never_invents(pending: Option<SignalBusEvent>, priority: SignalPriority)
    ensures
        bus_receive(pending, priority).0 matches Some(s) ==> pending matches Some(e) && e.event
            == s,
        bus_receive(pending, priority).1 is Some ==> bus_receive(pending, priority).1 == pending,
        bus_receive(pending, priority).0 is Some ==> bus_receive(pending, priority).1 is None,
        pending is None ==> bus_receive(pending, priority) == (
            None::<ActorSignal>,
            None::<SignalBusEvent>,
        ),
{
}

/// A signal raised on a bus reaches every waiter whose priority is at most
/// the signal's own, and is then consumed.
pub proof fn law_raised_signal_is_received(
    pending: Option<SignalBusEvent>,
    event: ActorSignal,
    raised: SignalPriority,
    waiting: SignalPriority,
)
    requires
        priority_rank(waiting) <= priority_rank(raised),
    ensures
        bus_receive(bus_after_raise(pending, event, raised), waiting) == (
            Some(event),
            None::<SignalBusEvent>,
        ),
{
}

/// An interrupt-priority waiter never takes a non-critical signal: the
/// signal stays pending for the non-critical waiter.
pub proof fn law_interrupt_ignores_non_critical(pending: Option<SignalBusEvent>, event: ActorSignal)
    ensures
        bus_receive(
            bus_after_raise(pending, event, SignalPriority::NonCritical),
            SignalPriority::Interrupt,
        ) == (None::<ActorSignal>, bus_after_raise(pending, event, SignalPriority::NonCritical)),
{
}

/// A signal is delivered at most once: after a waiter took it, no waiter of
/// any priority receives anything until the next raise.
pub proof fn law_signal_delivered_once(
    pending: Option<SignalBusEvent>,
    first: SignalPriority,
    second: SignalPriority,
)
    requires
        bus_receive(pending, first).0 is Some,
    ensures
        bus_receive(bus_receive(pending, first).1, second).0 is None,
{
}

/// The latest raise wins: an older signal nobody took is replaced, so two
/// raises leave the bus as the second alone would.
pub proof fn law_latest_raise_wins(
    pending: Option<SignalBusEvent>,
    e1: ActorSignal,
    p1: SignalPriority,
    e2: ActorSignal,
    p2: SignalPriority,
)
    ensures
        bus_after_raise(bus_after_raise(pending, e1, p1), e2, p2) == bus_after_raise(
            pending,
            e2,
            p2,
        ),
{
}


/// The priority a lifecycle signal is raised with: a stop waits until the
/// actor is between messages, a kill interrupts it.
pub open spec fn signal_priority(signal: ActorSignal) -> SignalPriority {
    match signal {
        ActorSignal::Stop => SignalPriority::NonCritical,
        ActorSignal::Kill => SignalPriority::Interrupt,
    }
}

impl ActorSignal {
    /// The priority this signal is raised with.
    pub fn priority(&self) -> (r: SignalPriority)
        ensures
            r == signal_priority(*self),
    {
        match self {
            ActorSignal::Stop => SignalPriority::NonCritical,
            ActorSignal::Kill => SignalPriority::Interrupt,
        }
    }
}

impl SignalBus {
    /// Raises a lifecycle signal with the priority it calls for.
    pub fn signal(&mut self, signal: ActorSignal)
        ensures
            final(self)@ == bus_after_raise(old(self)@, signal, signal_priority(signal)),
    {
        let priority = signal.priority();
        self.raise(signal, priority);
    }
}

/// A running actor waits on its bus twice: between messages with
/// non-critical priority, and all the time with interrupt priority. A kill
/// is seen by the interrupt waiter, so it ends the actor even in the middle
/// of a message; a stop is seen only between messages.
pub proof fn law_kill_interrupts_stop_waits(pending: Option<SignalBusEvent>)
    ensures
        bus_receive(
            bus_after_raise(pending, ActorSignal::Kill, signal_priority(ActorSignal::Kill)),
            SignalPriority::Interrupt,
        ).0 == Some(ActorSignal::Kill),
        bus_receive(
            bus_after_raise(pending, ActorSignal::Kill, signal_priority(ActorSignal::Kill)),
            SignalPriority::NonCritical,
        ).0 == Some(ActorSignal::Kill),
        bus_receive(
            bus_after_raise(pending, ActorSignal::Stop, signal_priority(ActorSignal::Stop)),
            SignalPriority::Interrupt,
        ).0 is None,
        bus_receive(
            bus_after_raise(pending, ActorSignal::Stop, signal_priority(ActorSignal::Stop)),
            SignalPriority::NonCritical,
        ).0 == Some(ActorSignal::Stop),
{
}

} // verus!
