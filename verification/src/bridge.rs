use crate::shard::ShardId;
use crate::slots::SlotArena;
use vstd::prelude::*;

verus! {

/// The resolvers a shard keeps, by ticket, for the tasks it sent over a
/// bridge and waits on.
pub struct TicketTable<R> {
    pending: SlotArena<R>,
}

impl<R> View for TicketTable<R> {
    type V = Map<usize, R>;

    /// The pending tickets with their resolvers.
    closed spec fn view(&self) -> Map<usize, R> {
        self.pending@
    }
}

/// Settling ticket `ticket` of the pending tickets `m`: its resolver, if it
/// is pending, and the tickets left pending afterwards.
pub open spec fn settle_spec<R>(m: Map<usize, R>, ticket: usize) -> (Option<R>, Map<usize, R>) {
    if m.contains_key(ticket) {
        (Some(m[ticket]), m.remove(ticket))
    } else {
        (None, m)
    }
}

impl<R> TicketTable<R> {
    /// A table with no pending ticket.
    pub fn new() -> (r: Self)
        ensures
            r@ == Map::<usize, R>::empty(),
    {
        TicketTable { pending: SlotArena::new() }
    }

    /// Registers the resolver of a task about to be sent; its ticket, which
    /// no pending task holds.
    pub fn issue(&mut self, resolver: R) -> (ticket: usize)
        ensures
            !old(self)@.contains_key(ticket),
            final(self)@ == old(self)@.insert(ticket, resolver),
    {
        self.pending.insert(resolver)
    }

    /// Whether `ticket` is pending.
    pub fn is_pending(&self, ticket: usize) -> (r: bool)
        ensures
            r == self@.contains_key(ticket),
    {
        self.pending.contains(ticket)
    }

    /// Takes the resolver of `ticket` out, to answer it or to drop it, when
    /// the ticket is pending; nothing otherwise.
    pub fn settle(&mut self, ticket: usize) -> (r: Option<R>)
        ensures
            (r, final(self)@) == settle_spec(old(self)@, ticket),
    {
        self.pending.try_remove(ticket)
    }
}

/// A ticket is settled at most once: settling a freshly issued ticket hands
/// out its resolver, and settling it again finds nothing, so an answer and
/// a cancellation cannot both reach the resolver.
pub proof fn law_each_ticket_settled_once<R>(m: Map<usize, R>, ticket: usize, resolver: R)
    requires
        !m.contains_key(ticket),
    ensures
        settle_spec(m.insert(ticket, resolver), ticket).0 == Some(resolver),
        settle_spec(m.insert(ticket, resolver), ticket).1 == m,
        settle_spec(settle_spec(m.insert(ticket, resolver), ticket).1, ticket).0 is None,
{
    assert(m.insert(ticket, resolver).remove(ticket) =~= m);
}

/// Kept by the remote run of a task with a ticket: unless the run got as
/// far as sending its answer, dropping the guard frees the ticket on the
/// waiting shard.
pub struct BridgeDropCancelGuard {
    origin: ShardId,
    current: ShardId,
    slot: usize,
    resolved: bool,
}

impl BridgeDropCancelGuard {
    /// The guard of the run of ticket `slot` of shard `origin`, sent over
    /// the bridge to shard `current`; not answered yet.
    pub fn new(origin: ShardId, current: ShardId, slot: usize) -> (r: Self)
        ensures
            r.release() == Some((origin, current, slot)),
    {
        BridgeDropCancelGuard { origin, current, slot, resolved: false }
    }

    /// What dropping the guard asks for: freeing ticket `.2` on shard `.0`,
    /// in the table of its bridge to shard `.1`, or nothing once answered.
    pub closed spec fn release(self) -> Option<(ShardId, ShardId, usize)> {
        if self.resolved {
            None
        } else {
            Some((self.origin, self.current, self.slot))
        }
    }

    /// Records that the answer was sent.
    pub fn mark_resolved(&mut self)
        ensures
            final(self).release() is None,
    {
        self.resolved = true;
    }

    /// What to do when the guard is dropped.
    pub fn on_drop(&self) -> (r: Option<(ShardId, ShardId, usize)>)
        ensures
            r == self.release(),
    {
        if self.resolved {
            None
        } else {
            Some((self.origin, self.current, self.slot))
        }
    }
}

} // verus!
