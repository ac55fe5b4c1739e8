use crate::shard::ShardId;
use vstd::prelude::*;

verus! {

/// The running topology: one shard per configured core.
pub struct MonorailTopology;

/// What every shard knows about the topology.
#[derive(Clone, Copy, Debug, PartialEq, Eq, Structural)]
pub struct TopologicalInformation {
    /// Number of shards.
    pub cores: usize,
}

/// Builds a [`MonorailConfiguration`].
pub struct MonorailConfigurationBuilder {
    limit: Option<usize>,
}

/// How a topology is launched.
pub struct MonorailConfiguration {
    /// Number of shards to launch; `None` launches one per logical CPU.
    pub limit: Option<usize>,
}

impl MonorailConfigurationBuilder {
    /// The limit configured so far.
    pub closed spec fn limit(self) -> Option<usize> {
        self.limit
    }

    /// Launch exactly `limit` shards. More shards than CPUs makes several
    /// shards share a CPU.
    pub fn with_core_override(self, limit: usize) -> (r: Self)
        ensures
            r.limit() == Some(limit),
    {
        MonorailConfigurationBuilder { limit: Some(limit) }
    }

    /// The configuration built so far.
    pub fn build(self) -> (r: MonorailConfiguration)
        ensures
            r.limit == self.limit(),
    {
        MonorailConfiguration { limit: self.limit }
    }
}

impl MonorailConfiguration {
    /// A builder with nothing configured: one shard per logical CPU.
    pub fn builder() -> (r: MonorailConfigurationBuilder)
        ensures
            r.limit() == None::<usize>,
    {
        MonorailConfigurationBuilder { limit: None }
    }

    /// Number of shards to launch on a machine with `cpus` logical CPUs:
    /// the configured limit, else one shard per CPU.
    pub fn core_count(&self, cpus: usize) -> (r: usize)
        ensures
            r == match self.limit {
                Some(limit) => limit,
                None => cpus,
            },
    {
        match self.limit {
            Some(limit) => limit,
            None => cpus,
        }
    }
}

/// `num_cpus::get`: the number of logical CPUs available to this process,
/// which its documentation promises to be at least 1. The exact count
/// depends on the machine, the CPU affinity and cgroup quotas, so nothing
/// more is stated.
#[verifier::external_body]
fn logical_cpus() -> (r: usize)
    ensures
        r >= 1,
{
    num_cpus::get()
}

/// The number of logical CPUs available to this process, as the operating
/// system reports it (at least 1).
pub fn logical_cpu_count() -> (r: usize)
    ensures
        r >= 1,
{
    logical_cpus()
}

/// The CPU that shard `shard` is pinned to on a machine with `cpus`
/// logical CPUs: shards are spread round-robin over the CPUs.
pub fn cpu_for_shard(shard: ShardId, cpus: usize) -> (r: usize)
    requires
        cpus >= 1,
    ensures
        r == shard.0 % cpus,
        r < cpus,
{
    shard.0 % cpus
}

/// The bridges that a topology of `n` shards sets up: one for every ordered
/// pair of distinct shards (requester, target).
pub open spec fn bridge_pairs(n: nat) -> Set<(ShardId, ShardId)> {
    Set::new(|p: (ShardId, ShardId)| p.0.0 < n && p.1.0 < n && p.0 != p.1)
}

/// Lexicographic order on pairs of shards.
pub open spec fn pair_before(a: (ShardId, ShardId), b: (ShardId, ShardId)) -> bool {
    a.0.0 < b.0.0 || (a.0.0 == b.0.0 && a.1.0 < b.1.0)
}

/// The order in which a topology of `core_count` shards sets up its
/// bridges: every ordered pair of distinct shards exactly once, by
/// requester and then by target.
pub fn bridge_setup_plan(core_count: usize) -> (r: Vec<(ShardId, ShardId)>)
    requires
        core_count * core_count <= usize::MAX,
    ensures
        r@.to_set() == bridge_pairs(core_count as nat),
        forall|i: int, j: int| 0 <= i < j < r@.len() ==> pair_before(#[trigger] r@[i], #[trigger] r@[j]),
{
    let mut plan: Vec<(ShardId, ShardId)> = Vec::new();
    let mut x: usize = 0;
    while x < core_count
        invariant
            x <= core_count,
            core_count * core_count <= usize::MAX,
            forall|i: int, j: int|
                0 <= i < j < plan@.len() ==> pair_before(#[trigger] plan@[i], #[trigger] plan@[j]),
            forall|i: int| 0 <= i < plan@.len() ==> (#[trigger] plan@[i]).0.0 < x,
            plan@.to_set() == Set::new(
                |p: (ShardId, ShardId)| p.0.0 < x && p.1.0 < core_count && p.0 != p.1,
            ),
        decreases core_count - x,
    {
        let mut y: usize = 0;
        while y < core_count
            invariant
                x < core_count,
                y <= core_count,
                forall|i: int, j: int|
                    0 <= i < j < plan@.len() ==> pair_before(
                        #[trigger] plan@[i],
                        #[trigger] plan@[j],
                    ),
                forall|i: int|
                    0 <= i < plan@.len() ==> (#[trigger] plan@[i]).0.0 < x || (plan@[i].0.0 == x
                        && plan@[i].1.0 < y),
                plan@.to_set() == Set::new(
                    |p: (ShardId, ShardId)|
                        (p.0.0 < x && p.1.0 < core_count && p.0 != p.1) || (p.0.0 == x && p.1.0
                            < y && p.0 != p.1),
                ),
            decreases core_count - y,
        {
            if x != y {
                let ghost before = plan@;
                plan.push((ShardId(x), ShardId(y)));
                proof {
                    assert(plan@ == before.push((ShardId(x), ShardId(y))));
                    assert forall|p: (ShardId, ShardId)|
                        #![trigger plan@.to_set().contains(p)]
                        plan@.to_set().contains(p) <==> ((p.0.0 < x && p.1.0 < core_count && p.0
                            != p.1) || (p.0.0 == x && p.1.0 < y + 1 && p.0 != p.1)) by {
                        if plan@.to_set().contains(p) {
                            let k = choose|k: int| 0 <= k < plan@.len() && plan@[k] == p;
                            if k < before.len() {
                                assert(before.contains(p));
                                assert(before.to_set().contains(p));
                            }
                        }
                        if (p.0.0 < x && p.1.0 < core_count && p.0 != p.1) || (p.0.0 == x && p.1.0
                            < y && p.0 != p.1) {
                            assert(before.to_set().contains(p));
                            let k = choose|k: int| 0 <= k < before.len() && before[k] == p;
                            assert(plan@[k] == p);
                        }
                        if p.0.0 == x && p.1.0 == y && p.0 != p.1 {
                            assert(plan@[before.len() as int] == p);
                        }
                    }
                    assert(plan@.to_set() =~= Set::new(
                        |p: (ShardId, ShardId)|
                            (p.0.0 < x && p.1.0 < core_count && p.0 != p.1) || (p.0.0 == x
                                && p.1.0 < y + 1 && p.0 != p.1),
                    ));
                }
            } else {
                proof {
                    assert(plan@.to_set() =~= Set::new(
                        |p: (ShardId, ShardId)|
                            (p.0.0 < x && p.1.0 < core_count && p.0 != p.1) || (p.0.0 == x
                                && p.1.0 < y + 1 && p.0 != p.1),
                    ));
                }
            }
            y = y + 1;
        }
        proof {
            assert(plan@.to_set() =~= Set::new(
                |p: (ShardId, ShardId)| p.0.0 < x + 1 && p.1.0 < core_count && p.0 != p.1,
            ));
        }
        x = x + 1;
    }
    proof {
        assert(plan@.to_set() =~= bridge_pairs(core_count as nat));
    }
    plan
}


/// How a shard reaches another shard: through a bridge made of the queue
/// it sends on and the queue it receives from, or, for itself, directly.
pub enum ShardRoute<P, C> {
    Bridge(P, C),
    Loopback,
}

/// The routing table a shard `shard` of a `total`-shard topology ends up
/// with, given the queues it collected.
pub open spec fn routes_from<P, C>(
    shard: ShardId,
    producers: Seq<Option<P>>,
    consumers: Seq<Option<C>>,
) -> Seq<ShardRoute<P, C>> {
    Seq::new(
        producers.len(),
        |i: int|
            if i == shard.0 {
                ShardRoute::Loopback
            } else {
                ShardRoute::Bridge(producers[i]->Some_0, consumers[i]->Some_0)
            },
    )
}

/// The state of one shard while the topology is being wired up: the send
/// queue towards each other shard, the receive queue from each other
/// shard, and the seed task if this shard was given one.
pub struct ShardConfigurator<P, C, S> {
    shard: ShardId,
    producers: Vec<Option<P>>,
    consumers: Vec<Option<C>>,
    seed: Option<S>,
}

impl<P, C, S> ShardConfigurator<P, C, S> {
    /// The shard being configured.
    pub closed spec fn shard(&self) -> ShardId {
        self.shard
    }

    /// Send queues collected so far, by target shard.
    pub closed spec fn producers(&self) -> Seq<Option<P>> {
        self.producers@
    }

    /// Receive queues collected so far, by requesting shard.
    pub closed spec fn consumers(&self) -> Seq<Option<C>> {
        self.consumers@
    }

    /// The seed task, if any.
    pub closed spec fn seed(&self) -> Option<S> {
        self.seed
    }

    /// One slot per shard of the topology, and the shard itself among them.
    pub closed spec fn wf(&self) -> bool {
        &&& self.producers@.len() == self.consumers@.len()
        &&& self.shard.0 < self.producers@.len()
    }

    /// Number of shards in the topology.
    pub closed spec fn total(&self) -> nat {
        self.producers@.len()
    }

    /// Every other shard has sent its queue and received one.
    pub open spec fn complete(&self) -> bool {
        forall|i: int|
            0 <= i < self.total() && i != self.shard().0 ==> (#[trigger] self.producers()[i]) is Some
                && self.consumers()[i] is Some
    }

    /// Starts configuring shard `shard` of a topology of `total` shards.
    pub fn new(shard: ShardId, total: usize) -> (r: Self)
        requires
            shard.0 < total,
        ensures
            r.wf(),
            r.shard() == shard,
            r.total() == total,
            r.producers() == Seq::new(total as nat, |i: int| None::<P>),
            r.consumers() == Seq::new(total as nat, |i: int| None::<C>),
            r.seed() is None,
    {
        let mut producers: Vec<Option<P>> = Vec::new();
        let mut consumers: Vec<Option<C>> = Vec::new();
        let mut i: usize = 0;
        while i < total
            invariant
                i <= total,
                producers@ == Seq::new(i as nat, |k: int| None::<P>),
                consumers@ == Seq::new(i as nat, |k: int| None::<C>),
            decreases total - i,
        {
            producers.push(None);
            consumers.push(None);
            i = i + 1;
        }
        ShardConfigurator { shard, producers, consumers, seed: None }
    }

    /// Records the queue this shard sends on to reach `target`.
    pub fn set_producer(&mut self, target: ShardId, producer: P)
        requires
            old(self).wf(),
            target.0 < old(self).total(),
        ensures
            final(self).wf(),
            final(self).shard() == old(self).shard(),
            final(self).total() == old(self).total(),
            final(self).producers() == old(self).producers().update(target.0 as int, Some(producer)),
            final(self).consumers() == old(self).consumers(),
            final(self).seed() == old(self).seed(),
    {
        self.producers.set(target.0, Some(producer));
    }

    /// Records the queue this shard receives on from `requester`.
    pub fn set_consumer(&mut self, requester: ShardId, consumer: C)
        requires
            old(self).wf(),
            requester.0 < old(self).total(),
        ensures
            final(self).wf(),
            final(self).shard() == old(self).shard(),
            final(self).total() == old(self).total(),
            final(self).consumers() == old(self).consumers().update(
                requester.0 as int,
                Some(consumer),
            ),
            final(self).producers() == old(self).producers(),
            final(self).seed() == old(self).seed(),
    {
        self.consumers.set(requester.0, Some(consumer));
    }

    /// Records the task this shard runs first once it is up.
    pub fn set_seed(&mut self, seed: S)
        requires
            old(self).wf(),
        ensures
            final(self).wf(),
            final(self).shard() == old(self).shard(),
            final(self).total() == old(self).total(),
            final(self).producers() == old(self).producers(),
            final(self).consumers() == old(self).consumers(),
            final(self).seed() == Some(seed),
    {
        self.seed = Some(seed);
    }

    /// Whether every other shard has been wired up in both directions.
    pub fn is_complete(&self) -> (r: bool)
        requires
            self.wf(),
        ensures
            r == self.complete(),
    {
        let mut i: usize = 0;
        while i < self.producers.len()
            invariant
                self.wf(),
                i <= self.producers@.len(),
                forall|k: int|
                    0 <= k < i && k != self.shard.0 ==> (#[trigger] self.producers@[k]) is Some
                        && self.consumers@[k] is Some,
            decreases self.producers@.len() - i,
        {
            if i != self.shard.0 {
                if self.producers[i].is_none() || self.consumers[i].is_none() {
                    return false;
                }
            }
            i = i + 1;
        }
        true
    }

    /// What the shard knows about its topology: the number of shards, one
    /// per entry of the routing table that [`Self::finalize`] builds.
    pub fn topology_info(&self) -> (r: TopologicalInformation)
        ensures
            r.cores == self.total(),
    {
        TopologicalInformation { cores: self.producers.len() }
    }

    /// Finishes the configuration: the routing table, with a loopback for
    /// the shard itself and a bridge to every other shard, and the seed.
    pub fn finalize(self) -> (r: (Vec<ShardRoute<P, C>>, Option<S>))
        requires
            self.wf(),
            self.complete(),
        ensures
            r.0@ == routes_from(self.shard(), self.producers(), self.consumers()),
            r.0@.len() == self.total(),
            r.1 == self.seed(),
    {
        let ghost prods = self.producers@;
        let ghost cons = self.consumers@;
        let ghost target = routes_from(self.shard, prods, cons);
        let own = self.shard.0;
        let mut producers = self.producers;
        let mut consumers = self.consumers;
        let mut routes: Vec<ShardRoute<P, C>> = Vec::new();
        let mut n: usize = producers.len();
        while n > 0
            invariant
                n <= prods.len(),
                producers@ == prods.subrange(0, n as int),
                consumers@ == cons.subrange(0, n as int),
                prods.len() == cons.len(),
                target == routes_from(ShardId(own), prods, cons),
                forall|i: int|
                    0 <= i < prods.len() && i != own ==> (#[trigger] prods[i]) is Some
                        && cons[i] is Some,
                routes@ == target.subrange(n as int, prods.len() as int),
            decreases n,
        {
            let p = producers.pop().unwrap();
            let c = consumers.pop().unwrap();
            n = n - 1;
            let route = if n == own {
                ShardRoute::Loopback
            } else {
                ShardRoute::Bridge(p.unwrap(), c.unwrap())
            };
            routes.insert(0, route);
            assert(routes@ =~= target.subrange(n as int, prods.len() as int));
        }
        assert(routes@ =~= target);
        (routes, self.seed)
    }
}

/// Which receive queues and send queues shard `shard` holds once the bridge
/// plan `plan` has been carried out: a queue from `x` for every planned
/// pair (x, shard), and a queue to `y` for every planned pair (shard, y).
pub open spec fn wired_slots(plan: Set<(ShardId, ShardId)>, shard: ShardId) -> (Set<nat>, Set<nat>) {
    (
        Set::new(|i: nat| plan.contains((shard, ShardId(i as usize)))),
        Set::new(|i: nat| plan.contains((ShardId(i as usize), shard))),
    )
}

/// Carrying out the bridge plan of an `n`-shard topology wires every shard
/// to every other shard in both directions: each shard gets a send queue to,
/// and a receive queue from, every other shard, and none for itself.
pub proof fn law_plan_wires_every_pair(n: usize, shard: ShardId, other: usize)
    requires
        shard.0 < n,
        other < n,
    ensures
        wired_slots(bridge_pairs(n as nat), shard).0.contains(other as nat) <==> other != shard.0,
        wired_slots(bridge_pairs(n as nat), shard).1.contains(other as nat) <==> other != shard.0,
{
    assert(ShardId(other) == shard <==> other == shard.0);
}


/// The next shard an outcome reported on `current` is forwarded to, if any.
pub open spec fn monitor_next(current: ShardId) -> Option<ShardId> {
    if current.0 == 0 {
        None
    } else {
        Some(ShardId(0))
    }
}

/// An outcome reported on any shard reaches the monitor after at most one
/// forwarding step: the shard it is forwarded to resolves it.
pub proof fn law_monitor_reached_in_one_hop(current: ShardId)
    ensures
        match monitor_next(current) {
            Some(next) => monitor_next(next) is None,
            None => current.0 == 0,
        },
{
}

/// Where the outcome of the whole topology is reported from shard
/// `current`: shard 0 holds the monitor and resolves it itself (`None`);
/// any other shard forwards the outcome to shard 0.
pub fn monitor_route(current: ShardId) -> (r: Option<ShardId>)
    ensures
        r == monitor_next(current),
{
    if current.0 == 0 {
        None
    } else {
        Some(ShardId(0))
    }
}


/// The order in which the shards of an `n`-shard topology are told to
/// finish their configuration: from the last shard down to shard 0, so
/// that shard 0, which runs the seed task, starts last.
pub fn finalize_order(n: usize) -> (r: Vec<ShardId>)
    ensures
        r@.len() == n,
        forall|i: int| 0 <= i < n ==> (#[trigger] r@[i]).0 == n - 1 - i,
{
    let mut order: Vec<ShardId> = Vec::new();
    let mut k: usize = n;
    while k > 0
        invariant
            k <= n,
            order@.len() == n - k,
            forall|i: int| 0 <= i < n - k ==> (#[trigger] order@[i]).0 == n - 1 - i,
        decreases k,
    {
        k = k - 1;
        order.push(ShardId(k));
    }
    order
}

} // verus!

