use vstd::prelude::*;

verus! {

/// Number of timed stages in the backoff schedule; once they are used
/// up the scheduler parks on its eventfd.
pub const BACKOFF_STAGES: usize = 4;

/// Sleep of a schedule stage, in microseconds.
pub open spec fn stage_micros(stage: int) -> u64 {
    if stage == 0 {
        10
    } else if stage == 1 {
        50
    } else if stage == 2 {
        150
    } else {
        250
    }
}

/// Number of idle rounds a schedule stage lasts.
pub open spec fn stage_rounds(stage: int) -> usize {
    if stage == 3 {
        25
    } else {
        10
    }
}

/// Idle rounds spent in the stages before `stage`.
pub open spec fn rounds_before(stage: int) -> nat {
    if stage <= 0 {
        0
    } else if stage == 1 {
        10
    } else if stage == 2 {
        20
    } else if stage == 3 {
        30
    } else {
        55
    }
}

/// The stage that the `n`-th idle round (counted from 1 after a reset)
/// falls in: the number of stage boundaries already reached.
pub open spec fn stage_of_round(n: nat) -> int {
    if n >= rounds_before(4) {
        4
    } else if n >= rounds_before(3) {
        3
    } else if n >= rounds_before(2) {
        2
    } else if n >= rounds_before(1) {
        1
    } else {
        0
    }
}

/// The round counter after one more idle round: it counts up until the
/// parked stage has counted as many rounds as a `usize` holds.
pub open spec fn next_rounds(n: nat) -> nat {
    if n < rounds_before(4) + usize::MAX {
        n + 1
    } else {
        n
    }
}

/// What the `n`-th call of [`AdaptiveBackoff::backoff`] after a reset
/// (counted from 1) answers.
pub open spec fn expected_backoff(n: nat) -> BackoffResult {
    let stage = stage_of_round(n);
    if stage == 4 {
        BackoffResult::Park
    } else {
        BackoffResult::Timeout(stage_micros(stage))
    }
}

/// What the scheduler does when it has run out of work.
#[derive(Debug, Clone, Copy, PartialEq, Eq, Structural)]
pub enum BackoffResult {
    /// Sleep on a ring timeout of this many microseconds.
    Timeout(u64),
    /// Park on the eventfd until another thread wakes the shard.
    Park,
}

/// Entry `stage` of the backoff schedule: (sleep in microseconds, rounds).
pub fn backoff_schedule(stage: usize) -> (r: (u64, usize))
    requires
        stage < BACKOFF_STAGES,
    ensures
        r.0 == stage_micros(stage as int),
        r.1 == stage_rounds(stage as int),
{
    if stage == 0 {
        (10, 10)
    } else if stage == 1 {
        (50, 10)
    } else if stage == 2 {
        (150, 10)
    } else {
        (250, 25)
    }
}

/// The idle policy of a shard scheduler: a fixed schedule of growing
/// ring timeouts, followed by parking.
pub struct AdaptiveBackoff {
    backoff: (u64, usize),
    spin_count: usize,
    idx: usize,
}

impl AdaptiveBackoff {
    /// The state is consistent: the cached stage matches the schedule and,
    /// before parking, the round counter has not reached the stage length.
    pub closed spec fn wf(&self) -> bool {
        &&& self.idx <= BACKOFF_STAGES
        &&& self.idx < BACKOFF_STAGES ==> {
            &&& self.backoff.0 == stage_micros(self.idx as int)
            &&& self.backoff.1 == stage_rounds(self.idx as int)
            &&& self.spin_count < self.backoff.1
        }
    }

    /// Number of idle rounds since the last reset.
    pub closed spec fn rounds(&self) -> nat {
        rounds_before(self.idx as int) + self.spin_count as nat
    }

    /// A fresh backoff, at the start of the schedule.
    pub fn new() -> (r: Self)
        ensures
            r.wf(),
            r.rounds() == 0,
    {
        let first = backoff_schedule(0);
        AdaptiveBackoff { backoff: first, idx: 0, spin_count: 0 }
    }

    /// Records one more idle round and says how to wait. Once parked, the
    /// round counter stops at the largest count it can hold; the answer is
    /// `Park` from then on either way.
    pub fn backoff(&mut self) -> (r: BackoffResult)
        requires
            old(self).wf(),
        ensures
            final(self).wf(),
            final(self).rounds() == next_rounds(old(self).rounds()),
            r == expected_backoff(old(self).rounds() + 1),
    {
        if self.idx == BACKOFF_STAGES {
            if self.spin_count < usize::MAX {
                self.spin_count = self.spin_count + 1;
            }
            BackoffResult::Park
        } else {
            self.spin_count = self.spin_count + 1;
            if self.backoff.1 == self.spin_count {
                self.spin_count = 0;
                self.idx = self.idx + 1;
                if self.idx == BACKOFF_STAGES {
                    return BackoffResult::Park;
                } else {
                    self.backoff = backoff_schedule(self.idx);
                }
            }
            BackoffResult::Timeout(self.backoff.0)
        }
    }

    /// Goes back to the start of the schedule.
    pub fn reset(&mut self)
        ensures
            final(self).wf(),
            final(self).rounds() == 0,
    {
        self.idx = 0;
        self.backoff = backoff_schedule(0);
        self.spin_count = 0;
    }
}


/// Once the schedule has reached parking, every later idle round parks too.
pub proof fn law_park_is_final(n: nat, m: nat)
    requires
        1 <= n <= m,
        expected_backoff(n) == BackoffResult::Park,
    ensures
        expected_backoff(m) == BackoffResult::Park,
{
}

/// The timeouts never shrink along the schedule: a later timed round waits
/// at least as long as an earlier one, and an earlier round is timed too.
pub proof fn law_timeouts_never_shrink(n: nat, m: nat)
    requires
        1 <= n <= m,
        expected_backoff(m) is Timeout,
    ensures
        expected_backoff(n) is Timeout,
        expected_backoff(n)->Timeout_0 <= expected_backoff(m)->Timeout_0,
{
}

/// A backoff parks exactly from its `rounds_before(BACKOFF_STAGES)`-th idle
/// round on; before that it always answers with a timeout.
pub proof fn law_parks_after_schedule(n: nat)
    requires
        1 <= n,
    ensures
        (expected_backoff(n) == BackoffResult::Park) <==> n >= rounds_before(
            BACKOFF_STAGES as int,
        ),
{
}

/// The round counter after `calls` calls of [`AdaptiveBackoff::backoff`]
/// on a fresh (or just reset) backoff.
pub open spec fn rounds_after(calls: nat) -> nat
    decreases calls,
{
    if calls == 0 {
        0
    } else {
        next_rounds(rounds_after((calls - 1) as nat))
    }
}

/// The round counter counts every call until it reaches its limit and
/// stays there.
proof fn lemma_rounds_after(calls: nat)
    ensures
        rounds_after(calls) == if calls <= rounds_before(4) + usize::MAX {
            calls
        } else {
            (rounds_before(4) + usize::MAX) as nat
        },
    decreases calls,
{
    if calls > 0 {
        lemma_rounds_after((calls - 1) as nat);
    }
}

/// A run of calls from a fresh backoff: the `k - 1` calls before the
/// `k`-th (counted from 1) leave the round counter at `k - 1` (at its limit
/// once that is passed), and the `k`-th call answers `expected_backoff(k)`,
/// whatever `k` is: a 10 microsecond timeout for calls 1 to 9, 50 for 10 to
/// 19, 150 for 20 to 29, 250 for 30 to 54, and parking from call 55 on.
pub proof fn law_kth_call_from_fresh(k: nat)
    requires
        k >= 1,
    ensures
        k - 1 <= rounds_before(BACKOFF_STAGES as int) + usize::MAX ==> rounds_after(
            (k - 1) as nat,
        ) == k - 1,
        expected_backoff(rounds_after((k - 1) as nat) + 1) == expected_backoff(k),
        1 <= k <= 9 ==> expected_backoff(k) == BackoffResult::Timeout(10),
        10 <= k <= 19 ==> expected_backoff(k) == BackoffResult::Timeout(50),
        20 <= k <= 29 ==> expected_backoff(k) == BackoffResult::Timeout(150),
        30 <= k <= 54 ==> expected_backoff(k) == BackoffResult::Timeout(250),
        k >= 55 ==> expected_backoff(k) == BackoffResult::Park,
{
    lemma_rounds_after((k - 1) as nat);
}

/// What an idle scheduler does about its wake-up timer.
#[derive(Debug, Clone, Copy, PartialEq, Eq, Structural)]
pub enum TimerAction {
    /// The previously installed timeout has not fired yet: leave it.
    KeepPending,
    /// Install a ring timeout of this many microseconds.
    Arm(u64),
    /// Park on the eventfd.
    Park,
}

/// The timer step of an idle scheduler. `previous` is `None` when no
/// timeout is installed, `Some(true)` when the installed one has fired and
/// `Some(false)` when it is still pending. Only when no timeout is pending
/// does the backoff advance.
pub fn timer_action(previous: Option<bool>, backoff: &mut AdaptiveBackoff) -> (r: TimerAction)
    requires
        old(backoff).wf(),
    ensures
        final(backoff).wf(),
        previous == Some(false) ==> r == TimerAction::KeepPending && *final(backoff) == *old(
            backoff,
        ),
        previous != Some(false) ==> {
            &&& final(backoff).rounds() == next_rounds(old(backoff).rounds())
            &&& r == match expected_backoff(old(backoff).rounds() + 1) {
                BackoffResult::Park => TimerAction::Park,
                BackoffResult::Timeout(micros) => TimerAction::Arm(micros),
            }
        },
{
    let should_set = match previous {
        None => true,
        Some(fired) => fired,
    };
    if should_set {
        match backoff.backoff() {
            BackoffResult::Park => TimerAction::Park,
            BackoffResult::Timeout(micros) => TimerAction::Arm(micros),
        }
    } else {
        TimerAction::KeepPending
    }
}

} // verus!
