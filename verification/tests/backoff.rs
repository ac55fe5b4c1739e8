use monorail::backoff::{backoff_schedule, timer_action, AdaptiveBackoff, BackoffResult, TimerAction};

const SCHEDULE: [(u64, usize); 4] = [(10, 10), (50, 10), (150, 10), (250, 25)];

#[test]
fn test_adaptive_backoff() {
    let mut backoff = AdaptiveBackoff::new();
    for (time, reps) in SCHEDULE.iter() {
        assert_eq!(backoff.backoff(), BackoffResult::Timeout(*time));
        for _ in 0..(*reps - 1) {
            backoff.backoff();
        }
    }
    for _ in 0..10 {
        assert_eq!(backoff.backoff(), BackoffResult::Park);
    }
}

#[test]
fn schedule_table_matches() {
    for (i, entry) in SCHEDULE.iter().enumerate() {
        assert_eq!(backoff_schedule(i), *entry);
    }
}

#[test]
fn reset_restarts_the_schedule() {
    let mut backoff = AdaptiveBackoff::new();
    for _ in 0..60 {
        backoff.backoff();
    }
    assert_eq!(backoff.backoff(), BackoffResult::Park);
    backoff.reset();
    assert_eq!(backoff.backoff(), BackoffResult::Timeout(10));
}

#[test]
fn stage_switches_on_the_tenth_round() {
    let mut backoff = AdaptiveBackoff::new();
    for _ in 0..9 {
        assert_eq!(backoff.backoff(), BackoffResult::Timeout(10));
    }
    assert_eq!(backoff.backoff(), BackoffResult::Timeout(50));
}

#[test]
fn parks_from_round_fifty_five() {
    let mut backoff = AdaptiveBackoff::new();
    for _ in 0..54 {
        assert!(matches!(backoff.backoff(), BackoffResult::Timeout(_)));
    }
    assert_eq!(backoff.backoff(), BackoffResult::Park);
}

#[test]
fn pending_timer_keeps_backoff() {
    let mut backoff = AdaptiveBackoff::new();
    assert_eq!(timer_action(None, &mut backoff), TimerAction::Arm(10));
    for _ in 0..5 {
        assert_eq!(timer_action(Some(false), &mut backoff), TimerAction::KeepPending);
    }
    for _ in 0..8 {
        assert_eq!(timer_action(Some(true), &mut backoff), TimerAction::Arm(10));
    }
    assert_eq!(timer_action(Some(true), &mut backoff), TimerAction::Arm(50));
}

#[test]
fn parking_lasts_until_reset() {
    let mut backoff = AdaptiveBackoff::new();
    for _ in 0..54 {
        assert!(matches!(backoff.backoff(), BackoffResult::Timeout(_)));
    }
    for _ in 0..1000 {
        assert_eq!(backoff.backoff(), BackoffResult::Park);
    }
    backoff.reset();
    assert_eq!(backoff.backoff(), BackoffResult::Timeout(10));
}
