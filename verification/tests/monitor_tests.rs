use ephemeral_vault::funding::AutoDepositCalculator;
use ephemeral_vault::monitor::{SessionSummary, VaultMonitor};
use ephemeral_vault::retry::{BackoffPolicy, RetryDecision, SubmitOutcome};

fn monitor() -> VaultMonitor {
    VaultMonitor::new(60, AutoDepositCalculator::new(5000, 15_000_000, 1_000_000_000))
}

fn summary(id: u128, active: bool, expires_at: i64, balance: u64) -> SessionSummary {
    SessionSummary {
        id,
        active,
        expires_at,
        vault_balance: balance,
        forecast_tx_count: 10,
    }
}

#[test]
fn tick_tops_up_underfunded_active_sessions() {
    let monitor = monitor();
    let sessions = vec![
        summary(1, true, 10_000, 0),
        summary(2, true, 10_000, 1_000_000_000),
        summary(3, false, 10_000, 0),
    ];
    let plan = monitor.plan_tick(&sessions, 5_000);
    assert_eq!(plan.top_ups.len(), 1);
    assert_eq!(plan.top_ups[0].session_id, 1);
    assert_eq!(plan.top_ups[0].amount, 15_050_000);
    assert!(plan.cleanups.is_empty());
}

#[test]
fn tick_flags_each_expired_session_exactly_once() {
    let monitor = monitor();
    let sessions = vec![
        summary(1, true, 100, 1_000_000_000),
        summary(2, true, 300, 1_000_000_000),
        summary(3, true, 150, 1_000_000_000),
        summary(4, false, 100, 1_000_000_000),
    ];
    let plan = monitor.plan_tick(&sessions, 200);
    assert_eq!(plan.cleanups, vec![1, 3]);
}

#[test]
fn expiry_boundary_is_inclusive() {
    let monitor = monitor();
    let sessions = vec![summary(1, true, 200, 1_000_000_000)];
    assert_eq!(monitor.plan_tick(&sessions, 199).cleanups.len(), 0);
    assert_eq!(monitor.plan_tick(&sessions, 200).cleanups, vec![1]);
}

#[test]
fn repeated_ticks_flag_until_cleaned() {
    let monitor = monitor();
    let before_cleanup = vec![summary(1, true, 100, 1_000_000_000)];
    // The same snapshot yields the same plan on every tick.
    assert_eq!(monitor.plan_tick(&before_cleanup, 200).cleanups, vec![1]);
    assert_eq!(monitor.plan_tick(&before_cleanup, 260).cleanups, vec![1]);
    // Once cleanup landed the snapshot shows the row inactive; no more flags.
    let after_cleanup = vec![summary(1, false, 100, 1_000_000_000)];
    assert!(monitor.plan_tick(&after_cleanup, 320).cleanups.is_empty());
}

#[test]
fn empty_snapshot_plans_nothing() {
    let monitor = monitor();
    let plan = monitor.plan_tick(&Vec::new(), 0);
    assert!(plan.top_ups.is_empty());
    assert!(plan.cleanups.is_empty());
}

#[test]
fn standard_backoff_doubles_from_200() {
    let policy = BackoffPolicy::standard();
    assert_eq!(policy.schedule(), vec![200, 400, 800, 1600, 3200]);
    // The whole waiting budget is about 6.2 seconds.
    assert_eq!(policy.schedule().iter().sum::<u64>(), 6200);
}

#[test]
fn retry_decisions_follow_the_outcome() {
    let policy = BackoffPolicy::standard();
    assert_eq!(policy.next_step(0, SubmitOutcome::Confirmed), RetryDecision::Done);
    assert_eq!(policy.next_step(0, SubmitOutcome::Fatal), RetryDecision::Abort);
    assert_eq!(
        policy.next_step(0, SubmitOutcome::Transient),
        RetryDecision::RetryAfter(200)
    );
    assert_eq!(
        policy.next_step(3, SubmitOutcome::Transient),
        RetryDecision::RetryAfter(1600)
    );
    // The fifth attempt exhausts the budget.
    assert_eq!(policy.next_step(4, SubmitOutcome::Transient), RetryDecision::Exhausted);
    // A rejection aborts even on the first attempt.
    assert_eq!(policy.next_step(4, SubmitOutcome::Fatal), RetryDecision::Abort);
}

#[test]
fn backoff_saturates_instead_of_overflowing() {
    let policy = BackoffPolicy {
        base_delay_ms: u64::MAX / 2,
        multiplier: 3,
        max_attempts: 4,
    };
    assert_eq!(policy.delay_for_attempt(0), u64::MAX / 2);
    assert_eq!(policy.delay_for_attempt(1), u64::MAX);
    assert_eq!(policy.delay_for_attempt(2), u64::MAX);
}
