use std::sync::Arc;
use std::time::{Duration, Instant};

use guestjs::errors::Error;
use guestjs::execution::{nanos, CancelSignal, Cancellation, Deadline, ExecutionPolicy};

fn wait(time: Duration) {
    let start = Instant::now();
    while start.elapsed() < time {}
}

#[test]
fn a_cancelled_policy_is_rejected_at_begin() {
    let cancellation = Cancellation::new();

    cancellation.cancel();

    assert!(matches!(
        ExecutionPolicy::new(None, Some(Arc::new(cancellation)), None).begin(),
        Err(Error::Cancelled),
    ));
}

#[test]
fn an_expired_deadline_refines_an_interrupt_into_a_timeout() {
    let mut policy = ExecutionPolicy::new(Some(Duration::from_millis(1)), None, None);

    policy.begin().unwrap();

    wait(Duration::from_millis(5));

    assert!(matches!(
        policy.classify::<()>(Err(Error::interrupted())),
        Err(Error::Timeout),
    ));
}

#[test]
fn a_cancellation_refines_an_interrupt_into_a_cancellation() {
    let cancellation = Cancellation::new();
    let mut policy = ExecutionPolicy::new(None, Some(Arc::new(cancellation.clone())), None);

    policy.begin().unwrap();

    cancellation.cancel();

    assert!(matches!(
        policy.classify::<()>(Err(Error::interrupted())),
        Err(Error::Cancelled),
    ));
}

#[test]
fn a_non_interrupt_error_passes_through_even_past_the_deadline() {
    let mut policy = ExecutionPolicy::new(Some(Duration::from_millis(1)), None, None);

    policy.begin().unwrap();

    wait(Duration::from_millis(5));

    assert!(matches!(
        policy.classify::<()>(Err(Error::guest_exception("thrown"))),
        Err(Error::GuestException { .. }),
    ));
}

#[test]
fn a_healthy_result_passes_through_unchanged() {
    let mut policy = ExecutionPolicy::new(Some(Duration::from_secs(10)), None, None);

    policy.begin().unwrap();

    assert_eq!(policy.classify(Ok::<_, Error>(7)).unwrap(), 7);
}

#[test]
fn should_gc_fires_every_nth_execution() {
    let mut policy = ExecutionPolicy::new(None, None, Some(3));

    assert_eq!(
        (0..6).map(|_| policy.should_gc()).collect::<Vec<_>>(),
        vec![false, false, true, false, false, true],
    );
}

#[test]
fn cancellation_is_shared_by_copies_and_final() {
    let cancellation = Cancellation::default();
    let copy = cancellation.clone();

    assert!(!cancellation.is_cancelled());
    copy.cancel();
    assert!(cancellation.is_cancelled());
    assert!(CancelSignal::is_cancelled(&cancellation));
    copy.cancel();
    assert!(copy.is_cancelled());
}

#[test]
fn a_tokio_token_is_a_cancel_signal() {
    let token = tokio_util::sync::CancellationToken::new();

    assert!(!CancelSignal::is_cancelled(&token));
    token.cancel();
    assert!(CancelSignal::is_cancelled(&token));

    let mut policy = ExecutionPolicy::new(None, Some(Arc::new(token)), None);
    assert!(policy.is_cancelled());
    assert!(policy.should_abort());
    assert!(matches!(policy.begin(), Err(Error::Cancelled)));
}

#[test]
fn durations_are_counted_in_nanoseconds() {
    assert_eq!(nanos(&Duration::from_millis(1_500)), 1_500_000_000);
    assert_eq!(nanos(&Duration::new(2, 3)), 2_000_000_003);
    assert_eq!(nanos(&Duration::from_secs(0)), 0);
    assert_eq!(nanos(&Duration::MAX), u64::MAX as u128 * 1_000_000_000 + 999_999_999);
}

#[test]
fn a_deadline_comes_when_its_budget_is_used_up() {
    let mut deadline = Deadline::default();

    assert!(!deadline.expired_at(u64::MAX as u128));
    deadline.arm_at(100, 50).unwrap();
    assert!(!deadline.expired_at(149));
    assert!(deadline.expired_at(150));
    assert!(deadline.expired_at(151));
    deadline.disarm();
    assert!(!deadline.expired_at(151));
    assert!(!deadline.expired());
}

#[test]
fn a_deadline_is_cut_to_sixty_four_bits() {
    let mut deadline = Deadline::default();

    deadline.arm_at(u64::MAX as u128, 3).unwrap();
    assert!(deadline.expired_at(2));
    assert!(!deadline.expired_at(1));
    deadline.arm_at(u64::MAX as u128, 1).unwrap();
    assert!(!deadline.expired_at(u64::MAX as u128));
}

#[test]
fn a_budget_beyond_every_duration_is_refused() {
    let mut policy = ExecutionPolicy::new(Some(Duration::MAX), None, None);

    wait(Duration::from_millis(1));
    assert_eq!(
        policy.begin().unwrap_err().text(),
        "unexpected error: overflow when adding durations",
    );
    assert!(policy.begin_at(false, 1).is_err());
    assert!(!policy.should_abort_at(false, u64::MAX as u128));
    assert!(policy.begin_at(false, 0).is_ok());
    assert!(matches!(policy.begin_at(true, 1), Err(Error::Cancelled)));

    let mut deadline = Deadline::default();

    deadline.arm_at(1, 1).unwrap();
    assert!(deadline.arm_at(2, u128::MAX).is_err());
    assert!(deadline.expired_at(2));
}

#[test]
fn a_removed_deadline_stops_nothing() {
    let mut policy = ExecutionPolicy::new(
        Some(Duration::from_nanos(10)),
        Some(Arc::new(Cancellation::new())),
        Some(2),
    );

    policy.begin_at(false, 5).unwrap();
    policy.disarm();
    assert!(!policy.should_abort());
    assert!(matches!(
        policy.classify::<()>(Err(Error::interrupted())),
        Err(Error::Interrupted),
    ));
    assert!(!policy.should_gc());
    assert!(policy.should_gc());
}

#[test]
fn an_execution_ends_without_a_deadline() {
    let mut policy = ExecutionPolicy::new(Some(Duration::from_secs(5)), None, Some(2));

    policy.begin_at(false, 10).unwrap();
    assert!(!policy.should_abort_at(false, 5_000_000_009));
    assert!(policy.should_abort_at(false, 5_000_000_010));
    assert!(policy.should_abort_at(true, 0));

    let (result, collect) = policy.finish_at::<()>(Err(Error::interrupted()), false, 5_000_000_010);
    assert!(matches!(result, Err(Error::Timeout)));
    assert!(!collect);
    assert!(!policy.should_abort_at(false, 5_000_000_010));

    let (result, collect) = policy.finish(Ok(3));
    assert_eq!(result.unwrap(), 3);
    assert!(collect);
}

#[test]
fn an_interrupt_without_a_reason_stays_an_interrupt() {
    let policy = ExecutionPolicy::new(None, None, None);

    assert!(matches!(
        policy.classify_at::<()>(Err(Error::interrupted()), false, 7),
        Err(Error::Interrupted),
    ));
    assert!(matches!(
        policy.classify_at::<()>(Err(Error::interrupted()), true, 7),
        Err(Error::Cancelled),
    ));
    assert!(matches!(policy.classify_at(Ok(1), true, 7), Ok(1)));
}

#[test]
fn a_cancelled_start_keeps_the_earlier_deadline() {
    let mut policy = ExecutionPolicy::new(Some(Duration::from_nanos(10)), None, None);

    policy.begin_at(false, 5).unwrap();
    assert!(matches!(policy.begin_at(true, 90), Err(Error::Cancelled)));
    assert!(policy.should_abort_at(false, 15));
}

#[test]
fn no_collection_is_due_without_a_count() {
    let mut never = ExecutionPolicy::new(None, None, None);
    let mut always = ExecutionPolicy::new(None, None, Some(0));

    assert!((0..10).all(|_| !never.should_gc()));
    assert!((0..10).all(|_| always.should_gc()));
}
