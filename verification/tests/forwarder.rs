use voike_agent::retry::{
    backoff_secs, classify_status, drive_send, next_step, status_is_success, AttemptOutcome,
    DeliveryFailure, SendStep, MAX_ATTEMPTS,
};

#[test]
fn immediate_success_uses_one_attempt() {
    let outcomes = vec![AttemptOutcome::Success];
    let plan = drive_send(&outcomes);
    assert_eq!(plan.result, Ok(1));
    assert_eq!(plan.backoffs, Vec::<u64>::new());
}

#[test]
fn one_rejection_then_success_uses_two_attempts() {
    let outcomes = vec![AttemptOutcome::Rejected(503), AttemptOutcome::Success];
    let plan = drive_send(&outcomes);
    assert_eq!(plan.result, Ok(2));
    assert_eq!(plan.backoffs, vec![2]);
}

#[test]
fn transport_error_then_success_uses_two_attempts() {
    let outcomes = vec![AttemptOutcome::TransportError, AttemptOutcome::Success];
    let plan = drive_send(&outcomes);
    assert_eq!(plan.result, Ok(2));
    assert_eq!(plan.backoffs, vec![2]);
}

#[test]
fn two_rejections_then_success_delivers_on_third() {
    let outcomes = vec![
        AttemptOutcome::Rejected(500),
        AttemptOutcome::Rejected(500),
        AttemptOutcome::Success,
    ];
    let plan = drive_send(&outcomes);
    assert_eq!(plan.result, Ok(3));
    assert_eq!(plan.backoffs, vec![2, 4]);
}

#[test]
fn three_failures_exhaust_after_exactly_three_attempts() {
    let outcomes = vec![
        AttemptOutcome::Rejected(500),
        AttemptOutcome::TransportError,
        AttemptOutcome::Rejected(503),
    ];
    let plan = drive_send(&outcomes);
    assert_eq!(plan.result, Err(DeliveryFailure { attempts: 3 }));
    assert_eq!(plan.backoffs, vec![2, 4]);
    assert_eq!(plan.backoffs.iter().sum::<u64>(), 6);
}

#[test]
fn success_after_budget_is_too_late() {
    let outcomes = vec![
        AttemptOutcome::TransportError,
        AttemptOutcome::TransportError,
        AttemptOutcome::TransportError,
        AttemptOutcome::Success,
    ];
    let plan = drive_send(&outcomes);
    assert_eq!(plan.result, Err(DeliveryFailure { attempts: 3 }));
}

#[test]
fn backoff_doubles_per_attempt() {
    assert_eq!(backoff_secs(1), 2);
    assert_eq!(backoff_secs(2), 4);
}

#[test]
fn status_code_classification_is_2xx_only() {
    assert!(status_is_success(200));
    assert!(status_is_success(204));
    assert!(status_is_success(299));
    assert!(!status_is_success(199));
    assert!(!status_is_success(300));
    assert!(!status_is_success(404));
    assert!(!status_is_success(500));
    assert_eq!(classify_status(201), AttemptOutcome::Success);
    assert_eq!(classify_status(500), AttemptOutcome::Rejected(500));
}

#[test]
fn next_step_follows_the_policy() {
    assert_eq!(MAX_ATTEMPTS, 3);
    assert_eq!(next_step(1, &AttemptOutcome::Success), SendStep::Done);
    assert_eq!(
        next_step(1, &AttemptOutcome::Rejected(500)),
        SendStep::Backoff(2)
    );
    assert_eq!(
        next_step(2, &AttemptOutcome::TransportError),
        SendStep::Backoff(4)
    );
    assert_eq!(
        next_step(3, &AttemptOutcome::Rejected(500)),
        SendStep::GiveUp(DeliveryFailure { attempts: 3 })
    );
    assert_eq!(next_step(3, &AttemptOutcome::Success), SendStep::Done);
}
