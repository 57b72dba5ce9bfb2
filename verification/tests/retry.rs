use spacetrader::retry::{
    backoff_millis, run_retry, AttemptOutcome, RetryPolicy, RetryResult, DEFAULT_MAX_RETRIES,
    RETRY_BASE_MILLIS, RETRY_MAX_MILLIS,
};

#[test]
fn always_transient_transport_exhausts_the_budget() {
    // Exactly max_retries retries beyond the first attempt, then the last
    // transient failure surfaces as a transport error.
    let policy = RetryPolicy { max_retries: DEFAULT_MAX_RETRIES };
    let outcomes = vec![AttemptOutcome::Transient; DEFAULT_MAX_RETRIES + 1];
    let run = run_retry(&policy, &outcomes);
    assert_eq!(run.attempts, DEFAULT_MAX_RETRIES + 1);
    assert_eq!(run.result, RetryResult::TransportError);
    assert_eq!(run.backoffs.len(), DEFAULT_MAX_RETRIES);
}

#[test]
fn domain_error_is_never_retried() {
    let policy = RetryPolicy { max_retries: DEFAULT_MAX_RETRIES };
    let outcomes = vec![
        AttemptOutcome::DomainError,
        AttemptOutcome::Success,
        AttemptOutcome::Success,
        AttemptOutcome::Success,
    ];
    let run = run_retry(&policy, &outcomes);
    assert_eq!(run.attempts, 1);
    assert_eq!(run.result, RetryResult::DomainError);
    assert!(run.backoffs.is_empty());
}

#[test]
fn success_after_transients_stops_retrying() {
    let policy = RetryPolicy { max_retries: 3 };
    let outcomes = vec![
        AttemptOutcome::Transient,
        AttemptOutcome::Transient,
        AttemptOutcome::Success,
        AttemptOutcome::Transient,
    ];
    let run = run_retry(&policy, &outcomes);
    assert_eq!(run.attempts, 3);
    assert_eq!(run.result, RetryResult::Succeeded);
    assert_eq!(run.backoffs, vec![1000, 2000]);
}

#[test]
fn backoff_doubles_and_saturates() {
    assert_eq!(backoff_millis(0), RETRY_BASE_MILLIS);
    assert_eq!(backoff_millis(1), 2000);
    assert_eq!(backoff_millis(2), 4000);
    assert_eq!(backoff_millis(3), 8000);
    assert_eq!(backoff_millis(4), 16000);
    assert_eq!(backoff_millis(5), RETRY_MAX_MILLIS);
    assert_eq!(backoff_millis(50), RETRY_MAX_MILLIS);
}
