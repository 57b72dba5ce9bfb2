use spacetrader::limiter::{RateBudget, RateLimiter};
use spacetrader::pipeline::governed_call;
use spacetrader::retry::{AttemptOutcome, RetryPolicy, RetryResult};

#[test]
fn next_request_waits_out_a_full_window() {
    let mut lim = RateLimiter::with_budget(RateBudget::new(2, 1000).unwrap());
    assert_eq!(lim.next_request(0), 0);
    assert_eq!(lim.next_request(0), 0);
    // The budget is spent; the third admission comes just after the oldest
    // entry ages out.
    assert_eq!(lim.next_request(0), 1001);
}

#[test]
fn governed_call_admits_every_attempt() {
    let mut lim = RateLimiter::with_budget(RateBudget::new(2, 1000).unwrap());
    let policy = RetryPolicy { max_retries: 3 };
    let outcomes = vec![
        AttemptOutcome::Transient,
        AttemptOutcome::Transient,
        AttemptOutcome::Transient,
        AttemptOutcome::Success,
    ];
    let run = governed_call(&mut lim, 0, &policy, &outcomes);
    assert_eq!(run.attempts, 4);
    assert_eq!(run.result, RetryResult::Succeeded);
    // One admission per attempt, spaced by the exponential backoffs.
    assert_eq!(run.admitted_at, vec![0, 1000, 3000, 7000]);
}

#[test]
fn retries_consume_the_shared_budget() {
    // A budget of one request per ten seconds: the retry's second attempt
    // is not exempt from the limiter — it is admitted only after the first
    // attempt's admission has aged out of the window, not merely after the
    // one-second backoff.
    let mut lim = RateLimiter::with_budget(RateBudget::new(1, 10000).unwrap());
    let policy = RetryPolicy { max_retries: 1 };
    let outcomes = vec![AttemptOutcome::Transient, AttemptOutcome::Success];
    let run = governed_call(&mut lim, 0, &policy, &outcomes);
    assert_eq!(run.attempts, 2);
    assert_eq!(run.result, RetryResult::Succeeded);
    assert_eq!(run.admitted_at, vec![0, 10001]);
}

#[test]
fn governed_call_exhausts_and_surfaces_transport_error() {
    let mut lim = RateLimiter::with_budget(RateBudget::new(10, 50).unwrap());
    let policy = RetryPolicy { max_retries: 2 };
    let outcomes = vec![
        AttemptOutcome::Transient,
        AttemptOutcome::Transient,
        AttemptOutcome::Transient,
    ];
    let run = governed_call(&mut lim, 0, &policy, &outcomes);
    assert_eq!(run.attempts, 3);
    assert_eq!(run.result, RetryResult::TransportError);
    assert_eq!(run.admitted_at.len(), 3);
}

#[test]
fn governed_call_passes_domain_errors_through() {
    let mut lim = RateLimiter::with_budget(RateBudget::new(2, 1000).unwrap());
    let policy = RetryPolicy { max_retries: 3 };
    let outcomes = vec![
        AttemptOutcome::DomainError,
        AttemptOutcome::Success,
        AttemptOutcome::Success,
        AttemptOutcome::Success,
    ];
    let run = governed_call(&mut lim, 0, &policy, &outcomes);
    assert_eq!(run.attempts, 1);
    assert_eq!(run.result, RetryResult::DomainError);
    assert_eq!(run.admitted_at, vec![0]);
}
