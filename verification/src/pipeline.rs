//! The request pipeline's composition: one governed call is the limiter
//! gate, the retry policy and the transport, in that fixed order, over a
//! virtual clock. Every transport attempt — the first and every retry —
//! passes the shared limiter's gate first, so retries consume admission
//! budget like any other request; they are not exempt.
use crate::limiter::RateLimiter;
use crate::retry::{
    backoff_millis, spec_retry_settle, AttemptOutcome, RetryPolicy, RetryResult,
    RETRY_MAX_MILLIS,
};
use vstd::prelude::*;

verus! {

/// One governed call: how many transport attempts were made, the instant at
/// which each was admitted by the shared limiter, and how the call ended.
pub struct GovernedCall {
    pub attempts: usize,
    pub admitted_at: Vec<u64>,
    pub result: RetryResult,
}

/// Issue one governed call against a scripted transport: `outcomes[k]` is
/// what transport attempt `k` would come back as. Each attempt is admitted
/// by the shared limiter before it runs; a transient failure backs off
/// exponentially and is retried at most `max_retries` times; a domain error
/// settles the call at once and flows through unchanged. The limiter's
/// admission history grows by exactly one instant per attempt made.
pub fn governed_call(
    limiter: &mut RateLimiter,
    start: u64,
    policy: &RetryPolicy,
    outcomes: &Vec<AttemptOutcome>,
) -> (r: GovernedCall)
    requires
        old(limiter).wf(),
        start >= old(limiter).clock@,
        outcomes@.len() > policy.max_retries,
        policy.max_retries < usize::MAX,
        start + (policy.max_retries + 1) * (2 * old(limiter).budget.window_millis
            + RETRY_MAX_MILLIS + 2) <= u64::MAX,
    ensures
        final(limiter).wf(),
        final(limiter).budget == old(limiter).budget,
        (r.attempts as int, r.result) == spec_retry_settle(
            outcomes@,
            policy.max_retries as int,
            0,
        ),
        r.admitted_at@.len() == r.attempts,
        final(limiter).admissions@ == old(limiter).admissions@ + r.admitted_at@,
        forall|i: int| 0 <= i < r.attempts - 1 ==> outcomes@[i] == AttemptOutcome::Transient,
{
    let ghost h0 = limiter.admissions@;
    let ghost window = limiter.budget.window_millis;
    let ghost step = 2 * window as int + RETRY_MAX_MILLIS as int + 2;
    let mut k: usize = 0;
    let mut clock: u64 = start;
    let mut admitted_at: Vec<u64> = Vec::new();
    proof {
        assert(h0 + admitted_at@ =~= h0);
    }
    loop
        invariant
            limiter.wf(),
            limiter.budget == old(limiter).budget,
            window == limiter.budget.window_millis,
            step == 2 * window as int + RETRY_MAX_MILLIS as int + 2,
            outcomes@.len() > policy.max_retries,
            policy.max_retries < usize::MAX,
            0 <= k <= policy.max_retries,
            admitted_at@.len() == k,
            limiter.admissions@ == h0 + admitted_at@,
            h0 == old(limiter).admissions@,
            clock >= limiter.clock@,
            clock + (policy.max_retries + 1 - k) * step <= u64::MAX,
            spec_retry_settle(outcomes@, policy.max_retries as int, 0) == spec_retry_settle(
                outcomes@,
                policy.max_retries as int,
                k as int,
            ),
            forall|i: int| 0 <= i < k ==> outcomes@[i] == AttemptOutcome::Transient,
        decreases policy.max_retries - k,
    {
        proof {
            assert((policy.max_retries + 1 - k) * step >= 1 * step) by (nonlinear_arith)
                requires
                    step >= 1,
                    policy.max_retries + 1 - k >= 1,
            ;
        }
        let t = limiter.next_request(clock);
        let ghost before = admitted_at@;
        admitted_at.push(t);
        proof {
            assert(h0 + admitted_at@ =~= (h0 + before).push(t));
        }
        match outcomes[k] {
            AttemptOutcome::Success => {
                return GovernedCall { attempts: k + 1, admitted_at, result: RetryResult::Succeeded };
            },
            AttemptOutcome::DomainError => {
                return GovernedCall {
                    attempts: k + 1,
                    admitted_at,
                    result: RetryResult::DomainError,
                };
            },
            AttemptOutcome::Transient => {
                if k >= policy.max_retries {
                    return GovernedCall {
                        attempts: k + 1,
                        admitted_at,
                        result: RetryResult::TransportError,
                    };
                }
                let backoff = backoff_millis(k);
                proof {
                    let m = policy.max_retries as int;
                    assert((m + 1 - k) * step == (m - k) * step + step) by (nonlinear_arith);
                    assert((m - k) * step >= 0) by (nonlinear_arith)
                        requires
                            step >= 0,
                            m - k >= 0,
                    ;
                }
                clock = t + backoff;
                k = k + 1;
            },
        }
    }
}

} // verus!
