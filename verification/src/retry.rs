//! The retry middleware's decision logic: transient transport failures are
//! retried with exponential backoff up to a fixed number of extra attempts;
//! domain errors are never retried and flow through to the classifier
//! unchanged. Each retry passes back through the shared limiter, so retries
//! consume budget like any other request — the composition is wired by the
//! caller that performs the transport work.
use vstd::prelude::*;

verus! {

/// Extra attempts beyond the first, by default.
pub const DEFAULT_MAX_RETRIES: usize = 3;

/// First backoff, in milliseconds.
pub const RETRY_BASE_MILLIS: u64 = 1000;

/// Ceiling on any single backoff, in milliseconds.
pub const RETRY_MAX_MILLIS: u64 = 30000;

/// The retry policy: how many extra attempts a transient failure is worth.
/// Immutable for the process lifetime.
#[derive(Clone, Copy, Debug, PartialEq, Eq, Structural)]
pub struct RetryPolicy {
    pub max_retries: usize,
}

/// What one transport attempt came back as, after the transport layer's own
/// classification: success, a transient failure (network error or server
/// overload), or a domain error that must flow through unchanged.
#[derive(Clone, Copy, Debug, PartialEq, Eq, Structural)]
pub enum AttemptOutcome {
    Success,
    Transient,
    DomainError,
}

/// How a governed call ends once the retry budget is applied.
#[derive(Clone, Copy, Debug, PartialEq, Eq, Structural)]
pub enum RetryResult {
    /// An attempt succeeded.
    Succeeded,
    /// Every allowed attempt failed transiently; the last failure is
    /// surfaced as a transport error, fatal to the current operation.
    TransportError,
    /// An attempt returned a domain error; it flows through unchanged.
    DomainError,
}

/// Backoff before retry number `attempt` (zero-based): doubles from
/// [`RETRY_BASE_MILLIS`], saturating at [`RETRY_MAX_MILLIS`].
pub open spec fn spec_backoff_millis(attempt: int) -> u64
    decreases attempt,
{
    if attempt <= 0 {
        RETRY_BASE_MILLIS
    } else {
        let p = spec_backoff_millis(attempt - 1);
        if p > RETRY_MAX_MILLIS / 2 {
            RETRY_MAX_MILLIS
        } else {
            (2 * p) as u64
        }
    }
}

proof fn lemma_backoff_bounds(attempt: int)
    ensures
        RETRY_BASE_MILLIS <= spec_backoff_millis(attempt) <= RETRY_MAX_MILLIS,
    decreases attempt,
{
    if attempt > 0 {
        lemma_backoff_bounds(attempt - 1);
    }
}

/// Backoff before retry number `attempt` (zero-based).
pub fn backoff_millis(attempt: usize) -> (r: u64)
    ensures
        r == spec_backoff_millis(attempt as int),
        RETRY_BASE_MILLIS <= r <= RETRY_MAX_MILLIS,
{
    proof {
        lemma_backoff_bounds(attempt as int);
    }
    let mut i: usize = 0;
    let mut acc: u64 = RETRY_BASE_MILLIS;
    while i < attempt
        invariant
            i <= attempt,
            acc == spec_backoff_millis(i as int),
            RETRY_BASE_MILLIS <= acc <= RETRY_MAX_MILLIS,
        decreases attempt - i,
    {
        proof {
            lemma_backoff_bounds(i as int + 1);
        }
        if acc > RETRY_MAX_MILLIS / 2 {
            acc = RETRY_MAX_MILLIS;
        } else {
            acc = 2 * acc;
        }
        i = i + 1;
    }
    acc
}

/// Where the attempt sequence settles: the number of attempts consumed and
/// the final result, starting from attempt `k`. A transient outcome is
/// retried only while `k` is below `max_retries`; the other outcomes settle
/// at once.
pub open spec fn spec_retry_settle(
    outcomes: Seq<AttemptOutcome>,
    max_retries: int,
    k: int,
) -> (int, RetryResult)
    decreases max_retries - k,
{
    if !(0 <= k < outcomes.len()) {
        (k, RetryResult::TransportError)
    } else {
        match outcomes[k] {
            AttemptOutcome::Success => (k + 1, RetryResult::Succeeded),
            AttemptOutcome::DomainError => (k + 1, RetryResult::DomainError),
            AttemptOutcome::Transient => {
                if k >= max_retries {
                    (k + 1, RetryResult::TransportError)
                } else {
                    spec_retry_settle(outcomes, max_retries, k + 1)
                }
            },
        }
    }
}

/// One governed call under a retry policy: the outcomes of the successive
/// transport attempts, the backoffs slept between them, and the result.
#[derive(Debug)]
pub struct RetryRun {
    /// How many transport attempts were made.
    pub attempts: usize,
    /// The backoff slept before each retry, in order.
    pub backoffs: Vec<u64>,
    /// How the call ended.
    pub result: RetryResult,
}

/// Run one governed call against a scripted transport: `outcomes[k]` is
/// what transport attempt `k` would come back as. Retries exactly the
/// transient failures, never a domain error, and at most `max_retries`
/// times; the backoff before retry `k` is `spec_backoff_millis(k)`.
pub fn run_retry(policy: &RetryPolicy, outcomes: &Vec<AttemptOutcome>) -> (r: RetryRun)
    requires
        outcomes@.len() > policy.max_retries,
        policy.max_retries < usize::MAX,
    ensures
        (r.attempts as int, r.result) == spec_retry_settle(
            outcomes@,
            policy.max_retries as int,
            0,
        ),
        1 <= r.attempts <= policy.max_retries + 1,
        r.backoffs@.len() == r.attempts - 1,
        forall|i: int| 0 <= i < r.backoffs@.len() ==> r.backoffs@[i] == spec_backoff_millis(i),
        forall|i: int| 0 <= i < r.attempts - 1 ==> outcomes@[i] == AttemptOutcome::Transient,
{
    let mut k: usize = 0;
    let mut backoffs: Vec<u64> = Vec::new();
    loop
        invariant
            outcomes@.len() > policy.max_retries,
            policy.max_retries < usize::MAX,
            0 <= k <= policy.max_retries,
            backoffs@.len() == k,
            forall|i: int| 0 <= i < k ==> backoffs@[i] == spec_backoff_millis(i),
            forall|i: int| 0 <= i < k ==> outcomes@[i] == AttemptOutcome::Transient,
            spec_retry_settle(outcomes@, policy.max_retries as int, 0) == spec_retry_settle(
                outcomes@,
                policy.max_retries as int,
                k as int,
            ),
        decreases policy.max_retries - k,
    {
        match outcomes[k] {
            AttemptOutcome::Success => {
                return RetryRun { attempts: k + 1, backoffs, result: RetryResult::Succeeded };
            },
            AttemptOutcome::DomainError => {
                return RetryRun { attempts: k + 1, backoffs, result: RetryResult::DomainError };
            },
            AttemptOutcome::Transient => {
                if k >= policy.max_retries {
                    return RetryRun {
                        attempts: k + 1,
                        backoffs,
                        result: RetryResult::TransportError,
                    };
                }
                backoffs.push(backoff_millis(k));
                k = k + 1;
            },
        }
    }
}

proof fn lemma_retry_settle_all_transient(outcomes: Seq<AttemptOutcome>, max_retries: int, k: int)
    requires
        0 <= k <= max_retries,
        max_retries < outcomes.len(),
        forall|i: int| 0 <= i < outcomes.len() ==> outcomes[i] == AttemptOutcome::Transient,
    ensures
        spec_retry_settle(outcomes, max_retries, k) == (
            max_retries + 1,
            RetryResult::TransportError,
        ),
    decreases max_retries - k,
{
    if k < max_retries {
        lemma_retry_settle_all_transient(outcomes, max_retries, k + 1);
    }
}

/// Law: against a transport that always fails transiently, the retry
/// middleware makes exactly `max_retries` retries beyond the first attempt
/// and then surfaces a transport error.
pub proof fn lemma_retry_exhausts_budget(outcomes: Seq<AttemptOutcome>, max_retries: int)
    requires
        0 <= max_retries < outcomes.len(),
        forall|i: int| 0 <= i < outcomes.len() ==> outcomes[i] == AttemptOutcome::Transient,
    ensures
        spec_retry_settle(outcomes, max_retries, 0) == (
            max_retries + 1,
            RetryResult::TransportError,
        ),
{
    lemma_retry_settle_all_transient(outcomes, max_retries, 0);
}

/// Law: a domain error on the first attempt is never retried — it settles
/// the call at once and flows through unchanged.
pub proof fn lemma_domain_error_not_retried(outcomes: Seq<AttemptOutcome>, max_retries: int)
    requires
        outcomes.len() > 0,
        outcomes[0] == AttemptOutcome::DomainError,
        max_retries >= 0,
    ensures
        spec_retry_settle(outcomes, max_retries, 0) == (1int, RetryResult::DomainError),
{
}

} // verus!
