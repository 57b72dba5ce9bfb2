//! The sliding-window rate limiter: a time-ordered queue of admission
//! instants, shared by every worker, that admits a request only when doing
//! so keeps every trailing window within the configured budget.
//!
//! The limiter is a state machine over an abstract clock (`u64` ticks).
//! Callers ask [`RateLimiter::try_admit`] for a decision; on
//! [`Admission::RetryAt`] they suspend until the stated instant and ask
//! again. The ghost `admissions` sequence records every admission ever
//! granted, and the limiter's invariant carries the safety law
//! [`rate_safe`]: any `max_requests + 1` admissions span more than one
//! window.
use crate::configuration::ConfigError;
use vstd::prelude::*;

verus! {

/// Window length of the default budget, in clock ticks (milliseconds).
pub const RATE_TTL_MILLIS: u64 = 1000;

/// Requests admitted per window under the default budget.
pub const RPS: usize = 2;

/// The admission budget: at most `max_requests` admissions within any
/// trailing window of `window_millis` ticks. Immutable for the process
/// lifetime.
#[derive(Clone, Copy, Debug, PartialEq, Eq, Structural)]
pub struct RateBudget {
    pub max_requests: usize,
    pub window_millis: u64,
}

impl RateBudget {
    /// A budget is usable only when both knobs are positive.
    pub open spec fn valid(self) -> bool {
        self.max_requests >= 1 && self.window_millis >= 1
    }

    /// Build a budget, refusing a zero request count or a zero window at
    /// construction time rather than at first use.
    pub fn new(max_requests: usize, window_millis: u64) -> (r: Result<RateBudget, ConfigError>)
        ensures
            r is Ok <==> max_requests >= 1 && window_millis >= 1,
            r matches Ok(b) ==> b == (RateBudget { max_requests, window_millis }),
            r matches Err(e) ==> e == ConfigError::InvalidRateBudget,
    {
        if max_requests >= 1 && window_millis >= 1 {
            Ok(RateBudget { max_requests, window_millis })
        } else {
            Err(ConfigError::InvalidRateBudget)
        }
    }
}

/// The decision returned by one admission attempt.
#[derive(Clone, Copy, Debug, PartialEq, Eq, Structural)]
pub enum Admission {
    /// The request was admitted and recorded.
    Admitted,
    /// The budget is spent; ask again no earlier than the stated instant.
    RetryAt(u64),
}

/// The sequence is nondecreasing.
pub open spec fn time_ordered(h: Seq<u64>) -> bool {
    forall|a: int, b: int| 0 <= a <= b < h.len() ==> h[a] <= h[b]
}

/// The safety law of the limiter: among the admission instants `h`, any
/// `max + 1` consecutive admissions span strictly more than one window, so
/// no trailing window of length `window` ever holds more than `max` of
/// them.
pub open spec fn rate_safe(h: Seq<u64>, max: int, window: u64) -> bool {
    forall|a: int, b: int| 0 <= a && a + max <= b < h.len() ==> h[a] + window < h[b]
}

/// Number of admissions in `h`, from index `i` on, that fall within the
/// closed window `[t - window, t]`.
pub open spec fn count_in_window_from(h: Seq<u64>, t: int, window: u64, i: int) -> int
    decreases h.len() - i,
{
    if 0 <= i < h.len() {
        count_in_window_from(h, t, window, i + 1) + if t - window <= h[i] <= t {
            1int
        } else {
            0int
        }
    } else {
        0
    }
}

/// Number of admissions in `h` that fall within the closed window
/// `[t - window, t]`.
pub open spec fn count_in_window(h: Seq<u64>, t: int, window: u64) -> int {
    count_in_window_from(h, t, window, 0)
}

proof fn lemma_count_step(h: Seq<u64>, t: int, window: u64, i: int, j: int)
    requires
        0 <= i <= j <= h.len(),
    ensures
        count_in_window_from(h, t, window, i) <= (j - i) + count_in_window_from(h, t, window, j),
    decreases j - i,
{
    if i < j {
        lemma_count_step(h, t, window, i + 1, j);
    }
}

proof fn lemma_count_after_window(h: Seq<u64>, t: int, window: u64, i: int)
    requires
        time_ordered(h),
        0 <= i,
        i < h.len() ==> h[i] > t,
    ensures
        count_in_window_from(h, t, window, i) == 0,
    decreases h.len() - i,
{
    if 0 <= i < h.len() {
        assert(h[i] <= h[i + 1] || i + 1 >= h.len());
        lemma_count_after_window(h, t, window, i + 1);
    }
}

proof fn lemma_count_bound_from(h: Seq<u64>, t: int, window: u64, max: int, i: int)
    requires
        time_ordered(h),
        rate_safe(h, max, window),
        max >= 1,
        0 <= i,
    ensures
        count_in_window_from(h, t, window, i) <= max,
    decreases h.len() - i,
{
    if i >= h.len() {
    } else if h[i] > t {
        lemma_count_after_window(h, t, window, i);
    } else if h[i] < t - window {
        lemma_count_bound_from(h, t, window, max, i + 1);
    } else {
        // h[i] lies in the window, so every admission from index i + max on
        // lies strictly after t.
        let j = i + max;
        if j >= h.len() {
            lemma_count_step(h, t, window, i, h.len() as int);
        } else {
            assert(h[i] + window < h[j]);
            lemma_count_step(h, t, window, i, j);
            lemma_count_after_window(h, t, window, j);
        }
    }
}

/// No sliding window of length `window` holds more than `max` of the
/// admission instants in a time-ordered, rate-safe history.
pub proof fn lemma_count_in_window_bound(h: Seq<u64>, t: int, window: u64, max: int)
    requires
        time_ordered(h),
        rate_safe(h, max, window),
        max >= 1,
    ensures
        count_in_window(h, t, window) <= max,
{
    lemma_count_bound_from(h, t, window, max, 0);
}

/// The shared sliding-window limiter. The executable state is the queue of
/// recent admission instants and the budget; the ghost state records every
/// admission ever granted and the last clock value observed.
pub struct RateLimiter {
    /// Recent admission instants, oldest first. Entries older than the
    /// window are evicted lazily before each admission decision.
    pub queue: Vec<u64>,
    /// The process-wide budget.
    pub budget: RateBudget,
    /// Every admission ever granted, in admission order.
    pub admissions: Ghost<Seq<u64>>,
    /// The last clock value this limiter saw.
    pub clock: Ghost<u64>,
}

impl RateLimiter {
    /// The limiter's invariant: the queue is the live suffix of the
    /// admission history, everything dropped from it is already out of the
    /// window, no instant lies in the future, and the history obeys the
    /// safety law.
    pub open spec fn wf(self) -> bool {
        let h = self.admissions@;
        let dropped = h.len() - self.queue@.len();
        &&& self.budget.valid()
        &&& time_ordered(h)
        &&& rate_safe(h, self.budget.max_requests as int, self.budget.window_millis)
        &&& self.queue@.len() <= h.len()
        &&& self.queue@.len() <= self.budget.max_requests
        &&& self.queue@ == h.subrange(dropped, h.len() as int)
        &&& forall|a: int| 0 <= a < h.len() ==> h[a] <= self.clock@
        &&& forall|a: int|
            0 <= a < dropped ==> h[a] + self.budget.window_millis < self.clock@
    }

    /// A fresh limiter with the default budget and no admissions.
    pub fn new() -> (r: RateLimiter)
        ensures
            r.wf(),
            r.budget == (RateBudget { max_requests: RPS, window_millis: RATE_TTL_MILLIS }),
            r.admissions@ =~= Seq::<u64>::empty(),
            r.clock@ == 0u64,
    {
        let r = RateLimiter {
            queue: Vec::new(),
            budget: RateBudget { max_requests: RPS, window_millis: RATE_TTL_MILLIS },
            admissions: Ghost(Seq::empty()),
            clock: Ghost(0u64),
        };
        proof {
            assert(r.queue@ =~= r.admissions@.subrange(0, 0));
        }
        r
    }

    /// A fresh limiter with the given budget and no admissions.
    pub fn with_budget(budget: RateBudget) -> (r: RateLimiter)
        requires
            budget.valid(),
        ensures
            r.wf(),
            r.budget == budget,
            r.admissions@ =~= Seq::<u64>::empty(),
            r.clock@ == 0u64,
    {
        let r = RateLimiter {
            queue: Vec::new(),
            budget,
            admissions: Ghost(Seq::empty()),
            clock: Ghost(0u64),
        };
        proof {
            assert(r.queue@ =~= r.admissions@.subrange(0, 0));
        }
        r
    }

    /// One admission attempt at clock value `now`: evict every queue entry
    /// whose age exceeds the window, then admit and record the request if
    /// the remaining count is below the budget, else report the instant at
    /// which the oldest live entry ages out. The caller suspends until that
    /// instant and asks again; the clock may only move forward.
    pub fn try_admit(&mut self, now: u64) -> (r: Admission)
        requires
            old(self).wf(),
            now >= old(self).clock@,
            now + old(self).budget.window_millis <= u64::MAX,
        ensures
            final(self).wf(),
            final(self).budget == old(self).budget,
            final(self).clock@ == now,
            match r {
                Admission::Admitted => {
                    &&& final(self).admissions@ == old(self).admissions@.push(now)
                    &&& count_in_window(
                        old(self).admissions@,
                        now as int,
                        old(self).budget.window_millis,
                    ) < old(self).budget.max_requests
                },
                Admission::RetryAt(until) => {
                    &&& final(self).admissions@ == old(self).admissions@
                    &&& now <= until <= now + old(self).budget.window_millis
                    &&& final(self).queue@.len() == old(self).budget.max_requests
                    &&& until == final(self).queue@[0] + old(self).budget.window_millis
                    &&& count_in_window(
                        old(self).admissions@,
                        now as int,
                        old(self).budget.window_millis,
                    ) == old(self).budget.max_requests as int
                },
            },
    {
        let ghost h = self.admissions@;
        let window = self.budget.window_millis;
        while self.queue.len() > 0 && self.queue[0] + window < now
            invariant
                self.budget == old(self).budget,
                self.admissions@ == h,
                self.clock == old(self).clock,
                window == self.budget.window_millis,
                now >= self.clock@,
                now + window <= u64::MAX,
                old(self).wf(),
                self.queue@.len() <= h.len(),
                self.queue@.len() <= self.budget.max_requests,
                self.queue@ == h.subrange(h.len() - self.queue@.len(), h.len() as int),
                forall|a: int| 0 <= a < h.len() ==> h[a] <= self.clock@,
                forall|a: int|
                    0 <= a < h.len() - self.queue@.len() ==> h[a] + window < now,
            decreases self.queue@.len(),
        {
            let ghost q0 = self.queue@;
            self.queue.remove(0);
            proof {
                assert(self.queue@ =~= h.subrange(h.len() - self.queue@.len(), h.len() as int));
            }
        }
        let ghost dropped = h.len() - self.queue@.len();
        self.clock = Ghost(now);
        if self.queue.len() < self.budget.max_requests {
            self.queue.push(now);
            self.admissions = Ghost(h.push(now));
            proof {
                let h2 = self.admissions@;
                assert(self.queue@ =~= h2.subrange(
                    h2.len() - self.queue@.len(),
                    h2.len() as int,
                ));
                assert forall|a: int, b: int|
                    0 <= a && a + self.budget.max_requests as int <= b < h2.len() implies h2[a]
                    + window < h2[b] by {
                    if b < h.len() {
                        assert(rate_safe(h, self.budget.max_requests as int, window));
                    } else {
                        // b names the new admission; a lies in the dropped
                        // prefix because the live queue held fewer than
                        // max_requests entries before the push.
                        assert(a < dropped);
                        assert(h[a] + window < now);
                    }
                }
                // The count of live entries bounds the in-window count.
                lemma_live_prefix_count(h, now as int, window, dropped);
            }
            Admission::Admitted
        } else {
            let until = self.queue[0] + window;
            proof {
                // Every live entry lies inside the window ending at `now`:
                // the head survived eviction, and the history is
                // time-ordered, so the in-window count is exactly the queue
                // length — the whole budget.
                assert forall|a: int| dropped <= a < h.len() implies now - window <= #[trigger] h[a]
                    <= now by {
                    assert(h[dropped] == self.queue@[0]);
                    assert(h[dropped] <= h[a]);
                }
                lemma_count_skip_dropped(h, now as int, window, 0, dropped);
                lemma_count_live_suffix(h, now as int, window, dropped);
            }
            Admission::RetryAt(until)
        }
    }
}

impl RateLimiter {
    /// Admission with the waiting folded in, over a virtual clock: ask at
    /// `now`; when told to come back, come back just after the stated
    /// instant, where admission is certain — by then the entry that blocked
    /// the budget has aged out of the window. Returns the instant at which
    /// the request was admitted.
    pub fn next_request(&mut self, now: u64) -> (t: u64)
        requires
            old(self).wf(),
            now >= old(self).clock@,
            now + 2 * old(self).budget.window_millis + 1 <= u64::MAX,
        ensures
            final(self).wf(),
            final(self).budget == old(self).budget,
            final(self).admissions@ == old(self).admissions@.push(t),
            now <= t <= now + old(self).budget.window_millis + 1,
            final(self).clock@ == t,
    {
        let ghost h = self.admissions@;
        let window = self.budget.window_millis;
        let ghost max = self.budget.max_requests as int;
        match self.try_admit(now) {
            Admission::Admitted => now,
            Admission::RetryAt(until) => {
                let t2 = until + 1;
                proof {
                    // Just after `until` the queue's head is out of the
                    // window, so fewer than max_requests admissions remain
                    // inside it and the second attempt must be admitted.
                    let dropped = h.len() - max;
                    assert(h[dropped] + window < t2);
                    assert forall|a: int| 0 <= a < dropped + 1 implies #[trigger] h[a] + window
                        < t2 by {
                        assert(h[a] <= h[dropped]);
                    }
                    lemma_count_skip_dropped(h, t2 as int, window, 0, dropped + 1);
                    lemma_count_step(h, t2 as int, window, dropped + 1, h.len() as int);
                }
                match self.try_admit(t2) {
                    Admission::Admitted => t2,
                    Admission::RetryAt(_) => {
                        proof {
                            assert(false);
                        }
                        t2
                    },
                }
            },
        }
    }
}

/// Law: no sliding window of length `window` ever contains more than
/// `max_requests` admissions, whatever schedule of concurrent callers
/// produced the limiter's state.
pub proof fn lemma_limiter_window_bound(lim: RateLimiter, t: int)
    requires
        lim.wf(),
    ensures
        count_in_window(lim.admissions@, t, lim.budget.window_millis)
            <= lim.budget.max_requests as int,
{
    lemma_count_in_window_bound(
        lim.admissions@,
        t,
        lim.budget.window_millis,
        lim.budget.max_requests as int,
    );
}

/// When every admission before `dropped` is out of the window ending at
/// `t`, the in-window count is bounded by the number of live entries.
proof fn lemma_live_prefix_count(h: Seq<u64>, t: int, window: u64, dropped: int)
    requires
        0 <= dropped <= h.len(),
        forall|a: int| 0 <= a < dropped ==> h[a] + window < t,
    ensures
        count_in_window(h, t, window) <= h.len() - dropped,
{
    lemma_count_skip_dropped(h, t, window, 0, dropped);
    lemma_count_step(h, t, window, dropped, h.len() as int);
}

proof fn lemma_count_live_suffix(h: Seq<u64>, t: int, window: u64, i: int)
    requires
        0 <= i <= h.len(),
        forall|a: int| i <= a < h.len() ==> t - window <= #[trigger] h[a] <= t,
    ensures
        count_in_window_from(h, t, window, i) == h.len() - i,
    decreases h.len() - i,
{
    if i < h.len() {
        lemma_count_live_suffix(h, t, window, i + 1);
    }
}

proof fn lemma_count_skip_dropped(h: Seq<u64>, t: int, window: u64, i: int, dropped: int)
    requires
        0 <= i <= dropped <= h.len(),
        forall|a: int| 0 <= a < dropped ==> h[a] + window < t,
    ensures
        count_in_window_from(h, t, window, i) == count_in_window_from(h, t, window, dropped),
    decreases dropped - i,
{
    if i < dropped {
        lemma_count_skip_dropped(h, t, window, i + 1, dropped);
    }
}

} // verus!
