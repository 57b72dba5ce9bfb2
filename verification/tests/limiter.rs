use spacetrader::configuration::ConfigError;
use spacetrader::limiter::{Admission, RateBudget, RateLimiter, RATE_TTL_MILLIS, RPS};

#[test]
fn default_budget_is_two_per_second() {
    let lim = RateLimiter::new();
    assert_eq!(lim.budget.max_requests, RPS);
    assert_eq!(lim.budget.window_millis, RATE_TTL_MILLIS);
    assert_eq!(RPS, 2);
    assert_eq!(RATE_TTL_MILLIS, 1000);
}

#[test]
fn zero_budget_is_refused_at_construction() {
    assert_eq!(RateBudget::new(0, 1000), Err(ConfigError::InvalidRateBudget));
    assert_eq!(RateBudget::new(2, 0), Err(ConfigError::InvalidRateBudget));
    let b = RateBudget::new(2, 1000).unwrap();
    assert_eq!(b.max_requests, 2);
    assert_eq!(b.window_millis, 1000);
}

#[test]
fn burst_within_budget_admits_immediately() {
    let mut lim = RateLimiter::new();
    assert_eq!(lim.try_admit(0), Admission::Admitted);
    assert_eq!(lim.try_admit(100), Admission::Admitted);
}

#[test]
fn third_request_waits_out_the_window() {
    // max=2, window=1s: requests at t=0.0s and t=0.1s admit immediately; a
    // third admits no earlier than t=1.0s.
    let mut lim = RateLimiter::new();
    assert_eq!(lim.try_admit(0), Admission::Admitted);
    assert_eq!(lim.try_admit(100), Admission::Admitted);
    assert_eq!(lim.try_admit(100), Admission::RetryAt(1000));
    // At the stated instant the oldest entry is exactly one window old and
    // still counts; just after it has aged out.
    assert_eq!(lim.try_admit(1000), Admission::RetryAt(1000));
    assert_eq!(lim.try_admit(1001), Admission::Admitted);
}

#[test]
fn wait_is_relative_to_oldest_live_entry() {
    let mut lim = RateLimiter::with_budget(RateBudget::new(2, 1000).unwrap());
    assert_eq!(lim.try_admit(0), Admission::Admitted);
    assert_eq!(lim.try_admit(900), Admission::Admitted);
    // By t=1500 the admission at t=0 has aged out, so there is room again.
    assert_eq!(lim.try_admit(1500), Admission::Admitted);
    // Now the live entries are t=900 and t=1500: the next caller waits for
    // the older one to age out.
    assert_eq!(lim.try_admit(1600), Admission::RetryAt(1900));
    assert_eq!(lim.try_admit(1901), Admission::Admitted);
}

#[test]
fn no_window_ever_exceeds_the_budget() {
    // A pseudo-random schedule of callers hammering one shared limiter:
    // whatever the interleaving, the admitted instants never put more than
    // max_requests into any window.
    let max_requests = 3usize;
    let window = 50u64;
    let mut lim = RateLimiter::with_budget(RateBudget::new(max_requests, window).unwrap());
    let mut admitted: Vec<u64> = Vec::new();
    let mut now = 0u64;
    let mut seed = 0x2545F4914F6CDD1Du64;
    for _ in 0..2000 {
        seed = seed.wrapping_mul(6364136223846793005).wrapping_add(1442695040888963407);
        // Sometimes the clock stands still, sometimes it jumps.
        now += (seed >> 60) % 7;
        match lim.try_admit(now) {
            Admission::Admitted => admitted.push(now),
            Admission::RetryAt(until) => {
                assert!(until >= now);
                assert!(until <= now + window);
            }
        }
    }
    for i in 0..admitted.len() {
        for j in i..admitted.len() {
            if admitted[j] - admitted[i] <= window {
                // Both lie in one window of length `window`.
                assert!(j - i + 1 <= max_requests);
            }
        }
    }
}
