//! When to try a failed upstream request again, and after how long.
use vstd::prelude::*;

verus! {

/// How failed fetches are retried: at most `max_attempts` attempts in all
/// (`None`: no bound), waiting `base_delay_ms` after the first failure and
/// twice as long after each further one, never more than `max_delay_ms`.
#[derive(Clone, Copy, Debug, PartialEq, Eq, Structural)]
pub struct RetryPolicy {
    pub max_attempts: Option<u32>,
    pub base_delay_ms: u64,
    pub max_delay_ms: u64,
}

/// What to do after a failed attempt.
#[derive(Clone, Copy, Debug, PartialEq, Eq, Structural)]
pub enum RetryDecision {
    /// Wait this many milliseconds, then try again.
    RetryAfter(u64),
    /// Stop: the request is exhausted.
    GiveUp,
}

/// The wait after the `(n + 1)`-th consecutive failure: the base delay,
/// doubled `n` times, capped.
pub open spec fn backoff_delay(base: int, cap: int, n: nat) -> int
    decreases n,
{
    if n == 0 {
        if base <= cap { base } else { cap }
    } else {
        let d = 2 * backoff_delay(base, cap, (n - 1) as nat);
        if d <= cap { d } else { cap }
    }
}

/// The decision after `failures` consecutive failed attempts (at least one).
pub open spec fn retry_decision_spec(policy: RetryPolicy, failures: nat) -> RetryDecision {
    match policy.max_attempts {
        Some(m) if failures >= m => RetryDecision::GiveUp,
        _ => RetryDecision::RetryAfter(
            backoff_delay(policy.base_delay_ms as int, policy.max_delay_ms as int, (failures - 1) as nat) as u64,
        ),
    }
}

proof fn lemma_backoff_bounds(base: int, cap: int, n: nat)
    requires
        0 <= base,
        0 <= cap,
    ensures
        0 <= backoff_delay(base, cap, n) <= cap,
    decreases n,
{
    if n > 0 {
        lemma_backoff_bounds(base, cap, (n - 1) as nat);
    }
}

impl RetryPolicy {
    /// Retry forever, at once.
    pub fn unbounded() -> (r: RetryPolicy)
        ensures
            r.max_attempts is None,
            r.base_delay_ms == 0,
            r.max_delay_ms == 0,
    {
        RetryPolicy { max_attempts: None, base_delay_ms: 0, max_delay_ms: 0 }
    }

    /// What to do after `failures` consecutive failed attempts.
    pub fn decide(&self, failures: u32) -> (r: RetryDecision)
        requires
            failures >= 1,
        ensures
            r == retry_decision_spec(*self, failures as nat),
    {
        if let Some(m) = self.max_attempts {
            if failures >= m {
                return RetryDecision::GiveUp;
            }
        }
        let cap = self.max_delay_ms;
        let mut delay: u64 = if self.base_delay_ms <= cap { self.base_delay_ms } else { cap };
        let mut i: u32 = 1;
        while i < failures
            invariant
                1 <= i <= failures,
                delay as int == backoff_delay(self.base_delay_ms as int, cap as int, (i - 1) as nat),
            decreases failures - i,
        {
            proof {
                lemma_backoff_bounds(self.base_delay_ms as int, cap as int, (i - 1) as nat);
            }
            delay = if delay > cap / 2 { cap } else { delay * 2 };
            i = i + 1;
        }
        RetryDecision::RetryAfter(delay)
    }
}

} // verus!
