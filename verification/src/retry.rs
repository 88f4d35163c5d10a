//! The reconnect retry policy.
//!
//! How long to wait between reconnect attempts, and when — if ever — to
//! give an episode up, is configuration, not a constant: a policy holds a
//! base delay, a cap for the exponential growth, and an optional maximum
//! number of attempts. A base equal to the cap gives the flat fixed-delay
//! behaviour; no maximum gives unbounded retry.

use vstd::prelude::*;

verus! {

/// The delay before the attempt after `attempt` failures: the base doubled
/// once per failure, never above the cap.
pub open spec fn backoff_ms_spec(base: nat, cap: nat, attempt: nat) -> nat
    decreases attempt,
{
    if attempt == 0 {
        if base <= cap {
            base
        } else {
            cap
        }
    } else if 2 * backoff_ms_spec(base, cap, (attempt - 1) as nat) <= cap {
        2 * backoff_ms_spec(base, cap, (attempt - 1) as nat)
    } else {
        cap
    }
}

/// A reconnect retry policy: exponential backoff from `base_delay_ms` up to
/// `cap_delay_ms`, giving up after `max_attempts` failures when a maximum
/// is configured at all.
#[derive(Clone, Copy, Debug, PartialEq, Eq, Structural)]
pub struct RetryPolicy {
    pub base_delay_ms: u64,
    pub cap_delay_ms: u64,
    pub max_attempts: Option<u64>,
}

/// A policy is sensible when its delays are positive and its cap is within
/// reach of doubling without overflow.
pub open spec fn policy_wf(p: RetryPolicy) -> bool {
    &&& 0 < p.base_delay_ms
    &&& 0 < p.cap_delay_ms
    &&& p.cap_delay_ms <= u64::MAX / 2
}

impl RetryPolicy {
    /// The simplest policy: a flat one-second delay, retrying forever.
    pub fn fixed_one_second() -> (p: RetryPolicy)
        ensures
            p.base_delay_ms == 1000,
            p.cap_delay_ms == 1000,
            p.max_attempts is None,
            policy_wf(p),
    {
        RetryPolicy { base_delay_ms: 1000, cap_delay_ms: 1000, max_attempts: None }
    }

    /// The delay in milliseconds before the next attempt, after `attempt`
    /// failed ones.
    pub fn delay_ms(&self, attempt: u64) -> (r: u64)
        requires
            policy_wf(*self),
        ensures
            r == backoff_ms_spec(self.base_delay_ms as nat, self.cap_delay_ms as nat, attempt as nat),
            r <= self.cap_delay_ms,
    {
        let mut d: u64 = if self.base_delay_ms <= self.cap_delay_ms {
            self.base_delay_ms
        } else {
            self.cap_delay_ms
        };
        let mut i: u64 = 0;
        while i < attempt
            invariant
                policy_wf(*self),
                i <= attempt,
                d == backoff_ms_spec(self.base_delay_ms as nat, self.cap_delay_ms as nat, i as nat),
                d <= self.cap_delay_ms,
            decreases attempt - i,
        {
            d = if 2 * d <= self.cap_delay_ms {
                2 * d
            } else {
                self.cap_delay_ms
            };
            i += 1;
        }
        d
    }

    /// True when the policy configures a maximum and `attempt` failures
    /// have reached it; with no maximum an episode retries indefinitely.
    pub fn gives_up(&self, attempt: u64) -> (r: bool)
        ensures
            r == match self.max_attempts {
                Some(m) => attempt >= m,
                None => false,
            },
    {
        match self.max_attempts {
            Some(m) => attempt >= m,
            None => false,
        }
    }
}

/// Law: the configured cap really caps every delay, whatever the attempt.
pub proof fn lemma_backoff_capped(base: nat, cap: nat, attempt: nat)
    ensures
        backoff_ms_spec(base, cap, attempt) <= cap,
    decreases attempt,
{
    if attempt > 0 {
        lemma_backoff_capped(base, cap, (attempt - 1) as nat);
    }
}

/// Law: the backoff never shrinks from one failure to the next.
pub proof fn lemma_backoff_monotone(base: nat, cap: nat, attempt: nat)
    ensures
        backoff_ms_spec(base, cap, attempt) <= backoff_ms_spec(base, cap, attempt + 1),
{
    lemma_backoff_capped(base, cap, attempt);
}

} // verus!
