//! The policy that connecting to the storage backend is retried under.
use vstd::prelude::*;

verus! {

/// How a failed connection attempt is followed up.
#[derive(Debug, Clone, Copy, PartialEq, Eq, Structural)]
pub struct RetryPolicy {
    /// Seconds to wait before the next attempt.
    pub delay_secs: u64,
    /// Attempts allowed in all, or `None` to retry without end.
    pub max_attempts: Option<u32>,
}

/// What follows a failed attempt.
#[derive(Debug, Clone, Copy, PartialEq, Eq, Structural)]
pub enum RetryDecision {
    /// Wait this many seconds, then try again.
    RetryAfter(u64),
    /// Stop trying.
    GiveUp,
}

/// The decision of `policy` once `failed` attempts have failed.
pub open spec fn decision(policy: RetryPolicy, failed: u32) -> RetryDecision {
    match policy.max_attempts {
        Some(max) => if failed >= max {
            RetryDecision::GiveUp
        } else {
            RetryDecision::RetryAfter(policy.delay_secs)
        },
        None => RetryDecision::RetryAfter(policy.delay_secs),
    }
}

impl RetryPolicy {
    /// The startup policy: retry every 5 seconds until the backend is reached.
    pub fn until_connected() -> (r: Self)
        ensures
            r.delay_secs == 5,
            r.max_attempts is None,
    {
        RetryPolicy { delay_secs: 5, max_attempts: None }
    }

    /// What to do once `failed` attempts have failed: give up when the allowed attempts
    /// are used up, else wait `delay_secs` and try again.
    pub fn after_failure(&self, failed: u32) -> (d: RetryDecision)
        ensures
            d == decision(*self, failed),
    {
        match self.max_attempts {
            Some(max) => {
                if failed >= max {
                    RetryDecision::GiveUp
                } else {
                    RetryDecision::RetryAfter(self.delay_secs)
                }
            },
            None => RetryDecision::RetryAfter(self.delay_secs),
        }
    }
}

} // verus!
