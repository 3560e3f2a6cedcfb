//! The decisions of the retry loop: after each failure, whether to try
//! again or give up. The waits between attempts are the caller's.

use vstd::prelude::*;

verus! {

/// What follows a failed attempt.
#[derive(Debug, Clone, Copy, PartialEq, Eq, Structural)]
pub enum RetryDecision {
    /// Wait, then make attempt number `.0` (counting retries from one).
    Retry(u32),
    /// Return the failure: attempts `.0` failures in all.
    GiveUp(u32),
}

/// The decision after the failure that follows `failures` earlier ones:
/// retry while the count of failures is within the allowed retries.
pub open spec fn decision(failures: nat, max_retries: nat) -> RetryDecision {
    if failures + 1 > max_retries {
        RetryDecision::GiveUp((failures + 1) as u32)
    } else {
        RetryDecision::Retry((failures + 1) as u32)
    }
}

/// The decision after a failure, when `failures` earlier attempts failed.
pub fn after_failure(failures: u32, max_retries: u32) -> (r: RetryDecision)
    requires
        failures <= max_retries,
        failures < u32::MAX,
    ensures
        r == decision(failures as nat, max_retries as nat),
{
    let attempt = failures + 1;
    if attempt > max_retries {
        RetryDecision::GiveUp(attempt)
    } else {
        RetryDecision::Retry(attempt)
    }
}

/// How many times an operation that always fails is run, once `failures`
/// runs have failed and one more is under way.
pub open spec fn runs_when_failing(failures: nat, max_retries: nat) -> nat
    decreases max_retries - failures,
{
    if failures + 1 > max_retries {
        1
    } else {
        1 + runs_when_failing(failures + 1, max_retries)
    }
}

/// An operation that always fails is run once, then retried
/// `max_retries` times, and then the failure is returned.
pub proof fn law_attempts_bounded(max_retries: nat)
    ensures
        runs_when_failing(0, max_retries) == max_retries + 1,
{
    lemma_runs_when_failing(0, max_retries);
}

/// From `failures` failures on, `max_retries - failures + 1` runs remain.
pub proof fn lemma_runs_when_failing(failures: nat, max_retries: nat)
    requires
        failures <= max_retries,
    ensures
        runs_when_failing(failures, max_retries) == max_retries - failures + 1,
    decreases max_retries - failures,
{
    if failures + 1 <= max_retries {
        lemma_runs_when_failing(failures + 1, max_retries);
    }
}

} // verus!
