//! When a failed MediaStore operation is tried again. The delays between attempts grow by
//! a floating-point factor and are kept by the application.
use vstd::prelude::*;

verus! {

/// What follows an attempt.
#[derive(Debug, Clone, Copy, PartialEq, Eq, Structural)]
pub enum RetryDecision {
    /// The attempt succeeded: its result is returned.
    Succeeded,
    /// The attempt failed and no retry is left: its error is returned.
    GiveUp,
    /// The attempt failed: wait the current delay, then try again.
    RetryAfterDelay,
}

/// What follows attempt number `attempt` (counted from 1): a success ends the operation;
/// a failure is retried while at most `max_retries` attempts have been made, so an
/// operation is tried at most `max_retries + 1` times.
pub fn after_attempt(attempt: usize, succeeded: bool, max_retries: usize) -> (r: RetryDecision)
    ensures
        succeeded ==> r == RetryDecision::Succeeded,
        !succeeded && attempt > max_retries ==> r == RetryDecision::GiveUp,
        !succeeded && attempt <= max_retries ==> r == RetryDecision::RetryAfterDelay,
{
    if succeeded {
        RetryDecision::Succeeded
    } else if attempt > max_retries {
        RetryDecision::GiveUp
    } else {
        RetryDecision::RetryAfterDelay
    }
}

} // verus!
