//! Retry decisions for transient failures.
//!
//! The library decides, after each failed attempt, whether to give up or how long
//! to wait before the next attempt; the caller performs the attempts and the waits.

use vstd::prelude::*;
use core::time::Duration;
use crate::error::{LettaError, LettaErrorView, spec_from_response, spec_is_retryable};

verus! {

/// Trait for determining if an error is retryable.
pub trait Retryable {
    /// Check if the error should trigger a retry.
    fn is_retryable(&self) -> bool;

    /// Get a custom retry delay if applicable (e.g., from Retry-After header); by
    /// default there is none.
    fn retry_after(&self) -> (r: Option<Duration>)
        default_ensures
            r is None,
    {
        None
    }
}

/// `Duration`'s `clone`: `Duration` is `Copy`, and the clone is the value itself.
pub assume_specification[<core::time::Duration as core::clone::Clone>::clone](d: &core::time::Duration) -> (r: core::time::Duration)
    ensures
        r == *d,
;

/// What `Duration::from_secs` gives.
pub uninterp spec fn spec_duration_from_secs(secs: u64) -> Duration;

/// `Duration::from_secs`; the contract only names the result.
#[verifier::external_body]
pub(crate) fn duration_from_secs(secs: u64) -> (d: Duration)
    ensures
        d == spec_duration_from_secs(secs),
{
    Duration::from_secs(secs)
}

/// Whether the retry policy treats an error as transient: rate limits, timeouts,
/// transport failures that timed out, could not connect or could not be sent, and
/// API errors with status 408, 429, 500, 502, 503 or 504.
pub open spec fn spec_transient(e: LettaErrorView) -> bool {
    match e {
        LettaErrorView::RateLimit { .. } => true,
        LettaErrorView::RequestTimeout { .. } => true,
        LettaErrorView::Http { is_timeout, is_connect, is_request, .. } => is_timeout || is_connect || is_request,
        LettaErrorView::Api { status, .. } => status == 408 || status == 429 || status == 500
            || status == 502 || status == 503 || status == 504,
        _ => false,
    }
}

/// The delay, in seconds, that a rate-limit error asks for.
pub open spec fn requested_delay(e: LettaErrorView) -> Option<u64> {
    match e {
        LettaErrorView::RateLimit { retry_after } => retry_after,
        _ => None,
    }
}

impl Retryable for LettaError {
    fn is_retryable(&self) -> (r: bool)
        ensures
            r == spec_transient(self@),
    {
        match self {
            LettaError::RateLimit { .. } => true,
            LettaError::RequestTimeout { .. } => true,
            LettaError::Http { is_timeout, is_connect, is_request, .. } => *is_timeout || *is_connect || *is_request,
            LettaError::Api { status, .. } => *status == 408 || *status == 429 || *status == 500
                || *status == 502 || *status == 503 || *status == 504,
            _ => false,
        }
    }

    fn retry_after(&self) -> (r: Option<Duration>)
        ensures
            r == match requested_delay(self@) {
                Some(s) => Some(spec_duration_from_secs(s)),
                None => None,
            },
    {
        match self {
            LettaError::RateLimit { retry_after: Some(s) } => Some(duration_from_secs(*s)),
            _ => None,
        }
    }
}

/// What to do after a failed attempt.
#[derive(PartialEq, Eq, Structural, Clone, Copy, Debug)]
pub enum RetryAction {
    /// Return the error to the caller.
    GiveUp,
    /// Wait the number of seconds the server asked for, then try again.
    WaitSeconds(u64),
    /// Wait the configured exponential backoff for this (zero-based) attempt, then try again.
    Backoff(u32),
}

/// The decision after attempt `attempt` (zero-based) of at most `max_attempts` failed with `e`.
pub open spec fn retry_action(max_attempts: u32, attempt: u32, e: LettaErrorView) -> RetryAction {
    if !spec_is_retryable(e) || attempt + 1 >= max_attempts {
        RetryAction::GiveUp
    } else {
        match requested_delay(e) {
            Some(s) => RetryAction::WaitSeconds(s),
            None => RetryAction::Backoff(attempt),
        }
    }
}

/// Decides what to do after attempt `attempt` (zero-based) failed with `error`, when at
/// most `max_attempts` attempts are made: give up on errors that are not retryable and
/// after the last attempt; otherwise wait as the server asked, or back off.
pub fn next_retry_action(max_attempts: u32, attempt: u32, error: &LettaError) -> (r: RetryAction)
    requires
        attempt < max_attempts,
    ensures
        r == retry_action(max_attempts, attempt, error@),
{
    if !error.is_retryable() || attempt == max_attempts - 1 {
        RetryAction::GiveUp
    } else {
        match error {
            LettaError::RateLimit { retry_after: Some(s) } => RetryAction::WaitSeconds(*s),
            _ => RetryAction::Backoff(attempt),
        }
    }
}

/// The error reported when no attempt was made at all (zero attempts configured).
pub fn retries_exhausted() -> (r: LettaError)
    ensures
        r@ == (LettaErrorView::Config { message: "Retry logic failed unexpectedly"@ }),
{
    LettaError::config("Retry logic failed unexpectedly")
}

/// Number of attempts made when the attempts fail, in order, with `errors`, starting
/// from attempt `attempt`.
pub open spec fn attempts_made(max_attempts: u32, errors: Seq<LettaErrorView>, attempt: nat) -> nat
    decreases max_attempts - attempt,
{
    if attempt >= max_attempts || attempt >= errors.len() {
        attempt
    } else if retry_action(max_attempts, attempt as u32, errors[attempt as int]) == RetryAction::GiveUp {
        attempt + 1
    } else {
        attempts_made(max_attempts, errors, attempt + 1)
    }
}

/// Law: whatever the failures, no more than `max_attempts` attempts are made; when
/// every failure is retryable, exactly `max_attempts` are; and a first failure that is
/// not retryable ends the loop after one attempt.
pub proof fn law_retry_attempts_bounded(max_attempts: u32, errors: Seq<LettaErrorView>, attempt: nat)
    requires
        attempt <= max_attempts,
        errors.len() >= max_attempts,
    ensures
        attempts_made(max_attempts, errors, attempt) <= max_attempts,
        (forall|i: int| attempt <= i < max_attempts ==> spec_is_retryable(#[trigger] errors[i]))
            ==> attempts_made(max_attempts, errors, attempt) == max_attempts,
        attempt < max_attempts && !spec_is_retryable(errors[attempt as int])
            ==> attempts_made(max_attempts, errors, attempt) == attempt + 1,
    decreases max_attempts - attempt,
{
    if attempt < max_attempts {
        law_retry_attempts_bounded(max_attempts, errors, attempt + 1);
    }
}

/// Law: the error a failed response maps to is retried exactly when the status is
/// 408, 429 or a server error (500 to 599).
pub proof fn law_response_retryable(
    status: u16,
    body: Seq<char>,
    retry_after_header: Option<Seq<char>>,
    url: Option<Seq<char>>,
    method: Option<Seq<char>>,
)
    ensures
        spec_is_retryable(spec_from_response(status, body, retry_after_header, url, method)) <==> (status == 408
            || status == 429 || (500 <= status <= 599)),
{
}

/// Law: after a failed attempt that is not the last, a retryable error for which the
/// server named no delay is answered by the backoff of the attempt that failed, so two
/// different attempts back off differently; a named delay is waited as asked; an error
/// that is not retryable, or a failure of the last attempt, gives up.
pub proof fn law_backoff_follows_attempt(max_attempts: u32, attempt: u32, other: u32, e: LettaErrorView)
    ensures
        spec_is_retryable(e) && attempt + 1 < max_attempts && requested_delay(e) is None
            ==> retry_action(max_attempts, attempt, e) == RetryAction::Backoff(attempt),
        spec_is_retryable(e) && attempt + 1 < max_attempts && other + 1 < max_attempts
            && requested_delay(e) is None && attempt != other
            ==> retry_action(max_attempts, attempt, e) != retry_action(max_attempts, other, e),
        spec_is_retryable(e) && attempt + 1 < max_attempts && requested_delay(e) is Some
            ==> retry_action(max_attempts, attempt, e) == RetryAction::WaitSeconds(requested_delay(e)->0),
        !spec_is_retryable(e) || attempt + 1 >= max_attempts
            ==> retry_action(max_attempts, attempt, e) == RetryAction::GiveUp,
{
}

} // verus!
