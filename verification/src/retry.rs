//! The retry policy of one probe: what to do after each attempt.
//!
//! The caller sends the request and hands the result of each attempt to
//! `on_attempt`, which decides: finish, sleep and try again, or give up.

use vstd::prelude::*;

verus! {

/// The wait after the first failed attempt, in milliseconds; each further
/// failure adds as much again.
pub const BACKOFF_STEP_MILLIS: u64 = 100;

/// Why an attempt brought no response.
#[derive(Clone, Copy, Debug, PartialEq, Eq, Structural)]
pub enum AttemptError {
    /// The attempt ran into its timeout.
    TimedOut,
    /// The transport failed.
    Transport,
}

/// A response as the transport hands it over.
#[derive(Clone, Debug)]
pub struct Response {
    pub final_url: String,
    pub status: u16,
    /// The declared content length, where the response declares one.
    pub content_length: Option<u64>,
}

/// What one attempt brought.
#[derive(Clone, Debug)]
pub enum AttemptResult {
    /// A response with any status code.
    Received(Response),
    /// No response.
    Failed(AttemptError),
}

/// A probe that got its response.
#[derive(Clone, Debug)]
pub struct Success {
    pub final_url: String,
    pub status: u16,
    /// The declared content length, 0 where none was declared.
    pub content_length: u64,
    /// How many attempts were made, this one included.
    pub attempts: u32,
}

/// What follows an attempt.
#[derive(Clone, Debug)]
pub enum Step {
    /// The probe is over: a response came.
    Finished(Success),
    /// Sleep for `sleep_millis`, then make attempt `next_attempt`.
    RetryAfter { sleep_millis: u64, next_attempt: u8 },
    /// The probe is over: every attempt failed.
    AllAttemptsFailed { last_error: AttemptError, attempts: u32 },
}

/// The wait after the failure of attempt `attempt` (counted from 0): linear,
/// without jitter.
pub open spec fn backoff(attempt: int) -> int {
    100 * (attempt + 1)
}

/// The declared length, or 0.
pub open spec fn declared_length(content_length: Option<u64>) -> u64 {
    match content_length {
        Some(n) => n,
        None => 0,
    }
}

/// The policy. Any response ends the probe, whatever its status. A failure is
/// retried after the backoff while attempts remain: attempts 0 to
/// `max_retries` are made, and no more.
pub open spec fn step_after(attempt: u8, max_retries: u8, result: AttemptResult) -> Step {
    match result {
        AttemptResult::Received(response) => Step::Finished(
            Success {
                final_url: response.final_url,
                status: response.status,
                content_length: declared_length(response.content_length),
                attempts: (attempt + 1) as u32,
            },
        ),
        AttemptResult::Failed(error) => if attempt < max_retries {
            Step::RetryAfter {
                sleep_millis: backoff(attempt as int) as u64,
                next_attempt: (attempt + 1) as u8,
            }
        } else {
            Step::AllAttemptsFailed { last_error: error, attempts: (attempt + 1) as u32 }
        },
    }
}

/// The wait after the failure of attempt `attempt`.
pub fn backoff_millis(attempt: u8) -> (ms: u64)
    ensures
        ms == backoff(attempt as int),
{
    let index: u64 = attempt as u64;
    BACKOFF_STEP_MILLIS * (index + 1)
}

/// Decides what follows attempt `attempt`, given what it brought.
pub fn on_attempt(attempt: u8, max_retries: u8, result: AttemptResult) -> (step: Step)
    ensures
        step == step_after(attempt, max_retries, result),
{
    let made: u32 = attempt as u32 + 1;
    match result {
        AttemptResult::Received(response) => {
            let content_length: u64 = match response.content_length {
                Some(n) => n,
                None => 0,
            };
            Step::Finished(
                Success {
                    final_url: response.final_url,
                    status: response.status,
                    content_length,
                    attempts: made,
                },
            )
        },
        AttemptResult::Failed(error) => {
            if attempt < max_retries {
                Step::RetryAfter { sleep_millis: backoff_millis(attempt), next_attempt: attempt + 1 }
            } else {
                Step::AllAttemptsFailed { last_error: error, attempts: made }
            }
        },
    }
}

/// A probe whose every attempt fails makes `max_retries + 1` attempts: after
/// attempt `i` below `max_retries` it sleeps `100 * (i + 1)` milliseconds and
/// goes on to attempt `i + 1`; after attempt `max_retries` it gives up with
/// the last error.
pub proof fn failures_exhaust_the_retries(max_retries: u8, errors: Seq<AttemptError>)
    requires
        errors.len() == max_retries + 1,
    ensures
        forall|i: u8|
            i < max_retries ==> #[trigger] step_after(
                i,
                max_retries,
                AttemptResult::Failed(errors[i as int]),
            ) == (Step::RetryAfter { sleep_millis: (100 * (i + 1)) as u64, next_attempt: (i + 1) as u8 }),
        step_after(max_retries, max_retries, AttemptResult::Failed(errors[max_retries as int]))
            == (Step::AllAttemptsFailed {
            last_error: errors[max_retries as int],
            attempts: (max_retries + 1) as u32,
        }),
{
}

/// A response ends the probe at once, whatever its status code: no status is
/// retried.
pub proof fn any_response_finishes(attempt: u8, max_retries: u8, response: Response)
    ensures
        step_after(attempt, max_retries, AttemptResult::Received(response)) is Finished,
{
}

} // verus!
