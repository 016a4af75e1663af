//! The status allow-list and the classification of a finished probe.

use vstd::prelude::*;

verus! {

/// How a finished probe is reported.
#[derive(Clone, Copy, Debug, PartialEq, Eq, Structural)]
pub enum Outcome {
    /// A response came back with an allowed status: it is reported.
    Matched,
    /// A response came back with another status: it is dropped.
    Filtered,
    /// No response came back, or no URL could be built.
    Failed,
}

/// The allow-list: the status codes that make a response worth reporting.
/// 404 is left out on purpose, and so is the unassigned 509.
pub open spec fn allowed_status(code: int) -> bool {
    ||| 200 <= code <= 208
    ||| code == 226
    ||| 300 <= code <= 305
    ||| code == 307
    ||| code == 308
    ||| 400 <= code <= 403
    ||| 405 <= code <= 418
    ||| 421 <= code <= 426
    ||| code == 428
    ||| code == 429
    ||| code == 431
    ||| code == 451
    ||| 500 <= code <= 508
    ||| code == 510
    ||| code == 511
}

/// The outcome the engine gives a response with status `code`.
pub open spec fn status_outcome(code: int) -> Outcome {
    if allowed_status(code) {
        Outcome::Matched
    } else {
        Outcome::Filtered
    }
}

/// Whether `code` is on the allow-list.
pub fn is_allowed_status(code: u16) -> (b: bool)
    ensures
        b == allowed_status(code as int),
{
    (200 <= code && code <= 208) || code == 226 || (300 <= code && code <= 305) || code == 307
        || code == 308 || (400 <= code && code <= 403) || (405 <= code && code <= 418) || (421
        <= code && code <= 426) || code == 428 || code == 429 || code == 431 || code == 451 || (500
        <= code && code <= 508) || code == 510 || code == 511
}

/// Classifies a received status code: `Matched` on the allow-list, else
/// `Filtered`. A received status is never `Failed`.
pub fn classify_status(code: u16) -> (o: Outcome)
    ensures
        o == status_outcome(code as int),
        o != Outcome::Failed,
{
    if is_allowed_status(code) {
        Outcome::Matched
    } else {
        Outcome::Filtered
    }
}

/// 404 and 509 are never matched; 200, 403 and 503 always are.
pub proof fn not_found_is_filtered_and_common_codes_match()
    ensures
        status_outcome(404) != Outcome::Matched,
        status_outcome(509) != Outcome::Matched,
        status_outcome(200) == Outcome::Matched,
        status_outcome(403) == Outcome::Matched,
        status_outcome(503) == Outcome::Matched,
{
}

} // verus!
