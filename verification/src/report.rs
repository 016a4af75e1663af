//! The result of a probe and what becomes of it.

use vstd::prelude::*;
use vstd::string::*;
use crate::probe_url::UrlError;
use crate::retry::{AttemptError, Step, Success};
use crate::status::{classify_status, status_outcome, Outcome};

verus! {

/// Why a probe failed.
#[derive(Clone, Copy, Debug, PartialEq, Eq, Structural)]
pub enum ProbeError {
    /// No URL could be built for the target.
    Construction(UrlError),
    /// Every attempt failed; this is the last failure.
    AllAttemptsFailed(AttemptError),
}

/// The result of one probe.
#[derive(Clone, Debug)]
pub struct ProbeResult {
    /// The final URL of a response; else the URL probed, or the word where no
    /// URL could be built.
    pub url: String,
    /// The status received, 0 where none was.
    pub status_code: u16,
    /// The declared content length, 0 where none was declared.
    pub content_length: u64,
    /// How many attempts were made.
    pub attempts: u32,
    pub outcome: Outcome,
    /// The failure, for a failed probe.
    pub error: Option<ProbeError>,
}

/// Whether a result is made known: matches are, failures are as diagnostics,
/// filtered results are dropped without a trace.
pub open spec fn reported(outcome: Outcome) -> bool {
    outcome != Outcome::Filtered
}

/// The result of a probe that got a response: classified by its status.
pub fn probe_answered(success: Success) -> (r: ProbeResult)
    ensures
        r.url == success.final_url,
        r.status_code == success.status,
        r.content_length == success.content_length,
        r.attempts == success.attempts,
        r.outcome == status_outcome(success.status as int),
        r.error is None,
{
    let outcome = classify_status(success.status);
    ProbeResult {
        url: success.final_url,
        status_code: success.status,
        content_length: success.content_length,
        attempts: success.attempts,
        outcome,
        error: None,
    }
}

/// The result of a probe that failed after `attempts` attempts (none where no
/// URL could be built).
pub fn probe_failed(url: String, attempts: u32, error: ProbeError) -> (r: ProbeResult)
    ensures
        r.url == url,
        r.status_code == 0,
        r.content_length == 0,
        r.attempts == attempts,
        r.outcome == Outcome::Failed,
        r.error == Some(error),
{
    ProbeResult {
        url,
        status_code: 0,
        content_length: 0,
        attempts,
        outcome: Outcome::Failed,
        error: Some(error),
    }
}

/// The result that a step of the retry policy ends the probe of `url` with;
/// none while the probe goes on.
pub fn conclude(url: String, step: Step) -> (r: Option<ProbeResult>)
    ensures
        match step {
            Step::Finished(success) => r is Some && r->0.url == success.final_url
                && r->0.status_code == success.status && r->0.content_length
                == success.content_length && r->0.attempts == success.attempts && r->0.outcome
                == status_outcome(success.status as int) && r->0.error is None,
            Step::RetryAfter { .. } => r is None,
            Step::AllAttemptsFailed { last_error, attempts } => r is Some && r->0.url == url
                && r->0.status_code == 0 && r->0.content_length == 0 && r->0.attempts == attempts
                && r->0.outcome == Outcome::Failed && r->0.error == Some(
                ProbeError::AllAttemptsFailed(last_error),
            ),
        },
{
    match step {
        Step::Finished(success) => Some(probe_answered(success)),
        Step::RetryAfter { .. } => None,
        Step::AllAttemptsFailed { last_error, attempts } => Some(
            probe_failed(url, attempts, ProbeError::AllAttemptsFailed(last_error)),
        ),
    }
}

/// Whether the result is handed to the reporting sink.
pub fn is_reported(result: &ProbeResult) -> (b: bool)
    ensures
        b == reported(result.outcome),
{
    match result.outcome {
        Outcome::Filtered => false,
        _ => true,
    }
}

/// The character of a decimal digit.
pub open spec fn digit_char(d: int) -> char {
    if d == 0 {
        '0'
    } else if d == 1 {
        '1'
    } else if d == 2 {
        '2'
    } else if d == 3 {
        '3'
    } else if d == 4 {
        '4'
    } else if d == 5 {
        '5'
    } else if d == 6 {
        '6'
    } else if d == 7 {
        '7'
    } else if d == 8 {
        '8'
    } else {
        '9'
    }
}

/// A number in decimal, without leading zeros.
pub open spec fn decimal(n: nat) -> Seq<char>
    decreases n,
{
    if n < 10 {
        seq![digit_char(n as int)]
    } else {
        decimal(n / 10).push(digit_char((n % 10) as int))
    }
}

/// The line that makes a match known: `[status] url - length bytes`.
pub open spec fn match_line(status: u16, url: Seq<char>, content_length: u64) -> Seq<char> {
    seq!['['] + decimal(status as nat) + seq![']', ' '] + url + seq![' ', '-', ' '] + decimal(
        content_length as nat,
    ) + seq![' ', 'b', 'y', 't', 'e', 's']
}

/// One decimal digit as text.
fn digit_text(d: u64) -> (r: &'static str)
    requires
        d < 10,
    ensures
        r@ == seq![digit_char(d as int)],
{
    proof {
        reveal_strlit("0");
        reveal_strlit("1");
        reveal_strlit("2");
        reveal_strlit("3");
        reveal_strlit("4");
        reveal_strlit("5");
        reveal_strlit("6");
        reveal_strlit("7");
        reveal_strlit("8");
        reveal_strlit("9");
    }
    let text = if d == 0 {
        "0"
    } else if d == 1 {
        "1"
    } else if d == 2 {
        "2"
    } else if d == 3 {
        "3"
    } else if d == 4 {
        "4"
    } else if d == 5 {
        "5"
    } else if d == 6 {
        "6"
    } else if d == 7 {
        "7"
    } else if d == 8 {
        "8"
    } else {
        "9"
    };
    proof {
        assert(text@ =~= seq![digit_char(d as int)]);
    }
    text
}

/// Writes a number in decimal.
pub fn decimal_string(n: u64) -> (r: String)
    ensures
        r@ == decimal(n as nat),
    decreases n,
{
    if n < 10 {
        String::from_str(digit_text(n))
    } else {
        let mut text = decimal_string(n / 10);
        text.append(digit_text(n % 10));
        text
    }
}

/// The line for a result that matched; none for any other result.
pub fn report_line(result: &ProbeResult) -> (r: Option<String>)
    ensures
        r is Some <==> result.outcome == Outcome::Matched,
        r is Some ==> r->0@ == match_line(
            result.status_code,
            result.url@,
            result.content_length,
        ),
{
    match result.outcome {
        Outcome::Matched => {
            proof {
                reveal_strlit("[");
                reveal_strlit("] ");
                reveal_strlit(" - ");
                reveal_strlit(" bytes");
                assert("["@ =~= seq!['[']);
                assert("] "@ =~= seq![']', ' ']);
                assert(" - "@ =~= seq![' ', '-', ' ']);
                assert(" bytes"@ =~= seq![' ', 'b', 'y', 't', 'e', 's']);
            }
            let status: u64 = result.status_code as u64;
            let mut line = String::from_str("[");
            line.append(decimal_string(status).as_str());
            line.append("] ");
            line.append(result.url.as_str());
            line.append(" - ");
            line.append(decimal_string(result.content_length).as_str());
            line.append(" bytes");
            Some(line)
        },
        _ => None,
    }
}

} // verus!
