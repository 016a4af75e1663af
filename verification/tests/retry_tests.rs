use reconcrab::report::{
    conclude, decimal_string, is_reported, probe_answered, probe_failed, report_line, ProbeError,
};
use reconcrab::retry::{
    backoff_millis, on_attempt, AttemptError, AttemptResult, Response, Step, Success,
};
use reconcrab::status::Outcome;

#[test]
fn timeouts_make_three_attempts_and_two_sleeps() {
    let max_retries: u8 = 2;
    let mut attempt: u8 = 0;
    let mut attempts_made = 0;
    let mut sleeps: Vec<u64> = Vec::new();
    let outcome;
    loop {
        attempts_made += 1;
        match on_attempt(attempt, max_retries, AttemptResult::Failed(AttemptError::TimedOut)) {
            Step::RetryAfter { sleep_millis, next_attempt } => {
                sleeps.push(sleep_millis);
                attempt = next_attempt;
            }
            step => {
                outcome = step;
                break;
            }
        }
    }
    assert_eq!(attempts_made, 3);
    assert_eq!(sleeps, vec![100, 200]);
    match outcome.clone() {
        Step::AllAttemptsFailed { last_error, attempts } => {
            assert_eq!(last_error, AttemptError::TimedOut);
            assert_eq!(attempts, 3);
        }
        _ => panic!("the probe must give up"),
    }
    let result = conclude("http://h/x".to_string(), outcome).unwrap();
    assert_eq!(result.outcome, Outcome::Failed);
    assert_eq!(result.attempts, 3);
    assert_eq!(result.url, "http://h/x");
    assert_eq!(result.error, Some(ProbeError::AllAttemptsFailed(AttemptError::TimedOut)));
    assert!(is_reported(&result));
}

#[test]
fn backoff_is_linear() {
    assert_eq!(backoff_millis(0), 100);
    assert_eq!(backoff_millis(1), 200);
    assert_eq!(backoff_millis(9), 1000);
    assert_eq!(backoff_millis(255), 25600);
}

#[test]
fn any_status_ends_the_probe() {
    let response = Response { final_url: "http://h/".to_string(), status: 500, content_length: None };
    match on_attempt(1, 2, AttemptResult::Received(response)) {
        Step::Finished(success) => {
            assert_eq!(success.final_url, "http://h/");
            assert_eq!(success.status, 500);
            assert_eq!(success.content_length, 0);
            assert_eq!(success.attempts, 2);
        }
        _ => panic!("a response ends the probe"),
    }
    let response =
        Response { final_url: "http://h/".to_string(), status: 404, content_length: Some(42) };
    let step = on_attempt(0, 0, AttemptResult::Received(response));
    let result = conclude("http://h".to_string(), step).unwrap();
    assert_eq!(result.outcome, Outcome::Filtered);
    assert_eq!(result.content_length, 42);
    assert_eq!(result.attempts, 1);
    assert!(!is_reported(&result));
}

#[test]
fn no_retries_means_one_attempt() {
    match on_attempt(0, 0, AttemptResult::Failed(AttemptError::Transport)) {
        Step::AllAttemptsFailed { last_error, attempts } => {
            assert_eq!(last_error, AttemptError::Transport);
            assert_eq!(attempts, 1);
        }
        _ => panic!("no retry is left"),
    }
    assert!(conclude(
        "u".to_string(),
        on_attempt(0, 1, AttemptResult::Failed(AttemptError::Transport))
    )
    .is_none());
}

#[test]
fn results_are_classified() {
    let hit = probe_answered(Success {
        final_url: "http://h/a".to_string(),
        status: 403,
        content_length: 7,
        attempts: 1,
    });
    assert_eq!(hit.outcome, Outcome::Matched);
    assert_eq!(hit.status_code, 403);
    assert_eq!(hit.error, None);
    assert!(is_reported(&hit));
    let miss = probe_failed("w".to_string(), 0, ProbeError::AllAttemptsFailed(AttemptError::Transport));
    assert_eq!(miss.outcome, Outcome::Failed);
    assert_eq!(miss.status_code, 0);
}

#[test]
fn match_line_shows_status_url_and_length() {
    let hit = probe_answered(Success {
        final_url: "https://example.com/admin".to_string(),
        status: 200,
        content_length: 1234,
        attempts: 1,
    });
    assert_eq!(report_line(&hit), Some("[200] https://example.com/admin - 1234 bytes".to_string()));
    let empty = probe_answered(Success {
        final_url: "http://h/".to_string(),
        status: 301,
        content_length: 0,
        attempts: 2,
    });
    assert_eq!(report_line(&empty), Some("[301] http://h/ - 0 bytes".to_string()));
    let dropped = probe_answered(Success {
        final_url: "http://h/".to_string(),
        status: 404,
        content_length: 9,
        attempts: 1,
    });
    assert_eq!(report_line(&dropped), None);
    let failed = probe_failed("u".to_string(), 3, ProbeError::AllAttemptsFailed(AttemptError::TimedOut));
    assert_eq!(report_line(&failed), None);
    assert_eq!(decimal_string(0), "0");
    assert_eq!(decimal_string(10), "10");
    assert_eq!(decimal_string(u64::MAX), "18446744073709551615");
}
