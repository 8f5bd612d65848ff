use inanna_media::error::MediaError;
use inanna_media::model::{Fraction, JobPhase, ProgressUpdate};
use inanna_media::retry::{
    classify_failure, is_youtube_host, retry_reason, Retries, RetryAction, RetryReason,
    MAX_DOWNLOAD_RETRIES,
};

const YOUTUBE_URL: &str = "https://www.youtube.com/watch?v=test";

/// What came of a download, how often it was tried, how many seconds were waited, and what the
/// user was told.
struct Outcome<T> {
    result: Result<T, MediaError>,
    attempts: u32,
    seconds: u64,
    updates: Vec<ProgressUpdate>,
}

fn run<T>(
    url: &str,
    cancelled: &mut dyn FnMut(&[ProgressUpdate]) -> bool,
    attempt: &mut dyn FnMut(u32) -> Result<T, MediaError>,
) -> Outcome<T> {
    let mut state = Retries::new();
    let mut attempts = 0;
    let mut seconds = 0;
    let mut updates = Vec::new();
    let mut action = state.begin(cancelled(&updates));
    let result = loop {
        action = match action {
            RetryAction::Attempt => {
                attempts += 1;
                match attempt(attempts) {
                    Ok(value) => break Ok(value),
                    Err(error) => state.after_failure(url, error, cancelled(&updates)),
                }
            }
            RetryAction::RetryNow { update } => {
                updates.push(update);
                state.begin(cancelled(&updates))
            }
            RetryAction::Wait { update } => {
                updates.push(update);
                let stop = cancelled(&updates);
                if !stop {
                    seconds += 1;
                }
                state.after_second(stop)
            }
            RetryAction::GiveUp { error } => break Err(error),
        };
    };
    Outcome {
        result,
        attempts,
        seconds,
        updates,
    }
}

#[test]
fn classifies_only_explicit_transient_failures() {
    for code in [403, 408, 429, 500, 502, 503, 504] {
        assert!(
            retry_reason(
                YOUTUBE_URL,
                &MediaError::YtDlp(format!(
                    "ERROR: unable to download video data: HTTP Error {code}: failure"
                ))
            )
            .is_some(),
            "{code}"
        );
    }
    for message in [
        "Sign in to confirm you're not a bot",
        "Sign in to confirm you’re not a bot",
        "The read operation timed out",
        "Connection reset by peer",
        "Remote end closed connection without response",
        "Temporary failure in name resolution",
    ] {
        assert!(
            retry_reason(YOUTUBE_URL, &MediaError::YtDlp(format!("ERROR: {message}")))
                .is_some()
        );
    }
    for message in [
        "HTTP Error 400: Bad Request",
        "HTTP Error 401: Unauthorized",
        "HTTP Error 402: Payment Required",
        "HTTP Error 404: Not Found",
        "HTTP Error 410: Gone",
        "HTTP Error 501: Not Implemented",
        "Private video",
        "Video unavailable",
        "Sign in to confirm your age",
        "Requested format is not available",
        "Permission denied",
        "No space left on device",
        "WARNING: HTTP Error 403: Forbidden\nERROR: Private video",
        "WARNING: HTTP Error 429: Too Many Requests",
        "exit status: 1",
    ] {
        let details = if message.starts_with("WARNING:") || message.starts_with("exit") {
            message.to_owned()
        } else {
            format!("ERROR: {message}")
        };
        assert_eq!(
            retry_reason(YOUTUBE_URL, &MediaError::YtDlp(details)),
            None,
            "{message}"
        );
    }
    for url in [
        "https://example.com/video",
        "https://youtube.com.example.com/video",
    ] {
        assert_eq!(
            retry_reason(
                url,
                &MediaError::YtDlp("ERROR: HTTP Error 403: Forbidden".into())
            ),
            None
        );
    }
    assert_eq!(
        retry_reason(
            YOUTUBE_URL,
            &MediaError::Ffmpeg("ERROR: HTTP Error 503".into())
        ),
        None
    );
    assert_eq!(retry_reason(YOUTUBE_URL, &MediaError::Cancelled), None);
}

#[test]
fn retries_three_times_then_preserves_final_error() {
    let outcome = run(YOUTUBE_URL, &mut |_| false, &mut |_| {
        Err::<(), _>(MediaError::YtDlp(
            "ERROR: HTTP Error 403: Forbidden".into(),
        ))
    });
    assert_eq!(outcome.attempts, 4);
    assert_eq!(outcome.seconds, 30);
    assert!(matches!(
        outcome.result,
        Err(MediaError::RetriesExhausted(_))
    ));
    let updates = outcome.updates;
    assert!(updates[0].message.contains("Retrying now (retry 1 of 3)"));
    assert!(
        updates
            .last()
            .unwrap()
            .message
            .contains("1s (retry 3 of 3)")
    );
    assert!(
        updates
            .iter()
            .all(|u| u.phase == JobPhase::Retrying && u.fraction == Some(Fraction::nothing()))
    );
    assert_eq!(updates.len(), 31);
}

#[test]
fn first_retry_is_immediate() {
    for code in [403, 429, 503] {
        let outcome = run(YOUTUBE_URL, &mut |_| false, &mut |attempts| {
            if attempts == 1 {
                Err(MediaError::YtDlp(format!(
                    "ERROR: HTTP Error {code}: failure"
                )))
            } else {
                Ok(())
            }
        });
        outcome.result.unwrap();
        assert_eq!(outcome.attempts, 2);
        assert_eq!(outcome.seconds, 0);
    }
}

#[test]
fn stops_after_success_and_backs_off_rate_limits() {
    let outcome = run(YOUTUBE_URL, &mut |_| false, &mut |attempts| {
        if attempts == 3 {
            Ok("saved")
        } else {
            Err(MediaError::YtDlp(
                "ERROR: HTTP Error 429: Too Many Requests".into(),
            ))
        }
    });
    assert_eq!(outcome.result.unwrap(), "saved");
    assert_eq!(outcome.attempts, 3);
    assert_eq!(outcome.seconds, 60);
}

#[test]
fn cancellation_during_backoff_prevents_another_attempt() {
    let outcome = run(
        YOUTUBE_URL,
        &mut |updates: &[ProgressUpdate]| {
            updates
                .iter()
                .any(|update| update.message.contains("retry 2 of 3"))
        },
        &mut |_| {
            Err::<(), _>(MediaError::YtDlp(
                "ERROR: HTTP Error 403: Forbidden".into(),
            ))
        },
    );
    assert!(matches!(outcome.result, Err(MediaError::Cancelled)));
    assert_eq!(outcome.attempts, 2);
}

#[test]
fn permanent_errors_stop_immediately_even_after_a_transient_error() {
    for transient_first in [false, true] {
        let outcome = run(YOUTUBE_URL, &mut |_| false, &mut |attempts| {
            Err::<(), _>(MediaError::YtDlp(if transient_first && attempts == 1 {
                "ERROR: HTTP Error 403: Forbidden".into()
            } else {
                "ERROR: Private video".into()
            }))
        });
        assert_eq!(outcome.attempts, if transient_first { 2 } else { 1 });
        assert!(matches!(outcome.result, Err(MediaError::YtDlp(_))));
    }
}

#[test]
fn the_last_failure_is_told_when_retries_are_exhausted() {
    let outcome = run(YOUTUBE_URL, &mut |_| false, &mut |attempts| {
        Err::<(), _>(MediaError::YtDlp(format!("ERROR: timed out {attempts}")))
    });
    assert_eq!(
        outcome.result,
        Err(MediaError::RetriesExhausted(Box::new(MediaError::YtDlp(
            "ERROR: timed out 4".into()
        ))))
    );
    assert_eq!(
        outcome.result.unwrap_err().message(),
        "automatic retries exhausted: yt-dlp failed: ERROR: timed out 4"
    );
    assert_eq!(MAX_DOWNLOAD_RETRIES, 3);
}

#[test]
fn messages_count_down_the_seconds() {
    let outcome = run("https://example.com/", &mut |_| false, &mut |_| {
        Err::<(), _>(MediaError::YtDlp("ERROR: HTTP Error 503: busy".into()))
    });
    let messages: Vec<&str> = outcome
        .updates
        .iter()
        .map(|update| update.message.as_str())
        .collect();
    assert_eq!(
        messages[0],
        "The connection was interrupted. Retrying now (retry 1 of 3)…"
    );
    assert_eq!(
        messages[1],
        "The connection was interrupted. Retrying in 10s (retry 2 of 3)…"
    );
    assert_eq!(
        messages[10],
        "The connection was interrupted. Retrying in 1s (retry 2 of 3)…"
    );
    assert_eq!(
        messages[11],
        "The connection was interrupted. Retrying in 20s (retry 3 of 3)…"
    );
    assert_eq!(messages.len(), 31);
}

#[test]
fn reasons_are_told_apart() {
    let reason = |url: &str, details: &str| retry_reason(url, &MediaError::YtDlp(details.into()));
    assert_eq!(
        reason("HTTPS://YOUTU.BE/x", "ERROR: HTTP Error 403: Forbidden"),
        Some(RetryReason::Blocked)
    );
    assert_eq!(
        reason("https://music.youtube.com/x", "ERROR: http ERROR 403"),
        Some(RetryReason::Blocked)
    );
    assert_eq!(
        reason("https://notyoutube.com/x", "ERROR: HTTP Error 403"),
        None
    );
    assert_eq!(reason("youtube.com", "ERROR: HTTP Error 403"), None);
    assert_eq!(
        reason("no address", "ERROR: HTTP Error 429"),
        Some(RetryReason::RateLimited)
    );
    assert_eq!(
        reason("no address", "ERROR: Σ Connection ABORTED"),
        Some(RetryReason::Network)
    );
    assert_eq!(
        reason(YOUTUBE_URL, "error: SIGN IN TO CONFIRM YOU’RE NOT A BOT"),
        Some(RetryReason::Blocked)
    );
    assert_eq!(
        reason("no address", "ERROR: Sign in to confirm you're not a bot"),
        None
    );
    assert_eq!(
        reason(YOUTUBE_URL, "ERROR: HTTP Error 404: timed out"),
        None
    );
    assert_eq!(
        reason(YOUTUBE_URL, "ERROR: HTTP Error 99999: timed out"),
        Some(RetryReason::Network)
    );
    assert_eq!(
        reason(YOUTUBE_URL, "ERROR: timed out\nERROR: Private video"),
        None
    );
    assert_eq!(
        reason(YOUTUBE_URL, "ERROR: Private video\r\nERROR: timed out\r\n"),
        Some(RetryReason::Network)
    );
}

#[test]
fn lowered_complaints_are_classified_by_host() {
    assert_eq!(
        classify_failure("error: http error 403", Some("www.youtube.com")),
        Some(RetryReason::Blocked)
    );
    assert_eq!(classify_failure("error: http error 403", None), None);
    assert_eq!(
        classify_failure("ERROR: http error 429", Some("youtu.be")),
        None
    );
    assert!(is_youtube_host(Some("youtu.be")));
    assert!(is_youtube_host(Some("youtube.com")));
    assert!(!is_youtube_host(Some("www.youtu.be")));
    assert!(!is_youtube_host(None));
}

#[test]
fn cancelling_before_the_first_attempt_makes_none() {
    let outcome = run(YOUTUBE_URL, &mut |_| true, &mut |_| Ok(()));
    assert_eq!(outcome.result, Err(MediaError::Cancelled));
    assert_eq!(outcome.attempts, 0);
}
