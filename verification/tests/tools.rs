use inanna_media::command::Argument;
use inanna_media::diagnostics::Diagnostics;
use inanna_media::error::MediaError;
use inanna_media::ffmpeg::{decoder_arguments, position_of, DecoderCheck, FfmpegAttempt};
use inanna_media::model::{DownloadMode, Fraction, JobPhase};
use inanna_media::progress::PROGRESS_PREFIX;
use inanna_media::ytdlp::{
    download_arguments, inspection_arguments, DownloadRun, FormatInspection, FILE_PREFIX,
};

fn words(arguments: &[Argument]) -> Vec<&str> {
    arguments
        .iter()
        .map(|argument| match argument {
            Argument::Text(text) => text.as_str(),
            Argument::ToolDirectory => "<tools>",
            Argument::Input => "<input>",
            Argument::Output => "<output>",
        })
        .collect()
}

#[test]
fn inspection_separates_activity_from_format_json() {
    let mut state = FormatInspection::new("https://example.com/video");
    let mut updates = Vec::new();
    for line in [
        "[youtube] id: Downloading webpage",
        "[generic] Unknown activity",
        r#"{"formats":[]}"#,
    ] {
        updates.extend(state.on_stdout(line));
    }
    updates.extend(state.on_stderr("[youtube] id: Downloading m3u8 information"));
    let (update, json) = state.finish(true, "exit status: 0").unwrap();
    updates.push(update);
    assert_eq!(json, r#"{"formats":[]}"#);
    assert!(
        updates
            .iter()
            .any(|update| update.message == "Loading video page…")
    );
    assert!(
        updates
            .iter()
            .any(|update| update.message == "Reading available streams…")
    );
    assert_eq!(
        updates.last().unwrap().message,
        "Choosing video and audio formats…"
    );
}

#[test]
fn inspection_arguments_end_with_the_address() {
    assert_eq!(
        words(&inspection_arguments("/t/deno", "--exec")),
        [
            "--no-config",
            "--no-update",
            "--no-playlist",
            "--no-quiet",
            "--no-colors",
            "--dump-single-json",
            "--ffmpeg-location",
            "<tools>",
            "--js-runtimes",
            "deno:/t/deno",
            "--",
            "--exec"
        ]
    );
}

#[test]
fn download_arguments_follow_the_selection() {
    let expected = [
        "--no-config",
        "--no-update",
        "--no-playlist",
        "--newline",
        "--progress",
        "--progress-delta",
        "0.2",
        "--ffmpeg-location",
        "<tools>",
        "--js-runtimes",
        "deno:/t/deno",
        "--paths",
        "home:/s",
        "--output",
        "%(title).180B [%(id)s].%(ext)s",
        "--progress-template",
        "download:__YTDLP_WRAPPER_PROGRESS__%(progress._percent)f|%(progress.downloaded_bytes)s|%(progress.total_bytes)s|%(progress.speed)s",
        "--print",
        "after_move:__YTDLP_WRAPPER_FILE__%(filepath)j",
        "--windows-filenames",
        "--format",
        "v+a",
        "--merge-output-format",
        "mkv",
        "--",
        "u",
    ];
    let with = download_arguments(
        "/t/deno",
        "/s",
        &["--windows-filenames"],
        "v+a",
        Some("mkv"),
        DownloadMode::Video,
        "u",
    );
    assert_eq!(words(&with), expected);
    for (mode, container) in [
        (DownloadMode::AudioOnly, Some("mkv")),
        (DownloadMode::Video, None),
    ] {
        let without = download_arguments("/t/deno", "/s", &[], "v", container, mode, "u");
        assert_eq!(words(&without)[19..], ["--format", "v", "--", "u"]);
    }
}

#[test]
fn an_inspection_that_fails_tells_its_last_complaints() {
    let url = "https://example.com/private";
    let mut state = FormatInspection::new(url);
    assert_eq!(
        state.finish(false, "exit status: 2").unwrap_err(),
        MediaError::YtDlp("exit status: 2".into())
    );
    for n in 0..31 {
        assert_eq!(state.on_stderr(&format!("line {n} {url}")), None);
    }
    let told = match state.finish(false, "exit status: 2").unwrap_err() {
        MediaError::YtDlp(told) => told,
        other => panic!("{other:?}"),
    };
    assert_eq!(told.lines().count(), 30);
    assert!(told.starts_with("line 1 [URL]\nline 2 [URL]\n"));
    assert!(told.ends_with("line 30 [URL]"));
    assert!(!told.contains(url));
}

#[test]
fn reports_may_be_indented_and_span_lines() {
    let mut state = FormatInspection::new("u");
    assert_eq!(state.on_stdout("  {\"a\": 1"), None);
    assert_eq!(state.on_stdout("[x] id: Downloading webpage").unwrap().phase, JobPhase::Inspecting);
    assert_eq!(state.on_stdout("{}}"), None);
    let (_, json) = state.finish(true, "").unwrap();
    assert_eq!(json, "{\"a\": 1\n{}}");
}

#[test]
fn a_download_names_its_file_as_json() {
    let mut run = DownloadRun::new("u");
    assert_eq!(run.finish(true, "").unwrap_err(), MediaError::MissingOutput);
    assert_eq!(run.on_stdout(&format!("{FILE_PREFIX}not json")), None);
    assert_eq!(run.on_stdout(&format!("{FILE_PREFIX}17")), None);
    assert_eq!(run.on_stdout(&format!("x{FILE_PREFIX}\"/no\"")), None);
    assert_eq!(run.finish(true, "").unwrap_err(), MediaError::MissingOutput);
    assert_eq!(run.on_stdout(&format!("{FILE_PREFIX}\"/plain é.mp4\"")), None);
    assert_eq!(run.finish(true, "").unwrap(), "/plain é.mp4");
    assert_eq!(
        run.on_stdout(&format!("{FILE_PREFIX} \"C:\\\\a \\\"b\\\" \\u00e9.mkv\"")),
        None
    );
    assert_eq!(run.finish(true, "").unwrap(), "C:\\a \"b\" é.mkv");
    run.record_file(None);
    assert_eq!(run.finish(true, "").unwrap(), "C:\\a \"b\" é.mkv");
    run.record_file(Some("/other".into()));
    assert_eq!(run.finish(true, "").unwrap(), "/other");
    assert_eq!(
        run.finish(false, "signal: 9").unwrap_err(),
        MediaError::YtDlp("signal: 9".into())
    );
}

#[test]
fn progress_comes_on_either_stream() {
    let mut run = DownloadRun::new("http://u/");
    let line = format!("{PROGRESS_PREFIX}50|1|2|3");
    assert_eq!(run.on_stdout(&line).unwrap().percent, "50");
    assert_eq!(run.on_stderr(&line).unwrap().downloaded_bytes, Some(1));
    assert_eq!(
        run.finish(false, "gone").unwrap_err(),
        MediaError::YtDlp("gone".into())
    );
    assert_eq!(run.on_stderr("ERROR: http://u/ is private"), None);
    assert_eq!(
        run.finish(false, "gone").unwrap_err(),
        MediaError::YtDlp("ERROR: [URL] is private".into())
    );
}

#[test]
fn any_listed_decoder_counts() {
    assert_eq!(words(&decoder_arguments()), ["-hide_banner", "-decoders"]);
    let mut check = DecoderCheck::new();
    check.on_stdout("Decoders:");
    check.on_stdout(" V....D av1                  Alliance for Open Media AV1");
    assert_eq!(check.finish(true, ""), Ok(false));
    check.on_stdout(" V....D libdav1d             dav1d AV1 decoder by VideoLAN");
    check.on_stdout(" V....D vp9                  Google VP9");
    assert_eq!(check.finish(true, ""), Ok(true));
    assert_eq!(
        check.finish(false, "exit status: 1"),
        Err(MediaError::Ffmpeg(
            "could not inspect available decoders: exit status: 1".into()
        ))
    );
}

#[test]
fn an_attempt_tells_its_progress_and_its_failure() {
    let mut attempt = FfmpegAttempt::new(JobPhase::Converting, "Converting…");
    let update = attempt.start();
    assert_eq!(update.phase, JobPhase::Converting);
    assert_eq!(update.message, "Converting…");
    assert_eq!(update.fraction, None);
    let half = Fraction {
        bits: 0.5f32.to_bits(),
    };
    let update = attempt.advance(half);
    assert_eq!(update.phase, JobPhase::Converting);
    assert_eq!(update.message, "Converting…");
    assert_eq!(update.fraction, Some(half));
    assert_eq!(update.downloaded_bytes, None);
    assert_eq!(position_of("out_time_us=1500000").as_deref(), Some("1500000"));
    assert_eq!(position_of("out_time_us=").as_deref(), Some(""));
    assert_eq!(position_of(" out_time_us=1"), None);
    assert_eq!(position_of("frame=1"), None);
    assert_eq!(attempt.finish(true, "x"), None);
    assert_eq!(attempt.finish(false, "exit status: 1").as_deref(), Some("exit status: 1"));
    attempt.on_stderr("one".into());
    attempt.on_stderr("two".into());
    assert_eq!(attempt.finish(false, "x").as_deref(), Some("one\ntwo"));
    assert_eq!(attempt.finish(true, "x"), None);
}

#[test]
fn the_last_thirty_lines_are_kept() {
    let mut diagnostics = Diagnostics::new();
    assert_eq!(diagnostics.complaint("status"), "status");
    diagnostics.push("".into());
    assert_eq!(diagnostics.complaint("status"), "status");
    diagnostics.push("".into());
    assert_eq!(diagnostics.complaint("status"), "\n");
    for n in 0..100 {
        diagnostics.push(n.to_string());
    }
    let expected: Vec<String> = (70..100).map(|n| n.to_string()).collect();
    assert_eq!(diagnostics.complaint("status"), expected.join("\n"));
}
