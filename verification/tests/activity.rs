use inanna_media::activity::{parse_format_inspection_activity, Activity};
use inanna_media::error::MediaError;
use inanna_media::model::{Fraction, JobPhase, ProgressUpdate};
use inanna_media::progress::parse_ytdlp_progress;

/// Work that goes on under a clock that ticks each second.
struct Work {
    activity: Activity,
    updates: Vec<ProgressUpdate>,
    milliseconds: u64,
    ticks: u64,
}

impl Work {
    fn start(initial: ProgressUpdate) -> Work {
        Work {
            activity: Activity::new(&initial, 0),
            updates: vec![initial],
            milliseconds: 0,
            ticks: 0,
        }
    }

    fn sleep(&mut self, milliseconds: u64) {
        self.milliseconds += milliseconds;
        while (self.ticks + 1) * 1000 < self.milliseconds {
            self.ticks += 1;
            let update = self.activity.on_tick(self.ticks * 1_000_000_000);
            self.updates.extend(update);
        }
    }

    fn tell(&mut self, update: ProgressUpdate) {
        if self
            .activity
            .on_update(&update, self.milliseconds * 1_000_000)
        {
            self.updates.push(update);
        }
    }
}

#[test]
fn preparation_activity_stops_when_download_progress_arrives() {
    let mut work = Work::start(ProgressUpdate::message(
        JobPhase::Preparing,
        "Preparing download…\nNo H.264 stream is available; video requires conversion.",
    ));
    work.sleep(10500);
    let report = parse_ytdlp_progress("25|250|1000|50").unwrap();
    let fraction = (report.percent.parse::<f32>().unwrap() / 100.0).clamp(0.0, 1.0);
    work.tell(report.update(Some(Fraction {
        bits: fraction.to_bits(),
    })));
    work.sleep(3000);
    let result: Result<(), MediaError> = Err(MediaError::Cancelled);
    assert!(matches!(result, Err(MediaError::Cancelled)));
    let updates = work.updates;
    assert_eq!(updates.len(), 3);
    assert_eq!(
        updates[0].message,
        "Preparing download…\nNo H.264 stream is available; video requires conversion."
    );
    assert_eq!(
        updates[1].message,
        "Preparing download… · 10s elapsed\nNo H.264 stream is available; video requires conversion."
    );
    assert_eq!(updates[1].fraction, None);
    assert_eq!(updates[2].phase, JobPhase::Downloading);
    assert_eq!(
        updates[2].fraction.map(|f| f32::from_bits(f.bits)),
        Some(0.25)
    );
}

#[test]
fn inspection_activity_continues_until_inspection_finishes() {
    let mut work = Work::start(ProgressUpdate::message(
        JobPhase::Inspecting,
        "Checking available formats…",
    ));
    work.sleep(11500);
    let result = 42;
    assert_eq!(result, 42);
    let updates = work.updates;
    assert_eq!(updates.len(), 3);
    assert_eq!(
        updates[2].message,
        "Checking available formats… · 11s elapsed"
    );
    assert!(updates.iter().all(|update| update.fraction.is_none()));
}

#[test]
fn recognizes_inspection_stages_without_exposing_raw_output() {
    for (line, expected) in [
        (
            "[youtube] Extracting URL: https://example.com/private",
            "Connecting to the video site…",
        ),
        ("[youtube] id: Downloading webpage", "Loading video page…"),
        (
            "[youtube] id: Downloading web safari player API JSON",
            "Fetching player information…",
        ),
        (
            "[youtube] id: Downloading player abc-main",
            "Loading video player…",
        ),
        (
            "[youtube] [jsc:deno] Downloading challenge solver lib script from https://example.com",
            "Preparing playback checks…",
        ),
        (
            "[youtube] [jsc:deno] Solving JS challenges using deno",
            "Resolving playback checks…",
        ),
        (
            "[youtube] id: Downloading m3u8 information",
            "Reading available streams…",
        ),
        (
            "[generic] id: Downloading MPD manifest",
            "Reading available streams…",
        ),
        (
            "[vimeo] id: Downloading JSON metadata",
            "Fetching video information…",
        ),
    ] {
        let update = parse_format_inspection_activity(line).unwrap();
        assert_eq!(update.message, expected);
        assert_eq!(update.phase, JobPhase::Inspecting);
        assert_eq!(update.fraction, None);
    }
    for line in [
        "WARNING: Downloading webpage failed",
        "ERROR: player API JSON unavailable",
        "[debug] Downloading player abc",
        "[generic] Unrecognized activity",
        r#"{"title":"Downloading player API JSON"}"#,
    ] {
        assert!(parse_format_inspection_activity(line).is_none());
    }
}

#[test]
fn inspection_timer_resets_per_step_and_waits_ten_seconds() {
    let mut work = Work::start(ProgressUpdate::message(
        JobPhase::Inspecting,
        "Checking available formats…",
    ));
    work.sleep(9500);
    assert_eq!(work.updates.len(), 1);
    work.sleep(3000);
    let stage = parse_format_inspection_activity("[youtube] id: Downloading webpage").unwrap();
    work.tell(stage.clone());
    let count = work.updates.len();
    work.sleep(3000);
    work.tell(stage); // Repeated activity in the same step must not reset its timer.
    work.sleep(6900);
    assert_eq!(work.updates.len(), count);
    assert_eq!(work.updates.last().unwrap().message, "Loading video page…");
    work.sleep(2000);
    let updates = work.updates;
    let step_index = updates
        .iter()
        .position(|update| update.message == "Loading video page…")
        .unwrap();
    assert_eq!(
        updates[step_index + 1].message,
        "Loading video page… · 10s elapsed"
    );
    assert_eq!(
        updates[step_index + 2].message,
        "Loading video page… · 11s elapsed"
    );
    assert_eq!(updates.len(), step_index + 3);
}

#[test]
fn other_stages_are_recognized_too() {
    for (line, expected) in [
        (" [x] Extracting URL: y ", "Connecting to the video site…"),
        ("[x] id: Extracting URL: y", "Connecting to the video site…"),
        ("[x] Downloading f4m manifest", "Reading available streams…"),
        ("[x] Downloading ISM manifest", "Reading available streams…"),
        ("[x] a: Downloading API JSON", "Fetching video information…"),
    ] {
        assert_eq!(
            parse_format_inspection_activity(line).unwrap().message,
            expected
        );
    }
    assert_eq!(parse_format_inspection_activity(""), None);
    assert_eq!(parse_format_inspection_activity("[x] Downloading webpage"), None);
}

#[test]
fn silence_lasts_ten_seconds_to_the_nanosecond() {
    let step = ProgressUpdate::message(JobPhase::Preparing, "Step");
    let activity = Activity::new(&step, 5);
    assert_eq!(activity.on_tick(10_000_000_004), None);
    assert_eq!(
        activity.on_tick(10_000_000_005).unwrap().message,
        "Step · 10s elapsed"
    );
    assert_eq!(activity.on_tick(0), None);
}

#[test]
fn a_measured_step_is_not_timed() {
    let step = ProgressUpdate::message(JobPhase::Preparing, "Step");
    let mut activity = Activity::new(&step, 0);
    assert!(!activity.on_update(&step, 1));
    let other = ProgressUpdate::message(JobPhase::Inspecting, "Step");
    assert!(activity.on_update(&other, 2));
    let measured = ProgressUpdate::partial(JobPhase::Inspecting, Fraction::nothing(), "Step");
    assert!(activity.on_update(&measured, 3));
    assert_eq!(activity.on_tick(u64::MAX), None);
    assert!(activity.on_update(&other, 4));
    assert!(activity.on_tick(u64::MAX).is_some());
    let finalizing = ProgressUpdate::message(JobPhase::Finalizing, "Step");
    assert!(activity.on_update(&finalizing, 5));
    assert_eq!(activity.on_tick(u64::MAX), None);
}
