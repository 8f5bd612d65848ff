use inanna_media::error::MediaError;
use inanna_media::formats::AvailableFormat;
use inanna_media::model::{DownloadMode, Fraction, JobPhase, VideoQuality};
use inanna_media::output::{
    output_extension, output_stem, staging_name, staging_name_with, OutputSearch,
};
use inanna_media::pipeline::{
    after_decoder_check, after_download, after_inspection, failure_update, inspecting_update,
    saved_update, starting_update, PipelineStep,
};

fn format(id: &str, video: &str, height: u32) -> AvailableFormat {
    AvailableFormat {
        format_id: id.into(),
        ext: Some("mp4".into()),
        vcodec: Some(video.into()),
        acodec: Some("aac".into()),
        width: None,
        height: Some(height),
        has_drm: None,
    }
}

fn unique_name(taken: &[&str], stem: &str, extension: &str) -> String {
    let mut search = OutputSearch::new(stem, extension);
    while let Some(name) = search.candidate() {
        if !taken.contains(&name.as_str()) {
            return name;
        }
        search.reject();
    }
    search.drawn_name()
}

#[test]
fn creates_a_non_conflicting_name() {
    let taken = ["clip.mp4"];
    assert_eq!(unique_name(&taken, "clip", "mp4"), "clip (1).mp4");
    assert_eq!(unique_name(&[], "clip", "mp4"), "clip.mp4");
    assert_eq!(
        unique_name(&["clip.mp4", "clip (1).mp4", "clip (3).mp4"], "clip", "mp4"),
        "clip (2).mp4"
    );
}

#[test]
fn names_run_out_after_ten_thousand() {
    let mut search = OutputSearch::new("a", "b");
    let mut names = Vec::new();
    while let Some(name) = search.candidate() {
        names.push(name);
        search.reject();
    }
    assert_eq!(names.len(), 10_000);
    assert_eq!(names[0], "a.b");
    assert_eq!(names[9_999], "a (9999).b");
    search.reject();
    assert_eq!(search.candidate(), None);
    let drawn = search.drawn_name();
    assert!(!names.contains(&drawn));
    names.sort();
    names.dedup();
    assert_eq!(names.len(), 10_000);
    assert_eq!(search.name_with("id"), "a-id.b");
    let id = drawn.strip_prefix("a-").unwrap().strip_suffix(".b").unwrap();
    assert_random_uuid(id);
    assert_ne!(search.drawn_name(), drawn);
}

fn assert_random_uuid(id: &str) {
    let groups: Vec<&str> = id.split('-').collect();
    let lengths: Vec<usize> = groups.iter().map(|group| group.len()).collect();
    assert_eq!(lengths, [8, 4, 4, 4, 12]);
    assert!(
        groups
            .iter()
            .all(|group| group.chars().all(|c| c.is_ascii_digit() || ('a'..='f').contains(&c)))
    );
    assert!(groups[2].starts_with('4'));
    assert!(groups[3].starts_with(['8', '9', 'a', 'b']));
}

#[test]
fn staging_directories_are_hidden_and_new() {
    let one = staging_name();
    let other = staging_name();
    assert_ne!(one, other);
    assert_random_uuid(one.strip_prefix(".inanna-").unwrap());
    assert_eq!(staging_name_with("x"), ".inanna-x");
}

#[test]
fn files_are_named_after_what_was_downloaded() {
    assert_eq!(output_stem(Some("clip [id]")), "clip [id]");
    assert_eq!(output_stem(None), "download");
    assert_eq!(output_extension(DownloadMode::Video), "mp4");
    assert_eq!(output_extension(DownloadMode::AudioOnly), "m4a");
}

#[test]
fn decoders_are_asked_for_only_where_it_matters() {
    let h264 = [format("h", "h264", 1080)];
    let both = [format("h", "h264", 1080), format("a", "av01", 2160)];
    match after_inspection(&h264, DownloadMode::Video, VideoQuality::Best) {
        PipelineStep::Download { update, selection } => {
            assert_eq!(update.phase, JobPhase::Preparing);
            assert_eq!(
                update.message,
                "Preparing download…\nSelected 1080p H.264/AAC MP4; no conversion expected."
            );
            assert_eq!(selection.format_spec, "h");
        }
        other => panic!("{other:?}"),
    }
    assert!(matches!(
        after_inspection(&both, DownloadMode::Video, VideoQuality::P1080),
        PipelineStep::CheckDecoders
    ));
    assert!(matches!(
        after_inspection(&both, DownloadMode::AudioOnly, VideoQuality::Best),
        PipelineStep::Download { .. }
    ));
    assert!(matches!(
        after_decoder_check(&both, DownloadMode::Video, VideoQuality::Best, true),
        PipelineStep::Download { .. }
    ));
    match after_decoder_check(&both, DownloadMode::Video, VideoQuality::Best, false) {
        PipelineStep::Fail { error } => {
            assert!(matches!(error, MediaError::NoSuitableFormat(_)));
        }
        other => panic!("{other:?}"),
    }
    assert!(matches!(
        after_inspection(&[], DownloadMode::Video, VideoQuality::Best),
        PipelineStep::Fail { .. }
    ));
}

#[test]
fn whether_av1_is_decoded_does_not_matter_without_it() {
    let h264 = [format("h", "h264", 1080), format("v", "vp9", 2160)];
    for supported in [false, true] {
        match after_decoder_check(&h264, DownloadMode::Video, VideoQuality::Best, supported) {
            PipelineStep::Download { selection, .. } => assert_eq!(selection.format_spec, "v"),
            other => panic!("{other:?}"),
        }
    }
}

#[test]
fn a_cancelled_download_is_not_probed() {
    match after_download(false) {
        PipelineStep::Probe { update } => {
            assert_eq!(update.phase, JobPhase::Inspecting);
            assert_eq!(update.message, "Checking media codecs…");
        }
        other => panic!("{other:?}"),
    }
    assert!(matches!(
        after_download(true),
        PipelineStep::Fail {
            error: MediaError::Cancelled
        }
    ));
}

#[test]
fn the_beginning_and_the_end_are_told() {
    assert_eq!(starting_update().message, "Preparing download…");
    assert_eq!(inspecting_update().message, "Checking available formats…");
    let saved = saved_update("/out/clip.mp4");
    assert_eq!(saved.phase, JobPhase::Completed);
    assert_eq!(saved.fraction, Some(Fraction::everything()));
    assert_eq!(saved.message, "Saved /out/clip.mp4");
    let cancelled = failure_update(&MediaError::Cancelled);
    assert_eq!(cancelled.phase, JobPhase::Cancelled);
    assert_eq!(cancelled.message, "Download cancelled.");
    let failed = failure_update(&MediaError::MissingOutput);
    assert_eq!(failed.phase, JobPhase::Failed);
    assert_eq!(failed.message, "The download failed.");
}

#[test]
fn errors_are_told_in_a_sentence() {
    for (error, sentence) in [
        (
            MediaError::Io("gone".into()),
            "file operation failed: gone",
        ),
        (
            MediaError::Json("bad".into()),
            "media information is invalid: bad",
        ),
        (MediaError::Cancelled, "the operation was cancelled"),
        (MediaError::YtDlp("x".into()), "yt-dlp failed: x"),
        (MediaError::Ffmpeg("x".into()), "FFmpeg failed: x"),
        (
            MediaError::MissingOutput,
            "yt-dlp did not report the downloaded file",
        ),
        (
            MediaError::NoSuitableFormat("x".into()),
            "no suitable media format is available: x",
        ),
        (
            MediaError::MissingStream,
            "the downloaded file has no supported media stream",
        ),
        (
            MediaError::RetriesExhausted(Box::new(MediaError::MissingStream)),
            "automatic retries exhausted: the downloaded file has no supported media stream",
        ),
    ] {
        assert_eq!(error.message(), sentence);
    }
}
