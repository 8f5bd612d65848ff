use inanna_media::codec::{
    codec_is_present, has_software_av1_decoder, is_aac_codec, is_av1_codec, is_h264_codec,
    is_mp4_container,
};
use inanna_media::error::MediaError;
use inanna_media::formats::{
    best_audio_only, format_resolution, select_audio_format, select_formats, select_resolution,
    select_video_formats, AvailableFormat,
};
use inanna_media::model::{DownloadMode, VideoQuality};

fn format(
    id: &str,
    extension: &str,
    video_codec: Option<&str>,
    audio_codec: Option<&str>,
    height: Option<u32>,
) -> AvailableFormat {
    AvailableFormat {
        format_id: id.into(),
        ext: Some(extension.into()),
        vcodec: video_codec.map(str::to_owned),
        acodec: audio_codec.map(str::to_owned),
        width: height.map(|height| height.saturating_mul(16) / 9),
        height,
        has_drm: None,
    }
}

#[test]
fn chooses_h264_when_it_exists_at_the_maximum_resolution() {
    let formats = vec![
        format("h264", "mp4", Some("avc1.640033"), Some("none"), Some(2160)),
        format(
            "av1",
            "webm",
            Some("av01.0.13M.08"),
            Some("none"),
            Some(2160),
        ),
        format("aac", "m4a", Some("none"), Some("mp4a.40.2"), None),
        format("opus", "webm", Some("none"), Some("opus"), None),
    ];

    let selection =
        select_formats(&formats, DownloadMode::Video, VideoQuality::Best, true).unwrap();

    assert_eq!(selection.format_spec, "h264+aac");
    assert!(selection.summary.contains("2160p H.264/AAC"));
    assert!(selection.summary.contains("remuxing"));
}

#[test]
fn distinguishes_software_av1_decoders_from_hardware_only_decoders() {
    assert!(!has_software_av1_decoder(
        " V....D av1 Alliance for Open Media AV1\n V..... av1_cuvid Nvidia"
    ));
    assert!(has_software_av1_decoder(
        " V..... libdav1d dav1d AV1 decoder"
    ));
    assert!(has_software_av1_decoder(" V....D libaom-av1 libaom AV1"));
    assert!(!has_software_av1_decoder(
        " A....D wmav1 Windows Media Audio"
    ));
}

#[test]
fn avoids_unsupported_av1_without_losing_4k_resolution() {
    let formats = vec![
        format("h264", "mp4", Some("avc1.640028"), Some("none"), Some(1080)),
        format("vp9", "webm", Some("vp9"), Some("none"), Some(2160)),
        format(
            "av1",
            "mp4",
            Some("av01.0.13M.08"),
            Some("none"),
            Some(2160),
        ),
        format("aac", "m4a", Some("none"), Some("mp4a.40.2"), None),
    ];
    let selection =
        select_formats(&formats, DownloadMode::Video, VideoQuality::Best, false).unwrap();
    assert_eq!(selection.format_spec, "vp9+aac");
    assert!(selection.summary.contains("2160p"));
    let full_build =
        select_formats(&formats, DownloadMode::Video, VideoQuality::Best, true).unwrap();
    assert_eq!(full_build.format_spec, "av1+aac");
    let hd = select_formats(&formats, DownloadMode::Video, VideoQuality::P1080, false).unwrap();
    assert_eq!(hd.format_spec, "h264+aac");
    let audio =
        select_formats(&formats, DownloadMode::AudioOnly, VideoQuality::Best, false).unwrap();
    assert_eq!(audio.format_spec, "aac");
}

#[test]
fn reports_unsupported_av1_before_downloading_instead_of_lowering_resolution() {
    let formats = vec![
        format("h264", "mp4", Some("avc1"), Some("none"), Some(1080)),
        format("av1", "mp4", Some("av1"), Some("none"), Some(2160)),
    ];
    let error =
        select_formats(&formats, DownloadMode::Video, VideoQuality::Best, false).unwrap_err();
    assert!(error.message().contains("no software AV1 decoder"));
}

#[test]
fn chooses_maximum_resolution_even_when_only_a_lower_resolution_has_h264() {
    let formats = vec![
        format(
            "h264-1080",
            "mp4",
            Some("avc1.640028"),
            Some("none"),
            Some(1080),
        ),
        format(
            "av1-2160",
            "webm",
            Some("av01.0.13M.08"),
            Some("none"),
            Some(2160),
        ),
        format("aac", "m4a", Some("none"), Some("mp4a.40.2"), None),
    ];

    let selection =
        select_formats(&formats, DownloadMode::Video, VideoQuality::Best, true).unwrap();

    assert_eq!(selection.format_spec, "av1-2160+aac");
    assert!(
        selection
            .summary
            .contains("No H.264 stream is available at 2160p")
    );
}

#[test]
fn quality_limit_uses_the_highest_available_resolution_at_or_below_it() {
    let formats = vec![
        format(
            "h264-1080",
            "mp4",
            Some("avc1.640028"),
            Some("none"),
            Some(1080),
        ),
        format(
            "av1-1440",
            "webm",
            Some("av01.0.12M.08"),
            Some("none"),
            Some(1440),
        ),
        format(
            "av1-2160",
            "webm",
            Some("av01.0.13M.08"),
            Some("none"),
            Some(2160),
        ),
        format(
            "av1-4320",
            "webm",
            Some("av01.0.17M.08"),
            Some("none"),
            Some(4320),
        ),
        format("aac", "m4a", Some("none"), Some("mp4a.40.2"), None),
    ];

    let full_hd =
        select_formats(&formats, DownloadMode::Video, VideoQuality::P1080, true).unwrap();
    let fourteen_forty =
        select_formats(&formats, DownloadMode::Video, VideoQuality::P1440, true).unwrap();
    let best = select_formats(&formats, DownloadMode::Video, VideoQuality::Best, true).unwrap();

    assert_eq!(full_hd.format_spec, "h264-1080+aac");
    assert!(full_hd.summary.contains("1080p H.264/AAC"));
    assert_eq!(fourteen_forty.format_spec, "av1-1440+aac");
    assert!(fourteen_forty.summary.contains("at 1440p"));
    assert_eq!(best.format_spec, "av1-4320+aac");
    assert!(best.summary.contains("at 4320p"));
}

#[test]
fn quality_limit_falls_back_to_the_best_lower_available_tier() {
    let formats = vec![
        format(
            "h264-720",
            "mp4",
            Some("avc1.64001f"),
            Some("none"),
            Some(720),
        ),
        format(
            "av1-1440",
            "webm",
            Some("av01.0.12M.08"),
            Some("none"),
            Some(1440),
        ),
        format("aac", "m4a", Some("none"), Some("mp4a.40.2"), None),
    ];

    let selection =
        select_formats(&formats, DownloadMode::Video, VideoQuality::P1080, true).unwrap();

    assert_eq!(selection.format_spec, "h264-720+aac");
    assert!(selection.summary.contains("720p H.264/AAC"));
}

#[test]
fn quality_limit_handles_portrait_video_by_its_shorter_dimension() {
    let mut portrait = format(
        "portrait-1080",
        "mp4",
        Some("avc1.640028"),
        Some("none"),
        Some(1920),
    );
    portrait.width = Some(1080);
    let formats = vec![
        portrait,
        format("aac", "m4a", Some("none"), Some("mp4a.40.2"), None),
    ];

    let selection =
        select_formats(&formats, DownloadMode::Video, VideoQuality::P1080, true).unwrap();

    assert_eq!(selection.format_spec, "portrait-1080+aac");
    assert!(selection.summary.contains("1080p H.264/AAC"));
}

#[test]
fn ignores_drm_formats_when_determining_maximum_resolution() {
    let mut drm = format(
        "drm-2160",
        "mp4",
        Some("avc1.640033"),
        Some("none"),
        Some(2160),
    );
    drm.has_drm = Some(true);
    let formats = vec![
        format(
            "h264-1080",
            "mp4",
            Some("avc1.640028"),
            Some("none"),
            Some(1080),
        ),
        drm,
        format("aac", "m4a", Some("none"), Some("mp4a.40.2"), None),
    ];

    let selection =
        select_formats(&formats, DownloadMode::Video, VideoQuality::Best, true).unwrap();

    assert_eq!(selection.format_spec, "h264-1080+aac");
    assert!(selection.summary.contains("1080p H.264/AAC"));
}

#[test]
fn uses_a_combined_compatible_mp4_without_conversion() {
    let formats = vec![format(
        "combined",
        "mp4",
        Some("avc1.640028"),
        Some("mp4a.40.2"),
        Some(1080),
    )];

    let selection =
        select_formats(&formats, DownloadMode::Video, VideoQuality::Best, true).unwrap();

    assert_eq!(selection.format_spec, "combined");
    assert!(selection.summary.contains("no conversion expected"));
}

#[test]
fn prefers_aac_audio_over_a_later_incompatible_audio_format() {
    let formats = vec![
        format("aac", "m4a", Some("none"), Some("mp4a.40.2"), None),
        format("opus", "webm", Some("none"), Some("opus"), None),
    ];

    let selection =
        select_formats(&formats, DownloadMode::AudioOnly, VideoQuality::Best, true).unwrap();

    assert_eq!(selection.format_spec, "aac");
    assert!(selection.summary.contains("best AAC"));
}

#[test]
fn audio_selection_preserves_source_and_codec_preference() {
    let mut drm = format("drm", "m4a", Some("none"), Some("aac"), None);
    drm.has_drm = Some(true);
    let formats = vec![
        format("aac-first", "m4a", None, Some("aac"), None),
        format("aac-last", "m4a", None, Some("aac"), None),
        format("opus", "webm", None, Some("opus"), None),
        format("combined", "mp4", Some("h264"), Some("aac"), Some(1080)),
        drm,
    ];
    for (start, expected) in [(0, "aac-last"), (2, "opus"), (3, "combined")] {
        let selection = select_audio_format(&formats[start..]).unwrap();
        assert_eq!(selection.format_spec, expected);
    }
    assert!(select_audio_format(&formats[4..]).is_err());
    assert_eq!(best_audio_only(&formats).unwrap().format_id, "aac-last");
    assert!(best_audio_only(&formats[3..]).is_none());
}

#[test]
fn video_selection_handles_ties_unknown_dimensions_and_above_limit_sources() {
    let formats = vec![
        format("unknown", "mp4", Some("h264"), None, None),
        format("1440-first", "mp4", Some("h264"), None, Some(1440)),
        format("1440-last", "mp4", Some("h264"), None, Some(1440)),
        format("2160", "webm", Some("av1"), None, Some(2160)),
    ];
    for (quality, expected) in [
        (VideoQuality::P1080, "1440-last"),
        (VideoQuality::P1440, "1440-last"),
        (VideoQuality::Best, "2160"),
    ] {
        assert_eq!(
            select_video_formats(&formats, quality, true)
                .unwrap()
                .format_spec,
            expected
        );
        assert_eq!(
            select_video_formats(&formats[..1], quality, true)
                .unwrap()
                .format_spec,
            "unknown"
        );
        assert!(select_video_formats(&[], quality, true).is_err());
    }
}

#[test]
fn tells_why_nothing_is_selected() {
    let sound = [format("a", "m4a", Some("none"), Some("aac"), None)];
    assert_eq!(
        select_formats(&sound, DownloadMode::Video, VideoQuality::Best, true),
        Err(MediaError::NoSuitableFormat(
            "no video stream was reported".into()
        ))
    );
    let silent = [format("v", "mp4", Some("h264"), Some("NONE"), Some(720))];
    assert_eq!(
        select_formats(&silent, DownloadMode::AudioOnly, VideoQuality::Best, true),
        Err(MediaError::NoSuitableFormat(
            "no audio stream was reported".into()
        ))
    );
    let mut protected = format("d", "mp4", Some("h264"), Some("aac"), Some(720));
    protected.has_drm = Some(true);
    let protected = [protected];
    assert!(select_formats(&protected, DownloadMode::Video, VideoQuality::Best, true).is_err());
    assert!(select_formats(&protected, DownloadMode::AudioOnly, VideoQuality::Best, true).is_err());
}

#[test]
fn summaries_tell_what_is_converted() {
    let cases = [
        (
            "mp4",
            "avc1",
            "mp4a",
            "Selected 720p H.264/AAC MP4; no conversion expected.",
            "mp4",
        ),
        (
            "mkv",
            "avc3",
            "AAC",
            "Selected 720p H.264/AAC; remuxing without conversion.",
            "mp4",
        ),
        (
            "mp4",
            "H264",
            "opus",
            "Selected 720p H.264; only audio requires conversion.",
            "mkv",
        ),
        (
            "mp4",
            "vp9",
            "aac",
            "No H.264 stream is available at 720p; video requires conversion.",
            "mkv",
        ),
        (
            "webm",
            "vp9",
            "opus",
            "No compatible codecs are available at 720p; conversion is required.",
            "mkv",
        ),
    ];
    for (extension, video, audio, summary, container) in cases {
        let offered = [format("f", extension, Some(video), Some(audio), Some(720))];
        let selection =
            select_formats(&offered, DownloadMode::Video, VideoQuality::Best, true).unwrap();
        assert_eq!(selection.summary, summary);
        assert_eq!(selection.merge_container, Some(container));
        assert_eq!(selection.format_spec, "f");
    }
    let sized = [format("f", "mp4", Some("h264"), None, None)];
    let selection = select_formats(&sized, DownloadMode::Video, VideoQuality::Best, true).unwrap();
    assert_eq!(
        selection.summary,
        "Selected best resolution H.264/AAC MP4; no conversion expected."
    );
    let opus = [format("o", "webm", None, Some("opus"), None)];
    let selection =
        select_formats(&opus, DownloadMode::AudioOnly, VideoQuality::Best, true).unwrap();
    assert_eq!(
        selection.summary,
        "No AAC audio stream is available; audio conversion is required."
    );
    assert_eq!(selection.merge_container, None);
}

#[test]
fn resolutions_are_those_of_the_shorter_side() {
    let mut f = format("f", "mp4", Some("h264"), None, None);
    assert_eq!(format_resolution(&f), None);
    f.width = Some(640);
    assert_eq!(format_resolution(&f), Some(640));
    f.height = Some(360);
    assert_eq!(format_resolution(&f), Some(360));
    f.width = None;
    assert_eq!(format_resolution(&f), Some(360));
}

#[test]
fn the_lowest_resolution_is_taken_where_all_are_above_the_limit() {
    let offered = [
        format("a", "mp4", Some("h264"), None, Some(4320)),
        format("b", "mp4", Some("h264"), None, Some(2160)),
        format("c", "mp4", Some("none"), None, Some(360)),
    ];
    assert_eq!(
        select_resolution(&offered, VideoQuality::P1080),
        Some(2160)
    );
    assert_eq!(select_resolution(&offered, VideoQuality::Best), Some(4320));
    assert_eq!(select_resolution(&offered[2..], VideoQuality::Best), None);
    assert_eq!(VideoQuality::P1440.maximum_dimension(), Some(1440));
}

#[test]
fn a_protected_format_changes_no_choice() {
    let mut protected = format("d", "mp4", Some("h264"), None, Some(4320));
    protected.has_drm = Some(true);
    let with = [
        format("a", "mp4", Some("vp9"), None, Some(720)),
        protected,
        format("b", "mp4", Some("vp9"), None, Some(480)),
    ];
    assert_eq!(select_resolution(&with, VideoQuality::Best), Some(720));
    assert_eq!(
        select_video_formats(&with, VideoQuality::Best, true)
            .unwrap()
            .format_spec,
        "a"
    );
}

#[test]
fn codec_names_are_recognized_in_any_case() {
    for name in ["h264", "H264", "avc1.64", "AVC3"] {
        assert!(is_h264_codec(Some(name)));
    }
    for name in ["x264", "h265", "", "avc2"] {
        assert!(!is_h264_codec(Some(name)));
    }
    assert!(is_av1_codec(Some("AV1")) && is_av1_codec(Some("av01.0")));
    assert!(!is_av1_codec(Some("av1x")) && !is_av1_codec(None));
    assert!(is_aac_codec(Some("Mp4A.40.2")) && is_aac_codec(Some("AAC")));
    assert!(!is_aac_codec(Some("aac2")) && !is_aac_codec(None));
    assert!(is_mp4_container("MP4") && is_mp4_container("m4v") && !is_mp4_container("m4a"));
    assert!(codec_is_present(Some("x")));
    for absent in [None, Some(""), Some("none"), Some("None")] {
        assert!(!codec_is_present(absent));
    }
}
