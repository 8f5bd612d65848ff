use inanna_media::command::Argument;
use inanna_media::encoder::{
    configure_bitrate_limits, configure_h264_encoder, youtube_sdr_bitrate_profile, FrameRate,
    H264Encoder, VideoBitrateProfile, MACOS_ARM64, WINDOWS_X64,
};
use inanna_media::error::MediaError;
use inanna_media::finalize::{
    build_finalization_command, detection_arguments, finalization_message, partial_file_name,
    plan_finalization, EncoderSearch, FinalizeStep,
};
use inanna_media::model::{DownloadMode, JobPhase};
use inanna_media::probe::{
    is_compatible_h264, probe_arguments, split_frame_rate, video_bitrate_profile, FrameRateText,
    ProbeFormat, ProbeResult, ProbeStream,
};

fn rate(frames_per_second: f64) -> FrameRate {
    FrameRate {
        bits: frames_per_second.to_bits(),
    }
}

fn parse_frame_rate(value: &str) -> Option<f64> {
    match split_frame_rate(value) {
        FrameRateText::Quotient {
            numerator,
            denominator,
        } => {
            let numerator = numerator.parse::<f64>().ok()?;
            let denominator = denominator.parse::<f64>().ok()?;
            if denominator == 0.0 {
                None
            } else {
                Some(numerator / denominator)
            }
        }
        FrameRateText::Number(number) => number.parse::<f64>().ok(),
    }
}

fn words(arguments: &[Argument]) -> Vec<&str> {
    arguments
        .iter()
        .map(|argument| match argument {
            Argument::Text(text) => text.as_str(),
            Argument::ToolDirectory => "<tools>",
            Argument::Input => "<input>",
            Argument::Output => "<output>",
        })
        .collect()
}

fn stream(kind: &str, codec: &str, pixels: Option<&str>) -> ProbeStream {
    ProbeStream {
        codec_type: Some(kind.into()),
        codec_name: Some(codec.into()),
        pix_fmt: pixels.map(str::to_owned),
        width: Some(1280),
        height: Some(720),
        avg_frame_rate: None,
    }
}

fn file(streams: Vec<ProbeStream>) -> ProbeResult {
    ProbeResult {
        streams,
        format: ProbeFormat { duration: None },
    }
}

#[test]
fn accepts_only_compatible_h264_pixel_formats() {
    let compatible = ProbeStream {
        codec_type: Some("video".into()),
        codec_name: Some("h264".into()),
        pix_fmt: Some("yuv420p".into()),
        width: Some(1920),
        height: Some(1080),
        avg_frame_rate: Some("30000/1001".into()),
    };
    assert!(is_compatible_h264(&compatible));
    let incompatible = ProbeStream {
        pix_fmt: Some("yuv444p10le".into()),
        ..compatible
    };
    assert!(!is_compatible_h264(&incompatible));
}

#[test]
fn configures_each_supported_h264_encoder() {
    let cases = [
        (H264Encoder::NvidiaNvenc, "h264_nvenc"),
        (H264Encoder::IntelQuickSync, "h264_qsv"),
        (H264Encoder::AmdAmf, "h264_amf"),
        (H264Encoder::AppleVideoToolbox, "h264_videotoolbox"),
        (H264Encoder::CpuX264, "libx264"),
    ];

    for (encoder, expected_codec) in cases {
        let mut command = vec![Argument::Text("ffmpeg".into())];
        configure_h264_encoder(
            &mut command,
            encoder,
            youtube_sdr_bitrate_profile(2160, rate(30.0)),
        );
        let arguments = words(&command);
        assert!(arguments.iter().any(|argument| *argument == expected_codec));
        assert!(arguments.iter().any(|argument| *argument == "45000k"));
    }
}

#[test]
fn parses_fractional_frame_rates() {
    let ntsc = parse_frame_rate("60000/1001").unwrap();
    assert!((ntsc - 59.94).abs() < 0.01);
    assert_eq!(parse_frame_rate("30"), Some(30.0));
    assert_eq!(parse_frame_rate("0/0"), None);
}

#[test]
fn follows_youtube_bitrate_guidance_by_resolution_and_frame_rate() {
    assert_eq!(
        youtube_sdr_bitrate_profile(2160, rate(30.0)),
        VideoBitrateProfile {
            target_kbps: 35_000,
            maximum_kbps: 45_000,
        }
    );
    assert_eq!(
        youtube_sdr_bitrate_profile(2160, rate(60.0)),
        VideoBitrateProfile {
            target_kbps: 53_000,
            maximum_kbps: 68_000,
        }
    );
    assert_eq!(
        youtube_sdr_bitrate_profile(1080, rate(30.0)),
        VideoBitrateProfile {
            target_kbps: 8_000,
            maximum_kbps: 8_000,
        }
    );
    assert_eq!(
        youtube_sdr_bitrate_profile(1080, rate(60.0)),
        VideoBitrateProfile {
            target_kbps: 12_000,
            maximum_kbps: 12_000,
        }
    );
}

#[test]
fn classifies_portrait_video_by_its_shorter_dimension() {
    let portrait = ProbeStream {
        codec_type: Some("video".into()),
        codec_name: Some("av1".into()),
        pix_fmt: Some("yuv420p".into()),
        width: Some(1080),
        height: Some(1920),
        avg_frame_rate: Some("60/1".into()),
    };
    let frames_per_second = portrait
        .avg_frame_rate
        .as_deref()
        .and_then(parse_frame_rate)
        .map(rate);

    assert_eq!(
        video_bitrate_profile(&portrait, frames_per_second),
        VideoBitrateProfile {
            target_kbps: 12_000,
            maximum_kbps: 12_000,
        }
    );
}

#[test]
fn describes_gpu_and_cpu_conversion_attempts() {
    assert!(
        finalization_message(DownloadMode::Video, true, false, H264Encoder::NvidiaNvenc)
            .contains("NVIDIA GPU")
    );
    assert!(
        finalization_message(DownloadMode::Video, true, false, H264Encoder::CpuX264)
            .contains("CPU")
    );
}

#[test]
fn frame_rates_are_high_where_their_numbers_are() {
    for number in [
        0.0,
        -0.0,
        -60.0,
        1.5,
        47.999999999999993,
        48.0,
        48.000000000000007,
        59.94,
        f64::MAX,
        f64::MIN,
        f64::INFINITY,
        f64::NEG_INFINITY,
        f64::NAN,
        -f64::NAN,
        f64::MIN_POSITIVE,
    ] {
        assert_eq!(rate(number).is_high(), number >= 48.0, "{number}");
    }
    assert_eq!(FrameRate::usual(), rate(30.0));
}

#[test]
fn bit_rates_follow_the_table() {
    for (resolution, slow, fast) in [
        (8000, (80_000, 160_000), (120_000, 240_000)),
        (4320, (80_000, 160_000), (120_000, 240_000)),
        (4319, (35_000, 45_000), (53_000, 68_000)),
        (1440, (16_000, 16_000), (24_000, 24_000)),
        (1439, (8_000, 8_000), (12_000, 12_000)),
        (720, (5_000, 5_000), (7_500, 7_500)),
        (480, (2_500, 2_500), (4_000, 4_000)),
        (479, (1_000, 1_000), (1_500, 1_500)),
        (0, (1_000, 1_000), (1_500, 1_500)),
    ] {
        for (frames, (target_kbps, maximum_kbps)) in [(24.0, slow), (50.0, fast)] {
            let profile = VideoBitrateProfile {
                target_kbps,
                maximum_kbps,
            };
            assert_eq!(youtube_sdr_bitrate_profile(resolution, rate(frames)), profile);
            assert_eq!(profile.buffer_kbps(), 2 * maximum_kbps);
        }
    }
    let huge = VideoBitrateProfile {
        target_kbps: 1,
        maximum_kbps: u32::MAX,
    };
    assert_eq!(huge.buffer_kbps(), u32::MAX);
}

#[test]
fn unknown_sizes_and_rates_have_defaults() {
    let mut unknown = stream("video", "vp9", None);
    unknown.width = None;
    unknown.height = None;
    assert_eq!(video_bitrate_profile(&unknown, None).target_kbps, 8_000);
    unknown.width = Some(720);
    assert_eq!(
        video_bitrate_profile(&unknown, Some(rate(60.0))).target_kbps,
        7_500
    );
}

#[test]
fn frame_rates_are_split_at_the_first_slash() {
    assert_eq!(
        split_frame_rate("1/2/3"),
        FrameRateText::Quotient {
            numerator: "1".into(),
            denominator: "2/3".into()
        }
    );
    assert_eq!(split_frame_rate("25"), FrameRateText::Number("25".into()));
    assert_eq!(
        split_frame_rate("/"),
        FrameRateText::Quotient {
            numerator: "".into(),
            denominator: "".into()
        }
    );
}

#[test]
fn bit_rates_are_written_as_arguments() {
    let mut arguments = Vec::new();
    let profile = youtube_sdr_bitrate_profile(720, FrameRate::usual());
    configure_bitrate_limits(&mut arguments, profile, true);
    assert_eq!(
        words(&arguments),
        ["-b:v", "5000k", "-maxrate", "5000k", "-bufsize", "10000k"]
    );
    let mut arguments = Vec::new();
    configure_bitrate_limits(&mut arguments, profile, false);
    assert_eq!(words(&arguments), ["-maxrate", "5000k", "-bufsize", "10000k"]);
}

#[test]
fn streams_are_copied_or_encoded() {
    let h264 = stream("video", "h264", Some("yuvj420p"));
    let vp9 = stream("video", "vp9", Some("yuv420p"));
    let aac = stream("audio", "aac", None);
    let opus = stream("audio", "opus", None);
    let build = |mode, video, audio| {
        build_finalization_command(mode, video, audio, H264Encoder::CpuX264, None)
    };
    assert_eq!(
        words(&build(DownloadMode::Video, Some(&h264), Some(&opus)).unwrap()),
        [
            "-hide_banner", "-y", "-i", "<input>", "-map", "0:v:0", "-map", "0:a:0?", "-c:v",
            "copy", "-tag:v", "avc1", "-c:a", "aac", "-b:a", "256k", "-map_metadata", "0",
            "-map_chapters", "0", "-movflags", "+faststart", "-progress", "pipe:1", "-nostats",
            "<output>"
        ]
    );
    assert_eq!(
        words(&build(DownloadMode::Video, Some(&vp9), None).unwrap()),
        [
            "-hide_banner", "-y", "-i", "<input>", "-map", "0:v:0", "-map", "0:a:0?", "-c:v",
            "libx264", "-preset", "medium", "-crf", "18", "-pix_fmt", "yuv420p", "-maxrate",
            "5000k", "-bufsize", "10000k", "-tag:v", "avc1", "-map_metadata", "0",
            "-map_chapters", "0", "-movflags", "+faststart", "-progress", "pipe:1", "-nostats",
            "<output>"
        ]
    );
    assert_eq!(
        words(&build(DownloadMode::AudioOnly, Some(&vp9), Some(&aac)).unwrap()),
        [
            "-hide_banner", "-y", "-i", "<input>", "-map", "0:a:0", "-vn", "-c:a", "copy",
            "-map_metadata", "0", "-movflags", "+faststart", "-progress", "pipe:1", "-nostats",
            "<output>"
        ]
    );
    assert_eq!(
        build(DownloadMode::Video, None, Some(&aac)),
        Err(MediaError::MissingStream)
    );
    assert_eq!(
        build(DownloadMode::AudioOnly, Some(&h264), None),
        Err(MediaError::MissingStream)
    );
    let on_gpu = build_finalization_command(
        DownloadMode::Video,
        Some(&h264),
        Some(&aac),
        H264Encoder::AmdAmf,
        None,
    );
    assert_eq!(on_gpu, build(DownloadMode::Video, Some(&h264), Some(&aac)));
}

#[test]
fn compatible_files_are_kept() {
    let kept = file(vec![
        stream("audio", "aac", None),
        stream("video", "h264", Some("yuv420p")),
    ]);
    for (mode, extension, direct) in [
        (DownloadMode::Video, Some("MP4"), true),
        (DownloadMode::Video, Some("m4v"), true),
        (DownloadMode::Video, Some("m4a"), false),
        (DownloadMode::Video, None, false),
        (DownloadMode::AudioOnly, Some("M4A"), true),
        (DownloadMode::AudioOnly, Some("mp4"), true),
        (DownloadMode::AudioOnly, Some("m4v"), false),
    ] {
        let plan = plan_finalization(mode, &kept, extension);
        assert_eq!(plan.direct, direct);
        assert!(!plan.video_needs_conversion && !plan.audio_needs_conversion);
        match plan.start() {
            FinalizeStep::Publish { update, converted } => {
                assert!(direct && !converted);
                assert_eq!(update.phase, JobPhase::Finalizing);
                assert_eq!(
                    update.message,
                    "Finalizing compatible output without conversion…"
                );
            }
            FinalizeStep::Attempt {
                notice,
                encoder,
                phase,
                message,
                ..
            } => {
                assert!(!direct);
                assert_eq!(notice, None);
                assert_eq!(encoder, H264Encoder::CpuX264);
                assert_eq!(phase, JobPhase::Remuxing);
                assert!(message.starts_with("Remuxing"));
            }
            other => panic!("{other:?}"),
        }
    }
    let silent = file(vec![stream("video", "h264", Some("yuv420p"))]);
    assert!(plan_finalization(DownloadMode::Video, &silent, Some("mp4")).direct);
    assert!(!plan_finalization(DownloadMode::AudioOnly, &silent, Some("mp4")).direct);
}

#[test]
fn a_failed_gpu_is_followed_by_the_cpu() {
    let source = file(vec![
        stream("video", "vp9", None),
        stream("audio", "opus", None),
    ]);
    let plan = plan_finalization(DownloadMode::Video, &source, Some("webm"));
    match plan.start() {
        FinalizeStep::DetectGpu { update } => {
            assert_eq!(update.phase, JobPhase::Inspecting);
            assert_eq!(update.message, "Checking for a supported GPU encoder…");
        }
        other => panic!("{other:?}"),
    }
    let encoder = match plan.after_detection(Some(H264Encoder::IntelQuickSync)) {
        FinalizeStep::Attempt {
            notice,
            encoder,
            phase,
            message,
            ..
        } => {
            assert_eq!(notice, None);
            assert_eq!(phase, JobPhase::Converting);
            assert_eq!(
                message,
                "Converting video with the Intel GPU and converting audio…"
            );
            encoder
        }
        other => panic!("{other:?}"),
    };
    let encoder = match plan.after_attempt(encoder, Some("broken".into())) {
        FinalizeStep::Attempt {
            notice, encoder, ..
        } => {
            assert_eq!(
                notice.unwrap().message,
                "GPU encoding failed; retrying with the CPU…"
            );
            encoder
        }
        other => panic!("{other:?}"),
    };
    assert_eq!(encoder, H264Encoder::CpuX264);
    match plan.after_attempt(encoder, Some("broken too".into())) {
        FinalizeStep::Fail { error, discard } => {
            assert!(discard);
            assert_eq!(error, MediaError::Ffmpeg("broken too".into()));
        }
        other => panic!("{other:?}"),
    }
    match plan.after_attempt(encoder, None) {
        FinalizeStep::Publish { update, converted } => {
            assert!(converted);
            assert_eq!(update.message, "Finalizing output…");
        }
        other => panic!("{other:?}"),
    }
    match plan.after_detection(None) {
        FinalizeStep::Attempt { encoder, .. } => assert_eq!(encoder, H264Encoder::CpuX264),
        other => panic!("{other:?}"),
    }
}

#[test]
fn a_missing_stream_is_refused() {
    let silent = file(vec![stream("video", "vp9", None)]);
    let plan = plan_finalization(DownloadMode::AudioOnly, &silent, Some("webm"));
    match plan.start() {
        FinalizeStep::Fail { error, discard } => {
            assert!(!discard);
            assert_eq!(error, MediaError::MissingStream);
        }
        other => panic!("{other:?}"),
    }
    let blind = file(vec![stream("audio", "aac", None)]);
    let plan = plan_finalization(DownloadMode::Video, &blind, Some("m4a"));
    assert!(plan.video_needs_conversion);
    assert!(matches!(plan.start(), FinalizeStep::DetectGpu { .. }));
    assert!(matches!(
        plan.after_detection(None),
        FinalizeStep::Fail {
            error: MediaError::MissingStream,
            discard: false
        }
    ));
}

#[test]
fn messages_tell_what_is_converted() {
    let message = |mode, video, audio| {
        finalization_message(mode, video, audio, H264Encoder::AppleVideoToolbox)
    };
    assert_eq!(
        message(DownloadMode::Video, false, false),
        "Remuxing without conversion…"
    );
    assert_eq!(
        message(DownloadMode::Video, false, true),
        "Copying video and converting audio…"
    );
    assert_eq!(
        message(DownloadMode::Video, true, false),
        "Converting video to H.264 with the Apple GPU…"
    );
    assert_eq!(
        message(DownloadMode::AudioOnly, true, true),
        "Converting audio to AAC…"
    );
    assert_eq!(
        message(DownloadMode::AudioOnly, true, false),
        "Remuxing audio without conversion…"
    );
}

#[test]
fn encoders_are_tried_in_order() {
    let mut search = EncoderSearch::new(WINDOWS_X64);
    let mut tried = Vec::new();
    while let Some(encoder) = search.candidate() {
        assert!(encoder.is_gpu());
        tried.push(encoder.display_name());
        search.reject();
    }
    assert_eq!(tried, ["NVIDIA GPU", "Intel GPU", "AMD GPU"]);
    search.reject();
    assert_eq!(search.candidate(), None);
    assert_eq!(
        EncoderSearch::new(MACOS_ARM64).candidate(),
        Some(H264Encoder::AppleVideoToolbox)
    );
    assert_eq!(EncoderSearch::new("linux-x64").candidate(), None);
}

#[test]
fn encoders_are_tried_on_one_black_picture() {
    assert_eq!(
        words(&detection_arguments(H264Encoder::IntelQuickSync)),
        [
            "-hide_banner", "-loglevel", "error", "-f", "lavfi", "-i",
            "color=c=black:s=1280x720:r=1", "-frames:v", "1", "-an", "-c:v", "h264_qsv",
            "-preset", "medium", "-pix_fmt", "nv12", "-b:v", "5000k", "-maxrate", "5000k",
            "-bufsize", "10000k", "-f", "null", "-"
        ]
    );
}

#[test]
fn files_are_probed_for_their_streams() {
    assert_eq!(
        words(&probe_arguments()),
        [
            "-v",
            "error",
            "-show_entries",
            "stream=codec_type,codec_name,pix_fmt,width,height,avg_frame_rate:format=duration",
            "-of",
            "json",
            "<input>"
        ]
    );
}

#[test]
fn partial_files_are_named_after_their_final_name() {
    assert_eq!(
        partial_file_name(Some("clip (1)"), Some("mp4")),
        "clip (1).partial.mp4"
    );
    assert_eq!(partial_file_name(None, None), "download.partial.tmp");
}
