use inanna_media::model::{Fraction, JobPhase, ProgressUpdate};
use inanna_media::number::{format_bytes, parse_unsigned};
use inanna_media::progress::{
    describe_progress, optional_u64, parse_ytdlp_progress, parse_ytdlp_progress_line,
    ProgressReport, PROGRESS_PREFIX,
};

fn told(report: ProgressReport) -> ProgressUpdate {
    let fraction = report
        .percent
        .parse::<f32>()
        .ok()
        .map(|number| (number / 100.0).clamp(0.0, 1.0));
    report.update(fraction.map(|fraction| Fraction {
        bits: fraction.to_bits(),
    }))
}

fn fraction(update: &ProgressUpdate) -> Option<f32> {
    update
        .fraction
        .map(|fraction| f32::from_bits(fraction.bits))
}

#[test]
fn parses_download_progress() {
    let result = told(parse_ytdlp_progress(" 42.5%|425|1000|50").unwrap());
    assert_eq!(fraction(&result), Some(0.425));
    assert_eq!(result.downloaded_bytes, Some(425));
}

#[test]
fn parses_numeric_download_progress_from_either_output_stream() {
    let line = format!("{PROGRESS_PREFIX}42.500000|425|1000|50");
    let result = told(parse_ytdlp_progress_line(&line).unwrap());
    assert_eq!(fraction(&result), Some(0.425));

    let stderr_style = format!("[download] {PROGRESS_PREFIX}75.0|750|1000|50");
    let result = told(parse_ytdlp_progress_line(&stderr_style).unwrap());
    assert_eq!(fraction(&result), Some(0.75));
}

#[test]
fn missing_progress_numbers_remain_optional() {
    for value in ["", "NA", "na", "None", "none", "-1", "18446744073709551616"] {
        assert_eq!(optional_u64(value), None);
    }
    assert_eq!(optional_u64(" 42 "), Some(42));
    assert_eq!(optional_u64("0"), Some(0));
}

#[test]
fn numbers_are_read_as_the_standard_library_reads_them() {
    for value in [
        "",
        "+",
        "+7",
        "++7",
        "-0",
        "007",
        "18446744073709551615",
        "18446744073709551616",
        "99999999999999999999999999",
        "1 2",
        "٣",
        "1_000",
        "1.0",
        "\u{a0}5\u{2003}",
        "\u{200b}5",
    ] {
        assert_eq!(optional_u64(value), value.trim().parse::<u64>().ok());
        let chars: Vec<char> = value.chars().collect();
        assert_eq!(
            parse_unsigned(&chars, 65535),
            value.parse::<u16>().ok().map(u64::from)
        );
    }
    for value in ["65535", "65536", "0000065535"] {
        let chars: Vec<char> = value.chars().collect();
        assert_eq!(
            parse_unsigned(&chars, 65535),
            value.parse::<u16>().ok().map(u64::from)
        );
    }
}

#[test]
fn written_numbers_read_back() {
    for n in [0, 9, 10, 12345, u64::MAX] {
        assert_eq!(optional_u64(&n.to_string()), Some(n));
    }
}

#[test]
fn progress_has_four_fields() {
    assert_eq!(parse_ytdlp_progress("1|2|3"), None);
    assert_eq!(parse_ytdlp_progress("1|2|3|4|5"), None);
    assert_eq!(parse_ytdlp_progress_line("1|2|3|4"), None);
    assert_eq!(
        parse_ytdlp_progress(" 7.0%% |NA| 9 |+1"),
        Some(ProgressReport {
            percent: "7.0".into(),
            downloaded_bytes: None,
            total_bytes: Some(9),
            speed_bytes_per_second: Some(1),
        })
    );
    let update = told(parse_ytdlp_progress("NA|NA|NA|NA").unwrap());
    assert_eq!(update.phase, JobPhase::Downloading);
    assert_eq!(update.fraction, None);
    assert_eq!(update.message, "Downloading media…");
}

#[test]
fn the_first_mark_counts() {
    let line = format!("é{PROGRESS_PREFIX}1|2|3|{PROGRESS_PREFIX}");
    let report = parse_ytdlp_progress_line(&line).unwrap();
    assert_eq!(report.percent, "1");
    assert_eq!(report.speed_bytes_per_second, None);
}

#[test]
fn describes_what_is_known_of_a_download() {
    let mut update = told(parse_ytdlp_progress("25|1048576|4194304|1536").unwrap());
    assert_eq!(
        describe_progress(&update),
        "Downloading media… · 1.0 MiB / 4.0 MiB · 1.5 KiB/s"
    );
    update.total_bytes = None;
    assert_eq!(
        describe_progress(&update),
        "Downloading media… · 1.5 KiB/s"
    );
    update.speed_bytes_per_second = None;
    assert_eq!(describe_progress(&update), "Downloading media…");
    update.total_bytes = Some(10);
    update.phase = JobPhase::Converting;
    assert_eq!(describe_progress(&update), "Downloading media…");
}

fn in_floating_point(bytes: u64) -> String {
    let units = ["B", "KiB", "MiB", "GiB"];
    let mut value = bytes as f64;
    let mut unit = 0;
    while value >= 1024.0 && unit < units.len() - 1 {
        value /= 1024.0;
        unit += 1;
    }
    format!("{value:.1} {}", units[unit])
}

#[test]
fn sizes_are_told_as_floating_point_tells_them() {
    assert_eq!(format_bytes(0), "0.0 B");
    assert_eq!(format_bytes(1023), "1023.0 B");
    assert_eq!(format_bytes(1280), "1.2 KiB");
    assert_eq!(format_bytes(1792), "1.8 KiB");
    assert_eq!(format_bytes(1 << 30), "1.0 GiB");
    assert_eq!(format_bytes(u64::MAX), "17179869184.0 GiB");
    let mut n: u64 = 1;
    for _ in 0..40_000 {
        assert_eq!(format_bytes(n), in_floating_point(n), "{n}");
        n = n.wrapping_mul(6364136223846793005).wrapping_add(1442695040888963407);
        let shifted = n >> (n % 61);
        assert_eq!(format_bytes(shifted), in_floating_point(shifted), "{shifted}");
    }
    for n in 0..70_000 {
        assert_eq!(format_bytes(n), in_floating_point(n), "{n}");
    }
    for shift in 0..64 {
        let power = 1u64 << shift;
        for n in [power - 1, power, power + 1, power + power / 2, power | 51] {
            assert_eq!(format_bytes(n), in_floating_point(n), "{n}");
        }
    }
}

#[test]
fn whole_fractions_have_the_bits_of_their_numbers() {
    assert_eq!(Fraction::nothing().bits, 0.0f32.to_bits());
    assert_eq!(Fraction::everything().bits, 1.0f32.to_bits());
}
