//! Encoders for H.264, and the bit rates they work at.
use crate::command;
use crate::command::{push_texts, Argument, ArgumentView};
use crate::number;
use crate::text::same_text;
use vstd::prelude::*;

verus! {

/// The platform name of 64-bit Windows.
pub const WINDOWS_X64: &'static str = "windows-x64";

/// The platform name of macOS on Apple processors.
pub const MACOS_ARM64: &'static str = "macos-arm64";

/// An encoder for H.264.
#[derive(Clone, Copy, Debug, PartialEq, Eq, Structural)]
pub enum H264Encoder {
    NvidiaNvenc,
    IntelQuickSync,
    AmdAmf,
    AppleVideoToolbox,
    CpuX264,
}

/// The encoders on graphics processors that a platform may have, the preferred one first.
pub open spec fn gpu_encoders(platform: Seq<char>) -> Seq<H264Encoder> {
    if platform == WINDOWS_X64@ {
        seq![H264Encoder::NvidiaNvenc, H264Encoder::IntelQuickSync, H264Encoder::AmdAmf]
    } else if platform == MACOS_ARM64@ {
        seq![H264Encoder::AppleVideoToolbox]
    } else {
        Seq::empty()
    }
}

impl H264Encoder {
    /// The encoder runs on a graphics processor.
    pub open spec fn on_gpu(self) -> bool {
        self != H264Encoder::CpuX264
    }

    /// What the user is told that encodes.
    pub open spec fn name(self) -> Seq<char> {
        match self {
            H264Encoder::NvidiaNvenc => "NVIDIA GPU"@,
            H264Encoder::IntelQuickSync => "Intel GPU"@,
            H264Encoder::AmdAmf => "AMD GPU"@,
            H264Encoder::AppleVideoToolbox => "Apple GPU"@,
            H264Encoder::CpuX264 => "CPU"@,
        }
    }

    /// The encoders on graphics processors that a platform may have, the preferred one first.
    pub fn gpu_candidates(platform: &str) -> (encoders: Vec<H264Encoder>)
        ensures
            encoders@ == gpu_encoders(platform@),
    {
        let mut encoders: Vec<H264Encoder> = Vec::new();
        if same_text(platform, WINDOWS_X64) {
            encoders.push(H264Encoder::NvidiaNvenc);
            encoders.push(H264Encoder::IntelQuickSync);
            encoders.push(H264Encoder::AmdAmf);
        } else if same_text(platform, MACOS_ARM64) {
            encoders.push(H264Encoder::AppleVideoToolbox);
        }
        assert(encoders@ =~= gpu_encoders(platform@));
        encoders
    }

    /// What the user is told that encodes.
    pub fn display_name(self) -> (name: &'static str)
        ensures
            name@ == self.name(),
    {
        match self {
            H264Encoder::NvidiaNvenc => "NVIDIA GPU",
            H264Encoder::IntelQuickSync => "Intel GPU",
            H264Encoder::AmdAmf => "AMD GPU",
            H264Encoder::AppleVideoToolbox => "Apple GPU",
            H264Encoder::CpuX264 => "CPU",
        }
    }

    /// Whether the encoder runs on a graphics processor.
    pub fn is_gpu(self) -> (b: bool)
        ensures
            b == self.on_gpu(),
    {
        self != H264Encoder::CpuX264
    }
}

/// A number of frames in a second, as the bits of a double-precision number.
#[derive(Clone, Copy, Debug, PartialEq, Eq, Structural)]
pub struct FrameRate {
    pub bits: u64,
}

impl FrameRate {
    /// The rate is 48.0 or more, up to infinity. The bits of positive numbers in double precision
    /// are ordered as the numbers are; above those of infinity stand values that are no numbers,
    /// and above these the negative ones.
    pub open spec fn high(self) -> bool {
        0x4048_0000_0000_0000 <= self.bits <= 0x7ff0_0000_0000_0000
    }

    /// The rate 30.0.
    pub open spec fn thirty() -> FrameRate {
        FrameRate { bits: 0x403e_0000_0000_0000u64 }
    }

    /// The rate that is taken where none is known: 30.0.
    pub fn usual() -> (rate: FrameRate)
        ensures
            rate == FrameRate::thirty(),
    {
        FrameRate { bits: 0x403e_0000_0000_0000 }
    }

    /// Whether the rate is 48.0 or more.
    pub fn is_high(self) -> (b: bool)
        ensures
            b == self.high(),
    {
        0x4048_0000_0000_0000 <= self.bits && self.bits <= 0x7ff0_0000_0000_0000
    }
}

/// Bit rates in thousands of bits in a second.
#[derive(Clone, Copy, Debug, PartialEq, Eq, Structural)]
pub struct VideoBitrateProfile {
    pub target_kbps: u32,
    pub maximum_kbps: u32,
}

impl VideoBitrateProfile {
    /// The size of the rate buffer: twice the maximum, as far as 32 bits hold it.
    pub open spec fn buffer(self) -> nat {
        if 2 * self.maximum_kbps <= u32::MAX {
            (2 * self.maximum_kbps) as nat
        } else {
            u32::MAX as nat
        }
    }

    /// The size of the rate buffer.
    pub fn buffer_kbps(self) -> (size: u32)
        ensures
            size == self.buffer(),
    {
        if self.maximum_kbps <= u32::MAX / 2 {
            self.maximum_kbps * 2
        } else {
            u32::MAX
        }
    }
}

/// The bit rates that YouTube recommends for a resolution, at a low or a high frame rate.
pub open spec fn recommended(resolution: u32, fast: bool) -> VideoBitrateProfile {
    let (target_kbps, maximum_kbps) = if resolution >= 4320 {
        if fast {
            (120_000u32, 240_000u32)
        } else {
            (80_000u32, 160_000u32)
        }
    } else if resolution >= 2160 {
        if fast {
            (53_000u32, 68_000u32)
        } else {
            (35_000u32, 45_000u32)
        }
    } else if resolution >= 1440 {
        if fast {
            (24_000u32, 24_000u32)
        } else {
            (16_000u32, 16_000u32)
        }
    } else if resolution >= 1080 {
        if fast {
            (12_000u32, 12_000u32)
        } else {
            (8_000u32, 8_000u32)
        }
    } else if resolution >= 720 {
        if fast {
            (7_500u32, 7_500u32)
        } else {
            (5_000u32, 5_000u32)
        }
    } else if resolution >= 480 {
        if fast {
            (4_000u32, 4_000u32)
        } else {
            (2_500u32, 2_500u32)
        }
    } else {
        if fast {
            (1_500u32, 1_500u32)
        } else {
            (1_000u32, 1_000u32)
        }
    };
    VideoBitrateProfile { target_kbps, maximum_kbps }
}

/// The bit rates that YouTube recommends for a resolution and a frame rate.
pub fn youtube_sdr_bitrate_profile(resolution: u32, frames_per_second: FrameRate) -> (profile:
    VideoBitrateProfile)
    ensures
        profile == recommended(resolution, frames_per_second.high()),
{
    let fast: bool = frames_per_second.is_high();
    let (target_kbps, maximum_kbps): (u32, u32) = if resolution >= 4320 {
        if fast {
            (120_000, 240_000)
        } else {
            (80_000, 160_000)
        }
    } else if resolution >= 2160 {
        if fast {
            (53_000, 68_000)
        } else {
            (35_000, 45_000)
        }
    } else if resolution >= 1440 {
        if fast {
            (24_000, 24_000)
        } else {
            (16_000, 16_000)
        }
    } else if resolution >= 1080 {
        if fast {
            (12_000, 12_000)
        } else {
            (8_000, 8_000)
        }
    } else if resolution >= 720 {
        if fast {
            (7_500, 7_500)
        } else {
            (5_000, 5_000)
        }
    } else if resolution >= 480 {
        if fast {
            (4_000, 4_000)
        } else {
            (2_500, 2_500)
        }
    } else {
        if fast {
            (1_500, 1_500)
        } else {
            (1_000, 1_000)
        }
    };
    VideoBitrateProfile { target_kbps, maximum_kbps }
}

// ---------------------------------------------------------------------------------------------
// Arguments
// ---------------------------------------------------------------------------------------------

/// The arguments that choose an encoder and how it works, without its bit rates.
pub open spec fn codec_words(encoder: H264Encoder) -> Seq<Seq<char>> {
    match encoder {
        H264Encoder::NvidiaNvenc => seq![
            "-c:v"@,
            "h264_nvenc"@,
            "-preset"@,
            "p5"@,
            "-tune"@,
            "hq"@,
            "-rc"@,
            "vbr"@,
            "-cq"@,
            "23"@,
            "-spatial-aq"@,
            "1"@,
            "-pix_fmt"@,
            "yuv420p"@,
        ],
        H264Encoder::IntelQuickSync => seq![
            "-c:v"@,
            "h264_qsv"@,
            "-preset"@,
            "medium"@,
            "-pix_fmt"@,
            "nv12"@,
        ],
        H264Encoder::AmdAmf => seq![
            "-c:v"@,
            "h264_amf"@,
            "-quality"@,
            "quality"@,
            "-rc"@,
            "vbr_peak"@,
            "-pix_fmt"@,
            "nv12"@,
        ],
        H264Encoder::AppleVideoToolbox => seq![
            "-c:v"@,
            "h264_videotoolbox"@,
            "-profile:v"@,
            "high"@,
            "-pix_fmt"@,
            "yuv420p"@,
            "-allow_sw"@,
            "0"@,
        ],
        H264Encoder::CpuX264 => seq![
            "-c:v"@,
            "libx264"@,
            "-preset"@,
            "medium"@,
            "-crf"@,
            "18"@,
            "-pix_fmt"@,
            "yuv420p"@,
        ],
    }
}

/// A rate of `n` thousand bits as FFmpeg reads it.
pub open spec fn kilo(n: nat) -> Seq<char> {
    number::decimal(n) + "k"@
}

/// The arguments that limit the bit rate, with the one that is aimed at or without it.
pub open spec fn limit_words(bitrate: VideoBitrateProfile, include_target: bool) -> Seq<Seq<char>> {
    (if include_target {
        seq!["-b:v"@, kilo(bitrate.target_kbps as nat)]
    } else {
        Seq::empty()
    }) + seq![
        "-maxrate"@,
        kilo(bitrate.maximum_kbps as nat),
        "-bufsize"@,
        kilo(bitrate.buffer()),
    ]
}

/// The arguments that choose an encoder and its bit rates. The encoder on the processor works
/// towards a quality and is given no rate to aim at.
pub open spec fn encoder_arguments(
    encoder: H264Encoder,
    bitrate: VideoBitrateProfile,
) -> Seq<ArgumentView> {
    command::texts(codec_words(encoder)) + command::texts(limit_words(bitrate, encoder.on_gpu()))
}

/// A rate of `n` thousand bits as FFmpeg reads it.
fn kilo_text(n: u32) -> (s: String)
    ensures
        s@ == kilo(n as nat),
{
    let mut s: String = String::new();
    number::push_decimal(&mut s, n as u64);
    s.append("k");
    assert(s@ =~= kilo(n as nat));
    s
}

/// Appends the arguments that limit the bit rate.
pub fn configure_bitrate_limits(
    arguments: &mut Vec<Argument>,
    bitrate: VideoBitrateProfile,
    include_target: bool,
)
    ensures
        command::argument_views(final(arguments)@) == command::argument_views(old(arguments)@)
            + command::texts(limit_words(bitrate, include_target)),
{
    if include_target {
        let target: String = kilo_text(bitrate.target_kbps);
        push_texts(arguments, &["-b:v", target.as_str()]);
    }
    let maximum: String = kilo_text(bitrate.maximum_kbps);
    let buffer: String = kilo_text(bitrate.buffer_kbps());
    push_texts(arguments, &["-maxrate", maximum.as_str(), "-bufsize", buffer.as_str()]);
    assert(command::argument_views(arguments@) =~= command::argument_views(old(arguments)@)
        + command::texts(limit_words(bitrate, include_target)));
}

/// Appends the arguments that choose an encoder and its bit rates.
pub fn configure_h264_encoder(
    arguments: &mut Vec<Argument>,
    encoder: H264Encoder,
    bitrate: VideoBitrateProfile,
)
    ensures
        command::argument_views(final(arguments)@) == command::argument_views(old(arguments)@)
            + encoder_arguments(encoder, bitrate),
{
    match encoder {
        H264Encoder::NvidiaNvenc => {
            push_texts(
                arguments,
                &[
                    "-c:v",
                    "h264_nvenc",
                    "-preset",
                    "p5",
                    "-tune",
                    "hq",
                    "-rc",
                    "vbr",
                    "-cq",
                    "23",
                    "-spatial-aq",
                    "1",
                    "-pix_fmt",
                    "yuv420p",
                ],
            );
        },
        H264Encoder::IntelQuickSync => {
            push_texts(
                arguments,
                &["-c:v", "h264_qsv", "-preset", "medium", "-pix_fmt", "nv12"],
            );
        },
        H264Encoder::AmdAmf => {
            push_texts(
                arguments,
                &[
                    "-c:v",
                    "h264_amf",
                    "-quality",
                    "quality",
                    "-rc",
                    "vbr_peak",
                    "-pix_fmt",
                    "nv12",
                ],
            );
        },
        H264Encoder::AppleVideoToolbox => {
            push_texts(
                arguments,
                &[
                    "-c:v",
                    "h264_videotoolbox",
                    "-profile:v",
                    "high",
                    "-pix_fmt",
                    "yuv420p",
                    "-allow_sw",
                    "0",
                ],
            );
        },
        H264Encoder::CpuX264 => {
            push_texts(
                arguments,
                &["-c:v", "libx264", "-preset", "medium", "-crf", "18", "-pix_fmt", "yuv420p"],
            );
        },
    }
    assert(command::argument_views(arguments@) =~= command::argument_views(old(arguments)@)
        + command::texts(codec_words(encoder)));
    configure_bitrate_limits(arguments, bitrate, encoder.is_gpu());
    assert(command::argument_views(arguments@) =~= command::argument_views(old(arguments)@)
        + encoder_arguments(encoder, bitrate));
}

// ---------------------------------------------------------------------------------------------
// Laws
// ---------------------------------------------------------------------------------------------

/// More lines or a higher frame rate never get a lower bit rate, and what is aimed at is never
/// above the maximum.
pub proof fn bit_rates_grow(low: u32, high: u32, slow: bool, fast: bool)
    requires
        low <= high,
        slow ==> fast,
    ensures
        recommended(low, slow).target_kbps <= recommended(high, fast).target_kbps,
        recommended(low, slow).maximum_kbps <= recommended(high, fast).maximum_kbps,
        recommended(low, slow).target_kbps <= recommended(low, slow).maximum_kbps,
{
}

/// The rate buffer of each recommended profile is exactly twice its maximum.
pub proof fn buffer_is_twice_the_maximum(resolution: u32, fast: bool)
    ensures
        recommended(resolution, fast).buffer() == 2 * recommended(resolution, fast).maximum_kbps,
{
}

/// No platform offers the processor among the encoders on graphics processors.
pub proof fn gpu_encoders_run_on_the_gpu(platform: Seq<char>, i: int)
    requires
        0 <= i < gpu_encoders(platform).len(),
    ensures
        gpu_encoders(platform)[i].on_gpu(),
{
}

} // verus!
