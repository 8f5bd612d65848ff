//! How pictures are encoded.
use crate::command;
use crate::command::ArgumentView;
use crate::encoder;
use crate::encoder::{FrameRate, H264Encoder, VideoBitrateProfile};
use crate::laws::words;
use crate::number;
use crate::text;
use vstd::prelude::*;

verus! {

/// Each encoder is asked for by its name, once, and works with its own settings and limits of the bit
/// rate and nothing else; all of them write
/// eight bits for a sample with the colours halved in both directions, which every player reads:
/// `nv12` where Intel's or AMD's processor encodes, `yuv420p` elsewhere.
pub proof fn encoders_are_set_up(encoder: H264Encoder, bitrate: VideoBitrateProfile)
    ensures
        ({
            let arguments = encoder::encoder_arguments(encoder, bitrate);
            match encoder {
                H264Encoder::NvidiaNvenc => {
                    &&& command::set_to_text(arguments, "-c:v"@, "h264_nvenc"@)
                    &&& command::set_to_text(arguments, "-preset"@, "p5"@)
                    &&& command::set_to_text(arguments, "-tune"@, "hq"@)
                    &&& command::set_to_text(arguments, "-rc"@, "vbr"@)
                    &&& command::set_to_text(arguments, "-cq"@, "23"@)
                    &&& command::set_to_text(arguments, "-spatial-aq"@, "1"@)
                    &&& command::set_to_text(arguments, "-pix_fmt"@, "yuv420p"@)
                    &&& arguments.len() == 20
                },
                H264Encoder::IntelQuickSync => {
                    &&& command::set_to_text(arguments, "-c:v"@, "h264_qsv"@)
                    &&& command::set_to_text(arguments, "-preset"@, "medium"@)
                    &&& command::set_to_text(arguments, "-pix_fmt"@, "nv12"@)
                    &&& arguments.len() == 12
                },
                H264Encoder::AmdAmf => {
                    &&& command::set_to_text(arguments, "-c:v"@, "h264_amf"@)
                    &&& command::set_to_text(arguments, "-quality"@, "quality"@)
                    &&& command::set_to_text(arguments, "-rc"@, "vbr_peak"@)
                    &&& command::set_to_text(arguments, "-pix_fmt"@, "nv12"@)
                    &&& arguments.len() == 14
                },
                H264Encoder::AppleVideoToolbox => {
                    &&& command::set_to_text(arguments, "-c:v"@, "h264_videotoolbox"@)
                    &&& command::set_to_text(arguments, "-profile:v"@, "high"@)
                    &&& command::set_to_text(arguments, "-pix_fmt"@, "yuv420p"@)
                    &&& command::set_to_text(arguments, "-allow_sw"@, "0"@)
                    &&& arguments.len() == 14
                },
                H264Encoder::CpuX264 => {
                    &&& command::set_to_text(arguments, "-c:v"@, "libx264"@)
                    &&& command::set_to_text(arguments, "-preset"@, "medium"@)
                    &&& command::set_to_text(arguments, "-crf"@, "18"@)
                    &&& command::set_to_text(arguments, "-pix_fmt"@, "yuv420p"@)
                    &&& arguments.len() == 12
                },
            }
        }),
{
    reveal(command::asks);
    reveal(command::gives);
    reveal(command::set_to);
    let words = command::texts(encoder::codec_words(encoder));
    let limits = command::texts(encoder::limit_words(bitrate, encoder.on_gpu()));
    words::lemma_words();
    lemma_limits(bitrate, encoder.on_gpu());
    command::lemma_parts(words, limits);
    match encoder {
        H264Encoder::NvidiaNvenc => {
            assert(words.len() == 14);
            assert(words[0] == ArgumentView::Text("-c:v"@));
            assert(words[1] == ArgumentView::Text("h264_nvenc"@));
            assert(words[2] == ArgumentView::Text("-preset"@));
            assert(words[3] == ArgumentView::Text("p5"@));
            assert(words[4] == ArgumentView::Text("-tune"@));
            assert(words[5] == ArgumentView::Text("hq"@));
            assert(words[6] == ArgumentView::Text("-rc"@));
            assert(words[7] == ArgumentView::Text("vbr"@));
            assert(words[8] == ArgumentView::Text("-cq"@));
            assert(words[9] == ArgumentView::Text("23"@));
            assert(words[10] == ArgumentView::Text("-spatial-aq"@));
            assert(words[11] == ArgumentView::Text("1"@));
            assert(words[12] == ArgumentView::Text("-pix_fmt"@));
            assert(words[13] == ArgumentView::Text("yuv420p"@));
            assert(!command::asks(limits, "-c:v"@));
            assert(!command::asks(limits, "-preset"@));
            assert(!command::asks(limits, "-tune"@));
            assert(!command::asks(limits, "-rc"@));
            assert(!command::asks(limits, "-cq"@));
            assert(!command::asks(limits, "-spatial-aq"@));
            assert(!command::asks(limits, "-pix_fmt"@));
            assert(command::set_to_text(words, "-c:v"@, "h264_nvenc"@));
            assert(command::set_to_text(words, "-preset"@, "p5"@));
            assert(command::set_to_text(words, "-tune"@, "hq"@));
            assert(command::set_to_text(words, "-rc"@, "vbr"@));
            assert(command::set_to_text(words, "-cq"@, "23"@));
            assert(command::set_to_text(words, "-spatial-aq"@, "1"@));
            assert(command::set_to_text(words, "-pix_fmt"@, "yuv420p"@));
        },
        H264Encoder::IntelQuickSync => {
            assert(words.len() == 6);
            assert(words[0] == ArgumentView::Text("-c:v"@));
            assert(words[1] == ArgumentView::Text("h264_qsv"@));
            assert(words[2] == ArgumentView::Text("-preset"@));
            assert(words[3] == ArgumentView::Text("medium"@));
            assert(words[4] == ArgumentView::Text("-pix_fmt"@));
            assert(words[5] == ArgumentView::Text("nv12"@));
            assert(!command::asks(limits, "-c:v"@));
            assert(!command::asks(limits, "-preset"@));
            assert(!command::asks(limits, "-pix_fmt"@));
            assert(command::set_to_text(words, "-c:v"@, "h264_qsv"@));
            assert(command::set_to_text(words, "-preset"@, "medium"@));
            assert(command::set_to_text(words, "-pix_fmt"@, "nv12"@));
        },
        H264Encoder::AmdAmf => {
            assert(words.len() == 8);
            assert(words[0] == ArgumentView::Text("-c:v"@));
            assert(words[1] == ArgumentView::Text("h264_amf"@));
            assert(words[2] == ArgumentView::Text("-quality"@));
            assert(words[3] == ArgumentView::Text("quality"@));
            assert(words[4] == ArgumentView::Text("-rc"@));
            assert(words[5] == ArgumentView::Text("vbr_peak"@));
            assert(words[6] == ArgumentView::Text("-pix_fmt"@));
            assert(words[7] == ArgumentView::Text("nv12"@));
            assert(!command::asks(limits, "-c:v"@));
            assert(!command::asks(limits, "-quality"@));
            assert(!command::asks(limits, "-rc"@));
            assert(!command::asks(limits, "-pix_fmt"@));
            assert(command::set_to_text(words, "-c:v"@, "h264_amf"@));
            assert(command::set_to_text(words, "-quality"@, "quality"@));
            assert(command::set_to_text(words, "-rc"@, "vbr_peak"@));
            assert(command::set_to_text(words, "-pix_fmt"@, "nv12"@));
        },
        H264Encoder::AppleVideoToolbox => {
            assert(words.len() == 8);
            assert(words[0] == ArgumentView::Text("-c:v"@));
            assert(words[1] == ArgumentView::Text("h264_videotoolbox"@));
            assert(words[2] == ArgumentView::Text("-profile:v"@));
            assert(words[3] == ArgumentView::Text("high"@));
            assert(words[4] == ArgumentView::Text("-pix_fmt"@));
            assert(words[5] == ArgumentView::Text("yuv420p"@));
            assert(words[6] == ArgumentView::Text("-allow_sw"@));
            assert(words[7] == ArgumentView::Text("0"@));
            assert(!command::asks(limits, "-c:v"@));
            assert(!command::asks(limits, "-profile:v"@));
            assert(!command::asks(limits, "-pix_fmt"@));
            assert(!command::asks(limits, "-allow_sw"@));
            assert(command::set_to_text(words, "-c:v"@, "h264_videotoolbox"@));
            assert(command::set_to_text(words, "-profile:v"@, "high"@));
            assert(command::set_to_text(words, "-pix_fmt"@, "yuv420p"@));
            assert(command::set_to_text(words, "-allow_sw"@, "0"@));
        },
        H264Encoder::CpuX264 => {
            assert(words.len() == 8);
            assert(words[0] == ArgumentView::Text("-c:v"@));
            assert(words[1] == ArgumentView::Text("libx264"@));
            assert(words[2] == ArgumentView::Text("-preset"@));
            assert(words[3] == ArgumentView::Text("medium"@));
            assert(words[4] == ArgumentView::Text("-crf"@));
            assert(words[5] == ArgumentView::Text("18"@));
            assert(words[6] == ArgumentView::Text("-pix_fmt"@));
            assert(words[7] == ArgumentView::Text("yuv420p"@));
            assert(!command::asks(limits, "-c:v"@));
            assert(!command::asks(limits, "-preset"@));
            assert(!command::asks(limits, "-crf"@));
            assert(!command::asks(limits, "-pix_fmt"@));
            assert(command::set_to_text(words, "-c:v"@, "libx264"@));
            assert(command::set_to_text(words, "-preset"@, "medium"@));
            assert(command::set_to_text(words, "-crf"@, "18"@));
            assert(command::set_to_text(words, "-pix_fmt"@, "yuv420p"@));
        },
    }
}

/// A rate begins with a digit.
proof fn lemma_kilo(n: nat)
    ensures
        encoder::kilo(n).len() > 1,
        '0' <= encoder::kilo(n)[0] <= '9',
{
    number::decimal_stands_for_the_number(n);
    reveal_strlit("k");
    assert(number::is_digit(number::decimal(n)[0]));
}

/// The arguments that limit the bit rate hold rates and the options for them alone.
proof fn lemma_limits(bitrate: VideoBitrateProfile, include_target: bool)
    ensures
        ({
            let limits = command::texts(encoder::limit_words(bitrate, include_target));
            &&& command::set_to_text(
                limits,
                "-maxrate"@,
                encoder::kilo(bitrate.maximum_kbps as nat),
            )
            &&& command::set_to_text(limits, "-bufsize"@, encoder::kilo(bitrate.buffer()))
            &&& if include_target {
                command::set_to_text(limits, "-b:v"@, encoder::kilo(bitrate.target_kbps as nat))
            } else {
                !command::asks(limits, "-b:v"@)
            }
            &&& forall|word: Seq<char>|
                word.len() > 0 && word[0] == '-' && word != "-maxrate"@ && word != "-bufsize"@
                    && word != "-b:v"@ ==> !#[trigger] command::asks(limits, word)
        }),
{
    reveal(command::asks);
    reveal(command::gives);
    reveal(command::set_to);
    words::lemma_words();
    lemma_kilo(bitrate.target_kbps as nat);
    lemma_kilo(bitrate.maximum_kbps as nat);
    lemma_kilo(bitrate.buffer());
    let limits = command::texts(encoder::limit_words(bitrate, include_target));
    let n: int = if include_target {
        2
    } else {
        0
    };
    assert(limits.len() == n + 4);
    if include_target {
        assert(limits[0] == ArgumentView::Text("-b:v"@));
        assert(limits[1] == ArgumentView::Text(encoder::kilo(bitrate.target_kbps as nat)));
    }
    assert(limits[n] == ArgumentView::Text("-maxrate"@));
    assert(limits[n + 1] == ArgumentView::Text(encoder::kilo(bitrate.maximum_kbps as nat)));
    assert(limits[n + 2] == ArgumentView::Text("-bufsize"@));
    assert(limits[n + 3] == ArgumentView::Text(encoder::kilo(bitrate.buffer())));
}

/// The bit rate is limited to the maximum of the profile, with room for twice as much. A rate to aim
/// at is given to the encoders on graphics processors and to no other.
pub proof fn bit_rates_are_limited(encoder: H264Encoder, bitrate: VideoBitrateProfile)
    ensures
        ({
            let arguments = encoder::encoder_arguments(encoder, bitrate);
            &&& command::set_to_text(
                arguments,
                "-maxrate"@,
                number::decimal(bitrate.maximum_kbps as nat) + "k"@,
            )
            &&& 2 * bitrate.maximum_kbps <= u32::MAX ==> command::set_to_text(
                arguments,
                "-bufsize"@,
                number::decimal((2 * bitrate.maximum_kbps) as nat) + "k"@,
            )
            &&& if encoder == H264Encoder::CpuX264 {
                !command::asks(arguments, "-b:v"@)
            } else {
                command::set_to_text(
                    arguments,
                    "-b:v"@,
                    number::decimal(bitrate.target_kbps as nat) + "k"@,
                )
            }
        }),
{
    let words = command::texts(encoder::codec_words(encoder));
    let limits = command::texts(encoder::limit_words(bitrate, encoder.on_gpu()));
    lemma_limits(bitrate, encoder.on_gpu());
    lemma_codec_words(encoder);
    command::lemma_parts(words, limits);
}

/// The words for an encoder hold none of those that say what becomes of a file beside it.
proof fn lemma_codec_words(encoder: H264Encoder)
    ensures
        ({
            let words = command::texts(encoder::codec_words(encoder));
            &&& !command::asks(words, "-b:v"@)
            &&& !command::asks(words, "-maxrate"@)
            &&& !command::asks(words, "-bufsize"@)
            &&& !command::asks(words, "-hide_banner"@)
            &&& !command::asks(words, "-y"@)
            &&& !command::asks(words, "-i"@)
            &&& !command::asks(words, "-map"@)
            &&& !command::asks(words, "-vn"@)
            &&& !command::asks(words, "-tag:v"@)
            &&& !command::asks(words, "-c:a"@)
            &&& !command::asks(words, "-b:a"@)
            &&& !command::asks(words, "-map_metadata"@)
            &&& !command::asks(words, "-map_chapters"@)
            &&& !command::asks(words, "-movflags"@)
            &&& !command::asks(words, "-progress"@)
            &&& !command::asks(words, "-nostats"@)
            &&& !command::asks(words, "-loglevel"@)
            &&& !command::asks(words, "-f"@)
            &&& !command::asks(words, "-frames:v"@)
            &&& !command::asks(words, "-an"@)
        }),
{
    reveal(command::asks);
    reveal(command::gives);
    reveal(command::set_to);
    words::lemma_words();
    let words = command::texts(encoder::codec_words(encoder));
}

/// The arguments for an encoder hold none of those that say what becomes of a file beside it.
pub proof fn encoders_leave_the_rest_alone(encoder: H264Encoder, bitrate: VideoBitrateProfile)
    ensures
        ({
            let words = encoder::encoder_arguments(encoder, bitrate);
            &&& !command::asks(words, "-hide_banner"@)
            &&& !command::asks(words, "-y"@)
            &&& !command::asks(words, "-i"@)
            &&& !command::asks(words, "-map"@)
            &&& !command::asks(words, "-vn"@)
            &&& !command::asks(words, "-tag:v"@)
            &&& !command::asks(words, "-c:a"@)
            &&& !command::asks(words, "-b:a"@)
            &&& !command::asks(words, "-map_metadata"@)
            &&& !command::asks(words, "-map_chapters"@)
            &&& !command::asks(words, "-movflags"@)
            &&& !command::asks(words, "-progress"@)
            &&& !command::asks(words, "-nostats"@)
            &&& !command::asks(words, "-loglevel"@)
            &&& !command::asks(words, "-f"@)
            &&& !command::asks(words, "-frames:v"@)
            &&& !command::asks(words, "-an"@)
        }),
{
    words::lemma_words();
    let words = command::texts(encoder::codec_words(encoder));
    let limits = command::texts(encoder::limit_words(bitrate, encoder.on_gpu()));
    lemma_limits(bitrate, encoder.on_gpu());
    lemma_codec_words(encoder);
    command::lemma_parts(words, limits);
}

/// Two pictures of one tier get the same bit rates: a tier begins at a usual number of lines and
/// reaches up to the next.
pub proof fn tiers_begin_at_usual_sizes(base: u32, resolution: u32, fast: bool)
    requires
        ({
            ||| base == 0 && resolution < 480
            ||| base == 480 && 480 <= resolution < 720
            ||| base == 720 && 720 <= resolution < 1080
            ||| base == 1080 && 1080 <= resolution < 1440
            ||| base == 1440 && 1440 <= resolution < 2160
            ||| base == 2160 && 2160 <= resolution < 4320
            ||| base == 4320 && 4320 <= resolution
        }),
    ensures
        encoder::recommended(resolution, fast) == encoder::recommended(base, fast),
{
}

/// What YouTube asks for at each usual size, in thousands of bits: at a low frame rate and at a high
/// one. Up to 1440 lines the maximum is the rate that is aimed at; above, there is room beyond it.
pub proof fn tiers_have_their_rates(fast: bool)
    ensures
        encoder::recommended(0, fast).target_kbps == if fast { 1_500int } else { 1_000 },
        encoder::recommended(480, fast).target_kbps == if fast { 4_000int } else { 2_500 },
        encoder::recommended(720, fast).target_kbps == if fast { 7_500int } else { 5_000 },
        encoder::recommended(1080, fast).target_kbps == if fast { 12_000int } else { 8_000 },
        encoder::recommended(1440, fast).target_kbps == if fast { 24_000int } else { 16_000 },
        encoder::recommended(2160, fast).target_kbps == if fast { 53_000int } else { 35_000 },
        encoder::recommended(4320, fast).target_kbps == if fast { 120_000int } else { 80_000 },
        forall|resolution: u32|
            resolution < 2160 ==> (#[trigger] encoder::recommended(resolution, fast)).maximum_kbps
                == encoder::recommended(resolution, fast).target_kbps,
        encoder::recommended(2160, fast).maximum_kbps == if fast { 68_000int } else { 45_000 },
        encoder::recommended(4320, fast).maximum_kbps == 2 * encoder::recommended(
            4320,
            fast,
        ).target_kbps,
{
}

/// A frame rate counts as high from 48.0 on: the number itself does, the next lower one does not,
/// and with a number all greater ones up to infinity do. A negative number does not, nor does what
/// is no number.
pub proof fn high_rates_begin_at_48(rate: FrameRate, other: FrameRate)
    ensures
        (FrameRate { bits: 0x4048_0000_0000_0000 }).high(),
        !(FrameRate { bits: 0x4047_ffff_ffff_ffff }).high(),
        (FrameRate { bits: 0x7ff0_0000_0000_0000 }).high(),
        rate.high() && rate.bits <= other.bits <= 0x7ff0_0000_0000_0000 ==> other.high(),
        !rate.high() && other.bits <= rate.bits <= 0x7ff0_0000_0000_0000 ==> !other.high(),
        rate.bits > 0x7ff0_0000_0000_0000 ==> !rate.high(),
        FrameRate::thirty().bits == 0x403e_0000_0000_0000,
{
}

/// Windows is offered the processors of NVIDIA, Intel and AMD in this order, macOS on Apple's
/// processors Apple's, and any other platform none.
pub proof fn platforms_offer_their_encoders(platform: Seq<char>)
    ensures
        ({
            let encoders = encoder::gpu_encoders(platform);
            &&& platform == "windows-x64"@ ==> encoders.len() == 3 && encoders[0]
                == H264Encoder::NvidiaNvenc && encoders[1] == H264Encoder::IntelQuickSync
                && encoders[2] == H264Encoder::AmdAmf
            &&& platform == "macos-arm64"@ ==> encoders.len() == 1 && encoders[0]
                == H264Encoder::AppleVideoToolbox
            &&& platform != "windows-x64"@ && platform != "macos-arm64"@ ==> encoders.len() == 0
        }),
{
    reveal_strlit("windows-x64");
    reveal_strlit("macos-arm64");
    assert("windows-x64"@[0] != "macos-arm64"@[0]);
}

/// The user is told of a graphics processor by whose it is, and of the processor as such: the
/// encoders on graphics processors are the ones whose names end so.
pub proof fn encoders_are_named(encoder: H264Encoder)
    ensures
        encoder.name() == match encoder {
            H264Encoder::NvidiaNvenc => "NVIDIA"@ + " GPU"@,
            H264Encoder::IntelQuickSync => "Intel"@ + " GPU"@,
            H264Encoder::AmdAmf => "AMD"@ + " GPU"@,
            H264Encoder::AppleVideoToolbox => "Apple"@ + " GPU"@,
            H264Encoder::CpuX264 => "CPU"@,
        },
        encoder.on_gpu() <==> text::ends_with(encoder.name(), " GPU"@),
{
    reveal_strlit("NVIDIA");
    reveal_strlit("Intel");
    reveal_strlit("AMD");
    reveal_strlit("Apple");
    reveal_strlit(" GPU");
    reveal_strlit("NVIDIA GPU");
    reveal_strlit("Intel GPU");
    reveal_strlit("AMD GPU");
    reveal_strlit("Apple GPU");
    reveal_strlit("CPU");
    let whole = match encoder {
        H264Encoder::NvidiaNvenc => "NVIDIA"@ + " GPU"@,
        H264Encoder::IntelQuickSync => "Intel"@ + " GPU"@,
        H264Encoder::AmdAmf => "AMD"@ + " GPU"@,
        H264Encoder::AppleVideoToolbox => "Apple"@ + " GPU"@,
        H264Encoder::CpuX264 => "CPU"@,
    };
    assert(encoder.name() =~= whole);
    if encoder.on_gpu() {
        let k = whole.len() - 4;
        assert(whole.subrange(k, k + 4) =~= " GPU"@);
    } else {
        assert(encoder.name().len() == 3 && " GPU"@.len() == 4);
    }
}

} // verus!
