//! What FFprobe reports about a file.
use crate::codec;
use crate::codec::as_text;
use crate::command;
use crate::command::{push_argument, push_texts, Argument, ArgumentView};
use crate::encoder;
use crate::encoder::{youtube_sdr_bitrate_profile, FrameRate, VideoBitrateProfile};
use crate::formats;
use crate::split;
use crate::text;
use vstd::prelude::*;

verus! {

/// A stream of a file.
#[derive(Debug, PartialEq, Eq)]
pub struct ProbeStream {
    pub codec_type: Option<String>,
    pub codec_name: Option<String>,
    pub pix_fmt: Option<String>,
    pub width: Option<u32>,
    pub height: Option<u32>,
    pub avg_frame_rate: Option<String>,
}

/// What a file is as a whole.
#[derive(Debug, PartialEq, Eq)]
pub struct ProbeFormat {
    pub duration: Option<String>,
}

/// A file and its streams.
#[derive(Debug, PartialEq, Eq)]
pub struct ProbeResult {
    pub streams: Vec<ProbeStream>,
    pub format: ProbeFormat,
}

/// The stream is of a kind.
pub open spec fn of_kind(stream: ProbeStream, kind: Seq<char>) -> bool {
    codec::opt_view(stream.codec_type) == Some(kind)
}

/// The first stream of a kind.
pub open spec fn first_stream(streams: Seq<ProbeStream>, kind: Seq<char>) -> Option<ProbeStream>
    decreases streams.len(),
{
    if streams.len() == 0 {
        None
    } else if of_kind(streams.first(), kind) {
        Some(streams.first())
    } else {
        first_stream(streams.drop_first(), kind)
    }
}

/// The stream is H.264 in a pixel format that every player reads.
pub open spec fn compatible_h264(stream: ProbeStream) -> bool {
    &&& codec::opt_view(stream.codec_name) == Some("h264"@)
    &&& codec::opt_view(stream.pix_fmt) == Some("yuv420p"@) || codec::opt_view(stream.pix_fmt)
        == Some("yuvj420p"@)
}

/// The stream is AAC.
pub open spec fn coded_as_aac(stream: ProbeStream) -> bool {
    codec::opt_view(stream.codec_name) == Some("aac"@)
}

/// The bit rates for a stream: by the shorter side of its picture, taken as 1080 where it is not
/// known, and by its frame rate, taken as 30 where it is not known.
pub open spec fn stream_profile(
    stream: ProbeStream,
    frames_per_second: Option<FrameRate>,
) -> VideoBitrateProfile {
    let resolution = match formats::shorter_side(stream.width, stream.height) {
        Some(side) => side,
        None => 1080u32,
    };
    let rate = match frames_per_second {
        Some(rate) => rate,
        None => FrameRate::thirty(),
    };
    encoder::recommended(resolution, rate.high())
}

/// The first stream of a kind.
pub fn find_stream<'a>(streams: &'a Vec<ProbeStream>, kind: &str) -> (found: Option<
    &'a ProbeStream,
>)
    ensures
        match found {
            Some(stream) => first_stream(streams@, kind@) == Some(*stream),
            None => first_stream(streams@, kind@) is None,
        },
{
    let mut i: usize = 0;
    assert(streams@.skip(0) =~= streams@);
    while i < streams.len()
        invariant
            i <= streams.len(),
            first_stream(streams@, kind@) == first_stream(streams@.skip(i as int), kind@),
        decreases streams.len() - i,
    {
        if text::is_text(as_text(&streams[i].codec_type), kind) {
            return Some(&streams[i]);
        }
        assert(streams@.skip(i as int).drop_first() =~= streams@.skip(i + 1));
        i += 1;
    }
    None
}

/// Whether the stream is H.264 in a pixel format that every player reads.
pub fn is_compatible_h264(stream: &ProbeStream) -> (b: bool)
    ensures
        b == compatible_h264(*stream),
{
    text::is_text(as_text(&stream.codec_name), "h264") && (text::is_text(
        as_text(&stream.pix_fmt),
        "yuv420p",
    ) || text::is_text(as_text(&stream.pix_fmt), "yuvj420p"))
}

/// Whether the stream is AAC.
pub fn is_aac_stream(stream: &ProbeStream) -> (b: bool)
    ensures
        b == coded_as_aac(*stream),
{
    text::is_text(as_text(&stream.codec_name), "aac")
}

/// The bit rates for a stream.
pub fn video_bitrate_profile(
    stream: &ProbeStream,
    frames_per_second: Option<FrameRate>,
) -> (profile: VideoBitrateProfile)
    ensures
        profile == stream_profile(*stream, frames_per_second),
{
    let resolution: u32 = match formats::shorter_dimension(stream.width, stream.height) {
        Some(side) => side,
        None => 1080,
    };
    let rate: FrameRate = match frames_per_second {
        Some(rate) => rate,
        None => FrameRate::usual(),
    };
    youtube_sdr_bitrate_profile(resolution, rate)
}

/// A frame rate as FFprobe writes it: a fraction, or one number.
#[derive(Debug, PartialEq, Eq)]
pub enum FrameRateText {
    Quotient { numerator: String, denominator: String },
    Number(String),
}

/// What a text says as a frame rate: what stands before the first slash over what stands behind
/// it, or the whole where there is no slash.
pub open spec fn frame_rate_text(value: Seq<char>, rate: FrameRateText) -> bool {
    let n = split::until(value, '/');
    match rate {
        FrameRateText::Quotient { numerator, denominator } => {
            &&& n < value.len()
            &&& numerator@ == value.take(n)
            &&& denominator@ == value.skip(n + 1)
        },
        FrameRateText::Number(number) => n == value.len() && number@ == value,
    }
}

/// Splits a frame rate into the numbers it is written with.
pub fn split_frame_rate(value: &str) -> (rate: FrameRateText)
    ensures
        frame_rate_text(value@, rate),
{
    let chars: Vec<char> = text::chars_of(value);
    match split::split_once(chars.as_slice(), '/') {
        Some((numerator, denominator)) => FrameRateText::Quotient {
            numerator: text::string_of(numerator),
            denominator: text::string_of(denominator),
        },
        None => FrameRateText::Number(value.to_owned()),
    }
}

/// The arguments by which FFprobe reports a file and its streams.
pub open spec fn probe_words() -> Seq<ArgumentView> {
    command::texts(
        seq![
            "-v"@,
            "error"@,
            "-show_entries"@,
            "stream=codec_type,codec_name,pix_fmt,width,height,avg_frame_rate:format=duration"@,
            "-of"@,
            "json"@,
        ],
    ).push(ArgumentView::Input)
}

/// The arguments by which FFprobe reports a file and its streams.
pub fn probe_arguments() -> (arguments: Vec<Argument>)
    ensures
        command::argument_views(arguments@) == probe_words(),
{
    let mut arguments: Vec<Argument> = Vec::new();
    push_texts(
        &mut arguments,
        &[
            "-v",
            "error",
            "-show_entries",
            "stream=codec_type,codec_name,pix_fmt,width,height,avg_frame_rate:format=duration",
            "-of",
            "json",
        ],
    );
    push_argument(&mut arguments, Argument::Input);
    assert(command::argument_views(arguments@) =~= probe_words());
    arguments
}

} // verus!
