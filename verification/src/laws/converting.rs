//! How files are converted.
use crate::command;
use crate::command::ArgumentView;
use crate::encoder;
use crate::encoder::{FrameRate, H264Encoder, VideoBitrateProfile};
use crate::finalize;
use crate::laws::encoding;
use crate::laws::words;
use crate::model::DownloadMode;
use crate::number;
use crate::probe;
use crate::probe::ProbeStream;
use vstd::prelude::*;

verus! {

/// The stream is coded as `name`.
pub open spec fn coded_as(stream: ProbeStream, name: Seq<char>) -> bool {
    stream.codec_name matches Some(codec) && codec@ == name
}

/// The stream is H.264 with eight bits for a sample and the colours halved in both directions.
pub open spec fn plain_h264(stream: ProbeStream) -> bool {
    &&& coded_as(stream, "h264"@)
    &&& stream.pix_fmt matches Some(format) && (format@ == "yuv420p"@ || format@ == "yuvj420p"@)
}

/// The arguments by which a file is converted, where it is.
pub open spec fn conversion(
    mode: DownloadMode,
    video: Option<ProbeStream>,
    audio: Option<ProbeStream>,
    encoder: H264Encoder,
    frame_rate: Option<FrameRate>,
) -> Seq<ArgumentView> {
    finalize::finalization_arguments(mode, video, audio, encoder, frame_rate)->0
}

/// The stream that is asked for is there.
pub open spec fn convertible(
    mode: DownloadMode,
    video: Option<ProbeStream>,
    audio: Option<ProbeStream>,
) -> bool {
    match mode {
        DownloadMode::Video => video is Some,
        DownloadMode::AudioOnly => audio is Some,
    }
}

/// In either mode sound in AAC is copied, and any other sound is converted to AAC at 256 thousand
/// bits; there is one codec for sound where there is sound, and none where there is none.
pub proof fn sound_is_copied_or_converted(
    mode: DownloadMode,
    video: Option<ProbeStream>,
    audio: Option<ProbeStream>,
    encoder: H264Encoder,
    frame_rate: Option<FrameRate>,
)
    requires
        convertible(mode, video, audio),
    ensures
        finalize::finalization_arguments(mode, video, audio, encoder, frame_rate) is Some,
        ({
            let arguments = conversion(mode, video, audio, encoder, frame_rate);
            match audio {
                Some(sound) => if coded_as(sound, "aac"@) {
                    &&& command::set_to_text(arguments, "-c:a"@, "copy"@)
                    &&& !command::asks(arguments, "-b:a"@)
                } else {
                    &&& command::set_to_text(arguments, "-c:a"@, "aac"@)
                    &&& command::set_to_text(arguments, "-b:a"@, "256k"@)
                    &&& !command::gives(arguments, "-c:a"@, ArgumentView::Text("copy"@))
                },
                None => !command::asks(arguments, "-c:a"@) && !command::asks(arguments, "-b:a"@),
            }
        }),
{
    words::lemma_words();
    lemma_conversion(mode, video, audio, encoder, frame_rate);
    lemma_copied_sound();
    lemma_encoded_sound();
    if let Some(v) = video {
        lemma_picture(v, encoder, frame_rate);
    }
    let arguments = conversion(mode, video, audio, encoder, frame_rate);
    if command::set_to_text(arguments, "-c:a"@, "aac"@) && command::gives(
        arguments,
        "-c:a"@,
        ArgumentView::Text("copy"@),
    ) {
        command::lemma_set_to_one(
            arguments,
            "-c:a"@,
            ArgumentView::Text("aac"@),
            ArgumentView::Text("copy"@),
        );
    }
}

/// What the plan says of the sound is what the command does: sound that needs conversion is encoded
/// as AAC, and sound that needs none is copied.
pub proof fn planned_conversion_of_sound_is_made(
    plan: finalize::Finalization,
    encoder: H264Encoder,
)
    requires
        plan.well_formed(),
        plan.audio is Some,
        convertible(plan.mode, finalize::stream(plan.video), finalize::stream(plan.audio)),
    ensures
        ({
            let arguments = conversion(
                plan.mode,
                finalize::stream(plan.video),
                finalize::stream(plan.audio),
                encoder,
                plan.frame_rate,
            );
            command::set_to_text(
                arguments,
                "-c:a"@,
                if plan.audio_needs_conversion {
                    "aac"@
                } else {
                    "copy"@
                },
            )
        }),
{
    sound_is_copied_or_converted(
        plan.mode,
        finalize::stream(plan.video),
        finalize::stream(plan.audio),
        encoder,
        plan.frame_rate,
    );
}

/// The name by which FFmpeg knows an encoder.
pub open spec fn ffmpeg_name(encoder: H264Encoder) -> Seq<char> {
    match encoder {
        H264Encoder::NvidiaNvenc => "h264_nvenc"@,
        H264Encoder::IntelQuickSync => "h264_qsv"@,
        H264Encoder::AmdAmf => "h264_amf"@,
        H264Encoder::AppleVideoToolbox => "h264_videotoolbox"@,
        H264Encoder::CpuX264 => "libx264"@,
    }
}

/// A picture that every player reads is copied. Any other one is encoded as H.264 by the encoder
/// that was chosen, in a pixel format that every player reads, and by no other.
pub proof fn picture_is_copied_or_encoded(
    video: ProbeStream,
    audio: Option<ProbeStream>,
    encoder: H264Encoder,
    frame_rate: Option<FrameRate>,
)
    ensures
        ({
            let arguments = conversion(
                DownloadMode::Video,
                Some(video),
                audio,
                encoder,
                frame_rate,
            );
            if plain_h264(video) {
                &&& command::set_to_text(arguments, "-c:v"@, "copy"@)
                &&& !command::asks(arguments, "-pix_fmt"@)
                &&& !command::asks(arguments, "-maxrate"@)
                &&& !command::asks(arguments, "-b:v"@)
            } else {
                &&& command::set_to_text(arguments, "-c:v"@, ffmpeg_name(encoder))
                &&& command::set_to_text(
                    arguments,
                    "-pix_fmt"@,
                    if encoder == H264Encoder::IntelQuickSync || encoder == H264Encoder::AmdAmf {
                        "nv12"@
                    } else {
                        "yuv420p"@
                    },
                )
            }
        }),
{
    words::lemma_words();
    encoding::encoders_are_set_up(encoder, probe::stream_profile(video, frame_rate));
    lemma_conversion(DownloadMode::Video, Some(video), audio, encoder, frame_rate);
    lemma_copied_picture();
    lemma_copied_sound();
    lemma_encoded_sound();
    lemma_picture(video, encoder, frame_rate);
}

/// A picture is encoded at the bit rates for the shorter of its sides, or for the one that is known,
/// or for 1080 lines; and for its frame rate, or for 30 frames in a second.
pub proof fn picture_is_encoded_at_its_rates(
    video: ProbeStream,
    audio: Option<ProbeStream>,
    encoder: H264Encoder,
    frame_rate: Option<FrameRate>,
    lines: u32,
    fast: bool,
)
    requires
        !plain_h264(video),
        match (video.width, video.height) {
            (Some(width), Some(height)) => lines <= width && lines <= height && (lines == width
                || lines == height),
            (None, None) => lines == 1080,
            (width, height) => width == Some(lines) || height == Some(lines),
        },
        match frame_rate {
            Some(rate) => fast == rate.high(),
            None => !fast,
        },
    ensures
        ({
            let arguments = conversion(
                DownloadMode::Video,
                Some(video),
                audio,
                encoder,
                frame_rate,
            );
            let rates = encoder::recommended(lines, fast);
            &&& command::set_to_text(
                arguments,
                "-maxrate"@,
                number::decimal(rates.maximum_kbps as nat) + "k"@,
            )
            &&& command::set_to_text(
                arguments,
                "-bufsize"@,
                number::decimal((2 * rates.maximum_kbps) as nat) + "k"@,
            )
            &&& if encoder == H264Encoder::CpuX264 {
                !command::asks(arguments, "-b:v"@)
            } else {
                command::set_to_text(
                    arguments,
                    "-b:v"@,
                    number::decimal(rates.target_kbps as nat) + "k"@,
                )
            }
        }),
{
    words::lemma_words();
    let rates: VideoBitrateProfile = probe::stream_profile(video, frame_rate);
    assert(rates == encoder::recommended(lines, fast));
    encoding::bit_rates_are_limited(encoder, rates);
    lemma_conversion(DownloadMode::Video, Some(video), audio, encoder, frame_rate);
    lemma_copied_picture();
    lemma_copied_sound();
    lemma_encoded_sound();
    lemma_picture(video, encoder, frame_rate);
}

/// From the one file that is read, the first picture is taken where a picture is wanted, and the
/// first sound, which may be missing there; where sound alone is wanted, the first sound and no
/// picture. What is known of the media is kept, the file begins with its index, and H.264 is marked
/// as players know it.
pub proof fn streams_are_taken_from_the_file(
    mode: DownloadMode,
    video: Option<ProbeStream>,
    audio: Option<ProbeStream>,
    encoder: H264Encoder,
    frame_rate: Option<FrameRate>,
)
    requires
        convertible(mode, video, audio),
    ensures
        ({
            let arguments = conversion(mode, video, audio, encoder, frame_rate);
            &&& command::set_to(arguments, "-i"@, ArgumentView::Input)
            &&& command::set_to_text(arguments, "-map_metadata"@, "0"@)
            &&& command::set_to_text(arguments, "-movflags"@, "+faststart"@)
            &&& match mode {
                DownloadMode::Video => {
                    &&& command::gives(arguments, "-map"@, ArgumentView::Text("0:v:0"@))
                    &&& command::gives(arguments, "-map"@, ArgumentView::Text("0:a:0?"@))
                    &&& command::set_to_text(arguments, "-map_chapters"@, "0"@)
                    &&& command::set_to_text(arguments, "-tag:v"@, "avc1"@)
                    &&& !command::asks(arguments, "-vn"@)
                },
                DownloadMode::AudioOnly => {
                    &&& command::set_to_text(arguments, "-map"@, "0:a:0"@)
                    &&& command::asks(arguments, "-vn"@)
                    &&& !command::asks(arguments, "-c:v"@)
                    &&& !command::asks(arguments, "-tag:v"@)
                },
            }
        }),
{
    words::lemma_words();
    lemma_conversion(mode, video, audio, encoder, frame_rate);
    lemma_copied_sound();
    lemma_encoded_sound();
    if let Some(v) = video {
        lemma_picture(v, encoder, frame_rate);
    }
}

/// FFmpeg writes over the file that is named last, tells its progress where it is read, and is given
/// nothing beyond what is said of the streams.
pub proof fn conversion_is_written_and_told(
    mode: DownloadMode,
    video: Option<ProbeStream>,
    audio: Option<ProbeStream>,
    encoder: H264Encoder,
    frame_rate: Option<FrameRate>,
)
    requires
        convertible(mode, video, audio),
    ensures
        ({
            let arguments = conversion(mode, video, audio, encoder, frame_rate);
            let sound: int = match audio {
                Some(a) => if coded_as(a, "aac"@) {
                    2
                } else {
                    4
                },
                None => 0,
            };
            let picture: int = match (mode, video) {
                (DownloadMode::Video, Some(v)) => if plain_h264(v) {
                    2
                } else {
                    encoder::encoder_arguments(
                        encoder,
                        probe::stream_profile(v, frame_rate),
                    ).len() as int
                },
                _ => 0,
            };
            &&& arguments[arguments.len() - 1] == ArgumentView::Output
            &&& forall|i: int|
                0 <= i < arguments.len() - 1 ==> #[trigger] arguments[i] != ArgumentView::Output
            &&& command::asks(arguments, "-hide_banner"@)
            &&& command::asks(arguments, "-y"@)
            &&& command::asks(arguments, "-nostats"@)
            &&& command::set_to_text(arguments, "-progress"@, "pipe:1"@)
            &&& arguments.len() == sound + picture + match mode {
                DownloadMode::Video => 20int,
                DownloadMode::AudioOnly => 15,
            }
        }),
{
    words::lemma_words();
    lemma_conversion(mode, video, audio, encoder, frame_rate);
    lemma_copied_picture();
    lemma_copied_sound();
    lemma_encoded_sound();
}

spec fn head() -> Seq<ArgumentView> {
    command::texts(seq!["-hide_banner"@, "-y"@, "-i"@]).push(ArgumentView::Input)
}

proof fn lemma_head()
    ensures
        head().len() == 4,
        forall|word: Seq<char>| #[trigger]
            command::asks(head(), word) <==> (word == "-hide_banner"@ || word == "-y"@ || word == "-i"@),
        command::set_to(head(), "-i"@, ArgumentView::Input),
        forall|i: int| 0 <= i < 4 ==> #[trigger] head()[i] != ArgumentView::Output,
{
    reveal(command::asks);
    reveal(command::gives);
    reveal(command::set_to);
    words::lemma_words();
    let part = head();
    assert(part.len() == 4);
    assert(part[0] == ArgumentView::Text("-hide_banner"@));
    assert(part[1] == ArgumentView::Text("-y"@));
    assert(part[2] == ArgumentView::Text("-i"@));
    assert(part[3] == ArgumentView::Input);
}

spec fn tail() -> Seq<ArgumentView> {
    command::texts(seq!["-progress"@, "pipe:1"@, "-nostats"@]).push(ArgumentView::Output)
}

proof fn lemma_tail()
    ensures
        tail().len() == 4,
        forall|word: Seq<char>| #[trigger]
            command::asks(tail(), word) <==> (word == "-progress"@ || word == "pipe:1"@ || word == "-nostats"@),
        command::set_to_text(tail(), "-progress"@, "pipe:1"@),
        tail()[3] == ArgumentView::Output,
        forall|i: int| 0 <= i < 3 ==> #[trigger] tail()[i] != ArgumentView::Output,
{
    reveal(command::asks);
    reveal(command::gives);
    reveal(command::set_to);
    words::lemma_words();
    let part = tail();
    assert(part.len() == 4);
    assert(part[0] == ArgumentView::Text("-progress"@));
    assert(part[1] == ArgumentView::Text("pipe:1"@));
    assert(part[2] == ArgumentView::Text("-nostats"@));
    assert(part[3] == ArgumentView::Output);
}

spec fn video_map() -> Seq<ArgumentView> {
    command::texts(seq!["-map"@, "0:v:0"@, "-map"@, "0:a:0?"@])
}

proof fn lemma_video_map()
    ensures
        video_map().len() == 4,
        forall|word: Seq<char>| #[trigger]
            command::asks(video_map(), word) <==> (word == "-map"@ || word == "0:v:0"@ || word == "0:a:0?"@),
        command::gives(video_map(), "-map"@, ArgumentView::Text("0:v:0"@)),
        command::gives(video_map(), "-map"@, ArgumentView::Text("0:a:0?"@)),
        forall|i: int| 0 <= i < 4 ==> #[trigger] video_map()[i] != ArgumentView::Output,
{
    reveal(command::asks);
    reveal(command::gives);
    reveal(command::set_to);
    words::lemma_words();
    let part = video_map();
    assert(part.len() == 4);
    assert(part[0] == ArgumentView::Text("-map"@));
    assert(part[1] == ArgumentView::Text("0:v:0"@));
    assert(part[2] == ArgumentView::Text("-map"@));
    assert(part[3] == ArgumentView::Text("0:a:0?"@));
}

spec fn tag() -> Seq<ArgumentView> {
    command::texts(seq!["-tag:v"@, "avc1"@])
}

proof fn lemma_tag()
    ensures
        tag().len() == 2,
        forall|word: Seq<char>| #[trigger]
            command::asks(tag(), word) <==> (word == "-tag:v"@ || word == "avc1"@),
        command::set_to_text(tag(), "-tag:v"@, "avc1"@),
        forall|i: int| 0 <= i < 2 ==> #[trigger] tag()[i] != ArgumentView::Output,
{
    reveal(command::asks);
    reveal(command::gives);
    reveal(command::set_to);
    words::lemma_words();
    let part = tag();
    assert(part.len() == 2);
    assert(part[0] == ArgumentView::Text("-tag:v"@));
    assert(part[1] == ArgumentView::Text("avc1"@));
}

spec fn video_end() -> Seq<ArgumentView> {
    command::texts(seq!["-map_metadata"@, "0"@, "-map_chapters"@, "0"@, "-movflags"@, "+faststart"@])
}

proof fn lemma_video_end()
    ensures
        video_end().len() == 6,
        forall|word: Seq<char>| #[trigger]
            command::asks(video_end(), word) <==> (word == "-map_metadata"@ || word == "0"@ || word == "-map_chapters"@ || word == "-movflags"@ || word == "+faststart"@),
        command::set_to_text(video_end(), "-map_metadata"@, "0"@),
        command::set_to_text(video_end(), "-map_chapters"@, "0"@),
        command::set_to_text(video_end(), "-movflags"@, "+faststart"@),
        forall|i: int| 0 <= i < 6 ==> #[trigger] video_end()[i] != ArgumentView::Output,
{
    reveal(command::asks);
    reveal(command::gives);
    reveal(command::set_to);
    words::lemma_words();
    let part = video_end();
    assert(part.len() == 6);
    assert(part[0] == ArgumentView::Text("-map_metadata"@));
    assert(part[1] == ArgumentView::Text("0"@));
    assert(part[2] == ArgumentView::Text("-map_chapters"@));
    assert(part[3] == ArgumentView::Text("0"@));
    assert(part[4] == ArgumentView::Text("-movflags"@));
    assert(part[5] == ArgumentView::Text("+faststart"@));
}

spec fn audio_map() -> Seq<ArgumentView> {
    command::texts(seq!["-map"@, "0:a:0"@, "-vn"@])
}

proof fn lemma_audio_map()
    ensures
        audio_map().len() == 3,
        forall|word: Seq<char>| #[trigger]
            command::asks(audio_map(), word) <==> (word == "-map"@ || word == "0:a:0"@ || word == "-vn"@),
        command::set_to_text(audio_map(), "-map"@, "0:a:0"@),
        forall|i: int| 0 <= i < 3 ==> #[trigger] audio_map()[i] != ArgumentView::Output,
{
    reveal(command::asks);
    reveal(command::gives);
    reveal(command::set_to);
    words::lemma_words();
    let part = audio_map();
    assert(part.len() == 3);
    assert(part[0] == ArgumentView::Text("-map"@));
    assert(part[1] == ArgumentView::Text("0:a:0"@));
    assert(part[2] == ArgumentView::Text("-vn"@));
}

spec fn audio_end() -> Seq<ArgumentView> {
    command::texts(seq!["-map_metadata"@, "0"@, "-movflags"@, "+faststart"@])
}

proof fn lemma_audio_end()
    ensures
        audio_end().len() == 4,
        forall|word: Seq<char>| #[trigger]
            command::asks(audio_end(), word) <==> (word == "-map_metadata"@ || word == "0"@ || word == "-movflags"@ || word == "+faststart"@),
        command::set_to_text(audio_end(), "-map_metadata"@, "0"@),
        command::set_to_text(audio_end(), "-movflags"@, "+faststart"@),
        forall|i: int| 0 <= i < 4 ==> #[trigger] audio_end()[i] != ArgumentView::Output,
{
    reveal(command::asks);
    reveal(command::gives);
    reveal(command::set_to);
    words::lemma_words();
    let part = audio_end();
    assert(part.len() == 4);
    assert(part[0] == ArgumentView::Text("-map_metadata"@));
    assert(part[1] == ArgumentView::Text("0"@));
    assert(part[2] == ArgumentView::Text("-movflags"@));
    assert(part[3] == ArgumentView::Text("+faststart"@));
}

spec fn copied_picture() -> Seq<ArgumentView> {
    command::texts(seq!["-c:v"@, "copy"@])
}

proof fn lemma_copied_picture()
    ensures
        copied_picture().len() == 2,
        forall|word: Seq<char>| #[trigger]
            command::asks(copied_picture(), word) <==> (word == "-c:v"@ || word == "copy"@),
        command::set_to_text(copied_picture(), "-c:v"@, "copy"@),
        forall|i: int| 0 <= i < 2 ==> #[trigger] copied_picture()[i] != ArgumentView::Output,
{
    reveal(command::asks);
    reveal(command::gives);
    reveal(command::set_to);
    words::lemma_words();
    let part = copied_picture();
    assert(part.len() == 2);
    assert(part[0] == ArgumentView::Text("-c:v"@));
    assert(part[1] == ArgumentView::Text("copy"@));
}

spec fn copied_sound() -> Seq<ArgumentView> {
    command::texts(seq!["-c:a"@, "copy"@])
}

proof fn lemma_copied_sound()
    ensures
        copied_sound().len() == 2,
        forall|word: Seq<char>| #[trigger]
            command::asks(copied_sound(), word) <==> (word == "-c:a"@ || word == "copy"@),
        command::set_to_text(copied_sound(), "-c:a"@, "copy"@),
        forall|i: int| 0 <= i < 2 ==> #[trigger] copied_sound()[i] != ArgumentView::Output,
{
    reveal(command::asks);
    reveal(command::gives);
    reveal(command::set_to);
    words::lemma_words();
    let part = copied_sound();
    assert(part.len() == 2);
    assert(part[0] == ArgumentView::Text("-c:a"@));
    assert(part[1] == ArgumentView::Text("copy"@));
}

spec fn encoded_sound() -> Seq<ArgumentView> {
    command::texts(seq!["-c:a"@, "aac"@, "-b:a"@, "256k"@])
}

proof fn lemma_encoded_sound()
    ensures
        encoded_sound().len() == 4,
        forall|word: Seq<char>| #[trigger]
            command::asks(encoded_sound(), word) <==> (word == "-c:a"@ || word == "aac"@ || word == "-b:a"@ || word == "256k"@),
        command::set_to_text(encoded_sound(), "-c:a"@, "aac"@),
        command::set_to_text(encoded_sound(), "-b:a"@, "256k"@),
        forall|i: int| 0 <= i < 4 ==> #[trigger] encoded_sound()[i] != ArgumentView::Output,
{
    reveal(command::asks);
    reveal(command::gives);
    reveal(command::set_to);
    words::lemma_words();
    let part = encoded_sound();
    assert(part.len() == 4);
    assert(part[0] == ArgumentView::Text("-c:a"@));
    assert(part[1] == ArgumentView::Text("aac"@));
    assert(part[2] == ArgumentView::Text("-b:a"@));
    assert(part[3] == ArgumentView::Text("256k"@));
}

/// The arguments for the picture hold no other option than those for the picture.
proof fn lemma_picture(video: ProbeStream, encoder: H264Encoder, frame_rate: Option<FrameRate>)
    ensures
        ({
            let picture = finalize::picture_arguments(video, encoder, frame_rate);
            &&& plain_h264(video) ==> picture == copied_picture()
            &&& !plain_h264(video) ==> picture == encoder::encoder_arguments(
                encoder,
                probe::stream_profile(video, frame_rate),
            )
            &&& !command::asks(picture, "-hide_banner"@)
            &&& !command::asks(picture, "-y"@)
            &&& !command::asks(picture, "-i"@)
            &&& !command::asks(picture, "-map"@)
            &&& !command::asks(picture, "-vn"@)
            &&& !command::asks(picture, "-tag:v"@)
            &&& !command::asks(picture, "-c:a"@)
            &&& !command::asks(picture, "-b:a"@)
            &&& !command::asks(picture, "-map_metadata"@)
            &&& !command::asks(picture, "-map_chapters"@)
            &&& !command::asks(picture, "-movflags"@)
            &&& !command::asks(picture, "-progress"@)
            &&& !command::asks(picture, "-nostats"@)
            &&& forall|i: int|
                0 <= i < picture.len() ==> #[trigger] picture[i] != ArgumentView::Output
        }),
{
    words::lemma_words();
    lemma_copied_picture();
    encoding::encoders_leave_the_rest_alone(encoder, probe::stream_profile(video, frame_rate));
}

/// The arguments for the sound are those that copy it or those that encode it.
proof fn lemma_sound(audio: ProbeStream)
    ensures
        coded_as(audio, "aac"@) ==> finalize::sound_arguments(audio) == copied_sound(),
        !coded_as(audio, "aac"@) ==> finalize::sound_arguments(audio) == encoded_sound(),
{
}

spec fn picture_part(
    mode: DownloadMode,
    video: Option<ProbeStream>,
    encoder: H264Encoder,
    frame_rate: Option<FrameRate>,
) -> Seq<ArgumentView> {
    match (mode, video) {
        (DownloadMode::Video, Some(v)) => finalize::picture_arguments(v, encoder, frame_rate),
        _ => Seq::empty(),
    }
}

spec fn sound_part(audio: Option<ProbeStream>) -> Seq<ArgumentView> {
    match audio {
        Some(a) => finalize::sound_arguments(a),
        None => Seq::empty(),
    }
}

proof fn lemma_conversion(
    mode: DownloadMode,
    video: Option<ProbeStream>,
    audio: Option<ProbeStream>,
    encoder: H264Encoder,
    frame_rate: Option<FrameRate>,
)
    requires
        convertible(mode, video, audio),
    ensures
        finalize::finalization_arguments(mode, video, audio, encoder, frame_rate) is Some,
        composed(mode, video, audio, encoder, frame_rate),
{
    words::lemma_words();
    lemma_head();
    lemma_tail();
    lemma_copied_sound();
    lemma_encoded_sound();
    if let Some(a) = audio {
        lemma_sound(a);
    }
    let sound = sound_part(audio);
    let whole = conversion(mode, video, audio, encoder, frame_rate);
    assert forall|word: Seq<char>| audio is None implies !#[trigger] command::asks(sound, word) by {
        command::lemma_nothing_asked(word);
    }
    assert forall|word: Seq<char>|
        !#[trigger] command::asks(Seq::<ArgumentView>::empty(), word) by {
        command::lemma_nothing_asked(word);
    }
    match mode {
        DownloadMode::Video => {
            lemma_video_map();
            lemma_tag();
            lemma_video_end();
            let v = video->0;
            lemma_picture(v, encoder, frame_rate);
            let picture = finalize::picture_arguments(v, encoder, frame_rate);
            let a = video_map() + picture;
            let b = a + tag();
            let c = b + sound;
            let d = c + video_end();
            let e = head() + d;
            assert(whole == e + tail());
            command::lemma_parts(video_map(), picture);
            command::lemma_parts(a, tag());
            command::lemma_parts(b, sound);
            command::lemma_parts(c, video_end());
            command::lemma_parts(head(), d);
            command::lemma_parts(e, tail());
            assert forall|word: Seq<char>, value: ArgumentView|
                command::set_to(picture, word, value) && !command::asks(sound, word) && !fixed(
                    mode,
                    word,
                ) implies #[trigger] command::set_to(whole, word, value) by {
                assert(command::set_to(a, word, value));
                assert(command::set_to(b, word, value));
                assert(command::set_to(c, word, value));
                assert(command::set_to(d, word, value));
                assert(command::set_to(e, word, value));
            }
        },
        DownloadMode::AudioOnly => {
            lemma_audio_map();
            lemma_audio_end();
            let a = audio_map() + sound;
            let b = a + audio_end();
            let c = head() + b;
            assert(whole == c + tail());
            command::lemma_parts(audio_map(), sound);
            command::lemma_parts(a, audio_end());
            command::lemma_parts(head(), b);
            command::lemma_parts(c, tail());
            assert forall|word: Seq<char>, value: ArgumentView|
                !command::set_to(Seq::<ArgumentView>::empty(), word, value) by {
                reveal(command::set_to);
                reveal(command::gives);
            }
        },
    }
}

/// What holds of the arguments, from what holds of their parts.
spec fn composed(
    mode: DownloadMode,
    video: Option<ProbeStream>,
    audio: Option<ProbeStream>,
    encoder: H264Encoder,
    frame_rate: Option<FrameRate>,
) -> bool {
    let whole = conversion(mode, video, audio, encoder, frame_rate);
    let sound = sound_part(audio);
    let picture = picture_part(mode, video, encoder, frame_rate);
    &&& forall|word: Seq<char>, value: ArgumentView|
        command::set_to(picture, word, value) && !command::asks(sound, word) && !fixed(mode, word)
            ==> #[trigger] command::set_to(whole, word, value)
    &&& forall|word: Seq<char>, value: ArgumentView|
        command::set_to(sound, word, value) && !command::asks(picture, word) && !fixed(mode, word)
            ==> #[trigger] command::set_to(whole, word, value)
    &&& match audio {
        Some(a) => sound == if coded_as(a, "aac"@) {
            copied_sound()
        } else {
            encoded_sound()
        },
        None => sound.len() == 0 && forall|word: Seq<char>| !#[trigger] command::asks(sound, word),
    }
    &&& forall|word: Seq<char>| #[trigger]
        command::asks(whole, word) == (command::asks(picture, word) || command::asks(sound, word)
            || fixed(mode, word))
    &&& mode == DownloadMode::AudioOnly ==> forall|word: Seq<char>|
        !#[trigger] command::asks(picture, word)
    &&& command::set_to(whole, "-i"@, ArgumentView::Input)
    &&& command::set_to_text(whole, "-map_metadata"@, "0"@)
    &&& command::set_to_text(whole, "-movflags"@, "+faststart"@)
    &&& command::set_to_text(whole, "-progress"@, "pipe:1"@)
    &&& mode == DownloadMode::Video ==> {
        &&& command::gives(whole, "-map"@, ArgumentView::Text("0:v:0"@))
        &&& command::gives(whole, "-map"@, ArgumentView::Text("0:a:0?"@))
        &&& command::set_to_text(whole, "-map_chapters"@, "0"@)
        &&& command::set_to_text(whole, "-tag:v"@, "avc1"@)
    }
    &&& mode == DownloadMode::AudioOnly ==> command::set_to_text(whole, "-map"@, "0:a:0"@)
    &&& whole.len() == picture.len() + sound.len() + if mode == DownloadMode::Video {
        20int
    } else {
        15
    }
    &&& whole[whole.len() - 1] == ArgumentView::Output
    &&& forall|i: int| 0 <= i < whole.len() - 1 ==> #[trigger] whole[i] != ArgumentView::Output
}

/// The words that are the same for all files.
spec fn fixed(mode: DownloadMode, word: Seq<char>) -> bool {
    match mode {
        DownloadMode::Video => {
            ||| word == "-hide_banner"@
            ||| word == "-y"@
            ||| word == "-i"@
            ||| word == "-map"@
            ||| word == "0:v:0"@
            ||| word == "0:a:0?"@
            ||| word == "-tag:v"@
            ||| word == "avc1"@
            ||| word == "-map_metadata"@
            ||| word == "0"@
            ||| word == "-map_chapters"@
            ||| word == "-movflags"@
            ||| word == "+faststart"@
            ||| word == "-progress"@
            ||| word == "pipe:1"@
            ||| word == "-nostats"@
        },
        DownloadMode::AudioOnly => {
            ||| word == "-hide_banner"@
            ||| word == "-y"@
            ||| word == "-i"@
            ||| word == "-map"@
            ||| word == "0:a:0"@
            ||| word == "-vn"@
            ||| word == "-map_metadata"@
            ||| word == "0"@
            ||| word == "-movflags"@
            ||| word == "+faststart"@
            ||| word == "-progress"@
            ||| word == "pipe:1"@
            ||| word == "-nostats"@
        },
    }
}


} // verus!
