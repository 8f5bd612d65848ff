//! When files are kept, remuxed or converted.
use crate::command;
use crate::encoder::H264Encoder;
use crate::error::ErrorView;
use crate::finalize;
use crate::finalize::{Finalization, StepView};
use crate::laws::converting;
use crate::model::{DownloadMode, JobPhase, UpdateView};
use crate::probe;
use crate::probe::ProbeStream;
use crate::text;
use vstd::prelude::*;

verus! {

/// The stream at place `i` is the first one of a kind.
pub open spec fn first_of_kind(streams: Seq<ProbeStream>, kind: Seq<char>, i: int) -> bool {
    &&& 0 <= i < streams.len()
    &&& streams[i].codec_type matches Some(k) && k@ == kind
    &&& forall|j: int|
        0 <= j < i ==> !((#[trigger] streams[j]).codec_type matches Some(k) && k@ == kind)
}

/// A stream that is looked for is the first one of its kind, and is missed only where there is none.
pub proof fn first_stream_is_taken(streams: Seq<ProbeStream>, kind: Seq<char>)
    ensures
        match probe::first_stream(streams, kind) {
            Some(stream) => exists|i: int| #[trigger]
                first_of_kind(streams, kind, i) && streams[i] == stream,
            None => forall|i: int|
                0 <= i < streams.len() ==> !((#[trigger] streams[i]).codec_type matches Some(k)
                    && k@ == kind),
        },
    decreases streams.len(),
{
    if streams.len() > 0 {
        let first = streams.first();
        if first.codec_type matches Some(k) && k@ == kind {
            assert(first_of_kind(streams, kind, 0));
        } else {
            let rest = streams.drop_first();
            first_stream_is_taken(rest, kind);
            assert(forall|j: int| 0 < j < streams.len() ==> streams[j] == rest[j - 1]);
            if let Some(stream) = probe::first_stream(rest, kind) {
                let i = choose|i: int| #[trigger]
                    first_of_kind(rest, kind, i) && rest[i] == stream;
                assert(first_of_kind(streams, kind, i + 1));
            }
        }
    }
}

/// The extension reads `one` or `other`, the case of its letters apart.
pub open spec fn extension_reads(
    extension: Option<Seq<char>>,
    one: Seq<char>,
    other: Seq<char>,
) -> bool {
    extension matches Some(e) && (text::ascii_lower(e) == one || text::ascii_lower(e) == other)
}

/// The file has all that the mode asks for in a form that every player reads, its container apart.
pub open spec fn streams_fit(
    mode: DownloadMode,
    video: Option<&ProbeStream>,
    audio: Option<&ProbeStream>,
) -> bool {
    match mode {
        DownloadMode::Video => {
            &&& video matches Some(v) && converting::plain_h264(*v)
            &&& audio matches Some(a) ==> converting::coded_as(*a, "aac"@)
        },
        DownloadMode::AudioOnly => audio matches Some(a) && converting::coded_as(*a, "aac"@),
    }
}

/// A file is published without FFmpeg exactly where its streams fit and its extension is that of a
/// container that fits: `mp4` or `m4v` for a picture, `m4a` or `mp4` for sound alone.
pub proof fn only_fitting_files_are_kept(
    plan: Finalization,
    mode: DownloadMode,
    streams: Seq<ProbeStream>,
    extension: Option<Seq<char>>,
)
    requires
        finalize::planned(plan, mode, streams, extension),
    ensures
        finalize::first_step(plan) is Publish <==> {
            &&& streams_fit(mode, plan.video, plan.audio)
            &&& match mode {
                DownloadMode::Video => extension_reads(extension, "mp4"@, "m4v"@),
                DownloadMode::AudioOnly => extension_reads(extension, "m4a"@, "mp4"@),
            }
        },
        finalize::first_step(plan) matches StepView::Publish { update, converted } ==> {
            &&& !converted
            &&& update.phase == JobPhase::Finalizing
            &&& update.message == "Finalizing compatible output without conversion…"@
            &&& numberless(update)
        },
{
    reveal_strlit("mp4");
    reveal_strlit("m4v");
    reveal_strlit("m4a");
    assert(text::ascii_lower("mp4"@) =~= "mp4"@);
    assert(text::ascii_lower("m4v"@) =~= "m4v"@);
    assert(text::ascii_lower("m4a"@) =~= "m4a"@);
}

/// The update tells no numbers.
pub open spec fn numberless(update: UpdateView) -> bool {
    &&& update.fraction is None
    &&& update.downloaded_bytes is None
    &&& update.total_bytes is None
    &&& update.speed_bytes_per_second is None
}

/// A file whose streams fit, in any other container, is remuxed: FFmpeg copies what is there, and
/// the user is told of no conversion.
pub proof fn other_containers_are_remuxed(
    plan: Finalization,
    mode: DownloadMode,
    streams: Seq<ProbeStream>,
    extension: Option<Seq<char>>,
)
    requires
        finalize::planned(plan, mode, streams, extension),
        streams_fit(mode, plan.video, plan.audio),
        match mode {
            DownloadMode::Video => !extension_reads(extension, "mp4"@, "m4v"@),
            DownloadMode::AudioOnly => !extension_reads(extension, "m4a"@, "mp4"@),
        },
    ensures
        match finalize::first_step(plan) {
            StepView::Attempt { notice, phase, message, arguments, .. } => {
                &&& notice is None
                &&& phase == JobPhase::Remuxing
                &&& message == match mode {
                    DownloadMode::Video => "Remuxing without conversion…"@,
                    DownloadMode::AudioOnly => "Remuxing audio without conversion…"@,
                }
                &&& plan.audio is Some ==> command::set_to_text(arguments, "-c:a"@, "copy"@)
                &&& mode == DownloadMode::Video ==> command::set_to_text(
                    arguments,
                    "-c:v"@,
                    "copy"@,
                )
            },
            _ => false,
        },
{
    only_fitting_files_are_kept(plan, mode, streams, extension);
    converting::sound_is_copied_or_converted(
        mode,
        finalize::stream(plan.video),
        finalize::stream(plan.audio),
        H264Encoder::CpuX264,
        plan.frame_rate,
    );
    if mode == DownloadMode::Video {
        converting::picture_is_copied_or_encoded(
            *plan.video->0,
            finalize::stream(plan.audio),
            H264Encoder::CpuX264,
            plan.frame_rate,
        );
    }
}

/// What is found to need conversion: a picture where one is wanted and none is there that every
/// player reads, and sound that is not AAC. The streams are the first of their kinds.
pub proof fn conversion_is_planned_by_the_streams(
    plan: Finalization,
    mode: DownloadMode,
    streams: Seq<ProbeStream>,
    extension: Option<Seq<char>>,
)
    requires
        finalize::planned(plan, mode, streams, extension),
    ensures
        plan.mode == mode,
        plan.frame_rate is None,
        plan.video_needs_conversion <==> mode == DownloadMode::Video && !(plan.video matches Some(
            v,
        ) && converting::plain_h264(*v)),
        plan.audio_needs_conversion <==> (plan.audio matches Some(a) && !converting::coded_as(
            *a,
            "aac"@,
        )),
        match plan.video {
            Some(v) => exists|i: int| #[trigger]
                first_of_kind(streams, "video"@, i) && streams[i] == *v,
            None => forall|i: int| !#[trigger] first_of_kind(streams, "video"@, i),
        },
        match plan.audio {
            Some(a) => exists|i: int| #[trigger]
                first_of_kind(streams, "audio"@, i) && streams[i] == *a,
            None => forall|i: int| !#[trigger] first_of_kind(streams, "audio"@, i),
        },
{
    first_stream_is_taken(streams, "video"@);
    first_stream_is_taken(streams, "audio"@);
}

/// Encoders on graphics processors are looked for exactly where a picture has to be converted, and
/// the user is told so.
pub proof fn pictures_to_convert_begin_with_a_search(
    plan: Finalization,
    mode: DownloadMode,
    streams: Seq<ProbeStream>,
    extension: Option<Seq<char>>,
)
    requires
        finalize::planned(plan, mode, streams, extension),
    ensures
        finalize::first_step(plan) is DetectGpu <==> mode == DownloadMode::Video && !(
        plan.video matches Some(v) && converting::plain_h264(*v)),
        finalize::first_step(plan) matches StepView::DetectGpu { update } ==> {
            &&& update.phase == JobPhase::Inspecting
            &&& update.message == "Checking for a supported GPU encoder…"@
            &&& numberless(update)
        },
        finalize::first_step(plan) is Fail <==> mode == DownloadMode::AudioOnly && plan.audio is None,
{
}

/// Where FFmpeg is run, the user is told in the phase of converting where something is converted,
/// and in that of remuxing where nothing is; of the encoder where a picture is converted; and of
/// the sound where that is. It is run with the arguments that the streams ask for. A second run is
/// told of first.
pub proof fn work_is_told(plan: Finalization, encoder: H264Encoder, again: bool)
    requires
        plan.well_formed(),
    ensures
        match finalize::attempt_step(plan, encoder, again) {
            StepView::Attempt { notice, encoder: used, phase, message, arguments } => {
                &&& used == encoder
                &&& converting::convertible(
                    plan.mode,
                    finalize::stream(plan.video),
                    finalize::stream(plan.audio),
                )
                &&& arguments == converting::conversion(
                    plan.mode,
                    finalize::stream(plan.video),
                    finalize::stream(plan.audio),
                    encoder,
                    plan.frame_rate,
                )
                &&& phase == if plan.video_needs_conversion || plan.audio_needs_conversion {
                    JobPhase::Converting
                } else {
                    JobPhase::Remuxing
                }
                &&& message == if plan.mode == DownloadMode::AudioOnly {
                    if plan.audio_needs_conversion {
                        "Converting audio to AAC…"@
                    } else {
                        "Remuxing audio without conversion…"@
                    }
                } else if plan.video_needs_conversion {
                    if plan.audio_needs_conversion {
                        "Converting video with the "@ + encoder.name() + " and converting audio…"@
                    } else {
                        "Converting video to H.264 with the "@ + encoder.name() + "…"@
                    }
                } else if plan.audio_needs_conversion {
                    "Copying video and converting audio…"@
                } else {
                    "Remuxing without conversion…"@
                }
                &&& again <==> notice is Some
                &&& notice matches Some(update) ==> {
                    &&& update.phase == JobPhase::Converting
                    &&& update.message == "GPU encoding failed; retrying with the CPU…"@
                    &&& numberless(update)
                }
            },
            StepView::Fail { error, discard } => {
                &&& error == ErrorView::MissingStream
                &&& !discard
                &&& !converting::convertible(
                    plan.mode,
                    finalize::stream(plan.video),
                    finalize::stream(plan.audio),
                )
            },
            _ => false,
        },
{
}

/// After the search FFmpeg is run with the encoder that works, or with the processor.
pub proof fn search_decides_on_the_encoder(
    plan: Finalization,
    gpu: Option<H264Encoder>,
    encoder: H264Encoder,
)
    requires
        gpu == Some(encoder) || gpu is None && encoder == H264Encoder::CpuX264,
    ensures
        finalize::detected_step(plan, gpu) == finalize::attempt_step(plan, encoder, false),
{
}

/// After a run that ended well the file is published. After one that did not, the processor is
/// tried where a graphics processor has failed; where the processor has, what it complained of is
/// told and what was written is deleted.
pub proof fn runs_end_in_a_file_or_a_complaint(
    plan: Finalization,
    encoder: H264Encoder,
    details: Seq<char>,
)
    ensures
        finalize::attempted_step(plan, encoder, None) matches StepView::Publish {
            update,
            converted,
        } && converted && update.phase == JobPhase::Finalizing && update.message
            == "Finalizing output…"@ && numberless(update),
        finalize::attempted_step(plan, encoder, Some(details)) == if encoder
            == H264Encoder::CpuX264 {
            StepView::Fail { error: ErrorView::Ffmpeg(details), discard: true }
        } else {
            finalize::attempt_step(plan, H264Encoder::CpuX264, true)
        },
{
}

/// A file that is not complete has another name than the complete one, and the same extension.
pub proof fn partial_names_differ(stem: Seq<char>, extension: Seq<char>)
    ensures
        finalize::partial_name(Some(stem), Some(extension)) != stem + "."@ + extension,
        text::starts_with(finalize::partial_name(Some(stem), Some(extension)), stem),
        text::ends_with(finalize::partial_name(Some(stem), Some(extension)), "."@ + extension),
        finalize::partial_name(Some(stem), Some(extension)) == stem + ".partial."@ + extension,
        finalize::partial_name(None, Some(extension)) == finalize::partial_name(
            Some("download"@),
            Some(extension),
        ),
        finalize::partial_name(Some(stem), None) == finalize::partial_name(
            Some(stem),
            Some("tmp"@),
        ),
        finalize::partial_name(None, None) == finalize::partial_name(
            Some("download"@),
            Some("tmp"@),
        ),
{
    reveal_strlit(".partial.");
    reveal_strlit(".");
    let name = finalize::partial_name(Some(stem), Some(extension));
    assert(name.len() == stem.len() + 9 + extension.len());
    assert((stem + "."@ + extension).len() == stem.len() + 1 + extension.len());
    assert(name.subrange(0, stem.len() as int) =~= stem);
    let k = name.len() - (1 + extension.len());
    assert(name.subrange(k, k + 1 + extension.len()) =~= "."@ + extension);
}

} // verus!
