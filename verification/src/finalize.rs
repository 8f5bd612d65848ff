//! Bringing a downloaded file into its final form.
use crate::codec;
use crate::codec::is_mp4_container;
use crate::command;
use crate::command::{push_argument, push_texts, Argument, ArgumentView};
use crate::encoder;
use crate::encoder::{configure_h264_encoder, youtube_sdr_bitrate_profile, FrameRate, H264Encoder};
use crate::error::{ErrorView, MediaError};
use crate::model;
use crate::model::{DownloadMode, JobPhase, ProgressUpdate, UpdateView};
use crate::probe;
use crate::probe::{find_stream, is_aac_stream, is_compatible_h264, video_bitrate_profile};
use crate::probe::{ProbeResult, ProbeStream};
use crate::text;
use vstd::prelude::*;

verus! {

// ---------------------------------------------------------------------------------------------
// What has to be done
// ---------------------------------------------------------------------------------------------

/// The file will do as it is: its streams are compatible, and so is its container.
pub open spec fn directly_compatible(
    mode: DownloadMode,
    video: Option<ProbeStream>,
    audio: Option<ProbeStream>,
    extension: Option<Seq<char>>,
) -> bool {
    match mode {
        DownloadMode::Video => {
            &&& video matches Some(v) && probe::compatible_h264(v)
            &&& audio matches Some(a) ==> probe::coded_as_aac(a)
            &&& extension matches Some(e) && codec::mp4_container(e)
        },
        DownloadMode::AudioOnly => {
            &&& audio matches Some(a) && probe::coded_as_aac(a)
            &&& extension matches Some(e) && (text::ascii_lower(e) == text::ascii_lower("m4a"@)
                || text::ascii_lower(e) == text::ascii_lower("mp4"@))
        },
    }
}

/// A picture is wanted, and the one that is there is not compatible, or there is none.
pub open spec fn picture_converted(mode: DownloadMode, video: Option<ProbeStream>) -> bool {
    mode == DownloadMode::Video && !(video matches Some(v) && probe::compatible_h264(v))
}

/// There is sound that is not compatible.
pub open spec fn sound_converted(audio: Option<ProbeStream>) -> bool {
    audio matches Some(a) && !probe::coded_as_aac(a)
}

/// What a file is, as far as it matters to its final form.
#[derive(Debug)]
pub struct Finalization<'a> {
    pub mode: DownloadMode,
    pub video: Option<&'a ProbeStream>,
    pub audio: Option<&'a ProbeStream>,
    /// The frame rate of the picture, where it is known.
    pub frame_rate: Option<FrameRate>,
    /// The file will do as it is.
    pub direct: bool,
    pub video_needs_conversion: bool,
    pub audio_needs_conversion: bool,
}

/// A stream, if there is one.
pub open spec fn stream(s: Option<&ProbeStream>) -> Option<ProbeStream> {
    match s {
        Some(s) => Some(*s),
        None => None,
    }
}

impl<'a> Finalization<'a> {
    /// What has to be done follows from the streams.
    pub open spec fn well_formed(self) -> bool {
        &&& self.video_needs_conversion == picture_converted(self.mode, stream(self.video))
        &&& self.audio_needs_conversion == sound_converted(stream(self.audio))
        &&& self.direct ==> !self.video_needs_conversion && !self.audio_needs_conversion
    }
}

/// The plan is the one for a file with the given streams and the given extension of its name.
pub open spec fn planned(
    plan: Finalization,
    mode: DownloadMode,
    streams: Seq<ProbeStream>,
    extension: Option<Seq<char>>,
) -> bool {
    &&& plan.well_formed()
    &&& plan.mode == mode
    &&& stream(plan.video) == probe::first_stream(streams, "video"@)
    &&& stream(plan.audio) == probe::first_stream(streams, "audio"@)
    &&& plan.frame_rate is None
    &&& plan.direct == directly_compatible(
        mode,
        probe::first_stream(streams, "video"@),
        probe::first_stream(streams, "audio"@),
        extension,
    )
}

/// Finds out what has to be done with a file.
pub fn plan_finalization<'a>(
    mode: DownloadMode,
    probe: &'a ProbeResult,
    input_extension: Option<&str>,
) -> (plan: Finalization<'a>)
    ensures
        planned(plan, mode, probe.streams@, codec::opt_str_view(input_extension)),
{
    let video: Option<&'a ProbeStream> = find_stream(&probe.streams, "video");
    let audio: Option<&'a ProbeStream> = find_stream(&probe.streams, "audio");
    let video_fits: bool = match video {
        Some(v) => is_compatible_h264(v),
        None => false,
    };
    let (has_sound, audio_fits): (bool, bool) = match audio {
        Some(a) => (true, is_aac_stream(a)),
        None => (false, false),
    };
    let direct: bool = match input_extension {
        Some(e) => match mode {
            DownloadMode::Video => video_fits && (!has_sound || audio_fits) && is_mp4_container(e),
            DownloadMode::AudioOnly => audio_fits && (text::same_but_case(e, "m4a")
                || text::same_but_case(e, "mp4")),
        },
        None => false,
    };
    Finalization {
        mode,
        video,
        audio,
        frame_rate: None,
        direct,
        video_needs_conversion: mode == DownloadMode::Video && !video_fits,
        audio_needs_conversion: has_sound && !audio_fits,
    }
}

/// The name under which a file is written until it is complete.
pub open spec fn partial_name(stem: Option<Seq<char>>, extension: Option<Seq<char>>) -> Seq<char> {
    (match stem {
        Some(s) => s,
        None => "download"@,
    }) + ".partial."@ + (match extension {
        Some(e) => e,
        None => "tmp"@,
    })
}

/// The name under which a file is written until it is complete, made of the stem and the
/// extension of its final name.
pub fn partial_file_name(stem: Option<&str>, extension: Option<&str>) -> (name: String)
    ensures
        name@ == partial_name(codec::opt_str_view(stem), codec::opt_str_view(extension)),
{
    let stem: &str = match stem {
        Some(s) => s,
        None => "download",
    };
    let extension: &str = match extension {
        Some(e) => e,
        None => "tmp",
    };
    stem.to_owned().concat(".partial.").concat(extension)
}

// ---------------------------------------------------------------------------------------------
// The command
// ---------------------------------------------------------------------------------------------

/// The arguments for a picture: it is kept where it is compatible, and encoded where it is not.
pub open spec fn picture_arguments(
    video: ProbeStream,
    encoder: H264Encoder,
    frame_rate: Option<FrameRate>,
) -> Seq<ArgumentView> {
    if probe::compatible_h264(video) {
        command::texts(seq!["-c:v"@, "copy"@])
    } else {
        encoder::encoder_arguments(encoder, probe::stream_profile(video, frame_rate))
    }
}

/// The arguments for sound: it is kept where it is compatible, and encoded where it is not.
pub open spec fn sound_arguments(audio: ProbeStream) -> Seq<ArgumentView> {
    if probe::coded_as_aac(audio) {
        command::texts(seq!["-c:a"@, "copy"@])
    } else {
        command::texts(seq!["-c:a"@, "aac"@, "-b:a"@, "256k"@])
    }
}

/// The arguments that choose the streams and say what becomes of them; none where the stream that
/// is wanted is missing.
pub open spec fn stream_arguments(
    mode: DownloadMode,
    video: Option<ProbeStream>,
    audio: Option<ProbeStream>,
    encoder: H264Encoder,
    frame_rate: Option<FrameRate>,
) -> Option<Seq<ArgumentView>> {
    match (mode, video, audio) {
        (DownloadMode::Video, Some(v), _) => Some(
            command::texts(seq!["-map"@, "0:v:0"@, "-map"@, "0:a:0?"@]) + picture_arguments(
                v,
                encoder,
                frame_rate,
            ) + command::texts(seq!["-tag:v"@, "avc1"@]) + (match audio {
                Some(a) => sound_arguments(a),
                None => Seq::empty(),
            }) + command::texts(
                seq![
                    "-map_metadata"@,
                    "0"@,
                    "-map_chapters"@,
                    "0"@,
                    "-movflags"@,
                    "+faststart"@,
                ],
            ),
        ),
        (DownloadMode::AudioOnly, _, Some(a)) => Some(
            command::texts(seq!["-map"@, "0:a:0"@, "-vn"@]) + sound_arguments(a) + command::texts(
                seq!["-map_metadata"@, "0"@, "-movflags"@, "+faststart"@],
            ),
        ),
        _ => None,
    }
}

/// The arguments by which FFmpeg brings a file into its final form.
pub open spec fn finalization_arguments(
    mode: DownloadMode,
    video: Option<ProbeStream>,
    audio: Option<ProbeStream>,
    encoder: H264Encoder,
    frame_rate: Option<FrameRate>,
) -> Option<Seq<ArgumentView>> {
    match stream_arguments(mode, video, audio, encoder, frame_rate) {
        Some(streams) => Some(
            command::texts(seq!["-hide_banner"@, "-y"@, "-i"@]).push(ArgumentView::Input) + streams
                + command::texts(seq!["-progress"@, "pipe:1"@, "-nostats"@]).push(
                ArgumentView::Output,
            ),
        ),
        None => None,
    }
}

/// Appends the arguments for sound.
fn push_sound_arguments(arguments: &mut Vec<Argument>, audio: &ProbeStream)
    ensures
        command::argument_views(final(arguments)@) == command::argument_views(old(arguments)@)
            + sound_arguments(*audio),
{
    if is_aac_stream(audio) {
        push_texts(arguments, &["-c:a", "copy"]);
    } else {
        push_texts(arguments, &["-c:a", "aac", "-b:a", "256k"]);
    }
    assert(command::argument_views(arguments@) =~= command::argument_views(old(arguments)@)
        + sound_arguments(*audio));
}

/// Appends the arguments for a picture.
fn push_picture_arguments(
    arguments: &mut Vec<Argument>,
    video: &ProbeStream,
    encoder: H264Encoder,
    frame_rate: Option<FrameRate>,
)
    ensures
        command::argument_views(final(arguments)@) == command::argument_views(old(arguments)@)
            + picture_arguments(*video, encoder, frame_rate),
{
    if is_compatible_h264(video) {
        push_texts(arguments, &["-c:v", "copy"]);
        assert(command::argument_views(arguments@) =~= command::argument_views(old(arguments)@)
            + picture_arguments(*video, encoder, frame_rate));
    } else {
        configure_h264_encoder(arguments, encoder, video_bitrate_profile(video, frame_rate));
    }
}

/// The arguments by which FFmpeg brings a file into its final form.
pub fn build_finalization_command(
    mode: DownloadMode,
    video: Option<&ProbeStream>,
    audio: Option<&ProbeStream>,
    encoder: H264Encoder,
    frame_rate: Option<FrameRate>,
) -> (arguments: Result<Vec<Argument>, MediaError>)
    ensures
        match arguments {
            Ok(a) => finalization_arguments(mode, stream(video), stream(audio), encoder, frame_rate)
                == Some(command::argument_views(a@)),
            Err(e) => finalization_arguments(
                mode,
                stream(video),
                stream(audio),
                encoder,
                frame_rate,
            ) is None && e@ == ErrorView::MissingStream,
        },
{
    let mut arguments: Vec<Argument> = Vec::new();
    push_texts(&mut arguments, &["-hide_banner", "-y", "-i"]);
    push_argument(&mut arguments, Argument::Input);
    let ghost head = command::texts(seq!["-hide_banner"@, "-y"@, "-i"@]).push(ArgumentView::Input);
    assert(command::argument_views(arguments@) =~= head);
    match mode {
        DownloadMode::Video => {
            let video: &ProbeStream = match video {
                Some(v) => v,
                None => {
                    return Err(MediaError::MissingStream);
                },
            };
            push_texts(&mut arguments, &["-map", "0:v:0", "-map", "0:a:0?"]);
            push_picture_arguments(&mut arguments, video, encoder, frame_rate);
            push_texts(&mut arguments, &["-tag:v", "avc1"]);
            if let Some(a) = audio {
                push_sound_arguments(&mut arguments, a);
            }
            push_texts(
                &mut arguments,
                &["-map_metadata", "0", "-map_chapters", "0", "-movflags", "+faststart"],
            );
        },
        DownloadMode::AudioOnly => {
            let audio: &ProbeStream = match audio {
                Some(a) => a,
                None => {
                    return Err(MediaError::MissingStream);
                },
            };
            push_texts(&mut arguments, &["-map", "0:a:0", "-vn"]);
            push_sound_arguments(&mut arguments, audio);
            push_texts(&mut arguments, &["-map_metadata", "0", "-movflags", "+faststart"]);
        },
    }
    assert(command::argument_views(arguments@) =~= head + stream_arguments(
        mode,
        stream(video),
        stream(audio),
        encoder,
        frame_rate,
    )->0);
    push_texts(&mut arguments, &["-progress", "pipe:1", "-nostats"]);
    push_argument(&mut arguments, Argument::Output);
    assert(command::argument_views(arguments@) =~= finalization_arguments(
        mode,
        stream(video),
        stream(audio),
        encoder,
        frame_rate,
    )->0);
    Ok(arguments)
}

/// What the user is told while FFmpeg works.
pub open spec fn work_message(
    mode: DownloadMode,
    video_needs_conversion: bool,
    audio_needs_conversion: bool,
    encoder: H264Encoder,
) -> Seq<char> {
    match (mode, video_needs_conversion, audio_needs_conversion) {
        (DownloadMode::Video, false, false) => "Remuxing without conversion…"@,
        (DownloadMode::Video, false, true) => "Copying video and converting audio…"@,
        (DownloadMode::Video, true, false) => "Converting video to H.264 with the "@
            + encoder.name() + "…"@,
        (DownloadMode::Video, true, true) => "Converting video with the "@ + encoder.name()
            + " and converting audio…"@,
        (DownloadMode::AudioOnly, _, true) => "Converting audio to AAC…"@,
        (DownloadMode::AudioOnly, _, false) => "Remuxing audio without conversion…"@,
    }
}

/// What the user is told while FFmpeg works.
pub fn finalization_message(
    mode: DownloadMode,
    video_needs_conversion: bool,
    audio_needs_conversion: bool,
    encoder: H264Encoder,
) -> (message: String)
    ensures
        message@ == work_message(mode, video_needs_conversion, audio_needs_conversion, encoder),
{
    match mode {
        DownloadMode::Video => match (video_needs_conversion, audio_needs_conversion) {
            (false, false) => "Remuxing without conversion…".to_owned(),
            (false, true) => "Copying video and converting audio…".to_owned(),
            (true, false) => "Converting video to H.264 with the ".to_owned().concat(
                encoder.display_name(),
            ).concat("…"),
            (true, true) => "Converting video with the ".to_owned().concat(
                encoder.display_name(),
            ).concat(" and converting audio…"),
        },
        DownloadMode::AudioOnly => if audio_needs_conversion {
            "Converting audio to AAC…".to_owned()
        } else {
            "Remuxing audio without conversion…".to_owned()
        },
    }
}

// ---------------------------------------------------------------------------------------------
// The steps
// ---------------------------------------------------------------------------------------------

/// What is to be done next with a file.
#[derive(Debug)]
pub enum FinalizeStep {
    /// Tell the user, then move the file to its final name: the downloaded file, or the one that
    /// FFmpeg has written.
    Publish { update: ProgressUpdate, converted: bool },
    /// Tell the user, then find out which encoder on a graphics processor works.
    DetectGpu { update: ProgressUpdate },
    /// Where there is a notice, delete what FFmpeg has written so far and tell the user. Then tell
    /// the phase and the message, and run FFmpeg.
    Attempt {
        notice: Option<ProgressUpdate>,
        encoder: H264Encoder,
        phase: JobPhase,
        message: String,
        arguments: Vec<Argument>,
    },
    /// Give up; where `discard` is set, delete what FFmpeg has written first.
    Fail { error: MediaError, discard: bool },
}

/// What a [`FinalizeStep`] says.
#[verifier::ext_equal]
pub enum StepView {
    Publish { update: UpdateView, converted: bool },
    DetectGpu { update: UpdateView },
    Attempt {
        notice: Option<UpdateView>,
        encoder: H264Encoder,
        phase: JobPhase,
        message: Seq<char>,
        arguments: Seq<ArgumentView>,
    },
    Fail { error: ErrorView, discard: bool },
}

impl View for FinalizeStep {
    type V = StepView;

    open spec fn view(&self) -> StepView {
        match *self {
            FinalizeStep::Publish { update, converted } => StepView::Publish {
                update: update@,
                converted,
            },
            FinalizeStep::DetectGpu { update } => StepView::DetectGpu { update: update@ },
            FinalizeStep::Attempt { notice, encoder, phase, message, arguments } => {
                StepView::Attempt {
                    notice: match notice {
                        Some(update) => Some(update@),
                        None => None,
                    },
                    encoder,
                    phase,
                    message: message@,
                    arguments: command::argument_views(arguments@),
                }
            },
            FinalizeStep::Fail { error, discard } => StepView::Fail { error: error@, discard },
        }
    }
}

/// Running FFmpeg with an encoder, for the first time or after an encoder on a graphics processor
/// has failed.
pub open spec fn attempt_step(plan: Finalization, encoder: H264Encoder, again: bool) -> StepView {
    match finalization_arguments(
        plan.mode,
        stream(plan.video),
        stream(plan.audio),
        encoder,
        plan.frame_rate,
    ) {
        Some(arguments) => StepView::Attempt {
            notice: if again {
                Some(
                    model::told(
                        JobPhase::Converting,
                        "GPU encoding failed; retrying with the CPU…"@,
                    ),
                )
            } else {
                None
            },
            encoder,
            phase: if plan.video_needs_conversion || plan.audio_needs_conversion {
                JobPhase::Converting
            } else {
                JobPhase::Remuxing
            },
            message: work_message(
                plan.mode,
                plan.video_needs_conversion,
                plan.audio_needs_conversion,
                encoder,
            ),
            arguments,
        },
        None => StepView::Fail { error: ErrorView::MissingStream, discard: false },
    }
}

/// The first step.
pub open spec fn first_step(plan: Finalization) -> StepView {
    if plan.direct {
        StepView::Publish {
            update: model::told(
                JobPhase::Finalizing,
                "Finalizing compatible output without conversion…"@,
            ),
            converted: false,
        }
    } else if plan.video_needs_conversion {
        StepView::DetectGpu {
            update: model::told(JobPhase::Inspecting, "Checking for a supported GPU encoder…"@),
        }
    } else {
        attempt_step(plan, H264Encoder::CpuX264, false)
    }
}

/// The step after the encoders on graphics processors were tried: the one that works, or the
/// processor.
pub open spec fn detected_step(plan: Finalization, gpu: Option<H264Encoder>) -> StepView {
    match gpu {
        Some(encoder) => attempt_step(plan, encoder, false),
        None => attempt_step(plan, H264Encoder::CpuX264, false),
    }
}

/// The step after FFmpeg has ended, well or with a complaint.
pub open spec fn attempted_step(
    plan: Finalization,
    encoder: H264Encoder,
    failure: Option<Seq<char>>,
) -> StepView {
    match failure {
        None => StepView::Publish {
            update: model::told(JobPhase::Finalizing, "Finalizing output…"@),
            converted: true,
        },
        Some(details) => if encoder.on_gpu() {
            attempt_step(plan, H264Encoder::CpuX264, true)
        } else {
            StepView::Fail { error: ErrorView::Ffmpeg(details), discard: true }
        },
    }
}

impl<'a> Finalization<'a> {
    /// Runs FFmpeg with an encoder.
    fn attempt(&self, encoder: H264Encoder, again: bool) -> (step: FinalizeStep)
        ensures
            step@ == attempt_step(*self, encoder, again),
    {
        match build_finalization_command(
            self.mode,
            self.video,
            self.audio,
            encoder,
            self.frame_rate,
        ) {
            Ok(arguments) => {
                let notice: Option<ProgressUpdate> = if again {
                    Some(
                        ProgressUpdate::message(
                            JobPhase::Converting,
                            "GPU encoding failed; retrying with the CPU…",
                        ),
                    )
                } else {
                    None
                };
                FinalizeStep::Attempt {
                    notice,
                    encoder,
                    phase: if self.video_needs_conversion || self.audio_needs_conversion {
                        JobPhase::Converting
                    } else {
                        JobPhase::Remuxing
                    },
                    message: finalization_message(
                        self.mode,
                        self.video_needs_conversion,
                        self.audio_needs_conversion,
                        encoder,
                    ),
                    arguments,
                }
            },
            Err(error) => FinalizeStep::Fail { error, discard: false },
        }
    }

    /// The first step.
    pub fn start(&self) -> (step: FinalizeStep)
        ensures
            step@ == first_step(*self),
    {
        if self.direct {
            FinalizeStep::Publish {
                update: ProgressUpdate::message(
                    JobPhase::Finalizing,
                    "Finalizing compatible output without conversion…",
                ),
                converted: false,
            }
        } else if self.video_needs_conversion {
            FinalizeStep::DetectGpu {
                update: ProgressUpdate::message(
                    JobPhase::Inspecting,
                    "Checking for a supported GPU encoder…",
                ),
            }
        } else {
            self.attempt(H264Encoder::CpuX264, false)
        }
    }

    /// The step after the encoders on graphics processors were tried.
    pub fn after_detection(&self, gpu: Option<H264Encoder>) -> (step: FinalizeStep)
        ensures
            step@ == detected_step(*self, gpu),
    {
        match gpu {
            Some(encoder) => self.attempt(encoder, false),
            None => self.attempt(H264Encoder::CpuX264, false),
        }
    }

    /// The step after FFmpeg has ended, well or with a complaint.
    pub fn after_attempt(&self, encoder: H264Encoder, failure: Option<String>) -> (step:
        FinalizeStep)
        ensures
            step@ == attempted_step(*self, encoder, codec::opt_view(failure)),
    {
        match failure {
            None => FinalizeStep::Publish {
                update: ProgressUpdate::message(JobPhase::Finalizing, "Finalizing output…"),
                converted: true,
            },
            Some(details) => if encoder.is_gpu() {
                self.attempt(H264Encoder::CpuX264, true)
            } else {
                FinalizeStep::Fail { error: MediaError::Ffmpeg(details), discard: true }
            },
        }
    }
}

// ---------------------------------------------------------------------------------------------
// Trying the encoders on graphics processors
// ---------------------------------------------------------------------------------------------

/// The arguments by which FFmpeg encodes one black picture, to see whether an encoder works.
pub open spec fn trial_arguments(encoder: H264Encoder) -> Seq<ArgumentView> {
    command::texts(
        seq![
            "-hide_banner"@,
            "-loglevel"@,
            "error"@,
            "-f"@,
            "lavfi"@,
            "-i"@,
            "color=c=black:s=1280x720:r=1"@,
            "-frames:v"@,
            "1"@,
            "-an"@,
        ],
    ) + encoder::encoder_arguments(
        encoder,
        encoder::recommended(720, FrameRate::thirty().high()),
    ) + command::texts(seq!["-f"@, "null"@, "-"@])
}

/// The arguments by which FFmpeg encodes one black picture.
pub fn detection_arguments(encoder: H264Encoder) -> (arguments: Vec<Argument>)
    ensures
        command::argument_views(arguments@) == trial_arguments(encoder),
{
    let mut arguments: Vec<Argument> = Vec::new();
    push_texts(
        &mut arguments,
        &[
            "-hide_banner",
            "-loglevel",
            "error",
            "-f",
            "lavfi",
            "-i",
            "color=c=black:s=1280x720:r=1",
            "-frames:v",
            "1",
            "-an",
        ],
    );
    configure_h264_encoder(
        &mut arguments,
        encoder,
        youtube_sdr_bitrate_profile(720, FrameRate::usual()),
    );
    push_texts(&mut arguments, &["-f", "null", "-"]);
    assert(command::argument_views(arguments@) =~= trial_arguments(encoder));
    arguments
}

/// The encoder to try next; none where all have been tried.
pub open spec fn next_encoder(left: Seq<H264Encoder>) -> Option<H264Encoder> {
    if left.len() > 0 {
        Some(left.first())
    } else {
        None
    }
}

/// The encoders that are left once the next one is found wanting.
pub open spec fn encoders_after(left: Seq<H264Encoder>) -> Seq<H264Encoder> {
    if left.len() > 0 {
        left.drop_first()
    } else {
        left
    }
}

/// The search for an encoder that works, in the order of preference.
#[derive(Debug)]
pub struct EncoderSearch {
    candidates: Vec<H264Encoder>,
    tried: usize,
}

impl EncoderSearch {
    /// The encoders that have not been found wanting yet, in the order of preference.
    pub closed spec fn left(self) -> Seq<H264Encoder> {
        self.candidates@.skip(self.tried as int)
    }

    /// The search is within its candidates.
    pub closed spec fn well_formed(self) -> bool {
        self.tried <= self.candidates@.len()
    }

    /// Begins with the encoders of a platform.
    pub fn new(platform: &str) -> (search: EncoderSearch)
        ensures
            search.well_formed(),
            search.left() == encoder::gpu_encoders(platform@),
    {
        let search: EncoderSearch = EncoderSearch {
            candidates: H264Encoder::gpu_candidates(platform),
            tried: 0,
        };
        assert(search.left() =~= encoder::gpu_encoders(platform@));
        search
    }

    /// The encoder to try next; none where all have been tried.
    pub fn candidate(&self) -> (next: Option<H264Encoder>)
        requires
            self.well_formed(),
        ensures
            next == next_encoder(self.left()),
    {
        if self.tried < self.candidates.len() {
            Some(self.candidates[self.tried])
        } else {
            None
        }
    }

    /// Leaves out the encoder that was tried, if any was left.
    pub fn reject(&mut self)
        requires
            old(self).well_formed(),
        ensures
            final(self).well_formed(),
            final(self).left() == encoders_after(old(self).left()),
    {
        if self.tried < self.candidates.len() {
            self.tried = self.tried + 1;
            assert(self.left() =~= old(self).left().drop_first());
        }
    }
}

// ---------------------------------------------------------------------------------------------
// Laws
// ---------------------------------------------------------------------------------------------

/// A file that will do as it is needs no conversion, neither of its picture nor of its sound.
pub proof fn kept_files_need_no_conversion(
    mode: DownloadMode,
    video: Option<ProbeStream>,
    audio: Option<ProbeStream>,
    extension: Option<Seq<char>>,
)
    requires
        directly_compatible(mode, video, audio, extension),
    ensures
        !picture_converted(mode, video),
        !sound_converted(audio),
{
}

/// A compatible picture is copied: the arguments are the same whatever the encoder.
pub proof fn compatible_video_is_never_encoded(
    mode: DownloadMode,
    video: ProbeStream,
    audio: Option<ProbeStream>,
    one: H264Encoder,
    other: H264Encoder,
    frame_rate: Option<FrameRate>,
)
    requires
        probe::compatible_h264(video),
    ensures
        finalization_arguments(mode, Some(video), audio, one, frame_rate) == finalization_arguments(
            mode,
            Some(video),
            audio,
            other,
            frame_rate,
        ),
{
}

/// A command is refused exactly where the stream that is wanted is missing.
pub proof fn only_a_missing_stream_is_refused(
    mode: DownloadMode,
    video: Option<ProbeStream>,
    audio: Option<ProbeStream>,
    encoder: H264Encoder,
    frame_rate: Option<FrameRate>,
)
    ensures
        finalization_arguments(mode, video, audio, encoder, frame_rate) is None <==> match mode {
            DownloadMode::Video => video is None,
            DownloadMode::AudioOnly => audio is None,
        },
{
}

/// FFmpeg is run a second time only after an encoder on a graphics processor has failed, and then
/// with the processor; after the processor it is never run again.
pub proof fn conversion_is_tried_twice_at_most(
    plan: Finalization,
    encoder: H264Encoder,
    failure: Option<Seq<char>>,
)
    ensures
        attempted_step(plan, encoder, failure) matches StepView::Attempt { encoder: next, .. } ==> {
            &&& encoder.on_gpu()
            &&& next == H264Encoder::CpuX264
            &&& failure is Some
        },
        attempted_step(plan, encoder, failure) !is DetectGpu,
{
}

/// What the processor's encoder complains of is what the failure tells.
pub proof fn last_complaint_is_told(plan: Finalization, details: Seq<char>)
    ensures
        attempted_step(plan, H264Encoder::CpuX264, Some(details)) == (StepView::Fail {
            error: ErrorView::Ffmpeg(details),
            discard: true,
        }),
{
}

/// Encoders on graphics processors are looked for only where the picture has to be converted.
pub proof fn gpu_is_sought_for_conversion_only(plan: Finalization)
    requires
        plan.well_formed(),
    ensures
        first_step(plan) is DetectGpu <==> picture_converted(plan.mode, stream(plan.video)),
{
}

/// The encoder that a search ends with, where those in `working` work.
pub open spec fn search_result(left: Seq<H264Encoder>, working: Set<H264Encoder>) -> Option<
    H264Encoder,
>
    decreases left.len(),
{
    match next_encoder(left) {
        None => None,
        Some(encoder) => if !working.contains(encoder) && encoders_after(left).len() < left.len() {
            search_result(encoders_after(left), working)
        } else {
            Some(encoder)
        },
    }
}

/// The search ends with the first encoder in the order of preference that works, and without one
/// only where none does.
pub proof fn first_working_encoder_is_found(left: Seq<H264Encoder>, working: Set<H264Encoder>)
    ensures
        match search_result(left, working) {
            Some(encoder) => exists|i: int|
                {
                    &&& 0 <= i < left.len()
                    &&& #[trigger] left[i] == encoder
                    &&& working.contains(encoder)
                    &&& forall|j: int| 0 <= j < i ==> !working.contains(#[trigger] left[j])
                },
            None => forall|j: int| 0 <= j < left.len() ==> !working.contains(#[trigger] left[j]),
        },
    decreases left.len(),
{
    if left.len() > 0 {
        let rest = left.drop_first();
        if working.contains(left.first()) {
            assert(left[0] == left.first());
        } else {
            first_working_encoder_is_found(rest, working);
            assert(forall|j: int| 0 < j < left.len() ==> left[j] == rest[j - 1]);
            if let Some(encoder) = search_result(rest, working) {
                let i = choose|i: int|
                    {
                        &&& 0 <= i < rest.len()
                        &&& #[trigger] rest[i] == encoder
                        &&& working.contains(encoder)
                        &&& forall|j: int| 0 <= j < i ==> !working.contains(#[trigger] rest[j])
                    };
                assert(left[i + 1] == encoder);
            }
        }
    }
}

} // verus!
