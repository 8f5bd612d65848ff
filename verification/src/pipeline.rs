//! A download from beginning to end.
use crate::error::{ErrorView, MediaError};
use crate::formats;
use crate::formats::{has_av1, select_formats, AvailableFormat, FormatSelection};
use crate::model;
use crate::model::{DownloadMode, Fraction, JobPhase, ProgressUpdate, UpdateView, VideoQuality};
use vstd::prelude::*;

verus! {

/// What is to be done next in a download.
#[derive(Debug)]
pub enum PipelineStep {
    /// Find out whether FFmpeg decodes AV1 in software.
    CheckDecoders,
    /// Tell the user, then download what was selected.
    Download { update: ProgressUpdate, selection: FormatSelection },
    /// Tell the user, then find out what the downloaded file holds.
    Probe { update: ProgressUpdate },
    /// Give up.
    Fail { error: MediaError },
}

/// Whether FFmpeg decodes AV1 decides what is selected.
pub open spec fn decoders_matter(formats: Seq<AvailableFormat>, mode: DownloadMode) -> bool {
    mode == DownloadMode::Video && formats::offers_av1(formats)
}

/// The step downloads what is selected, or tells why nothing is.
pub open spec fn downloads(
    formats: Seq<AvailableFormat>,
    mode: DownloadMode,
    quality: VideoQuality,
    av1_supported: bool,
    step: PipelineStep,
) -> bool {
    match step {
        PipelineStep::Download { update, selection } => {
            &&& formats::selected(formats, mode, quality, av1_supported, Ok(selection))
            &&& update@ == model::told(
                JobPhase::Preparing,
                "Preparing download…\n"@ + selection.summary@,
            )
        },
        PipelineStep::Fail { error } => formats::selected(
            formats,
            mode,
            quality,
            av1_supported,
            Err(error),
        ),
        _ => false,
    }
}

/// What the user is told when a download begins.
pub open spec fn starting_view() -> UpdateView {
    model::told(JobPhase::Preparing, "Preparing download…"@)
}

/// What the user is told while yt-dlp looks for formats.
pub open spec fn inspecting_view() -> UpdateView {
    model::told(JobPhase::Inspecting, "Checking available formats…"@)
}

/// The step once the formats are known.
pub open spec fn inspected_step(
    formats: Seq<AvailableFormat>,
    mode: DownloadMode,
    quality: VideoQuality,
    step: PipelineStep,
) -> bool {
    if decoders_matter(formats, mode) {
        step is CheckDecoders
    } else {
        downloads(formats, mode, quality, true, step)
    }
}

/// The step once yt-dlp has downloaded a file.
pub open spec fn downloaded_step(cancelled: bool, step: PipelineStep) -> bool {
    match step {
        PipelineStep::Probe { update } => !cancelled && update@ == model::told(
            JobPhase::Inspecting,
            "Checking media codecs…"@,
        ),
        PipelineStep::Fail { error } => cancelled && error == MediaError::Cancelled,
        _ => false,
    }
}

/// What the user is told once the file has its final name.
pub open spec fn saved_view(path: Seq<char>) -> UpdateView {
    UpdateView {
        fraction: Some(Fraction::all()),
        ..model::told(JobPhase::Completed, "Saved "@ + path)
    }
}

/// What the user is told of a download that failed.
pub open spec fn failure_view(error: ErrorView) -> UpdateView {
    if error is Cancelled {
        model::told(JobPhase::Cancelled, "Download cancelled."@)
    } else {
        model::told(JobPhase::Failed, "The download failed."@)
    }
}

/// What the user is told when a download begins.
pub fn starting_update() -> (update: ProgressUpdate)
    ensures
        update@ == starting_view(),
{
    ProgressUpdate::message(JobPhase::Preparing, "Preparing download…")
}

/// What the user is told while yt-dlp looks for formats.
pub fn inspecting_update() -> (update: ProgressUpdate)
    ensures
        update@ == inspecting_view(),
{
    ProgressUpdate::message(JobPhase::Inspecting, "Checking available formats…")
}

/// The step once the formats are known. Which decoders FFmpeg has is asked only where it matters.
pub fn after_inspection(
    formats: &[AvailableFormat],
    mode: DownloadMode,
    video_quality: VideoQuality,
) -> (step: PipelineStep)
    ensures
        inspected_step(formats@, mode, video_quality, step),
{
    if mode == DownloadMode::Video && has_av1(formats) {
        PipelineStep::CheckDecoders
    } else {
        after_decoder_check(formats, mode, video_quality, true)
    }
}

/// The step once it is known whether FFmpeg decodes AV1 in software.
pub fn after_decoder_check(
    formats: &[AvailableFormat],
    mode: DownloadMode,
    video_quality: VideoQuality,
    av1_supported: bool,
) -> (step: PipelineStep)
    ensures
        downloads(formats@, mode, video_quality, av1_supported, step),
{
    match select_formats(formats, mode, video_quality, av1_supported) {
        Ok(selection) => {
            let message: String = "Preparing download…\n".to_owned().concat(
                selection.summary.as_str(),
            );
            PipelineStep::Download {
                update: ProgressUpdate::message(JobPhase::Preparing, message.as_str()),
                selection,
            }
        },
        Err(error) => PipelineStep::Fail { error },
    }
}

/// The step once yt-dlp has downloaded a file.
pub fn after_download(cancelled: bool) -> (step: PipelineStep)
    ensures
        downloaded_step(cancelled, step),
{
    if cancelled {
        PipelineStep::Fail { error: MediaError::Cancelled }
    } else {
        PipelineStep::Probe {
            update: ProgressUpdate::message(JobPhase::Inspecting, "Checking media codecs…"),
        }
    }
}

/// What the user is told once the file has its final name.
pub fn saved_update(path: &str) -> (update: ProgressUpdate)
    ensures
        update@ == saved_view(path@),
{
    let message: String = "Saved ".to_owned().concat(path);
    ProgressUpdate::partial(JobPhase::Completed, Fraction::everything(), message.as_str())
}

/// What the user is told of a download that failed.
pub fn failure_update(error: &MediaError) -> (update: ProgressUpdate)
    ensures
        update@ == failure_view(error@),
{
    match error {
        MediaError::Cancelled => ProgressUpdate::message(
            JobPhase::Cancelled,
            "Download cancelled.",
        ),
        _ => ProgressUpdate::message(JobPhase::Failed, "The download failed."),
    }
}

// ---------------------------------------------------------------------------------------------
// Laws
// ---------------------------------------------------------------------------------------------

/// Where FFmpeg is not asked for its decoders, the answer would have changed nothing.
pub proof fn skipped_checks_change_nothing(
    formats: Seq<AvailableFormat>,
    mode: DownloadMode,
    quality: VideoQuality,
    av1_supported: bool,
    step: PipelineStep,
)
    requires
        !decoders_matter(formats, mode),
    ensures
        downloads(formats, mode, quality, true, step) == downloads(
            formats,
            mode,
            quality,
            av1_supported,
            step,
        ),
{
    match step {
        PipelineStep::Download { selection, .. } => {
            formats::decoders_matter_to_av1_alone(formats, mode, quality, Ok(selection));
        },
        PipelineStep::Fail { error } => {
            formats::decoders_matter_to_av1_alone(formats, mode, quality, Err(error));
        },
        _ => {},
    }
}

} // verus!
