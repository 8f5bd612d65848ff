//! How files are named, and how a download begins and ends.
use crate::command::{Argument, ArgumentView};
use crate::encoder;
use crate::encoder::FrameRate;
use crate::error;
use crate::error::{ErrorView, MediaError};
use crate::finalize::{FinalizeStep, StepView};
use crate::formats;
use crate::formats::{AvailableFormat, FormatSelection};
use crate::laws::choosing;
use crate::model;
use crate::model::{DownloadMode, JobPhase, ProgressUpdate, UpdateView, VideoQuality};
use crate::number;
use crate::output;
use crate::output::SearchView;
use crate::pipeline;
use crate::pipeline::PipelineStep;
use crate::probe;
use crate::probe::{FrameRateText, ProbeStream};
use crate::progress::ProgressReport;
use crate::retry::{ActionView, RetryAction};
use crate::split;
use crate::text;
use vstd::prelude::*;

verus! {

// ---------------------------------------------------------------------------------------------
// Names
// ---------------------------------------------------------------------------------------------

/// Every name that is tried keeps the stem and the extension. The first one holds nothing else; a
/// later one its number in brackets.
pub proof fn names_keep_stem_and_extension(stem: Seq<char>, extension: Seq<char>, n: nat)
    ensures
        ({
            let name = output::candidate_name(stem, extension, n);
            &&& text::starts_with(name, stem)
            &&& text::ends_with(name, "."@ + extension)
            &&& n == 0 ==> name == stem + "."@ + extension
            &&& n > 0 ==> name == stem + " ("@ + number::decimal(n) + ")"@ + "."@ + extension
        }),
{
    reveal_strlit(".");
    reveal_strlit(" (");
    reveal_strlit(").");
    reveal_strlit(")");
    let name = output::candidate_name(stem, extension, n);
    let tail = "."@ + extension;
    if n > 0 {
        assert(name =~= stem + " ("@ + number::decimal(n) + ")"@ + "."@ + extension);
    }
    assert(name.subrange(0, stem.len() as int) =~= stem);
    assert(name.subrange(name.len() - tail.len(), name.len() as int) =~= tail);
}

/// A name with an identifier is the stem, the identifier behind a hyphen, and the extension.
pub proof fn drawn_names_hold_their_identifier(
    stem: Seq<char>,
    extension: Seq<char>,
    id: Seq<char>,
)
    ensures
        output::lot_name(stem, extension, id) == (stem + "-"@) + (id + "."@ + extension),
        output::staging_text(id) == ".inanna-"@ + id,
        output::staging_text(id)[0] == '.',
{
    reveal_strlit(".inanna-");
    assert(output::lot_name(stem, extension, id) =~= (stem + "-"@) + (id + "."@ + extension));
}

/// Ten thousand names are tried, one after the other, each at its turn; then none is left.
pub proof fn names_are_tried_in_turn(search: SearchView)
    requires
        search.tried <= 10_000,
    ensures
        search.tried == 10_000 ==> output::next_name(search) is None && output::passed_over(search)
            == search,
        search.tried < 10_000 ==> {
            &&& output::next_name(search) == Some(
                output::candidate_name(search.stem, search.extension, search.tried),
            )
            &&& output::passed_over(search).tried == search.tried + 1
            &&& output::passed_over(search).stem == search.stem
            &&& output::passed_over(search).extension == search.extension
        },
{
}

/// A file is named after the one that was downloaded, where its name is text, with the extension for
/// what was asked.
pub proof fn files_are_named_after_the_download(stem: Seq<char>)
    ensures
        output::stem_or_default(Some(stem)) == stem,
        output::stem_or_default(None) == "download"@,
        output::mode_extension(DownloadMode::Video) == "mp4"@,
        output::mode_extension(DownloadMode::AudioOnly) == "m4a"@,
{
}

// ---------------------------------------------------------------------------------------------
// The steps of a download
// ---------------------------------------------------------------------------------------------

/// The update tells a phase and a message and no numbers.
pub open spec fn says(update: UpdateView, phase: JobPhase, message: Seq<char>) -> bool {
    &&& update.phase == phase
    &&& update.message == message
    &&& update.fraction is None
    &&& update.downloaded_bytes is None
    &&& update.total_bytes is None
    &&& update.speed_bytes_per_second is None
}

/// Which decoders FFmpeg has is asked exactly where a picture is wanted and one of the formats is
/// AV1; else what is selected is downloaded as if all could be decoded.
pub proof fn decoders_are_asked_for_av1(
    formats: Seq<AvailableFormat>,
    mode: DownloadMode,
    quality: VideoQuality,
    step: PipelineStep,
)
    requires
        pipeline::inspected_step(formats, mode, quality, step),
    ensures
        step is CheckDecoders <==> mode == DownloadMode::Video && exists|i: int|
            0 <= i < formats.len() && choosing::in_av1(#[trigger] formats[i]),
        step !is CheckDecoders ==> pipeline::downloads(formats, mode, quality, true, step),
{
    assert(forall|i: int|
        0 <= i < formats.len() ==> formats::av1(#[trigger] formats[i]) == choosing::in_av1(
            formats[i],
        ));
    if formats::offers_av1(formats) {
        let i = choose|i: int| 0 <= i < formats.len() && formats::av1(#[trigger] formats[i]);
        assert(choosing::in_av1(formats[i]));
    }
    if exists|i: int| 0 <= i < formats.len() && choosing::in_av1(#[trigger] formats[i]) {
        let i = choose|i: int| 0 <= i < formats.len() && choosing::in_av1(#[trigger] formats[i]);
        assert(formats::av1(formats[i]));
    }
}

/// What is selected is downloaded, and the user is told what; where nothing can be selected the
/// download fails with the reason. Nothing else follows.
pub proof fn what_is_selected_is_downloaded(
    formats: Seq<AvailableFormat>,
    mode: DownloadMode,
    quality: VideoQuality,
    av1_supported: bool,
    step: PipelineStep,
)
    requires
        pipeline::downloads(formats, mode, quality, av1_supported, step),
    ensures
        match step {
            PipelineStep::Download { update, selection } => {
                &&& formats::selected(formats, mode, quality, av1_supported, Ok(selection))
                &&& says(
                    update@,
                    JobPhase::Preparing,
                    "Preparing download…"@ + seq!['\n'] + selection.summary@,
                )
            },
            PipelineStep::Fail { error } => formats::selected(
                formats,
                mode,
                quality,
                av1_supported,
                Err(error),
            ),
            _ => false,
        },
{
    reveal_strlit("Preparing download…\n");
    reveal_strlit("Preparing download…");
    assert("Preparing download…\n"@ =~= "Preparing download…"@ + seq!['\n']);
    if let PipelineStep::Download { update, selection } = step {
        assert("Preparing download…\n"@ + selection.summary@ =~= "Preparing download…"@ + seq![
            '\n',
        ] + selection.summary@);
    }
}

/// A file that was downloaded is probed, unless the user has cancelled.
pub proof fn cancelled_downloads_are_not_probed(cancelled: bool, step: PipelineStep)
    requires
        pipeline::downloaded_step(cancelled, step),
    ensures
        step is Probe <==> !cancelled,
        step matches PipelineStep::Probe { update } ==> says(
            update@,
            JobPhase::Inspecting,
            "Checking media codecs…"@,
        ),
        step matches PipelineStep::Fail { error } ==> cancelled && error is Cancelled,
        step is Probe || step is Fail,
{
}

/// What the user is told at the beginning and at the end. A download that was cancelled is told of
/// as such, and any other failure as one; a file that was saved is complete.
pub proof fn beginning_and_end_are_told(path: Seq<char>, error: ErrorView)
    ensures
        says(pipeline::starting_view(), JobPhase::Preparing, "Preparing download…"@),
        says(pipeline::inspecting_view(), JobPhase::Inspecting, "Checking available formats…"@),
        error == ErrorView::Cancelled ==> says(
            pipeline::failure_view(error),
            JobPhase::Cancelled,
            "Download cancelled."@,
        ),
        error != ErrorView::Cancelled ==> says(
            pipeline::failure_view(error),
            JobPhase::Failed,
            "The download failed."@,
        ),
        ({
            let saved = pipeline::saved_view(path);
            &&& saved.phase == JobPhase::Completed
            &&& saved.message == "Saved "@ + path
            &&& saved.fraction matches Some(fraction) && fraction.bits == 0x3f80_0000
            &&& saved.downloaded_bytes is None
            &&& saved.total_bytes is None
            &&& saved.speed_bytes_per_second is None
        }),
{
}

/// A message alone tells no numbers.
pub proof fn messages_tell_no_numbers(phase: JobPhase, message: Seq<char>)
    ensures
        says(model::told(phase, message), phase, message),
{
}

/// Each error is told in a sentence that ends with what is known of it.
pub proof fn errors_are_told_with_their_details(details: Seq<char>, last: ErrorView)
    ensures
        error::sentence(ErrorView::Io(details)) == "file operation failed: "@ + details,
        error::sentence(ErrorView::Json(details)) == "media information is invalid: "@ + details,
        error::sentence(ErrorView::YtDlp(details)) == "yt-dlp failed: "@ + details,
        error::sentence(ErrorView::Ffmpeg(details)) == "FFmpeg failed: "@ + details,
        error::sentence(ErrorView::NoSuitableFormat(details))
            == "no suitable media format is available: "@ + details,
        error::sentence(ErrorView::RetriesExhausted(Box::new(last)))
            == "automatic retries exhausted: "@ + error::sentence(last),
        error::sentence(ErrorView::Cancelled) == "the operation was cancelled"@,
        error::sentence(ErrorView::MissingOutput) == "yt-dlp did not report the downloaded file"@,
        error::sentence(ErrorView::MissingStream)
            == "the downloaded file has no supported media stream"@,
{
}

/// What an error says tells errors apart: those of one kind by their texts.
pub proof fn errors_say_what_they_hold(error: MediaError)
    ensures
        match error {
            MediaError::Io(text) => error@ == ErrorView::Io(text@),
            MediaError::Json(text) => error@ == ErrorView::Json(text@),
            MediaError::Cancelled => error@ == ErrorView::Cancelled,
            MediaError::YtDlp(text) => error@ == ErrorView::YtDlp(text@),
            MediaError::RetriesExhausted(last) => error@ == ErrorView::RetriesExhausted(
                Box::new((*last)@),
            ),
            MediaError::Ffmpeg(text) => error@ == ErrorView::Ffmpeg(text@),
            MediaError::MissingOutput => error@ == ErrorView::MissingOutput,
            MediaError::NoSuitableFormat(text) => error@ == ErrorView::NoSuitableFormat(text@),
            MediaError::MissingStream => error@ == ErrorView::MissingStream,
        },
{
}

/// What is told to the user, asked of a program or decided is what the values hold.
pub proof fn values_say_what_they_hold(
    update: ProgressUpdate,
    selection: FormatSelection,
    report: ProgressReport,
    argument: Argument,
    action: RetryAction,
)
    ensures
        update@.phase == update.phase,
        update@.fraction == update.fraction,
        update@.downloaded_bytes == update.downloaded_bytes,
        update@.total_bytes == update.total_bytes,
        update@.speed_bytes_per_second == update.speed_bytes_per_second,
        update@.message == update.message@,
        selection@.format_spec == selection.format_spec@,
        selection@.summary == selection.summary@,
        match selection.merge_container {
            Some(container) => selection@.merge_container == Some(container@),
            None => selection@.merge_container is None,
        },
        report@.percent == report.percent@,
        report@.downloaded_bytes == report.downloaded_bytes,
        report@.total_bytes == report.total_bytes,
        report@.speed_bytes_per_second == report.speed_bytes_per_second,
        match argument {
            Argument::Text(text) => argument@ == ArgumentView::Text(text@),
            Argument::ToolDirectory => argument@ == ArgumentView::ToolDirectory,
            Argument::Input => argument@ == ArgumentView::Input,
            Argument::Output => argument@ == ArgumentView::Output,
        },
        match action {
            RetryAction::Attempt => action@ == ActionView::Attempt,
            RetryAction::RetryNow { update } => action@ == (ActionView::RetryNow {
                update: update@,
            }),
            RetryAction::Wait { update } => action@ == (ActionView::Wait { update: update@ }),
            RetryAction::GiveUp { error } => action@ == (ActionView::GiveUp { error: error@ }),
        },
{
}

/// A step of finalizing is what the value holds.
pub proof fn steps_say_what_they_hold(step: FinalizeStep)
    ensures
        match step {
            FinalizeStep::Publish { update, converted } => step@ == (StepView::Publish {
                update: update@,
                converted,
            }),
            FinalizeStep::DetectGpu { update } => step@ == (StepView::DetectGpu {
                update: update@,
            }),
            FinalizeStep::Fail { error, discard } => step@ == (StepView::Fail {
                error: error@,
                discard,
            }),
            FinalizeStep::Attempt { notice, encoder, phase, message, arguments } => {
                match step@ {
                    StepView::Attempt {
                        notice: told,
                        encoder: used,
                        phase: shown,
                        message: text,
                        arguments: given,
                    } => {
                        &&& used == encoder
                        &&& shown == phase
                        &&& text == message@
                        &&& given.len() == arguments@.len()
                        &&& forall|i: int|
                            0 <= i < given.len() ==> #[trigger] given[i] == arguments@[i]@
                        &&& notice is Some <==> told is Some
                        &&& notice matches Some(update) ==> told == Some(update@)
                    },
                    _ => false,
                }
            },
        },
{
}

/// The limits of the qualities.
pub proof fn qualities_have_their_limits(quality: VideoQuality, most: u32)
    ensures
        quality.limit() == Some(most) <==> choosing::most_lines(quality, most),
        quality.limit() is None <==> quality == VideoQuality::Best,
{
}

// ---------------------------------------------------------------------------------------------
// Frame rates
// ---------------------------------------------------------------------------------------------

/// A frame rate is cut at its first slash: the parts and the slash are the whole, and the first part
/// holds none.
pub proof fn frame_rates_are_cut_at_the_slash(value: Seq<char>, rate: FrameRateText)
    requires
        probe::frame_rate_text(value, rate),
    ensures
        match rate {
            FrameRateText::Quotient { numerator, denominator } => {
                &&& value == numerator@ + seq!['/'] + denominator@
                &&& forall|i: int| 0 <= i < numerator@.len() ==> #[trigger] numerator@[i] != '/'
            },
            FrameRateText::Number(number) => {
                &&& value == number@
                &&& forall|i: int| 0 <= i < value.len() ==> #[trigger] value[i] != '/'
            },
        },
{
    split::lemma_until(value, '/');
    if let FrameRateText::Quotient { numerator, denominator } = rate {
        let n = split::until(value, '/');
        assert(value =~= numerator@ + seq!['/'] + denominator@);
        assert(forall|i: int| 0 <= i < n ==> numerator@[i] == value[i]);
    }
}

/// The bit rates for a stream depend on the shorter of its sides, whichever it is, and on its frame
/// rate. A side that is not known does not count; where none is known the rates are those for 1080
/// lines, and where no frame rate is known those for 30 frames.
pub proof fn bit_rates_follow_the_shorter_side(
    stream: ProbeStream,
    turned: ProbeStream,
    rate: Option<FrameRate>,
)
    requires
        turned.width == stream.height,
        turned.height == stream.width,
    ensures
        probe::stream_profile(stream, rate) == probe::stream_profile(turned, rate),
        probe::stream_profile(stream, None) == probe::stream_profile(
            stream,
            Some(FrameRate { bits: 0x403e_0000_0000_0000 }),
        ),
        stream.width is None && stream.height is None ==> probe::stream_profile(stream, None)
            == encoder::recommended(1080, false),
{
}

} // verus!
