//! Running FFmpeg: what its lines mean, and what its end means.
use crate::codec;
use crate::codec::has_software_av1_decoder;
use crate::command;
use crate::command::{push_texts, Argument, ArgumentView};
use crate::diagnostics;
use crate::diagnostics::Diagnostics;
use crate::error::{ErrorView, MediaError};
use crate::model;
use crate::model::{Fraction, JobPhase, ProgressUpdate, UpdateView};
use crate::text;
use vstd::prelude::*;

verus! {

// ---------------------------------------------------------------------------------------------
// Which decoders it has
// ---------------------------------------------------------------------------------------------

/// The arguments by which FFmpeg lists its decoders.
pub open spec fn decoder_words() -> Seq<ArgumentView> {
    command::texts(seq!["-hide_banner"@, "-decoders"@])
}

/// The arguments by which FFmpeg lists its decoders.
pub fn decoder_arguments() -> (arguments: Vec<Argument>)
    ensures
        command::argument_views(arguments@) == decoder_words(),
{
    let mut arguments: Vec<Argument> = Vec::new();
    push_texts(&mut arguments, &["-hide_banner", "-decoders"]);
    assert(command::argument_views(arguments@) =~= decoder_words());
    arguments
}

/// Whether FFmpeg has listed a decoder that decodes AV1 in software.
#[derive(Debug)]
pub struct DecoderCheck {
    found: bool,
}

impl View for DecoderCheck {
    type V = bool;

    closed spec fn view(&self) -> bool {
        self.found
    }
}

/// Whether a decoder for AV1 has been listed once one more line was taken in.
pub open spec fn decoder_noted(found: bool, line: Seq<char>) -> bool {
    found || codec::software_av1_listed(line)
}

/// What is given once FFmpeg has ended: whether AV1 can be decoded, or what went wrong.
pub open spec fn decoders_ended(
    found: bool,
    success: bool,
    status: Seq<char>,
    end: Result<bool, MediaError>,
) -> bool {
    match end {
        Ok(listed) => success && listed == found,
        Err(error) => !success && error@ == ErrorView::Ffmpeg(
            "could not inspect available decoders: "@ + status,
        ),
    }
}

/// Whether a decoder for AV1 has been listed once the given lines were taken in.
pub open spec fn listed_in(found: bool, lines: Seq<Seq<char>>) -> bool
    decreases lines.len(),
{
    if lines.len() == 0 {
        found
    } else {
        decoder_noted(listed_in(found, lines.drop_last()), lines.last())
    }
}

impl DecoderCheck {
    /// Nothing was listed yet.
    pub fn new() -> (check: DecoderCheck)
        ensures
            !check@,
    {
        DecoderCheck { found: false }
    }

    /// Takes in a line of the list.
    pub fn on_stdout(&mut self, line: &str)
        ensures
            final(self)@ == decoder_noted(old(self)@, line@),
    {
        if has_software_av1_decoder(line) {
            self.found = true;
        }
    }

    /// Whether AV1 can be decoded in software, once FFmpeg has ended; or what went wrong.
    pub fn finish(&self, success: bool, status: &str) -> (end: Result<bool, MediaError>)
        ensures
            decoders_ended(self@, success, status@, end),
    {
        if success {
            Ok(self.found)
        } else {
            Err(
                MediaError::Ffmpeg(
                    "could not inspect available decoders: ".to_owned().concat(status),
                ),
            )
        }
    }
}

// ---------------------------------------------------------------------------------------------
// Converting
// ---------------------------------------------------------------------------------------------

/// What FFmpeg has written while it worked on a file.
#[derive(Debug)]
pub struct FfmpegAttempt {
    phase: JobPhase,
    message: String,
    diagnostics: Diagnostics,
}

/// What an [`FfmpegAttempt`] holds: what the user is told while it lasts, and the last complaints.
#[verifier::ext_equal]
pub struct AttemptView {
    pub phase: JobPhase,
    pub message: Seq<char>,
    pub diagnostics: Seq<Seq<char>>,
}

impl View for FfmpegAttempt {
    type V = AttemptView;

    closed spec fn view(&self) -> AttemptView {
        AttemptView {
            phase: self.phase,
            message: self.message@,
            diagnostics: self.diagnostics@,
        }
    }
}

/// The number that a line gives as the position that FFmpeg has reached, in microseconds.
pub open spec fn position_text(line: Seq<char>) -> Option<Seq<char>> {
    if text::starts_with(line, "out_time_us="@) {
        Some(line.skip("out_time_us="@.len() as int))
    } else {
        None
    }
}

/// The number that a line gives as the position that FFmpeg has reached, not read yet.
pub fn position_of(line: &str) -> (position: Option<String>)
    ensures
        codec::opt_view(position) == position_text(line@),
{
    let chars: Vec<char> = text::chars_of(line);
    match text::after_prefix(chars.as_slice(), "out_time_us=") {
        Some(number) => Some(text::string_of(number)),
        None => None,
    }
}

/// What the user is told before FFmpeg is run.
pub open spec fn attempt_begun(state: AttemptView) -> UpdateView {
    model::told(state.phase, state.message)
}

/// What the user is told once a part of the work is done.
pub open spec fn attempt_advanced(state: AttemptView, fraction: Fraction) -> UpdateView {
    UpdateView { fraction: Some(fraction), ..model::told(state.phase, state.message) }
}

/// What a line among the complaints changes.
pub open spec fn attempt_complained(state: AttemptView, line: Seq<char>) -> AttemptView {
    AttemptView {
        diagnostics: diagnostics::last_of(
            state.diagnostics.push(line),
            diagnostics::KEPT_LINES as nat,
        ),
        ..state
    }
}

/// What went wrong, once FFmpeg has ended; none where it ended well.
pub open spec fn attempt_failure(
    state: AttemptView,
    success: bool,
    status: Seq<char>,
) -> Option<Seq<char>> {
    if success {
        None
    } else {
        Some(diagnostics::complaint(state.diagnostics, status))
    }
}

impl FfmpegAttempt {
    /// No more lines are kept than allowed.
    pub open spec fn well_formed(self) -> bool {
        self@.diagnostics.len() <= diagnostics::KEPT_LINES
    }

    /// Nothing was written yet.
    pub fn new(phase: JobPhase, message: &str) -> (state: FfmpegAttempt)
        ensures
            state.well_formed(),
            state@ == (AttemptView { phase, message: message@, diagnostics: Seq::empty() }),
    {
        FfmpegAttempt { phase, message: message.to_owned(), diagnostics: Diagnostics::new() }
    }

    /// What the user is told before FFmpeg is run.
    pub fn start(&self) -> (update: ProgressUpdate)
        ensures
            update@ == attempt_begun(self@),
    {
        ProgressUpdate::message(self.phase, self.message.as_str())
    }

    /// What the user is told once a part of the work is done.
    pub fn advance(&self, fraction: Fraction) -> (update: ProgressUpdate)
        ensures
            update@ == attempt_advanced(self@, fraction),
    {
        ProgressUpdate::partial(self.phase, fraction, self.message.as_str())
    }

    /// Takes in a line among the complaints.
    pub fn on_stderr(&mut self, line: String)
        requires
            old(self).well_formed(),
        ensures
            final(self).well_formed(),
            final(self)@ == attempt_complained(old(self)@, line@),
    {
        self.diagnostics.push(line);
    }

    /// What went wrong, once FFmpeg has ended; none where it ended well.
    pub fn finish(&self, success: bool, status: &str) -> (failure: Option<String>)
        ensures
            codec::opt_view(failure) == attempt_failure(self@, success, status@),
    {
        if success {
            None
        } else {
            Some(self.diagnostics.complaint(status))
        }
    }
}

// ---------------------------------------------------------------------------------------------
// Laws
// ---------------------------------------------------------------------------------------------

/// AV1 counts as decodable exactly where one of the lines lists such a decoder, whichever it is.
pub proof fn any_line_may_list_the_decoder(lines: Seq<Seq<char>>)
    ensures
        listed_in(false, lines) <==> exists|i: int|
            0 <= i < lines.len() && codec::software_av1_listed(#[trigger] lines[i]),
    decreases lines.len(),
{
    if lines.len() > 0 {
        let first = lines.drop_last();
        any_line_may_list_the_decoder(first);
        if listed_in(false, first) {
            let i = choose|i: int|
                0 <= i < first.len() && codec::software_av1_listed(#[trigger] first[i]);
            assert(lines[i] == first[i]);
        }
        if codec::software_av1_listed(lines.last()) {
            assert(lines[lines.len() - 1] == lines.last());
        }
        if exists|i: int| 0 <= i < lines.len() && codec::software_av1_listed(#[trigger] lines[i]) {
            let i = choose|i: int|
                0 <= i < lines.len() && codec::software_av1_listed(#[trigger] lines[i]);
            if i < first.len() {
                assert(first[i] == lines[i]);
            }
        }
    }
}

/// One more line is taken in as the last one.
pub proof fn lines_are_taken_in_turn(found: bool, lines: Seq<Seq<char>>, line: Seq<char>)
    ensures
        listed_in(found, lines.push(line)) == (listed_in(found, lines)
            || codec::software_av1_listed(line)),
{
    assert(lines.push(line).drop_last() =~= lines);
}

} // verus!
