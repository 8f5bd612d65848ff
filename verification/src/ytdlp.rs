//! Running yt-dlp: how it is started, what its lines mean, and what its end means.
use crate::activity;
use crate::activity::parse_format_inspection_activity;
use crate::codec;
use crate::command;
use crate::command::{push_argument, push_texts, Argument, ArgumentView};
use crate::diagnostics;
use crate::diagnostics::Diagnostics;
use crate::error::{ErrorView, MediaError};
use crate::model;
use crate::model::{DownloadMode, JobPhase, ProgressUpdate, UpdateView};
use crate::outside;
use crate::progress;
use crate::progress::{parse_ytdlp_progress_line, ProgressReport, ReportView, PROGRESS_PREFIX};
use crate::redact;
use crate::redact::redact;
use crate::split;
use crate::text;
use vstd::prelude::*;

verus! {

/// What yt-dlp writes before the file it has made.
pub const FILE_PREFIX: &'static str = "__YTDLP_WRAPPER_FILE__";

/// The lines of a program with one more taken in, without the address of the media.
pub open spec fn noted(lines: Seq<Seq<char>>, line: Seq<char>, url: Seq<char>) -> Seq<Seq<char>> {
    diagnostics::last_of(
        lines.push(redact::redacted(line, url)),
        diagnostics::KEPT_LINES as nat,
    )
}

// ---------------------------------------------------------------------------------------------
// Looking for formats
// ---------------------------------------------------------------------------------------------

/// The arguments by which yt-dlp reports the formats of the media at `url`. `deno` is the path of
/// the program that runs scripts for it.
pub open spec fn inspection_words(deno: Seq<char>, url: Seq<char>) -> Seq<ArgumentView> {
    command::texts(
        seq![
            "--no-config"@,
            "--no-update"@,
            "--no-playlist"@,
            "--no-quiet"@,
            "--no-colors"@,
            "--dump-single-json"@,
            "--ffmpeg-location"@,
        ],
    ).push(ArgumentView::ToolDirectory) + command::texts(
        seq!["--js-runtimes"@, "deno:"@ + deno, "--"@, url],
    )
}

/// The arguments by which yt-dlp reports the formats of the media at `url`.
pub fn inspection_arguments(deno: &str, url: &str) -> (arguments: Vec<Argument>)
    ensures
        command::argument_views(arguments@) == inspection_words(deno@, url@),
{
    let mut arguments: Vec<Argument> = Vec::new();
    push_texts(
        &mut arguments,
        &[
            "--no-config",
            "--no-update",
            "--no-playlist",
            "--no-quiet",
            "--no-colors",
            "--dump-single-json",
            "--ffmpeg-location",
        ],
    );
    push_argument(&mut arguments, Argument::ToolDirectory);
    let runtime: String = "deno:".to_owned().concat(deno);
    push_texts(&mut arguments, &["--js-runtimes", runtime.as_str(), "--", url]);
    assert(command::argument_views(arguments@) =~= inspection_words(deno@, url@));
    arguments
}

/// What yt-dlp has written while it looked for formats.
#[derive(Debug)]
pub struct FormatInspection {
    url: String,
    json: String,
    diagnostics: Diagnostics,
}

/// What a [`FormatInspection`] holds: the address, the report so far, and the last complaints.
#[verifier::ext_equal]
pub struct InspectionView {
    pub url: Seq<char>,
    pub json: Seq<char>,
    pub diagnostics: Seq<Seq<char>>,
}

impl View for FormatInspection {
    type V = InspectionView;

    closed spec fn view(&self) -> InspectionView {
        InspectionView {
            url: self.url@,
            json: self.json@,
            diagnostics: self.diagnostics@,
        }
    }
}

/// The line belongs to the report: it begins with a brace, white space apart.
pub open spec fn report_line(line: Seq<char>) -> bool {
    text::starts_with(text::trim_start(line), "{"@)
}

/// What a line among the results changes, and what the user is told of it.
pub open spec fn inspected(state: InspectionView, line: Seq<char>) -> (
    InspectionView,
    Option<UpdateView>,
) {
    if report_line(line) {
        (InspectionView { json: state.json + line + "\n"@, ..state }, None)
    } else {
        (state, activity::inspection_stage(line))
    }
}

/// What a line among the complaints changes, and what the user is told of it.
pub open spec fn inspection_complained(state: InspectionView, line: Seq<char>) -> (
    InspectionView,
    Option<UpdateView>,
) {
    (
        InspectionView { diagnostics: noted(state.diagnostics, line, state.url), ..state },
        activity::inspection_stage(line),
    )
}

/// What is given once yt-dlp has ended: the report and what the user is told, or what went wrong.
pub open spec fn inspection_ended(
    state: InspectionView,
    success: bool,
    status: Seq<char>,
    end: Result<(ProgressUpdate, String), MediaError>,
) -> bool {
    match end {
        Ok((update, json)) => {
            &&& success
            &&& update@ == model::told(
                JobPhase::Inspecting,
                "Choosing video and audio formats…"@,
            )
            &&& json@ == text::trim(state.json)
        },
        Err(error) => !success && error@ == ErrorView::YtDlp(
            diagnostics::complaint(state.diagnostics, status),
        ),
    }
}

impl FormatInspection {
    /// No more lines are kept than allowed.
    pub open spec fn well_formed(self) -> bool {
        self@.diagnostics.len() <= diagnostics::KEPT_LINES
    }

    /// Nothing was written yet.
    pub fn new(url: &str) -> (state: FormatInspection)
        ensures
            state.well_formed(),
            state@ == (InspectionView {
                url: url@,
                json: Seq::empty(),
                diagnostics: Seq::empty(),
            }),
    {
        FormatInspection {
            url: url.to_owned(),
            json: String::new(),
            diagnostics: Diagnostics::new(),
        }
    }

    /// Takes in a line among the results.
    pub fn on_stdout(&mut self, line: &str) -> (update: Option<ProgressUpdate>)
        requires
            old(self).well_formed(),
        ensures
            final(self).well_formed(),
            (final(self)@, activity::update_view(update)) == inspected(old(self)@, line@),
    {
        let chars: Vec<char> = text::chars_of(line);
        if !text::begins(text::without_leading_space(chars.as_slice()), "{") {
            return parse_format_inspection_activity(line);
        }
        self.json.append(line);
        self.json.append("\n");
        None
    }

    /// Takes in a line among the complaints.
    pub fn on_stderr(&mut self, line: &str) -> (update: Option<ProgressUpdate>)
        requires
            old(self).well_formed(),
        ensures
            final(self).well_formed(),
            (final(self)@, activity::update_view(update)) == inspection_complained(
                old(self)@,
                line@,
            ),
    {
        let safe: String = redact(line, self.url.as_str());
        self.diagnostics.push(safe);
        parse_format_inspection_activity(line)
    }

    /// The report, once yt-dlp has ended, and what the user is told; or what went wrong.
    pub fn finish(&self, success: bool, status: &str) -> (end: Result<
        (ProgressUpdate, String),
        MediaError,
    >)
        ensures
            inspection_ended(self@, success, status@, end),
    {
        if !success {
            return Err(MediaError::YtDlp(self.diagnostics.complaint(status)));
        }
        let update: ProgressUpdate = ProgressUpdate::message(
            JobPhase::Inspecting,
            "Choosing video and audio formats…",
        );
        let chars: Vec<char> = text::chars_of(self.json.as_str());
        Ok((update, text::string_of(text::trimmed(chars.as_slice()))))
    }
}

// ---------------------------------------------------------------------------------------------
// Downloading
// ---------------------------------------------------------------------------------------------

/// The arguments by which yt-dlp downloads the formats `format_spec` of the media at `url` into the
/// directory `staging`. `file_names` are the ones by which it writes file names as the platform has
/// them.
pub open spec fn download_words(
    deno: Seq<char>,
    staging: Seq<char>,
    file_names: Seq<Seq<char>>,
    format_spec: Seq<char>,
    merge_container: Option<Seq<char>>,
    mode: DownloadMode,
    url: Seq<char>,
) -> Seq<ArgumentView> {
    command::texts(
        seq![
            "--no-config"@,
            "--no-update"@,
            "--no-playlist"@,
            "--newline"@,
            "--progress"@,
            "--progress-delta"@,
            "0.2"@,
            "--ffmpeg-location"@,
        ],
    ).push(ArgumentView::ToolDirectory) + command::texts(
        seq![
            "--js-runtimes"@,
            "deno:"@ + deno,
            "--paths"@,
            "home:"@ + staging,
            "--output"@,
            "%(title).180B [%(id)s].%(ext)s"@,
            "--progress-template"@,
            "download:"@ + PROGRESS_PREFIX@
                + "%(progress._percent)f|%(progress.downloaded_bytes)s|%(progress.total_bytes)s|%(progress.speed)s"@,
            "--print"@,
            "after_move:"@ + FILE_PREFIX@ + "%(filepath)j"@,
        ],
    ) + command::texts(file_names) + command::texts(seq!["--format"@, format_spec])
        + command::texts(
        match (mode, merge_container) {
            (DownloadMode::Video, Some(container)) => seq!["--merge-output-format"@, container],
            _ => Seq::empty(),
        },
    ) + command::texts(seq!["--"@, url])
}

/// The arguments by which yt-dlp downloads media.
pub fn download_arguments(
    deno: &str,
    staging: &str,
    file_names: &[&str],
    format_spec: &str,
    merge_container: Option<&str>,
    mode: DownloadMode,
    url: &str,
) -> (arguments: Vec<Argument>)
    ensures
        command::argument_views(arguments@) == download_words(
            deno@,
            staging@,
            command::word_views(file_names@),
            format_spec@,
            codec::opt_str_view(merge_container),
            mode,
            url@,
        ),
{
    let mut arguments: Vec<Argument> = Vec::new();
    push_texts(
        &mut arguments,
        &[
            "--no-config",
            "--no-update",
            "--no-playlist",
            "--newline",
            "--progress",
            "--progress-delta",
            "0.2",
            "--ffmpeg-location",
        ],
    );
    push_argument(&mut arguments, Argument::ToolDirectory);
    let runtime: String = "deno:".to_owned().concat(deno);
    let home: String = "home:".to_owned().concat(staging);
    let template: String = "download:".to_owned().concat(PROGRESS_PREFIX).concat(
        "%(progress._percent)f|%(progress.downloaded_bytes)s|%(progress.total_bytes)s|%(progress.speed)s",
    );
    let print: String = "after_move:".to_owned().concat(FILE_PREFIX).concat("%(filepath)j");
    push_texts(
        &mut arguments,
        &[
            "--js-runtimes",
            runtime.as_str(),
            "--paths",
            home.as_str(),
            "--output",
            "%(title).180B [%(id)s].%(ext)s",
            "--progress-template",
            template.as_str(),
            "--print",
            print.as_str(),
        ],
    );
    push_texts(&mut arguments, file_names);
    push_texts(&mut arguments, &["--format", format_spec]);
    if mode == DownloadMode::Video {
        if let Some(container) = merge_container {
            push_texts(&mut arguments, &["--merge-output-format", container]);
        }
    }
    push_texts(&mut arguments, &["--", url]);
    assert(command::argument_views(arguments@) =~= download_words(
        deno@,
        staging@,
        command::word_views(file_names@),
        format_spec@,
        codec::opt_str_view(merge_container),
        mode,
        url@,
    ));
    arguments
}

/// What yt-dlp has written while it downloaded.
#[derive(Debug)]
pub struct DownloadRun {
    url: String,
    file: Option<String>,
    diagnostics: Diagnostics,
}

/// What a [`DownloadRun`] holds: the address, the file that was made, and the last complaints.
#[verifier::ext_equal]
pub struct RunView {
    pub url: Seq<char>,
    pub file: Option<Seq<char>>,
    pub diagnostics: Seq<Seq<char>>,
}

impl View for DownloadRun {
    type V = RunView;

    closed spec fn view(&self) -> RunView {
        RunView {
            url: self.url@,
            file: codec::opt_view(self.file),
            diagnostics: self.diagnostics@,
        }
    }
}

/// The file that was made, once another one was named or none.
pub open spec fn recorded(state: RunView, named: Option<Seq<char>>) -> RunView {
    match named {
        Some(file) => RunView { file: Some(file), ..state },
        None => state,
    }
}

/// What a line among the results changes where it tells no progress. A file is named behind its
/// mark as a JSON string.
pub open spec fn file_noted(state: RunView, line: Seq<char>) -> RunView {
    if text::starts_with(line, FILE_PREFIX@) {
        recorded(state, outside::json_text(line.skip(FILE_PREFIX@.len() as int)))
    } else {
        state
    }
}

/// What a line among the complaints changes. One that tells progress is none.
pub open spec fn download_complained(state: RunView, line: Seq<char>) -> RunView {
    if progress::reported_in_line(line) is Some {
        state
    } else {
        RunView { diagnostics: noted(state.diagnostics, line, state.url), ..state }
    }
}

/// What a line among the results changes, and the progress that it tells.
pub open spec fn downloaded_line(state: RunView, line: Seq<char>) -> (RunView, Option<ReportView>) {
    match progress::reported_in_line(line) {
        Some(report) => (state, Some(report)),
        None => (file_noted(state, line), None),
    }
}

/// What is given once yt-dlp has ended: the file that was made, or what went wrong.
pub open spec fn download_ended(
    state: RunView,
    success: bool,
    status: Seq<char>,
    end: Result<String, MediaError>,
) -> bool {
    match end {
        Ok(file) => success && state.file == Some(file@),
        Err(error) => error@ == if !success {
            ErrorView::YtDlp(diagnostics::complaint(state.diagnostics, status))
        } else {
            ErrorView::MissingOutput
        } && (success ==> state.file is None),
    }
}

impl DownloadRun {
    /// No more lines are kept than allowed.
    pub open spec fn well_formed(self) -> bool {
        self@.diagnostics.len() <= diagnostics::KEPT_LINES
    }

    /// Nothing was written yet.
    pub fn new(url: &str) -> (state: DownloadRun)
        ensures
            state.well_formed(),
            state@ == (RunView { url: url@, file: None, diagnostics: Seq::empty() }),
    {
        DownloadRun { url: url.to_owned(), file: None, diagnostics: Diagnostics::new() }
    }

    /// Takes in the file that a line names, if it does.
    pub fn record_file(&mut self, named: Option<String>)
        requires
            old(self).well_formed(),
        ensures
            final(self).well_formed(),
            final(self)@ == recorded(old(self)@, codec::opt_view(named)),
    {
        if let Some(file) = named {
            self.file = Some(file);
        }
    }

    /// Takes in a line among the results, and gives the progress that it tells. A file whose name
    /// needs no escapes is the one that stands between the quotation marks.
    pub fn on_stdout(&mut self, line: &str) -> (report: Option<ProgressReport>)
        requires
            old(self).well_formed(),
        ensures
            final(self).well_formed(),
            progress::report_view(report) == progress::reported_in_line(line@),
            (final(self)@, progress::report_view(report)) == downloaded_line(old(self)@, line@),
            report is Some ==> final(self)@ == old(self)@,
            report is None ==> final(self)@ == file_noted(old(self)@, line@),
            forall|file: Seq<char>|
                report is None && line@ == FILE_PREFIX@ + #[trigger] outside::quoted(file)
                    && outside::plain_in_json(file) ==> final(self)@.file == Some(file),
    {
        let report: Option<ProgressReport> = parse_ytdlp_progress_line(line);
        if report.is_none() {
            let chars: Vec<char> = text::chars_of(line);
            if let Some(value) = text::after_prefix(chars.as_slice(), FILE_PREFIX) {
                let json: String = text::string_of(value);
                let named: Option<String> = outside::text_of_json(json.as_str());
                self.record_file(named);
                assert forall|file: Seq<char>|
                    line@ == FILE_PREFIX@ + #[trigger] outside::quoted(file)
                        && outside::plain_in_json(file) implies self@.file == Some(file) by {
                    assert(value@ =~= outside::quoted(file));
                }
            } else {
                assert forall|file: Seq<char>|
                    line@ != FILE_PREFIX@ + #[trigger] outside::quoted(file) by {
                    let whole = FILE_PREFIX@ + outside::quoted(file);
                    assert(whole.subrange(0, FILE_PREFIX@.len() as int) =~= FILE_PREFIX@);
                }
            }
        }
        report
    }

    /// Takes in a line among the complaints, and gives the progress that it tells.
    pub fn on_stderr(&mut self, line: &str) -> (report: Option<ProgressReport>)
        requires
            old(self).well_formed(),
        ensures
            final(self).well_formed(),
            progress::report_view(report) == progress::reported_in_line(line@),
            final(self)@ == download_complained(old(self)@, line@),
    {
        let report: Option<ProgressReport> = parse_ytdlp_progress_line(line);
        if report.is_none() {
            let safe: String = redact(line, self.url.as_str());
            self.diagnostics.push(safe);
        }
        report
    }

    /// The file that was made, once yt-dlp has ended; or what went wrong.
    pub fn finish(&self, success: bool, status: &str) -> (end: Result<String, MediaError>)
        ensures
            download_ended(self@, success, status@, end),
    {
        if !success {
            return Err(MediaError::YtDlp(self.diagnostics.complaint(status)));
        }
        match &self.file {
            Some(file) => Ok(file.clone()),
            None => Err(MediaError::MissingOutput),
        }
    }
}

// ---------------------------------------------------------------------------------------------
// Laws
// ---------------------------------------------------------------------------------------------

/// The arguments end with the address behind a double dash, so that an address is never taken for
/// an option.
pub proof fn address_is_no_option(
    deno: Seq<char>,
    staging: Seq<char>,
    file_names: Seq<Seq<char>>,
    format_spec: Seq<char>,
    merge_container: Option<Seq<char>>,
    mode: DownloadMode,
    url: Seq<char>,
)
    ensures
        ({
            let words = inspection_words(deno, url);
            &&& words[words.len() - 2] == ArgumentView::Text("--"@)
            &&& words[words.len() - 1] == ArgumentView::Text(url)
        }),
        ({
            let words = download_words(
                deno,
                staging,
                file_names,
                format_spec,
                merge_container,
                mode,
                url,
            );
            &&& words[words.len() - 2] == ArgumentView::Text("--"@)
            &&& words[words.len() - 1] == ArgumentView::Text(url)
        }),
{
}

/// A line that belongs to the report is told to nobody, and a line that does not leaves the report
/// as it is.
pub proof fn report_and_activity_are_kept_apart(state: InspectionView, line: Seq<char>)
    ensures
        inspected(state, line).1 is Some ==> inspected(state, line).0 == state,
        inspected(state, line).0.json != state.json ==> inspected(state, line).1 is None,
        inspection_complained(state, line).0.json == state.json,
{
}

/// None of the lines that are kept holds the address, as long as it keeps apart from the mark.
pub proof fn kept_lines_hide_the_address(lines: Seq<Seq<char>>, line: Seq<char>, url: Seq<char>)
    requires
        redact::keeps_apart(url, "[URL]"@),
        forall|i: int| 0 <= i < lines.len() ==> !text::contains(#[trigger] lines[i], url),
    ensures
        forall|i: int|
            0 <= i < noted(lines, line, url).len() ==> !text::contains(
                #[trigger] noted(lines, line, url)[i],
                url,
            ),
{
    redact::redacted_lines_hide_the_address(line, url);
    let all = lines.push(redact::redacted(line, url));
    assert forall|i: int| 0 <= i < noted(lines, line, url).len() implies !text::contains(
        #[trigger] noted(lines, line, url)[i],
        url,
    ) by {
        let k = i + all.len() - noted(lines, line, url).len();
        assert(noted(lines, line, url)[i] == all[k]);
        if k < lines.len() {
            assert(all[k] == lines[k]);
        }
    }
}

/// None of it is in what is told of a failure either, as long as the address is one line and is not
/// part of how the program ended.
pub proof fn complaints_hide_the_address(
    lines: Seq<Seq<char>>,
    status: Seq<char>,
    url: Seq<char>,
)
    requires
        url.len() > 0,
        forall|i: int| 0 <= i < url.len() ==> #[trigger] url[i] != '\n',
        forall|i: int| 0 <= i < lines.len() ==> !text::contains(#[trigger] lines[i], url),
        !text::contains(status, url),
    ensures
        !text::contains(diagnostics::complaint(lines, status), url),
{
    assert forall|i: int| !#[trigger] text::occurs_at(split::join(lines, "\n"@), url, i) by {
        lemma_joined(lines, url, i);
    }
}

proof fn lemma_joined(lines: Seq<Seq<char>>, url: Seq<char>, i: int)
    requires
        url.len() > 0,
        forall|k: int| 0 <= k < url.len() ==> #[trigger] url[k] != '\n',
        forall|k: int| 0 <= k < lines.len() ==> !text::contains(#[trigger] lines[k], url),
    ensures
        !text::occurs_at(split::join(lines, "\n"@), url, i),
    decreases lines.len(),
{
    let whole = split::join(lines, "\n"@);
    let n = url.len() as int;
    if text::occurs_at(whole, url, i) {
        assert(lines.len() > 0);
        let last = lines[lines.len() - 1];
        assert(!text::contains(last, url));
        if lines.len() == 1 {
            assert(!text::occurs_at(last, url, i));
        } else {
            reveal_strlit("\n");
            let first = split::join(lines.drop_last(), "\n"@);
            let m = first.len() as int;
            assert(whole == first + "\n"@ + last);
            if i + n <= m {
                lemma_joined(lines.drop_last(), url, i);
                assert(first.subrange(i, i + n) =~= whole.subrange(i, i + n));
            } else if i > m {
                assert(!text::occurs_at(last, url, i - m - 1));
                assert(last.subrange(i - m - 1, i - m - 1 + n) =~= whole.subrange(i, i + n));
            } else {
                assert(whole[m] == '\n');
                assert(whole.subrange(i, i + n)[m - i] == url[m - i]);
            }
        }
    }
}

/// What is held once the given results were taken in.
pub open spec fn all_inspected(state: InspectionView, lines: Seq<Seq<char>>) -> InspectionView
    decreases lines.len(),
{
    if lines.len() == 0 {
        state
    } else {
        inspected(all_inspected(state, lines.drop_last()), lines.last()).0
    }
}

/// Those of the lines that belong to the report, in order.
pub open spec fn report_text(lines: Seq<Seq<char>>) -> Seq<char>
    decreases lines.len(),
{
    if lines.len() == 0 {
        Seq::empty()
    } else if report_line(lines.last()) {
        report_text(lines.drop_last()) + lines.last() + "\n"@
    } else {
        report_text(lines.drop_last())
    }
}

/// The report is made of the lines that belong to it, whatever else is written between them.
pub proof fn report_is_separated(state: InspectionView, lines: Seq<Seq<char>>)
    ensures
        all_inspected(state, lines) == (InspectionView {
            json: state.json + report_text(lines),
            ..state
        }),
    decreases lines.len(),
{
    if lines.len() > 0 {
        report_is_separated(state, lines.drop_last());
    }
    assert(all_inspected(state, lines) =~= (InspectionView {
        json: state.json + report_text(lines),
        ..state
    }));
}

/// Of several files that are named, the last one counts; a line that names none changes nothing.
pub proof fn last_named_file_counts(state: RunView, earlier: Option<Seq<char>>, later: Seq<char>)
    ensures
        recorded(recorded(state, earlier), Some(later)).file == Some(later),
        recorded(recorded(state, Some(later)), None).file == Some(later),
{
}

} // verus!
