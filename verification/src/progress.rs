//! Reading yt-dlp's progress, and telling it.
use crate::model::{Fraction, JobPhase, ProgressUpdate, UpdateView};
use crate::number;
use crate::number::format_bytes;
use crate::split;
use crate::text;
use vstd::prelude::*;
use vstd::slice::slice_subrange;

verus! {

/// What yt-dlp writes before its progress.
pub const PROGRESS_PREFIX: &'static str = "__YTDLP_WRAPPER_PROGRESS__";

/// Progress as yt-dlp reports it.
#[derive(Debug, PartialEq, Eq)]
pub struct ProgressReport {
    /// The number that stands for the percentage, not read yet.
    pub percent: String,
    pub downloaded_bytes: Option<u64>,
    pub total_bytes: Option<u64>,
    pub speed_bytes_per_second: Option<u64>,
}

/// What a [`ProgressReport`] says.
#[verifier::ext_equal]
pub struct ReportView {
    pub percent: Seq<char>,
    pub downloaded_bytes: Option<u64>,
    pub total_bytes: Option<u64>,
    pub speed_bytes_per_second: Option<u64>,
}

impl View for ProgressReport {
    type V = ReportView;

    open spec fn view(&self) -> ReportView {
        ReportView {
            percent: self.percent@,
            downloaded_bytes: self.downloaded_bytes,
            total_bytes: self.total_bytes,
            speed_bytes_per_second: self.speed_bytes_per_second,
        }
    }
}

/// The number of 64 bits that a text stands for, white space around it apart.
pub open spec fn optional_number(s: Seq<char>) -> Option<u64> {
    match number::unsigned_value(text::trim(s), u64::MAX as nat) {
        Some(n) => Some(n as u64),
        None => None,
    }
}

/// `s` without the characters `c` it ends with.
pub open spec fn without_trailing(s: Seq<char>, c: char) -> Seq<char>
    decreases s.len(),
{
    if s.len() > 0 && s.last() == c {
        without_trailing(s.drop_last(), c)
    } else {
        s
    }
}

/// The progress that a text reports: four fields with bars between them.
pub open spec fn reported(value: Seq<char>) -> Option<ReportView> {
    let fields = split::split(value, '|');
    if fields.len() == 4 {
        Some(
            ReportView {
                percent: without_trailing(text::trim(fields[0]), '%'),
                downloaded_bytes: optional_number(fields[1]),
                total_bytes: optional_number(fields[2]),
                speed_bytes_per_second: optional_number(fields[3]),
            },
        )
    } else {
        None
    }
}

/// The progress that a line reports: what stands behind the mark, wherever that stands.
pub open spec fn reported_in_line(line: Seq<char>) -> Option<ReportView> {
    match text::behind_first(line, PROGRESS_PREFIX@) {
        Some(value) => reported(value),
        None => None,
    }
}

/// What a report says, if there is one.
pub open spec fn report_view(report: Option<ProgressReport>) -> Option<ReportView> {
    match report {
        Some(r) => Some(r@),
        None => None,
    }
}

/// What the user is told of a report, with the fraction that its percentage stands for.
pub open spec fn report_update(report: ReportView, fraction: Option<Fraction>) -> UpdateView {
    UpdateView {
        phase: JobPhase::Downloading,
        fraction,
        downloaded_bytes: report.downloaded_bytes,
        total_bytes: report.total_bytes,
        speed_bytes_per_second: report.speed_bytes_per_second,
        message: "Downloading media…"@,
    }
}

/// The number of 64 bits that a text stands for, white space around it apart.
pub fn optional_u64(value: &str) -> (n: Option<u64>)
    ensures
        n == optional_number(value@),
{
    read_number(text::chars_of(value).as_slice())
}

/// The number of 64 bits that a text stands for, white space around it apart.
fn read_number(value: &[char]) -> (n: Option<u64>)
    ensures
        n == optional_number(value@),
{
    number::parse_unsigned(text::trimmed(value), u64::MAX)
}

/// `s` without the characters `c` it ends with.
fn cut_trailing(s: &[char], c: char) -> (rest: &[char])
    ensures
        rest@ == without_trailing(s@, c),
{
    let mut n: usize = s.len();
    assert(s@.take(s@.len() as int) =~= s@);
    while n > 0 && s[n - 1] == c
        invariant
            n <= s.len(),
            without_trailing(s@, c) == without_trailing(s@.take(n as int), c),
        decreases n,
    {
        assert(s@.take(n as int).drop_last() =~= s@.take(n - 1));
        n -= 1;
    }
    let rest: &[char] = slice_subrange(s, 0, n);
    assert(rest@ =~= s@.take(n as int));
    rest
}

/// The progress that a text reports.
fn read_report(value: &[char]) -> (report: Option<ProgressReport>)
    ensures
        report_view(report) == reported(value@),
{
    let fields: Vec<&[char]> = split::split_at_each(value, '|');
    let ghost views = split::split(value@, '|');
    assert(views.len() == fields@.len());
    if fields.len() != 4 {
        return None;
    }
    assert(views[0] == fields@[0]@ && views[1] == fields@[1]@ && views[2] == fields@[2]@ && views[3]
        == fields@[3]@);
    Some(
        ProgressReport {
            percent: text::string_of(cut_trailing(text::trimmed(fields[0]), '%')),
            downloaded_bytes: read_number(fields[1]),
            total_bytes: read_number(fields[2]),
            speed_bytes_per_second: read_number(fields[3]),
        },
    )
}

/// The progress that a text reports.
pub fn parse_ytdlp_progress(value: &str) -> (report: Option<ProgressReport>)
    ensures
        report_view(report) == reported(value@),
{
    read_report(text::chars_of(value).as_slice())
}

/// The progress that a line reports.
pub fn parse_ytdlp_progress_line(line: &str) -> (report: Option<ProgressReport>)
    ensures
        report_view(report) == reported_in_line(line@),
{
    match text::behind(text::chars_of(line).as_slice(), PROGRESS_PREFIX) {
        Some(value) => read_report(value),
        None => None,
    }
}

impl ProgressReport {
    /// What the user is told of the report, with the fraction that its percentage stands for.
    pub fn update(&self, fraction: Option<Fraction>) -> (update: ProgressUpdate)
        ensures
            update@ == report_update(self@, fraction),
    {
        ProgressUpdate {
            phase: JobPhase::Downloading,
            fraction,
            downloaded_bytes: self.downloaded_bytes,
            total_bytes: self.total_bytes,
            speed_bytes_per_second: self.speed_bytes_per_second,
            message: "Downloading media…".to_owned(),
        }
    }
}

/// An update as one line: its message and, while media is downloaded, what has been fetched of how
/// much and how fast, as far as it is known.
pub open spec fn description(update: UpdateView) -> Seq<char> {
    if update.phase == JobPhase::Downloading {
        update.message + (match (update.downloaded_bytes, update.total_bytes) {
            (Some(done), Some(total)) => " · "@ + number::size_text(done as nat) + " / "@
                + number::size_text(total as nat),
            _ => Seq::empty(),
        }) + (match update.speed_bytes_per_second {
            Some(speed) => " · "@ + number::size_text(speed as nat) + "/s"@,
            None => Seq::empty(),
        })
    } else {
        update.message
    }
}

/// An update as one line.
pub fn describe_progress(update: &ProgressUpdate) -> (line: String)
    ensures
        line@ == description(update@),
{
    let mut line: String = update.message.clone();
    if update.phase == JobPhase::Downloading {
        if let (Some(done), Some(total)) = (update.downloaded_bytes, update.total_bytes) {
            line.append(" · ");
            line.append(format_bytes(done).as_str());
            line.append(" / ");
            line.append(format_bytes(total).as_str());
        }
        if let Some(speed) = update.speed_bytes_per_second {
            line.append(" · ");
            line.append(format_bytes(speed).as_str());
            line.append("/s");
        }
    }
    assert(line@ =~= description(update@));
    line
}

// ---------------------------------------------------------------------------------------------
// Laws
// ---------------------------------------------------------------------------------------------

/// Progress is found behind the mark whatever stands before it, as long as the mark does not begin
/// there.
pub proof fn progress_is_found_behind_the_mark(before: Seq<char>, value: Seq<char>)
    requires
        forall|i: int|
            0 <= i < before.len() ==> !#[trigger] text::occurs_at(
                before + PROGRESS_PREFIX@ + value,
                PROGRESS_PREFIX@,
                i,
            ),
    ensures
        reported_in_line(before + PROGRESS_PREFIX@ + value) == reported(value),
{
    lemma_behind(before, PROGRESS_PREFIX@, value);
}

/// Behind a mark that does not begin earlier stands what follows it.
pub proof fn lemma_behind(before: Seq<char>, mark: Seq<char>, value: Seq<char>)
    requires
        forall|i: int|
            0 <= i < before.len() ==> !#[trigger] text::occurs_at(before + mark + value, mark, i),
    ensures
        text::behind_first(before + mark + value, mark) == Some(value),
    decreases before.len(),
{
    let s = before + mark + value;
    if before.len() == 0 {
        assert(s.subrange(0, mark.len() as int) =~= mark);
        assert(s.skip(mark.len() as int) =~= value);
    } else {
        let rest = before.drop_first();
        assert(!text::occurs_at(s, mark, 0));
        assert(s.drop_first() =~= rest + mark + value);
        assert forall|i: int| 0 <= i < rest.len() implies !#[trigger] text::occurs_at(
            rest + mark + value,
            mark,
            i,
        ) by {
            assert(!text::occurs_at(s, mark, i + 1));
            if text::occurs_at(rest + mark + value, mark, i) {
                assert(s.subrange(i + 1, i + 1 + mark.len()) =~= (rest + mark + value).subrange(
                    i,
                    i + mark.len(),
                ));
            }
        }
        lemma_behind(rest, mark, value);
    }
}

/// A description begins with the message, and outside of downloading says nothing else.
pub proof fn description_begins_with_the_message(update: UpdateView)
    ensures
        text::starts_with(description(update), update.message),
        update.phase != JobPhase::Downloading ==> description(update) == update.message,
{
    assert(description(update).subrange(0, update.message.len() as int) =~= update.message);
}

/// A number that yt-dlp writes in full is read back, and one that it does not know stays unknown.
pub proof fn written_numbers_are_read(n: u64)
    ensures
        optional_number(number::decimal(n as nat)) == Some(n),
        optional_number("NA"@) is None,
{
    let s = number::decimal(n as nat);
    number::decimal_stands_for_the_number(n as nat);
    number::decimal_reads_back(n as nat, u64::MAX as nat);
    assert(number::is_digit(s.first()) && number::is_digit(s.last()));
    assert(text::trim(s) == s);
    reveal_strlit("NA");
    let na = "NA"@;
    assert(text::trim(na) == na);
    assert(!number::is_digit(na[0]));
    if text::starts_with(na, seq!['+']) {
        assert(na.subrange(0, 1)[0] == '+');
    }
}

} // verus!
