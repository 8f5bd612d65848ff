//! How progress is read and told.
use crate::activity;
use crate::laws::reading;
use crate::model::{Fraction, JobPhase, UpdateView};
use crate::number;
use crate::progress;
use crate::progress::ReportView;
use crate::split;
use crate::text;
use vstd::prelude::*;

verus! {

// ---------------------------------------------------------------------------------------------
// Numbers
// ---------------------------------------------------------------------------------------------

/// A number in digits is read whatever white space stands around it, as long as 64 bits hold it.
pub proof fn numbers_are_read_between_white_space(before: Seq<char>, n: nat, after: Seq<char>)
    requires
        reading::blank(before),
        reading::blank(after),
    ensures
        progress::optional_number(before + number::decimal(n) + after) == if n <= u64::MAX {
            Some(n as u64)
        } else {
            None
        },
{
    let digits = number::decimal(n);
    number::decimal_stands_for_the_number(n);
    assert(number::is_digit(digits[0]) && number::is_digit(digits[digits.len() - 1]));
    lemma_trimmed(before, digits, after);
    if n <= u64::MAX {
        number::decimal_reads_back(n, u64::MAX as nat);
    } else if text::starts_with(digits, seq!['+']) {
        assert(digits.subrange(0, 1)[0] == '+');
    }
}

/// A text without the plus sign that it may begin with.
pub open spec fn behind_a_plus(s: Seq<char>) -> Seq<char> {
    if s.len() > 0 && s[0] == '+' {
        s.skip(1)
    } else {
        s
    }
}

/// What is read as a number is written in digits alone, a plus sign before them apart, and stands
/// for it: nothing else is taken for one.
pub proof fn only_digits_are_read(s: Seq<char>, n: u64)
    requires
        progress::optional_number(s) == Some(n),
    ensures
        ({
            let digits = behind_a_plus(text::trim(s));
            &&& digits.len() > 0
            &&& forall|i: int| 0 <= i < digits.len() ==> '0' <= #[trigger] digits[i] <= '9'
            &&& number::digits_value(digits) == n
        }),
{
    let t = text::trim(s);
    if text::starts_with(t, seq!['+']) {
        assert(t.subrange(0, 1)[0] == '+');
        assert(t.skip(1) =~= t.drop_first());
    } else if t.len() > 0 && t[0] == '+' {
        assert(t.subrange(0, 1) =~= seq!['+']);
    }
    assert(number::unsigned_value(t, u64::MAX as nat) is Some);
}

proof fn lemma_trimmed(before: Seq<char>, inner: Seq<char>, after: Seq<char>)
    requires
        reading::blank(before),
        reading::blank(after),
        inner.len() > 0,
        !text::is_space(inner[0]),
        !text::is_space(inner[inner.len() - 1]),
    ensures
        text::trim(before + inner + after) == inner,
{
    let s = before + inner + after;
    assert(s =~= before + (inner + after));
    reading::lemma_blank_is_cut(before, inner + after);
    lemma_end_cut(inner, after);
}

proof fn lemma_end_cut(t: Seq<char>, after: Seq<char>)
    requires
        reading::blank(after),
        t.len() > 0 && !text::is_space(t[t.len() - 1]),
    ensures
        text::trim_end(t + after) == t,
    decreases after.len(),
{
    let s = t + after;
    if after.len() > 0 {
        assert(text::is_space(after[after.len() - 1]));
        assert(s.drop_last() =~= t + after.drop_last());
        assert forall|i: int| 0 <= i < after.drop_last().len() implies text::is_space(
            #[trigger] after.drop_last()[i],
        ) by {
            assert(text::is_space(after[i]));
        }
        lemma_end_cut(t, after.drop_last());
    } else {
        assert(s =~= t);
    }
}

// ---------------------------------------------------------------------------------------------
// Reports
// ---------------------------------------------------------------------------------------------

/// No bar stands in the field.
pub open spec fn field(s: Seq<char>) -> bool {
    forall|i: int| 0 <= i < s.len() ==> #[trigger] s[i] != '|'
}

/// `t` is `s` without the percent signs behind it.
pub open spec fn percent_signs_cut(s: Seq<char>, t: Seq<char>) -> bool {
    &&& t.len() > 0 ==> t[t.len() - 1] != '%'
    &&& exists|signs: Seq<char>|
        (forall|i: int| 0 <= i < signs.len() ==> #[trigger] signs[i] == '%') && s == #[trigger] (t
            + signs)
}

/// Four fields with bars between them are a report: the percentage without white space around it
/// and without percent signs behind it, what has been fetched, of how much, and how fast.
pub proof fn four_fields_are_a_report(
    percent: Seq<char>,
    done: Seq<char>,
    total: Seq<char>,
    speed: Seq<char>,
)
    requires
        field(percent) && field(done) && field(total) && field(speed),
    ensures
        ({
            let bar = seq!['|'];
            match progress::reported(percent + bar + (done + bar + (total + bar + speed))) {
                Some(report) => {
                    &&& report.downloaded_bytes == progress::optional_number(done)
                    &&& report.total_bytes == progress::optional_number(total)
                    &&& report.speed_bytes_per_second == progress::optional_number(speed)
                    &&& percent_signs_cut(text::trim(percent), report.percent)
                },
                None => false,
            }
        }),
{
    let bar = seq!['|'];
    let c = total + bar + speed;
    let b = done + bar + c;
    let a = percent + bar + b;
    lemma_field(percent, b);
    lemma_field(done, c);
    lemma_field(total, speed);
    lemma_last_field(speed);
    assert(split::split(a, '|') =~= seq![percent, done, total, speed]);
    lemma_signs(text::trim(percent));
}

/// Fewer or more fields are no report.
pub proof fn other_numbers_of_fields_are_none(
    one: Seq<char>,
    two: Seq<char>,
    three: Seq<char>,
    four: Seq<char>,
    rest: Seq<char>,
)
    requires
        field(one) && field(two) && field(three) && field(four),
    ensures
        ({
            let bar = seq!['|'];
            &&& progress::reported(one) is None
            &&& progress::reported(one + bar + two) is None
            &&& progress::reported(one + bar + (two + bar + three)) is None
            &&& progress::reported(
                one + bar + (two + bar + (three + bar + (four + bar + rest))),
            ) is None
        }),
{
    let bar = seq!['|'];
    lemma_last_field(one);
    lemma_last_field(two);
    lemma_last_field(three);
    lemma_field(one, two);
    lemma_field(two, three);
    lemma_field(one, two + bar + three);
    let d = four + bar + rest;
    let c = three + bar + d;
    let b = two + bar + c;
    lemma_field(four, rest);
    lemma_field(three, d);
    lemma_field(two, c);
    lemma_field(one, b);
    reading::pieces_make_the_whole(rest, '|');
}

proof fn lemma_field(first: Seq<char>, rest: Seq<char>)
    requires
        field(first),
    ensures
        split::split(first + seq!['|'] + rest, '|') == seq![first] + split::split(rest, '|'),
{
    let whole = first + seq!['|'] + rest;
    let n = first.len() as int;
    split::lemma_until_is(whole, '|', n);
    assert(whole.take(n) =~= first);
    assert(whole.skip(n + 1) =~= rest);
}

proof fn lemma_last_field(s: Seq<char>)
    requires
        field(s),
    ensures
        split::split(s, '|') == seq![s],
{
    split::lemma_until_is(s, '|', s.len() as int);
}

proof fn lemma_signs(s: Seq<char>)
    ensures
        percent_signs_cut(s, progress::without_trailing(s, '%')),
    decreases s.len(),
{
    let t = progress::without_trailing(s, '%');
    if s.len() > 0 && s.last() == '%' {
        lemma_signs(s.drop_last());
        let signs = choose|signs: Seq<char>|
            (forall|i: int| 0 <= i < signs.len() ==> #[trigger] signs[i] == '%') && s.drop_last()
                == #[trigger] (t + signs);
        let all = signs.push('%');
        assert(s =~= s.drop_last().push('%'));
        assert(t + all =~= (t + signs).push('%'));
    } else {
        assert(s =~= t + Seq::<char>::empty());
    }
}

/// A line without the mark reports nothing.
pub proof fn unmarked_lines_report_nothing(line: Seq<char>)
    requires
        !text::contains(line, "__YTDLP_WRAPPER_PROGRESS__"@),
    ensures
        progress::reported_in_line(line) is None,
    decreases line.len(),
{
    let mark = "__YTDLP_WRAPPER_PROGRESS__"@;
    assert(!text::occurs_at(line, mark, 0));
    if line.len() > 0 {
        let rest = line.drop_first();
        assert forall|i: int| !#[trigger] text::occurs_at(rest, mark, i) by {
            assert(!text::occurs_at(line, mark, i + 1));
            if text::occurs_at(rest, mark, i) {
                assert(line.subrange(i + 1, i + 1 + mark.len()) =~= rest.subrange(
                    i,
                    i + mark.len(),
                ));
            }
        }
        unmarked_lines_report_nothing(rest);
    }
}

/// The user is told the numbers of a report as they are, in the phase of downloading.
pub proof fn reports_are_told_as_they_are(report: ReportView, fraction: Option<Fraction>)
    ensures
        ({
            let update = progress::report_update(report, fraction);
            &&& update.phase == JobPhase::Downloading
            &&& update.fraction == fraction
            &&& update.downloaded_bytes == report.downloaded_bytes
            &&& update.total_bytes == report.total_bytes
            &&& update.speed_bytes_per_second == report.speed_bytes_per_second
            &&& update.message == "Downloading media…"@
        }),
{
}

/// While media is downloaded, what has been fetched is told where the whole is known too, and the
/// speed where it is known, each behind a dot; in any other phase the message alone.
pub proof fn what_is_known_is_described(update: UpdateView)
    ensures
        ({
            let line = progress::description(update);
            let amounts = match (update.downloaded_bytes, update.total_bytes) {
                (Some(done), Some(total)) => " · "@ + number::size_text(done as nat) + " / "@
                    + number::size_text(total as nat),
                _ => ""@,
            };
            let speed = match update.speed_bytes_per_second {
                Some(speed) => " · "@ + number::size_text(speed as nat) + "/s"@,
                None => ""@,
            };
            line == if update.phase == JobPhase::Downloading {
                update.message + amounts + speed
            } else {
                update.message
            }
        }),
{
    reveal_strlit("");
    assert(""@ =~= Seq::empty());
}

/// A size is told with one digit behind the point, in the largest of four units that it reaches, to
/// the nearest tenth.
pub proof fn sizes_are_told_to_the_nearest_tenth(n: nat)
    requires
        n < 0x20_0000_0000_0000,
    ensures
        exists|whole: nat, tenth: nat|
            #![trigger number::decimal(whole), number::digit(tenth)]
            {
                let told = 10 * whole + tenth;
                let (size, unit) = if n < 1024 {
                    (1int, "B"@)
                } else if n < 1024 * 1024 {
                    (1024int, "KiB"@)
                } else if n < 1024 * 1024 * 1024 {
                    (1024 * 1024int, "MiB"@)
                } else {
                    (1024 * 1024 * 1024int, "GiB"@)
                };
                &&& tenth < 10
                &&& number::size_text(n) == number::decimal(whole) + "."@ + seq![
                    number::digit(tenth),
                ] + " "@ + unit
                &&& 2 * (told * size - 10 * n) <= size
                &&& 2 * (10 * n - told * size) <= size
            },
{
    assert(number::nearest_double(n) == n) by {
        assert(number::spacing(n) == 1);
        assert(number::half_even(n, 1) == n) by (nonlinear_arith)
            requires
                number::half_even(n, 1) == (if 2 * (n % 1) < 1 || (2 * (n % 1) == 1 && (n / 1) % 2
                    == 0) {
                    n / 1
                } else {
                    n / 1 + 1
                }),
        ;
        assert(n * 1 == n) by (nonlinear_arith);
    }
    let size = number::unit_size(n);
    let told = number::half_even(n * 10, size);
    let whole = told / 10;
    let tenth = told % 10;
    assert(told == 10 * whole + tenth);
    assert(2 * (told * size - 10 * n) <= size && 2 * (10 * n - told * size) <= size) by {
        let m = n * 10;
        let q = m / size;
        let r = m % size;
        assert(m == q * size + r && r < size) by (nonlinear_arith)
            requires
                q == m / size,
                r == m % size,
                size > 0,
        ;
        assert((q + 1) * size == q * size + size) by (nonlinear_arith);
    }
    let d = number::decimal(whole);
    let c = number::digit(tenth);
    assert(number::size_text(n) == d + "."@ + seq![c] + " "@ + number::unit_name(size));
}

// ---------------------------------------------------------------------------------------------
// Activity
// ---------------------------------------------------------------------------------------------

/// The line is one of an activity: it begins with a bracket, and not with that of what is told to
/// developers.
pub open spec fn activity_line(line: Seq<char>) -> bool {
    text::starts_with(text::trim(line), "["@) && !text::starts_with(text::trim(line), "[debug]"@)
}

/// The line names one of the two, white space around it apart.
pub open spec fn names(line: Seq<char>, one: Seq<char>, other: Seq<char>) -> bool {
    text::contains(text::trim(line), one) || text::contains(text::trim(line), other)
}

/// What is told of a line is what the line names; and of a line of an activity that names something
/// that is known, something is told.
pub proof fn activities_are_told_by_what_they_name(line: Seq<char>)
    ensures
        match activity::inspection_stage(line) {
            Some(update) => {
                &&& activity_line(line)
                &&& update.phase == JobPhase::Inspecting
                &&& update.fraction is None && update.downloaded_bytes is None
                    && update.total_bytes is None && update.speed_bytes_per_second is None
                &&& {
                    ||| update.message == "Connecting to the video site…"@ && names(
                        line,
                        ": Extracting URL:"@,
                        "] Extracting URL:"@,
                    )
                    ||| update.message == "Loading video page…"@ && names(
                        line,
                        ": Downloading webpage"@,
                        ": Downloading webpage"@,
                    )
                    ||| update.message == "Resolving playback checks…"@ && names(
                        line,
                        "Solving JS challenges"@,
                        "Solving JS challenges"@,
                    )
                    ||| update.message == "Preparing playback checks…"@ && names(
                        line,
                        "Downloading challenge solver"@,
                        "Downloading challenge solver"@,
                    )
                    ||| update.message == "Fetching player information…"@ && names(
                        line,
                        "player API JSON"@,
                        "player API JSON"@,
                    )
                    ||| update.message == "Loading video player…"@ && names(
                        line,
                        ": Downloading player "@,
                        ": Downloading player "@,
                    )
                    ||| update.message == "Reading available streams…"@ && (names(
                        line,
                        "Downloading m3u8"@,
                        "Downloading MPD"@,
                    ) || names(line, "Downloading f4m"@, "Downloading ISM"@))
                    ||| update.message == "Fetching video information…"@ && names(
                        line,
                        ": Downloading JSON metadata"@,
                        ": Downloading API JSON"@,
                    )
                }
            },
            None => activity_line(line) ==> {
                &&& !names(line, ": Extracting URL:"@, "] Extracting URL:"@)
                &&& !names(line, ": Downloading webpage"@, "Solving JS challenges"@)
                &&& !names(line, "Downloading challenge solver"@, "player API JSON"@)
                &&& !names(line, ": Downloading player "@, "Downloading m3u8"@)
                &&& !names(line, "Downloading MPD"@, "Downloading f4m"@)
                &&& !names(line, "Downloading ISM"@, ": Downloading JSON metadata"@)
                &&& !names(line, ": Downloading API JSON"@, ": Downloading API JSON"@)
            },
        },
{
}

/// Of a line that names several things the first in this order is told: the address, the page, the
/// challenges, their solver, the player's information, the player, the streams, the information.
pub proof fn earlier_stages_come_first(line: Seq<char>)
    requires
        activity_line(line),
    ensures
        ({
            &&& (names(line, ": Extracting URL:"@, "] Extracting URL:"@))
        }) ==> told_as(line, "Connecting to the video site…"@),
        ({
            &&& (names(line, ": Downloading webpage"@, ": Downloading webpage"@))
            &&& !names(line, ": Extracting URL:"@, "] Extracting URL:"@)
        }) ==> told_as(line, "Loading video page…"@),
        ({
            &&& (names(line, "Solving JS challenges"@, "Solving JS challenges"@))
            &&& !names(line, ": Extracting URL:"@, "] Extracting URL:"@)
            &&& !names(line, ": Downloading webpage"@, ": Downloading webpage"@)
        }) ==> told_as(line, "Resolving playback checks…"@),
        ({
            &&& (names(line, "Downloading challenge solver"@, "Downloading challenge solver"@))
            &&& !names(line, ": Extracting URL:"@, "] Extracting URL:"@)
            &&& !names(line, ": Downloading webpage"@, ": Downloading webpage"@)
            &&& !names(line, "Solving JS challenges"@, "Solving JS challenges"@)
        }) ==> told_as(line, "Preparing playback checks…"@),
        ({
            &&& (names(line, "player API JSON"@, "player API JSON"@))
            &&& !names(line, ": Extracting URL:"@, "] Extracting URL:"@)
            &&& !names(line, ": Downloading webpage"@, ": Downloading webpage"@)
            &&& !names(line, "Solving JS challenges"@, "Solving JS challenges"@)
            &&& !names(line, "Downloading challenge solver"@, "Downloading challenge solver"@)
        }) ==> told_as(line, "Fetching player information…"@),
        ({
            &&& (names(line, ": Downloading player "@, ": Downloading player "@))
            &&& !names(line, ": Extracting URL:"@, "] Extracting URL:"@)
            &&& !names(line, ": Downloading webpage"@, ": Downloading webpage"@)
            &&& !names(line, "Solving JS challenges"@, "Solving JS challenges"@)
            &&& !names(line, "Downloading challenge solver"@, "Downloading challenge solver"@)
            &&& !names(line, "player API JSON"@, "player API JSON"@)
        }) ==> told_as(line, "Loading video player…"@),
        ({
            &&& (names(line, "Downloading m3u8"@, "Downloading MPD"@) || names(line, "Downloading f4m"@, "Downloading ISM"@))
            &&& !names(line, ": Extracting URL:"@, "] Extracting URL:"@)
            &&& !names(line, ": Downloading webpage"@, ": Downloading webpage"@)
            &&& !names(line, "Solving JS challenges"@, "Solving JS challenges"@)
            &&& !names(line, "Downloading challenge solver"@, "Downloading challenge solver"@)
            &&& !names(line, "player API JSON"@, "player API JSON"@)
            &&& !names(line, ": Downloading player "@, ": Downloading player "@)
        }) ==> told_as(line, "Reading available streams…"@),
        ({
            &&& (names(line, ": Downloading JSON metadata"@, ": Downloading API JSON"@))
            &&& !names(line, ": Extracting URL:"@, "] Extracting URL:"@)
            &&& !names(line, ": Downloading webpage"@, ": Downloading webpage"@)
            &&& !names(line, "Solving JS challenges"@, "Solving JS challenges"@)
            &&& !names(line, "Downloading challenge solver"@, "Downloading challenge solver"@)
            &&& !names(line, "player API JSON"@, "player API JSON"@)
            &&& !names(line, ": Downloading player "@, ": Downloading player "@)
            &&& !names(line, "Downloading m3u8"@, "Downloading MPD"@)
            &&& !names(line, "Downloading f4m"@, "Downloading ISM"@)
        }) ==> told_as(line, "Fetching video information…"@),
{
}

/// The user is told `message` of the line.
pub open spec fn told_as(line: Seq<char>, message: Seq<char>) -> bool {
    activity::inspection_stage(line) matches Some(update) && update.message == message
}

/// From the tenth second of a step on, each tick tells how many whole seconds it has taken; nothing
/// else of what is shown changes. Before, and where nothing is shown, nothing is told.
pub proof fn steps_are_timed_from_the_tenth_second(shown: UpdateView, started: u64, now: u64)
    ensures
        activity::ticked(None, now) is None,
        match activity::ticked(Some((shown, started)), now) {
            Some(update) => {
                &&& now >= started + 10_000_000_000
                &&& update.phase == shown.phase
                &&& update.fraction == shown.fraction
                &&& update.downloaded_bytes == shown.downloaded_bytes
                &&& update.total_bytes == shown.total_bytes
                &&& update.speed_bytes_per_second == shown.speed_bytes_per_second
                &&& exists|seconds: nat| #[trigger]
                    activity::timed(shown.message, seconds) == update.message && started
                        + seconds * 1_000_000_000 <= now < started + (seconds + 1) * 1_000_000_000
            },
            None => now < started + 10_000_000_000,
        },
{
    let seconds = activity::seconds(started, now);
    assert(activity::timed(shown.message, seconds) == activity::timed(shown.message, seconds));
}

/// A step that cannot be measured, in the phases before a download and without a fraction, is told
/// and timed from now on, unless it is the one that is shown, which goes on. Anything else is told
/// and ends the timing.
pub proof fn steps_are_told_once(
    current: Option<(UpdateView, u64)>,
    update: UpdateView,
    now: u64,
)
    ensures
        ({
            let (next, told) = activity::updated(current, update, now);
            let shown = match current {
                Some((step, _)) => step.phase == update.phase && step.message == update.message,
                None => false,
            };
            if (update.phase == JobPhase::Inspecting || update.phase == JobPhase::Preparing)
                && update.fraction is None {
                if shown {
                    next == current && !told
                } else {
                    next == Some((update, now)) && told
                }
            } else {
                next is None && told
            }
        }),
{
}

} // verus!
