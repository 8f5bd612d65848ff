//! Which failures are worth another attempt, and when it is made.
use crate::error::ErrorView;
use crate::model::{JobPhase, UpdateView};
use crate::number;
use crate::outside;
use crate::progress;
use crate::retry;
use crate::retry::{ActionView, RetriesView, RetryReason};
use crate::split;
use crate::text;
use vstd::prelude::*;

verus! {

// ---------------------------------------------------------------------------------------------
// Which failures
// ---------------------------------------------------------------------------------------------

/// `line` is the last line of a complaint that begins with `error:`.
pub open spec fn last_error(lines: Seq<Seq<char>>, line: Seq<char>) -> bool {
    exists|i: int|
        {
            &&& 0 <= i < lines.len()
            &&& #[trigger] lines[i] == line
            &&& text::starts_with(line, "error:"@)
            &&& forall|j: int|
                i < j < lines.len() ==> !text::starts_with(#[trigger] lines[j], "error:"@)
        }
}

/// The line tells of a connection that was cut, or of one that did not come about in time.
pub open spec fn connection_broke(line: Seq<char>) -> bool {
    ||| text::contains(line, "timed out"@)
    ||| text::contains(line, "connection reset"@)
    ||| text::contains(line, "connection aborted"@)
    ||| text::contains(line, "remote end closed connection"@)
    ||| text::contains(line, "temporary failure in name resolution"@)
}

/// The host is YouTube's: one of its two names, or a name under the longer one.
pub open spec fn of_youtube(host: Option<Seq<char>>) -> bool {
    host matches Some(h) && {
        ||| h == "youtu.be"@
        ||| h == "youtube.com"@
        ||| exists|below: Seq<char>| h == #[trigger] (below + ".youtube.com"@)
    }
}

/// Which hosts are YouTube's.
pub proof fn youtube_is_known_by_its_names(host: Option<Seq<char>>)
    ensures
        retry::youtube_host(host) == of_youtube(host),
{
    let end = ".youtube.com"@;
    if let Some(h) = host {
        if text::ends_with(h, end) {
            let below = h.take(h.len() - end.len());
            assert(h =~= below + end);
        }
        if exists|below: Seq<char>| h == #[trigger] (below + end) {
            let below = choose|below: Seq<char>| h == #[trigger] (below + end);
            assert(h.subrange(h.len() - end.len(), h.len() as int) =~= end);
        }
    }
}

/// The last line about an error decides, and a complaint without such a line is final.
pub proof fn the_last_error_decides(lowered: Seq<char>, host: Option<Seq<char>>)
    ensures
        ({
            let lines = split::lines(retry::straightened(lowered));
            &&& forall|line: Seq<char>| #[trigger]
                last_error(lines, line) ==> retry::failure_reason(lowered, host)
                    == retry::line_reason(line, of_youtube(host))
            &&& (forall|line: Seq<char>| !#[trigger] last_error(lines, line))
                ==> retry::failure_reason(lowered, host) is None
        }),
{
    let lines = split::lines(retry::straightened(lowered));
    youtube_is_known_by_its_names(host);
    lemma_last_starting(lines);
    assert forall|line: Seq<char>| #[trigger] last_error(lines, line) implies retry::last_starting(
        lines,
        "error:"@,
    ) == Some(line) by {
        lemma_last_starting_is(lines, line);
    }
}

proof fn lemma_last_starting(lines: Seq<Seq<char>>)
    ensures
        retry::last_starting(lines, "error:"@) matches Some(line) ==> last_error(lines, line),
    decreases lines.len(),
{
    if lines.len() > 0 {
        let first = lines.drop_last();
        lemma_last_starting(first);
        if text::starts_with(lines.last(), "error:"@) {
            assert(lines[lines.len() - 1] == lines.last());
        } else if let Some(line) = retry::last_starting(first, "error:"@) {
            let i = choose|i: int|
                {
                    &&& 0 <= i < first.len()
                    &&& #[trigger] first[i] == line
                    &&& text::starts_with(line, "error:"@)
                    &&& forall|j: int|
                        i < j < first.len() ==> !text::starts_with(#[trigger] first[j], "error:"@)
                };
            assert(lines[i] == line);
            assert forall|j: int| i < j < lines.len() implies !text::starts_with(
                #[trigger] lines[j],
                "error:"@,
            ) by {
                if j < first.len() {
                    assert(first[j] == lines[j]);
                }
            }
        }
    }
}

proof fn lemma_last_starting_is(lines: Seq<Seq<char>>, line: Seq<char>)
    requires
        last_error(lines, line),
    ensures
        retry::last_starting(lines, "error:"@) == Some(line),
    decreases lines.len(),
{
    let i = choose|i: int|
        {
            &&& 0 <= i < lines.len()
            &&& #[trigger] lines[i] == line
            &&& text::starts_with(line, "error:"@)
            &&& forall|j: int|
                i < j < lines.len() ==> !text::starts_with(#[trigger] lines[j], "error:"@)
        };
    if i < lines.len() - 1 {
        let first = lines.drop_last();
        assert(!text::starts_with(lines[lines.len() - 1], "error:"@));
        assert(first[i] == line);
        assert(forall|j: int| 0 <= j < first.len() ==> first[j] == lines[j]);
        assert(last_error(first, line));
        lemma_last_starting_is(first, line);
    }
}

/// A connection that broke is worth another attempt on every host, YouTube's or not, as long as the
/// line reports no status and YouTube does not ask to sign in.
pub proof fn broken_connections_are_retried_on_every_host(
    lowered: Seq<char>,
    host: Option<Seq<char>>,
    line: Seq<char>,
)
    requires
        last_error(split::lines(retry::straightened(lowered)), line),
        !text::contains(line, "http error "@),
        !text::contains(line, "sign in to confirm you're not a bot"@),
        connection_broke(line),
    ensures
        retry::failure_reason(lowered, host) == Some(RetryReason::Network),
{
    the_last_error_decides(lowered, host);
    lemma_no_status(line);
}

/// The host matters only to whether a failure counts as blocking: where the reasons on two hosts
/// differ, the one is that YouTube blocks, and the hosts are not both YouTube's nor both others'.
pub proof fn hosts_matter_to_blocking_alone(
    lowered: Seq<char>,
    one: Option<Seq<char>>,
    other: Option<Seq<char>>,
)
    requires
        retry::failure_reason(lowered, one) != retry::failure_reason(lowered, other),
    ensures
        retry::failure_reason(lowered, one) == Some(RetryReason::Blocked)
            || retry::failure_reason(lowered, other) == Some(RetryReason::Blocked),
        of_youtube(one) != of_youtube(other),
        retry::failure_reason(lowered, one) == Some(RetryReason::Blocked) ==> of_youtube(one),
        retry::failure_reason(lowered, other) == Some(RetryReason::Blocked) ==> of_youtube(other),
{
    youtube_is_known_by_its_names(one);
    youtube_is_known_by_its_names(other);
}

/// A status decides alone: too many requests on any host, a request that was refused on YouTube, and
/// on any host a server that is late, broken or away. No other status is worth another attempt,
/// whatever else the line says.
pub proof fn statuses_decide(line: Seq<char>, youtube: bool, status: nat)
    requires
        retry::http_code(line) == Some(status),
    ensures
        retry::line_reason(line, youtube) == Some(RetryReason::RateLimited) <==> status == 429,
        retry::line_reason(line, youtube) == Some(RetryReason::Blocked) <==> status == 403
            && youtube,
        retry::line_reason(line, youtube) == Some(RetryReason::Network) <==> status == 408 || status
            == 500 || (502 <= status <= 504),
{
}

/// Without a status the words of the line decide: YouTube's demand to sign in blocks, a connection
/// that broke is worth another attempt, and nothing else is.
pub proof fn words_decide_without_a_status(line: Seq<char>, youtube: bool)
    requires
        retry::http_code(line) is None,
    ensures
        retry::line_reason(line, youtube) == Some(RetryReason::Blocked) <==> youtube
            && text::contains(line, "sign in to confirm you're not a bot"@),
        retry::line_reason(line, youtube) == Some(RetryReason::Network) <==> connection_broke(line)
            && !(youtube && text::contains(line, "sign in to confirm you're not a bot"@)),
        retry::line_reason(line, youtube) != Some(RetryReason::RateLimited),
{
}

/// The status is the number behind the first `http error `, up to the first character that is no
/// digit; a line without these words reports none, nor does one without digits behind them.
pub proof fn statuses_are_read(before: Seq<char>, status: nat, after: Seq<char>)
    requires
        after.len() > 0 ==> !number::is_digit(after[0]),
        forall|i: int|
            0 <= i < before.len() ==> !#[trigger] text::occurs_at(
                before + "http error "@ + (number::decimal(status) + after),
                "http error "@,
                i,
            ),
    ensures
        retry::http_code(before + "http error "@ + (number::decimal(status) + after)) == if status
            <= 65535 {
            Some(status)
        } else {
            None
        },
{
    let digits = number::decimal(status);
    progress::lemma_behind(before, "http error "@, digits + after);
    number::decimal_stands_for_the_number(status);
    lemma_digit_count(digits, after);
    assert((digits + after).take(digits.len() as int) =~= digits);
    if status <= 65535 {
        number::decimal_reads_back(status, 65535);
    } else {
        assert(number::is_digit(digits[0]));
        if text::starts_with(digits, seq!['+']) {
            assert(digits.subrange(0, 1)[0] == '+');
        }
    }
}

proof fn lemma_digit_count(digits: Seq<char>, after: Seq<char>)
    requires
        number::all_digits(digits),
        after.len() > 0 ==> !number::is_digit(after[0]),
    ensures
        retry::digit_count(digits + after) == digits.len(),
    decreases digits.len(),
{
    let whole = digits + after;
    if digits.len() > 0 {
        assert(number::is_digit(digits[0]));
        assert(whole.drop_first() =~= digits.drop_first() + after);
        lemma_digit_count(digits.drop_first(), after);
    } else {
        assert(whole =~= after);
    }
}

/// A line that does not speak of an HTTP error reports no status.
pub proof fn lines_without_a_status(line: Seq<char>)
    requires
        !text::contains(line, "http error "@),
    ensures
        retry::http_code(line) is None,
{
    lemma_no_status(line);
}

proof fn lemma_no_status(line: Seq<char>)
    requires
        !text::contains(line, "http error "@),
    ensures
        retry::http_code(line) is None,
    decreases line.len(),
{
    let mark = "http error "@;
    assert(!text::occurs_at(line, mark, 0));
    if line.len() > 0 {
        let rest = line.drop_first();
        assert forall|i: int| !#[trigger] text::occurs_at(rest, mark, i) by {
            assert(!text::occurs_at(line, mark, i + 1));
            if text::occurs_at(rest, mark, i) {
                assert(line.subrange(i + 1, i + 1 + mark.len()) =~= rest.subrange(
                    i,
                    i + mark.len(),
                ));
            }
        }
        lemma_no_status(rest);
    }
}

/// Typographic apostrophes are read as typewriter ones, and nothing else is changed.
pub proof fn apostrophes_are_straightened(s: Seq<char>, i: int)
    requires
        0 <= i < s.len(),
    ensures
        retry::straightened(s).len() == s.len(),
        s[i] == '\u{2019}' ==> retry::straightened(s)[i] == '\'',
        s[i] != '\u{2019}' ==> retry::straightened(s)[i] == s[i],
{
}

/// What yt-dlp wrote is read in lower case, with the host of the address; what any other error says
/// is not read at all.
pub proof fn complaints_are_read_in_lower_case(url: Seq<char>, error: ErrorView)
    ensures
        retry::reason_for(url, error) == match error {
            ErrorView::YtDlp(details) => retry::failure_reason(
                outside::lowercase(details),
                outside::url_host(url),
            ),
            _ => None,
        },
{
}

// ---------------------------------------------------------------------------------------------
// When
// ---------------------------------------------------------------------------------------------

/// What the user is told of a reason.
pub open spec fn sentence_for(why: RetryReason) -> Seq<char> {
    match why {
        RetryReason::Blocked => "YouTube temporarily blocked the request."@,
        RetryReason::RateLimited => "The site is limiting requests."@,
        RetryReason::Network => "The connection was interrupted."@,
    }
}

/// The user is told of another attempt, with what was reached set back to nothing.
pub open spec fn tells_of_another(update: UpdateView, message: Seq<char>) -> bool {
    &&& update.phase == JobPhase::Retrying
    &&& update.fraction matches Some(fraction) && fraction.bits == 0
    &&& update.downloaded_bytes is None
    &&& update.total_bytes is None
    &&& update.speed_bytes_per_second is None
    &&& update.message == message
}

/// The message while attempt `number` of three is put off for some seconds.
pub open spec fn waiting_message(why: RetryReason, seconds: nat, number: nat) -> Seq<char> {
    sentence_for(why) + " Retrying in "@ + number::decimal(seconds) + "s (retry "@
        + number::decimal(number) + " of 3)…"@
}

/// After the first failure another attempt follows at once. After the second and the third it
/// follows after ten and after twenty seconds, or six times as long where the site limits requests.
/// After the fourth none follows.
pub proof fn attempts_are_put_off_longer_each_time(
    state: RetriesView,
    why: RetryReason,
    error: ErrorView,
)
    requires
        state.retries <= 3,
    ensures
        ({
            let (next, action) = retry::failed(state, Some(why), error, false);
            let factor: nat = if why == RetryReason::RateLimited {
                6
            } else {
                1
            };
            if state.retries == 3 {
                &&& next == state
                &&& action == (ActionView::GiveUp {
                    error: ErrorView::RetriesExhausted(Box::new(error)),
                })
            } else {
                &&& next.retries == state.retries + 1
                &&& state.retries == 0 ==> next.waiting is None && (
                action matches ActionView::RetryNow { update } && tells_of_another(
                    update,
                    sentence_for(why) + " Retrying now (retry 1 of 3)…"@,
                ))
                &&& state.retries == 1 ==> next.waiting == Some((why, 10 * factor)) && (
                action matches ActionView::Wait { update } && tells_of_another(
                    update,
                    waiting_message(why, 10 * factor, 2),
                ))
                &&& state.retries == 2 ==> next.waiting == Some((why, 20 * factor)) && (
                action matches ActionView::Wait { update } && tells_of_another(
                    update,
                    waiting_message(why, 20 * factor, 3),
                ))
            }
        }),
{
    vstd::arithmetic::power2::lemma2_to64();
}

/// Each second of waiting brings the attempt one second closer, and the user is told; the last one
/// brings the attempt. Nothing else changes.
pub proof fn seconds_are_counted_down(state: RetriesView, why: RetryReason, seconds: nat)
    requires
        state.waiting == Some((why, seconds)),
    ensures
        ({
            let (next, action) = retry::waited(state, false);
            &&& next.retries == state.retries
            &&& if seconds > 1 {
                &&& next.waiting == Some((why, (seconds - 1) as nat))
                &&& action matches ActionView::Wait { update } && tells_of_another(
                    update,
                    waiting_message(why, (seconds - 1) as nat, state.retries),
                )
            } else {
                next.waiting is None && action is Attempt
            }
        }),
{
}

/// Cancelling ends the download wherever it stands and leaves the count as it is; without it, a
/// download begins with an attempt, and a failure that is final is told as it is.
pub proof fn cancelling_and_final_failures_end_it(
    state: RetriesView,
    reason: Option<RetryReason>,
    error: ErrorView,
)
    ensures
        retry::begun(false) is Attempt,
        retry::begun(true) == (ActionView::GiveUp { error: ErrorView::Cancelled }),
        retry::failed(state, reason, error, true) == (
            state,
            (ActionView::GiveUp { error: ErrorView::Cancelled }),
        ),
        retry::waited(state, true) == (
            state,
            (ActionView::GiveUp { error: ErrorView::Cancelled }),
        ),
        retry::failed(state, None, error, false) == (state, (ActionView::GiveUp { error })),
{
}

} // verus!
