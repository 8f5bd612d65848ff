//! Which failures are worth another attempt, and when it is made.
use crate::codec;
use crate::error::{ErrorView, MediaError};
use crate::model;
use crate::model::{Fraction, JobPhase, ProgressUpdate, UpdateView};
use crate::number;
use crate::outside;
use crate::split;
use crate::text;
use vstd::prelude::*;
use vstd::slice::slice_subrange;

verus! {

/// How often a download is tried again.
pub const MAX_DOWNLOAD_RETRIES: u32 = 3;

/// Why another attempt may succeed.
#[derive(Clone, Copy, Debug, PartialEq, Eq, Structural)]
pub enum RetryReason {
    Blocked,
    RateLimited,
    Network,
}

// ---------------------------------------------------------------------------------------------
// Telling failures apart
// ---------------------------------------------------------------------------------------------

/// `s` with typewriter apostrophes in place of typographic ones.
pub open spec fn straightened(s: Seq<char>) -> Seq<char> {
    s.map_values(
        |c: char|
            if c == '’' {
                '\''
            } else {
                c
            },
    )
}

/// The last of the lines that begins with `prefix`.
pub open spec fn last_starting(lines: Seq<Seq<char>>, prefix: Seq<char>) -> Option<Seq<char>>
    decreases lines.len(),
{
    if lines.len() == 0 {
        None
    } else if text::starts_with(lines.last(), prefix) {
        Some(lines.last())
    } else {
        last_starting(lines.drop_last(), prefix)
    }
}

/// How many digits `s` begins with.
pub open spec fn digit_count(s: Seq<char>) -> int
    decreases s.len(),
{
    if s.len() > 0 && number::is_digit(s.first()) {
        1 + digit_count(s.drop_first())
    } else {
        0
    }
}

/// The status that a line reports: the digits behind the first `http error `, where they stand for
/// a number of 16 bits.
pub open spec fn http_code(line: Seq<char>) -> Option<nat> {
    match text::behind_first(line, "http error "@) {
        Some(tail) => number::unsigned_value(tail.take(digit_count(tail)), 65535),
        None => None,
    }
}

/// The line tells of a connection that failed in passing.
pub open spec fn connection_failed(line: Seq<char>) -> bool {
    ||| text::contains(line, "timed out"@)
    ||| text::contains(line, "connection reset"@)
    ||| text::contains(line, "connection aborted"@)
    ||| text::contains(line, "remote end closed connection"@)
    ||| text::contains(line, "temporary failure in name resolution"@)
}

/// Why another attempt may succeed after a failure that `line` tells of. Where it reports a status,
/// the status decides.
pub open spec fn line_reason(line: Seq<char>, youtube: bool) -> Option<RetryReason> {
    match http_code(line) {
        Some(code) => if code == 429 {
            Some(RetryReason::RateLimited)
        } else if code == 403 && youtube {
            Some(RetryReason::Blocked)
        } else if code == 408 || code == 500 || code == 502 || code == 503 || code == 504 {
            Some(RetryReason::Network)
        } else {
            None
        },
        None => if youtube && text::contains(line, "sign in to confirm you're not a bot"@) {
            Some(RetryReason::Blocked)
        } else if connection_failed(line) {
            Some(RetryReason::Network)
        } else {
            None
        },
    }
}

/// The host is one of YouTube's.
pub open spec fn youtube_host(host: Option<Seq<char>>) -> bool {
    host matches Some(h) && (h == "youtu.be"@ || h == "youtube.com"@ || text::ends_with(
        h,
        ".youtube.com"@,
    ))
}

/// Why another attempt may succeed, from what yt-dlp wrote, in lower case, and the host that was
/// asked: its last line about an error decides, not a warning before it.
pub open spec fn failure_reason(lowered: Seq<char>, host: Option<Seq<char>>) -> Option<
    RetryReason,
> {
    match last_starting(split::lines(straightened(lowered)), "error:"@) {
        Some(line) => line_reason(line, youtube_host(host)),
        None => None,
    }
}

/// Why another attempt may succeed: after a failure of yt-dlp, by what it wrote; after any other,
/// none may.
pub open spec fn reason_for(url: Seq<char>, error: ErrorView) -> Option<RetryReason> {
    match error {
        ErrorView::YtDlp(details) => failure_reason(
            outside::lowercase(details),
            outside::url_host(url),
        ),
        _ => None,
    }
}

/// `s` with typewriter apostrophes in place of typographic ones.
fn straighten(s: &str) -> (out: Vec<char>)
    ensures
        out@ == straightened(s@),
{
    let chars: Vec<char> = text::chars_of(s);
    let mut out: Vec<char> = Vec::new();
    let mut i: usize = 0;
    while i < chars.len()
        invariant
            i <= chars.len(),
            out@ == straightened(chars@.take(i as int)),
        decreases chars.len() - i,
    {
        out.push(
            if chars[i] == '’' {
                '\''
            } else {
                chars[i]
            },
        );
        i += 1;
        assert(out@ =~= straightened(chars@.take(i as int)));
    }
    assert(chars@.take(chars@.len() as int) =~= chars@);
    out
}

/// The last of the lines that begins with `prefix`.
fn find_last<'a>(lines: &Vec<&'a [char]>, prefix: &str) -> (found: Option<&'a [char]>)
    ensures
        match found {
            Some(line) => last_starting(split::piece_views(lines@), prefix@) == Some(line@),
            None => last_starting(split::piece_views(lines@), prefix@) is None,
        },
{
    let ghost views = split::piece_views(lines@);
    let mut n: usize = lines.len();
    assert(views.take(n as int) =~= views);
    while n > 0
        invariant
            n <= lines.len(),
            views == split::piece_views(lines@),
            last_starting(views, prefix@) == last_starting(views.take(n as int), prefix@),
        decreases n,
    {
        let line: &'a [char] = lines[n - 1];
        assert(views.take(n as int).last() == line@);
        if text::begins(line, prefix) {
            return Some(line);
        }
        assert(views.take(n as int).drop_last() =~= views.take(n - 1));
        n -= 1;
    }
    None
}

/// The status that a line reports.
fn status_of(line: &[char]) -> (code: Option<u64>)
    ensures
        match code {
            Some(c) => http_code(line@) == Some(c as nat),
            None => http_code(line@) is None,
        },
{
    match text::behind(line, "http error ") {
        Some(tail) => {
            let mut n: usize = 0;
            assert(tail@.skip(0) =~= tail@);
            while n < tail.len() && '0' <= tail[n] && tail[n] <= '9'
                invariant
                    n <= tail.len(),
                    digit_count(tail@) == n + digit_count(tail@.skip(n as int)),
                decreases tail.len() - n,
            {
                assert(tail@.skip(n as int).drop_first() =~= tail@.skip(n + 1));
                n += 1;
            }
            let digits: &[char] = slice_subrange(tail, 0, n);
            assert(digits@ =~= tail@.take(digit_count(tail@)));
            number::parse_unsigned(digits, 65535)
        },
        None => None,
    }
}

/// Whether the host is one of YouTube's.
pub fn is_youtube_host(host: Option<&str>) -> (b: bool)
    ensures
        b == youtube_host(codec::opt_str_view(host)),
{
    match host {
        Some(h) => {
            let chars: Vec<char> = text::chars_of(h);
            let h: &[char] = chars.as_slice();
            text::reads(h, "youtu.be") || text::reads(h, "youtube.com") || text::ends(
                h,
                ".youtube.com",
            )
        },
        None => false,
    }
}

/// Why another attempt may succeed, from what yt-dlp wrote, in lower case, and the host that was
/// asked.
pub fn classify_failure(lowered: &str, host: Option<&str>) -> (reason: Option<RetryReason>)
    ensures
        reason == failure_reason(lowered@, codec::opt_str_view(host)),
{
    let details: Vec<char> = straighten(lowered);
    let lines: Vec<&[char]> = split::lines_of(details.as_slice());
    let line: &[char] = match find_last(&lines, "error:") {
        Some(line) => line,
        None => {
            return None;
        },
    };
    let youtube: bool = is_youtube_host(host);
    match status_of(line) {
        Some(code) => if code == 429 {
            Some(RetryReason::RateLimited)
        } else if code == 403 && youtube {
            Some(RetryReason::Blocked)
        } else if code == 408 || code == 500 || code == 502 || code == 503 || code == 504 {
            Some(RetryReason::Network)
        } else {
            None
        },
        None => if youtube && text::has(line, "sign in to confirm you're not a bot") {
            Some(RetryReason::Blocked)
        } else if text::has(line, "timed out") || text::has(line, "connection reset") || text::has(
            line,
            "connection aborted",
        ) || text::has(line, "remote end closed connection") || text::has(
            line,
            "temporary failure in name resolution",
        ) {
            Some(RetryReason::Network)
        } else {
            None
        },
    }
}

/// Why another attempt to fetch `url` may succeed after it has failed with `error`.
pub fn retry_reason(url: &str, error: &MediaError) -> (reason: Option<RetryReason>)
    ensures
        reason == reason_for(url@, error@),
        error@ matches ErrorView::YtDlp(details) ==> outside::is_ascii(details) ==> reason
            == failure_reason(text::ascii_lower(details), outside::url_host(url@)),
{
    match error {
        MediaError::YtDlp(details) => {
            let lowered: String = details.as_str().to_lowercase();
            let host: Option<String> = outside::host_of(url);
            classify_failure(lowered.as_str(), codec::as_text(&host))
        },
        _ => None,
    }
}

// ---------------------------------------------------------------------------------------------
// When another attempt is made
// ---------------------------------------------------------------------------------------------

/// How often a download has been tried again, and how long the next attempt is put off.
#[derive(Debug)]
pub struct Retries {
    retries: u32,
    waiting: Option<(RetryReason, u32)>,
}

/// What [`Retries`] hold: how many attempts followed the first one, the one that is put off
/// included, and why and for how many seconds the next one is put off.
pub struct RetriesView {
    pub retries: nat,
    pub waiting: Option<(RetryReason, nat)>,
}

/// What is to be done next.
#[derive(Debug)]
pub enum RetryAction {
    /// Try to download.
    Attempt,
    /// Tell the user, then try again at once.
    RetryNow { update: ProgressUpdate },
    /// Tell the user, then wait for a second or until the user cancels.
    Wait { update: ProgressUpdate },
    /// Give up.
    GiveUp { error: MediaError },
}

/// What a [`RetryAction`] says.
pub enum ActionView {
    Attempt,
    RetryNow { update: UpdateView },
    Wait { update: UpdateView },
    GiveUp { error: ErrorView },
}

impl View for RetryAction {
    type V = ActionView;

    open spec fn view(&self) -> ActionView {
        match *self {
            RetryAction::Attempt => ActionView::Attempt,
            RetryAction::RetryNow { update } => ActionView::RetryNow { update: update@ },
            RetryAction::Wait { update } => ActionView::Wait { update: update@ },
            RetryAction::GiveUp { error } => ActionView::GiveUp { error: error@ },
        }
    }
}

/// What the user is told of the reason.
pub open spec fn reason_text(reason: RetryReason) -> Seq<char> {
    match reason {
        RetryReason::Blocked => "YouTube temporarily blocked the request."@,
        RetryReason::RateLimited => "The site is limiting requests."@,
        RetryReason::Network => "The connection was interrupted."@,
    }
}

/// How many seconds pass before attempt number `retries` after the first one: none before the
/// first of them, and from then on twice as many each time.
pub open spec fn delay(reason: RetryReason, retries: nat) -> nat {
    let base: nat = match reason {
        RetryReason::Blocked => 5,
        RetryReason::RateLimited => 30,
        RetryReason::Network => 5,
    };
    if retries <= 1 {
        0
    } else {
        base * vstd::arithmetic::power2::pow2((retries - 1) as nat)
    }
}

/// The user is told of another attempt. The fraction is set back, so that what the attempt before
/// had reached is no longer shown.
pub open spec fn retrying(message: Seq<char>) -> UpdateView {
    UpdateView { fraction: Some(Fraction::none()), ..model::told(JobPhase::Retrying, message) }
}

/// What the user is told before an attempt that follows at once.
pub open spec fn now_message(reason: RetryReason) -> Seq<char> {
    reason_text(reason) + " Retrying now (retry 1 of 3)…"@
}

/// What the user is told while attempt number `retries` after the first one is put off.
pub open spec fn wait_message(reason: RetryReason, seconds: nat, retries: nat) -> Seq<char> {
    reason_text(reason) + " Retrying in "@ + number::decimal(seconds) + "s (retry "@
        + number::decimal(retries) + " of 3)…"@
}

/// What follows where nothing is put off.
pub open spec fn begun(cancelled: bool) -> ActionView {
    if cancelled {
        ActionView::GiveUp { error: ErrorView::Cancelled }
    } else {
        ActionView::Attempt
    }
}

/// What follows a failure. A failure that no further attempt may help against is final, and so is
/// one after the last attempt.
pub open spec fn failed(
    state: RetriesView,
    reason: Option<RetryReason>,
    error: ErrorView,
    cancelled: bool,
) -> (RetriesView, ActionView) {
    let next = state.retries + 1;
    match reason {
        _ if cancelled => (state, ActionView::GiveUp { error: ErrorView::Cancelled }),
        None => (state, ActionView::GiveUp { error }),
        Some(why) => if state.retries == MAX_DOWNLOAD_RETRIES {
            (state, ActionView::GiveUp { error: ErrorView::RetriesExhausted(Box::new(error)) })
        } else if state.retries == 0 {
            (
                RetriesView { retries: next, waiting: None },
                ActionView::RetryNow { update: retrying(now_message(why)) },
            )
        } else {
            (
                RetriesView { retries: next, waiting: Some((why, delay(why, next))) },
                ActionView::Wait { update: retrying(wait_message(why, delay(why, next), next)) },
            )
        },
    }
}

/// What follows a second of waiting.
pub open spec fn waited(state: RetriesView, cancelled: bool) -> (RetriesView, ActionView) {
    match state.waiting {
        _ if cancelled => (state, ActionView::GiveUp { error: ErrorView::Cancelled }),
        Some((why, seconds)) if seconds > 1 => (
            RetriesView { waiting: Some((why, (seconds - 1) as nat)), ..state },
            ActionView::Wait {
                update: retrying(wait_message(why, (seconds - 1) as nat, state.retries)),
            },
        ),
        _ => (RetriesView { waiting: None, ..state }, ActionView::Attempt),
    }
}

impl View for Retries {
    type V = RetriesView;

    closed spec fn view(&self) -> RetriesView {
        RetriesView {
            retries: self.retries as nat,
            waiting: match self.waiting {
                Some((why, seconds)) => Some((why, seconds as nat)),
                None => None,
            },
        }
    }
}

impl Retries {
    /// No more attempts are made than allowed, and none is put off for no time.
    pub open spec fn well_formed(self) -> bool {
        &&& self@.retries <= MAX_DOWNLOAD_RETRIES
        &&& self@.waiting matches Some((why, seconds)) ==> seconds > 0
    }

    /// Nothing has been tried yet.
    pub fn new() -> (state: Retries)
        ensures
            state.well_formed(),
            state@ == (RetriesView { retries: 0, waiting: None }),
    {
        Retries { retries: 0, waiting: None }
    }

    /// What is done before an attempt that is not put off: it is made, or given up.
    pub fn begin(&self, cancelled: bool) -> (action: RetryAction)
        ensures
            action@ == begun(cancelled),
    {
        if cancelled {
            RetryAction::GiveUp { error: MediaError::Cancelled }
        } else {
            RetryAction::Attempt
        }
    }

    /// What follows a failed attempt to fetch `url`.
    pub fn after_failure(&mut self, url: &str, error: MediaError, cancelled: bool) -> (action:
        RetryAction)
        requires
            old(self).well_formed(),
        ensures
            final(self).well_formed(),
            (final(self)@, action@) == failed(
                old(self)@,
                reason_for(url@, error@),
                error@,
                cancelled,
            ),
    {
        if cancelled {
            return RetryAction::GiveUp { error: MediaError::Cancelled };
        }
        let reason: Option<RetryReason> = retry_reason(url, &error);
        self.after_classified_failure(reason, error, cancelled)
    }

    /// What follows a failed attempt after which another one may succeed or not.
    pub fn after_classified_failure(
        &mut self,
        reason: Option<RetryReason>,
        error: MediaError,
        cancelled: bool,
    ) -> (action: RetryAction)
        requires
            old(self).well_formed(),
        ensures
            final(self).well_formed(),
            (final(self)@, action@) == failed(old(self)@, reason, error@, cancelled),
    {
        if cancelled {
            return RetryAction::GiveUp { error: MediaError::Cancelled };
        }
        let why: RetryReason = match reason {
            Some(why) => why,
            None => {
                return RetryAction::GiveUp { error };
            },
        };
        if self.retries == MAX_DOWNLOAD_RETRIES {
            return RetryAction::GiveUp { error: MediaError::RetriesExhausted(Box::new(error)) };
        }
        self.retries = self.retries + 1;
        if self.retries == 1 {
            self.waiting = None;
            let message: String = reason_notice(why).to_owned().concat(
                " Retrying now (retry 1 of 3)…",
            );
            return RetryAction::RetryNow { update: retry_update(message.as_str()) };
        }
        proof {
            vstd::arithmetic::power2::lemma2_to64();
        }
        let base: u32 = match why {
            RetryReason::Blocked => 5,
            RetryReason::RateLimited => 30,
            RetryReason::Network => 5,
        };
        let seconds: u32 = if self.retries == 2 {
            base * 2
        } else {
            base * 4
        };
        self.waiting = Some((why, seconds));
        RetryAction::Wait { update: wait_update(why, seconds, self.retries) }
    }

    /// What follows a second of waiting.
    pub fn after_second(&mut self, cancelled: bool) -> (action: RetryAction)
        requires
            old(self).well_formed(),
        ensures
            final(self).well_formed(),
            (final(self)@, action@) == waited(old(self)@, cancelled),
    {
        if cancelled {
            return RetryAction::GiveUp { error: MediaError::Cancelled };
        }
        match self.waiting {
            Some((why, seconds)) if seconds > 1 => {
                self.waiting = Some((why, seconds - 1));
                RetryAction::Wait { update: wait_update(why, seconds - 1, self.retries) }
            },
            _ => {
                self.waiting = None;
                RetryAction::Attempt
            },
        }
    }
}

/// What the user is told of the reason.
fn reason_notice(reason: RetryReason) -> (notice: &'static str)
    ensures
        notice@ == reason_text(reason),
{
    match reason {
        RetryReason::Blocked => "YouTube temporarily blocked the request.",
        RetryReason::RateLimited => "The site is limiting requests.",
        RetryReason::Network => "The connection was interrupted.",
    }
}

/// The user is told of another attempt.
fn retry_update(message: &str) -> (update: ProgressUpdate)
    ensures
        update@ == retrying(message@),
{
    ProgressUpdate::partial(JobPhase::Retrying, Fraction::nothing(), message)
}

/// The user is told how long an attempt is put off.
fn wait_update(reason: RetryReason, seconds: u32, retries: u32) -> (update: ProgressUpdate)
    ensures
        update@ == retrying(wait_message(reason, seconds as nat, retries as nat)),
{
    let mut message: String = reason_notice(reason).to_owned();
    message.append(" Retrying in ");
    number::push_decimal(&mut message, seconds as u64);
    message.append("s (retry ");
    number::push_decimal(&mut message, retries as u64);
    message.append(" of 3)…");
    assert(message@ =~= wait_message(reason, seconds as nat, retries as nat));
    retry_update(message.as_str())
}

// ---------------------------------------------------------------------------------------------
// Laws
// ---------------------------------------------------------------------------------------------

/// Only a failure of yt-dlp is worth another attempt.
pub proof fn only_ytdlp_failures_are_retried(url: Seq<char>, error: ErrorView)
    requires
        error !is YtDlp,
    ensures
        reason_for(url, error) is None,
{
}

/// Blocking is YouTube's: on any other host no failure counts as such.
pub proof fn only_youtube_blocks(lowered: Seq<char>, host: Option<Seq<char>>)
    requires
        !youtube_host(host),
    ensures
        failure_reason(lowered, host) != Some(RetryReason::Blocked),
{
}

/// A status that is not known to be transient is final, whatever else the line says.
pub proof fn other_statuses_are_final(line: Seq<char>, youtube: bool)
    requires
        http_code(line) matches Some(code) && code != 403 && code != 408 && code != 429 && code
            != 500 && code != 502 && code != 503 && code != 504,
    ensures
        line_reason(line, youtube) is None,
{
}

/// Where both parts are cut at line feeds, their lines are those of the whole.
proof fn lemma_lines_of_both(a: Seq<char>, b: Seq<char>)
    ensures
        exists|before: Seq<Seq<char>>|
            split::lines(a + seq!['\n'] + b) == #[trigger] (before + split::lines(b)),
    decreases a.len(),
{
    let whole = a + seq!['\n'] + b;
    let n = split::until(whole, '\n');
    split::lemma_until(whole, '\n');
    assert(whole[a.len() as int] == '\n');
    let line = split::without_return(whole.take(n));
    if n < a.len() {
        let rest = a.skip(n + 1);
        assert(whole.skip(n + 1) =~= rest + seq!['\n'] + b);
        lemma_lines_of_both(rest, b);
        let before = choose|before: Seq<Seq<char>>|
            split::lines(rest + seq!['\n'] + b) == #[trigger] (before + split::lines(b));
        assert(split::lines(whole) =~= (seq![line] + before) + split::lines(b));
    } else {
        assert(n == a.len());
        assert(whole.skip(n + 1) =~= b);
        assert(split::lines(whole) =~= seq![line] + split::lines(b));
    }
}

proof fn lemma_last_starting_of_both(
    before: Seq<Seq<char>>,
    after: Seq<Seq<char>>,
    prefix: Seq<char>,
)
    requires
        last_starting(after, prefix) is Some,
    ensures
        last_starting(before + after, prefix) == last_starting(after, prefix),
    decreases after.len(),
{
    let both = before + after;
    assert(both.last() == after.last());
    if !text::starts_with(after.last(), prefix) {
        lemma_last_starting_of_both(before, after.drop_last(), prefix);
        assert(both.drop_last() =~= before + after.drop_last());
    }
}

/// The last line about an error decides: what stands before it, such as a warning that was
/// recovered from, changes nothing.
pub proof fn only_the_last_error_counts(
    earlier: Seq<char>,
    later: Seq<char>,
    host: Option<Seq<char>>,
)
    requires
        last_starting(split::lines(straightened(later)), "error:"@) is Some,
    ensures
        failure_reason(earlier + seq!['\n'] + later, host) == failure_reason(later, host),
{
    let a = straightened(earlier);
    let b = straightened(later);
    assert(straightened(earlier + seq!['\n'] + later) =~= a + seq!['\n'] + b);
    lemma_lines_of_both(a, b);
    let before = choose|before: Seq<Seq<char>>|
        split::lines(a + seq!['\n'] + b) == #[trigger] (before + split::lines(b));
    lemma_last_starting_of_both(before, split::lines(b), "error:"@);
}

/// The first further attempt follows at once, the others are put off twice as long each time:
/// half a minute in all, or three minutes where the site limits requests.
pub proof fn waiting_adds_up(reason: RetryReason)
    ensures
        delay(reason, 1) == 0,
        delay(reason, 3) == 2 * delay(reason, 2),
        delay(reason, 1) + delay(reason, 2) + delay(reason, 3) == if reason
            == RetryReason::RateLimited {
            180int
        } else {
            30int
        },
{
    vstd::arithmetic::power2::lemma2_to64();
}

/// How many seconds pass until the next attempt, as long as the user does not cancel.
pub open spec fn seconds_to_attempt(state: RetriesView) -> nat
    decreases
            match state.waiting {
                Some((why, seconds)) => seconds,
                None => 0,
            },
{
    let (next, action) = waited(state, false);
    if action is Wait {
        1 + seconds_to_attempt(next)
    } else {
        1
    }
}

/// An attempt that is put off follows after exactly the seconds that the user was told of first.
pub proof fn countdown_ends_in_an_attempt(state: RetriesView, why: RetryReason, seconds: nat)
    requires
        state.waiting == Some((why, seconds)),
        seconds > 0,
    ensures
        seconds_to_attempt(state) == seconds,
    decreases seconds,
{
    if seconds > 1 {
        countdown_ends_in_an_attempt(waited(state, false).0, why, (seconds - 1) as nat);
    }
}

/// Once the user has cancelled, no attempt follows.
pub proof fn cancelling_stops(
    state: RetriesView,
    reason: Option<RetryReason>,
    error: ErrorView,
)
    ensures
        begun(true) == (ActionView::GiveUp { error: ErrorView::Cancelled }),
        failed(state, reason, error, true).1 == (ActionView::GiveUp { error: ErrorView::Cancelled }),
        waited(state, true).1 == (ActionView::GiveUp { error: ErrorView::Cancelled }),
{
}

/// How many attempts are made where the first ones fail for the given reasons, in turn, and the
/// one after them would succeed.
pub open spec fn attempts(state: RetriesView, reasons: Seq<Option<RetryReason>>) -> nat
    decreases reasons.len(),
{
    if reasons.len() == 0 {
        1
    } else {
        let (next, action) = failed(state, reasons.first(), ErrorView::Cancelled, false);
        if action is GiveUp {
            1
        } else {
            1 + attempts(RetriesView { waiting: None, ..next }, reasons.drop_first())
        }
    }
}

/// No more than four attempts are made, and all four where each of them fails in passing.
pub proof fn four_attempts_at_most(reasons: Seq<Option<RetryReason>>)
    ensures
        attempts(RetriesView { retries: 0, waiting: None }, reasons) <= 4,
        (reasons.len() >= 4 && forall|i: int| 0 <= i < 4 ==> (#[trigger] reasons[i]) is Some)
            ==> attempts(RetriesView { retries: 0, waiting: None }, reasons) == 4,
{
    lemma_attempts(RetriesView { retries: 0, waiting: None }, reasons);
}

proof fn lemma_attempts(state: RetriesView, reasons: Seq<Option<RetryReason>>)
    requires
        state.retries <= MAX_DOWNLOAD_RETRIES,
    ensures
        attempts(state, reasons) <= 4 - state.retries,
        (reasons.len() >= 4 - state.retries && forall|i: int|
            0 <= i < 4 - state.retries ==> (#[trigger] reasons[i]) is Some) ==> attempts(
            state,
            reasons,
        ) == 4 - state.retries,
    decreases reasons.len(),
{
    if reasons.len() > 0 {
        let (next, action) = failed(state, reasons.first(), ErrorView::Cancelled, false);
        if action !is GiveUp {
            let rest = reasons.drop_first();
            lemma_attempts(RetriesView { waiting: None, ..next }, rest);
            assert(forall|i: int| 0 <= i < rest.len() ==> rest[i] == reasons[i + 1]);
        }
    }
}

/// A failure that no further attempt may help against ends the download at once with what was
/// wrong, however often it was tried before.
pub proof fn permanent_failures_are_final(state: RetriesView, error: ErrorView)
    ensures
        failed(state, None, error, false) == (state, (ActionView::GiveUp { error })),
{
}

/// What was wrong in the last attempt is kept where all have failed.
pub proof fn last_failure_is_kept(state: RetriesView, why: RetryReason, error: ErrorView)
    requires
        state.retries == MAX_DOWNLOAD_RETRIES,
    ensures
        failed(state, Some(why), error, false).1 == (ActionView::GiveUp {
            error: ErrorView::RetriesExhausted(Box::new(error)),
        }),
{
}

} // verus!
