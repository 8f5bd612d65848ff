//! Showing that work goes on while nothing can be measured yet.
use crate::model;
use crate::model::{JobPhase, ProgressUpdate, UpdateView};
use crate::number;
use crate::split;
use crate::text;
use vstd::prelude::*;

verus! {

// ---------------------------------------------------------------------------------------------
// What yt-dlp is doing
// ---------------------------------------------------------------------------------------------

/// What the user is told of an activity that yt-dlp names. Nothing of the line itself is told, so
/// that no address and no identifier shows.
pub open spec fn stage(line: Seq<char>) -> Option<Seq<char>> {
    if text::contains(line, ": Extracting URL:"@) || text::contains(line, "] Extracting URL:"@) {
        Some("Connecting to the video site…"@)
    } else if text::contains(line, ": Downloading webpage"@) {
        Some("Loading video page…"@)
    } else if text::contains(line, "Solving JS challenges"@) {
        Some("Resolving playback checks…"@)
    } else if text::contains(line, "Downloading challenge solver"@) {
        Some("Preparing playback checks…"@)
    } else if text::contains(line, "player API JSON"@) {
        Some("Fetching player information…"@)
    } else if text::contains(line, ": Downloading player "@) {
        Some("Loading video player…"@)
    } else if text::contains(line, "Downloading m3u8"@) || text::contains(line, "Downloading MPD"@)
        || text::contains(line, "Downloading f4m"@) || text::contains(line, "Downloading ISM"@) {
        Some("Reading available streams…"@)
    } else if text::contains(line, ": Downloading JSON metadata"@) || text::contains(
        line,
        ": Downloading API JSON"@,
    ) {
        Some("Fetching video information…"@)
    } else {
        None
    }
}

/// What the user is told of a line that yt-dlp writes while it looks for formats: of a known
/// activity, which begins with the name of what acts in brackets.
pub open spec fn inspection_stage(line: Seq<char>) -> Option<UpdateView> {
    let line = text::trim(line);
    if text::starts_with(line, "["@) && !text::starts_with(line, "[debug]"@) {
        match stage(line) {
            Some(message) => Some(model::told(JobPhase::Inspecting, message)),
            None => None,
        }
    } else {
        None
    }
}

/// What an update says, if there is one.
pub open spec fn update_view(update: Option<ProgressUpdate>) -> Option<UpdateView> {
    match update {
        Some(u) => Some(u@),
        None => None,
    }
}

/// What the user is told of a line that yt-dlp writes while it looks for formats.
pub fn parse_format_inspection_activity(line: &str) -> (update: Option<ProgressUpdate>)
    ensures
        update_view(update) == inspection_stage(line@),
{
    let chars: Vec<char> = text::chars_of(line);
    let line: &[char] = text::trimmed(chars.as_slice());
    if !text::begins(line, "[") || text::begins(line, "[debug]") {
        return None;
    }
    let message: &str = if text::has(line, ": Extracting URL:") || text::has(
        line,
        "] Extracting URL:",
    ) {
        "Connecting to the video site…"
    } else if text::has(line, ": Downloading webpage") {
        "Loading video page…"
    } else if text::has(line, "Solving JS challenges") {
        "Resolving playback checks…"
    } else if text::has(line, "Downloading challenge solver") {
        "Preparing playback checks…"
    } else if text::has(line, "player API JSON") {
        "Fetching player information…"
    } else if text::has(line, ": Downloading player ") {
        "Loading video player…"
    } else if text::has(line, "Downloading m3u8") || text::has(line, "Downloading MPD")
        || text::has(line, "Downloading f4m") || text::has(line, "Downloading ISM") {
        "Reading available streams…"
    } else if text::has(line, ": Downloading JSON metadata") || text::has(
        line,
        ": Downloading API JSON",
    ) {
        "Fetching video information…"
    } else {
        return None;
    };
    Some(ProgressUpdate::message(JobPhase::Inspecting, message))
}

// ---------------------------------------------------------------------------------------------
// How long it has been doing it
// ---------------------------------------------------------------------------------------------

/// The step that is shown as going on, and when it began, in nanoseconds. Nothing is shown once
/// progress can be measured.
#[derive(Debug)]
pub struct Activity {
    current: Option<(ProgressUpdate, u64)>,
}

impl View for Activity {
    type V = Option<(UpdateView, u64)>;

    closed spec fn view(&self) -> Option<(UpdateView, u64)> {
        match self.current {
            Some((update, started)) => Some((update@, started)),
            None => None,
        }
    }
}

/// The update tells of a step that cannot be measured.
pub open spec fn unmeasured(update: UpdateView) -> bool {
    (update.phase == JobPhase::Inspecting || update.phase == JobPhase::Preparing)
        && update.fraction is None
}

/// The update tells of the step that is already shown.
pub open spec fn repeats(current: Option<(UpdateView, u64)>, update: UpdateView) -> bool {
    current matches Some((shown, _)) && shown.phase == update.phase && shown.message
        == update.message
}

/// What is shown after an update, and whether the update is told to the user.
pub open spec fn updated(
    current: Option<(UpdateView, u64)>,
    update: UpdateView,
    now: u64,
) -> (Option<(UpdateView, u64)>, bool) {
    if !unmeasured(update) {
        (None, true)
    } else if repeats(current, update) {
        (current, false)
    } else {
        (Some((update, now)), true)
    }
}

/// How many whole seconds lie between two times.
pub open spec fn seconds(started: u64, now: u64) -> nat {
    if started <= now {
        ((now - started) / 1_000_000_000) as nat
    } else {
        0
    }
}

/// The message with the time that has passed, at the end of its first line.
pub open spec fn timed(message: Seq<char>, elapsed: nat) -> Seq<char> {
    let n = split::until(message, '\n');
    message.take(n) + " · "@ + number::decimal(elapsed) + "s elapsed"@ + message.skip(n)
}

/// What the user is told each second: from the tenth second of a step on, how long it has taken.
pub open spec fn ticked(current: Option<(UpdateView, u64)>, now: u64) -> Option<UpdateView> {
    match current {
        Some((shown, started)) => if seconds(started, now) >= 10 {
            Some(UpdateView { message: timed(shown.message, seconds(started, now)), ..shown })
        } else {
            None
        },
        None => None,
    }
}

/// The message with the time that has passed, at the end of its first line.
fn timed_message(message: &str, elapsed: u64) -> (out: String)
    ensures
        out@ == timed(message@, elapsed as nat),
{
    let chars: Vec<char> = text::chars_of(message);
    let n: usize = split::count_until(chars.as_slice(), '\n');
    let mut out: String = message.substring_char(0, n).to_owned();
    out.append(" · ");
    number::push_decimal(&mut out, elapsed);
    out.append("s elapsed");
    out.append(message.substring_char(n, chars.len()));
    assert(message@.subrange(0, n as int) =~= message@.take(n as int));
    assert(message@.subrange(n as int, message@.len() as int) =~= message@.skip(n as int));
    assert(out@ =~= timed(message@, elapsed as nat));
    out
}

impl Activity {
    /// Shows a first step from `now` on.
    pub fn new(initial: &ProgressUpdate, now: u64) -> (activity: Activity)
        ensures
            activity@ == Some((initial@, now)),
    {
        Activity { current: Some((initial.clone(), now)) }
    }

    /// Takes an update in; tells whether the user is to be told of it.
    pub fn on_update(&mut self, update: &ProgressUpdate, now: u64) -> (forward: bool)
        ensures
            (final(self)@, forward) == updated(old(self)@, update@, now),
    {
        let unmeasured: bool = (update.phase == JobPhase::Inspecting || update.phase
            == JobPhase::Preparing) && update.fraction.is_none();
        if !unmeasured {
            self.current = None;
            return true;
        }
        let repeated: bool = match &self.current {
            Some((shown, _)) => shown.phase == update.phase && text::same_text(
                shown.message.as_str(),
                update.message.as_str(),
            ),
            None => false,
        };
        if repeated {
            return false;
        }
        self.current = Some((update.clone(), now));
        true
    }

    /// What the user is told each second.
    pub fn on_tick(&self, now: u64) -> (update: Option<ProgressUpdate>)
        ensures
            update_view(update) == ticked(self@, now),
    {
        match &self.current {
            Some((shown, started)) => {
                let elapsed: u64 = if *started <= now {
                    (now - *started) / 1_000_000_000
                } else {
                    0
                };
                if elapsed >= 10 {
                    let mut update: ProgressUpdate = shown.clone();
                    update.message = timed_message(shown.message.as_str(), elapsed);
                    Some(update)
                } else {
                    None
                }
            },
            None => None,
        }
    }
}

// ---------------------------------------------------------------------------------------------
// Laws
// ---------------------------------------------------------------------------------------------

/// What is told of a line is one of eight fixed messages: it does not depend on the line beyond
/// which of them it is.
pub proof fn inspection_tells_nothing_of_the_line(line: Seq<char>)
    ensures
        inspection_stage(line) matches Some(update) ==> {
            &&& update == model::told(JobPhase::Inspecting, update.message)
            &&& {
                ||| update.message == "Connecting to the video site…"@
                ||| update.message == "Loading video page…"@
                ||| update.message == "Resolving playback checks…"@
                ||| update.message == "Preparing playback checks…"@
                ||| update.message == "Fetching player information…"@
                ||| update.message == "Loading video player…"@
                ||| update.message == "Reading available streams…"@
                ||| update.message == "Fetching video information…"@
            }
        },
{
}

/// The user is told of no time within the first ten seconds of a step.
pub proof fn first_ten_seconds_are_silent(shown: UpdateView, started: u64, now: u64)
    requires
        now < started + 10_000_000_000,
    ensures
        ticked(Some((shown, started)), now) is None,
{
}

/// An update that tells of the same step again changes nothing: neither is the user told, nor does
/// the time begin anew.
pub proof fn repeated_steps_keep_their_time(
    current: Option<(UpdateView, u64)>,
    update: UpdateView,
    first: u64,
    again: u64,
)
    requires
        unmeasured(update),
    ensures
        updated(updated(current, update, first).0, update, again) == (
            updated(current, update, first).0,
            false,
        ),
{
}

/// A step that is new is told to the user and has its own time.
pub proof fn new_steps_begin_anew(
    current: Option<(UpdateView, u64)>,
    update: UpdateView,
    now: u64,
)
    requires
        unmeasured(update),
        !repeats(current, update),
    ensures
        updated(current, update, now) == (Some((update, now)), true),
{
}

/// Once progress is measured it is told, and no time of a step is told after it.
pub proof fn measured_progress_ends_the_wait(
    current: Option<(UpdateView, u64)>,
    update: UpdateView,
    now: u64,
    later: u64,
)
    requires
        !unmeasured(update),
    ensures
        updated(current, update, now).1,
        ticked(updated(current, update, now).0, later) is None,
{
}

/// The time stands at the end of the first line, and what stands on further lines stays.
pub proof fn time_ends_the_first_line(status: Seq<char>, details: Seq<char>, elapsed: nat)
    requires
        forall|i: int| 0 <= i < status.len() ==> #[trigger] status[i] != '\n',
    ensures
        timed(status, elapsed) == status + " · "@ + number::decimal(elapsed) + "s elapsed"@,
        timed(status + seq!['\n'] + details, elapsed) == status + " · "@ + number::decimal(elapsed)
            + "s elapsed"@ + seq!['\n'] + details,
{
    let n = status.len() as int;
    let whole = status + seq!['\n'] + details;
    split::lemma_until_is(status, '\n', n);
    split::lemma_until_is(whole, '\n', n);
    assert(status.take(n) =~= status);
    assert(whole.take(n) =~= status);
    assert(timed(status, elapsed) =~= status + " · "@ + number::decimal(elapsed) + "s elapsed"@);
    assert(timed(whole, elapsed) =~= status + " · "@ + number::decimal(elapsed) + "s elapsed"@
        + seq!['\n'] + details);
}

} // verus!
