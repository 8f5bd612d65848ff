//! What a program complained of last.
use crate::split;
use std::collections::VecDeque;
use vstd::prelude::*;

verus! {

/// How many lines are kept.
pub const KEPT_LINES: usize = 30;

/// The last lines that a program wrote.
#[derive(Debug)]
pub struct Diagnostics {
    lines: VecDeque<String>,
}

/// The last `n` of some lines.
pub open spec fn last_of(lines: Seq<Seq<char>>, n: nat) -> Seq<Seq<char>> {
    if lines.len() <= n {
        lines
    } else {
        lines.skip(lines.len() - n)
    }
}

/// What is told of a failure: the lines, or where they say nothing, how the program ended.
pub open spec fn complaint(lines: Seq<Seq<char>>, status: Seq<char>) -> Seq<char> {
    let details = split::join(lines, "\n"@);
    if details.len() == 0 {
        status
    } else {
        details
    }
}

impl View for Diagnostics {
    type V = Seq<Seq<char>>;

    closed spec fn view(&self) -> Seq<Seq<char>> {
        split::string_views(self.lines@)
    }
}

impl Diagnostics {
    /// No more lines are kept than allowed.
    pub open spec fn well_formed(self) -> bool {
        self@.len() <= KEPT_LINES
    }

    /// No line was written yet.
    pub fn new() -> (diagnostics: Diagnostics)
        ensures
            diagnostics.well_formed(),
            diagnostics@ == Seq::<Seq<char>>::empty(),
    {
        let diagnostics: Diagnostics = Diagnostics { lines: VecDeque::new() };
        assert(diagnostics@ =~= Seq::<Seq<char>>::empty());
        diagnostics
    }

    /// Takes in a line. Where no more are kept, the first one goes.
    pub fn push(&mut self, line: String)
        requires
            old(self).well_formed(),
        ensures
            final(self).well_formed(),
            final(self)@ == last_of(old(self)@.push(line@), KEPT_LINES as nat),
    {
        assert(self@.len() == self.lines@.len());
        if self.lines.len() == KEPT_LINES {
            let _ = self.lines.pop_front();
        }
        self.lines.push_back(line);
        assert(self@ =~= last_of(old(self)@.push(line@), KEPT_LINES as nat));
    }

    /// What is told of a failure.
    pub fn complaint(&self, status: &str) -> (text: String)
        ensures
            text@ == complaint(self@, status@),
    {
        let ghost views = self@;
        let mut text: String = String::new();
        let mut i: usize = 0;
        assert(views.take(0) =~= Seq::<Seq<char>>::empty());
        while i < self.lines.len()
            invariant
                i <= self.lines@.len(),
                views == split::string_views(self.lines@),
                text@ == split::join(views.take(i as int), "\n"@),
            decreases self.lines@.len() - i,
        {
            if i > 0 {
                text.append("\n");
            }
            text.append(self.lines[i].as_str());
            assert(views.take(i + 1).drop_last() =~= views.take(i as int));
            assert(views.take(i + 1).last() == self.lines@[i as int]@);
            assert(text@ =~= split::join(views.take(i + 1), "\n"@));
            i += 1;
        }
        assert(views.take(views.len() as int) =~= views);
        if text.as_str().is_empty() {
            status.to_owned()
        } else {
            text
        }
    }
}

/// Of all lines that were taken in, the last ones are kept, in order: it makes no difference
/// whether they were cut before or after a line was added.
pub proof fn last_lines_are_kept(history: Seq<Seq<char>>, line: Seq<char>, n: nat)
    ensures
        last_of(last_of(history, n).push(line), n) == last_of(history.push(line), n),
{
    assert(last_of(last_of(history, n).push(line), n) =~= last_of(history.push(line), n));
}

} // verus!
