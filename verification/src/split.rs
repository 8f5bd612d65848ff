//! Cutting text into pieces and putting pieces together.
use crate::text;
use crate::text::{chars_of, is_white, occurs_here, without_leading_space};
use vstd::prelude::*;
use vstd::slice::slice_subrange;

verus! {

/// The characters of each piece.
pub open spec fn piece_views(pieces: Seq<&[char]>) -> Seq<Seq<char>> {
    pieces.map_values(|piece: &[char]| piece@)
}

/// How many characters stand before the first `c`; all of them where there is none.
pub open spec fn until(s: Seq<char>, c: char) -> int
    decreases s.len(),
{
    if s.len() == 0 || s.first() == c {
        0
    } else {
        1 + until(s.drop_first(), c)
    }
}

/// How many characters stand before the first white space; all of them where there is none.
pub open spec fn until_space(s: Seq<char>) -> int
    decreases s.len(),
{
    if s.len() == 0 || text::is_space(s.first()) {
        0
    } else {
        1 + until_space(s.drop_first())
    }
}

/// The pieces of `s` between the separators `c`: one more than there are separators.
pub open spec fn split(s: Seq<char>, c: char) -> Seq<Seq<char>>
    decreases s.len(),
{
    let n = until(s, c);
    if 0 <= n < s.len() {
        seq![s.take(n)] + split(s.skip(n + 1), c)
    } else {
        seq![s]
    }
}

/// The lines of `s`, without the line feeds that end them and without a carriage return before
/// such a line feed. What stands behind the last line feed is a line where it is not empty.
pub open spec fn lines(s: Seq<char>) -> Seq<Seq<char>>
    decreases s.len(),
{
    let n = until(s, '\n');
    if s.len() == 0 {
        Seq::empty()
    } else if 0 <= n < s.len() {
        seq![without_return(s.take(n))] + lines(s.skip(n + 1))
    } else {
        seq![s]
    }
}

/// `s` without the carriage return it may end with.
pub open spec fn without_return(s: Seq<char>) -> Seq<char> {
    if s.len() > 0 && s.last() == '\r' {
        s.drop_last()
    } else {
        s
    }
}

/// The first word of `s`: what stands before the first white space behind its beginning; empty
/// where `s` holds white space alone.
pub open spec fn first_word(s: Seq<char>) -> Seq<char> {
    let t = text::trim_start(s);
    t.take(until_space(t))
}

/// What stands behind the first word of `s`.
pub open spec fn behind_first_word(s: Seq<char>) -> Seq<char> {
    let t = text::trim_start(s);
    t.skip(until_space(t))
}

/// `pieces` one behind the other, with `between` between each two of them.
pub open spec fn join(pieces: Seq<Seq<char>>, between: Seq<char>) -> Seq<char>
    decreases pieces.len(),
{
    if pieces.len() == 0 {
        Seq::empty()
    } else if pieces.len() == 1 {
        pieces.first()
    } else {
        join(pieces.drop_last(), between) + between + pieces.last()
    }
}

/// `s` with each occurrence of `part`, from the left and none overlapping another, replaced by
/// `by`. The empty text occurs before each character and at the end.
pub open spec fn replace(s: Seq<char>, part: Seq<char>, by: Seq<char>) -> Seq<char>
    decreases s.len(),
{
    if part.len() == 0 {
        if s.len() == 0 {
            by
        } else {
            by + seq![s.first()] + replace(s.drop_first(), part, by)
        }
    } else if text::starts_with(s, part) {
        by + replace(s.skip(part.len() as int), part, by)
    } else if s.len() == 0 {
        Seq::empty()
    } else {
        seq![s.first()] + replace(s.drop_first(), part, by)
    }
}

/// `until` counts characters of `s`, none of which is `c`, and stops at the first one that is.
pub proof fn lemma_until(s: Seq<char>, c: char)
    ensures
        0 <= until(s, c) <= s.len(),
        until(s, c) < s.len() ==> s[until(s, c)] == c,
        forall|i: int| 0 <= i < until(s, c) ==> s[i] != c,
    decreases s.len(),
{
    if s.len() > 0 && s.first() != c {
        lemma_until(s.drop_first(), c);
        assert forall|i: int| 0 <= i < until(s, c) implies s[i] != c by {
            if i > 0 {
                assert(s.drop_first()[i - 1] != c);
            }
        }
    }
}

/// Whatever stops at a `c` with none before it is `until`.
pub proof fn lemma_until_is(s: Seq<char>, c: char, n: int)
    requires
        0 <= n <= s.len(),
        n < s.len() ==> s[n] == c,
        forall|i: int| 0 <= i < n ==> s[i] != c,
    ensures
        until(s, c) == n,
{
    lemma_until(s, c);
    let m = until(s, c);
    if m < n {
        assert(s[m] != c);
    } else if n < m {
        assert(s[n] != c);
    }
}

/// The number of characters before the first `c`.
pub fn count_until(s: &[char], c: char) -> (n: usize)
    ensures
        n <= s@.len(),
        n == until(s@, c),
{
    let mut n: usize = 0;
    while n < s.len() && s[n] != c
        invariant
            n <= s.len(),
            forall|i: int| 0 <= i < n ==> s@[i] != c,
        decreases s.len() - n,
    {
        n += 1;
    }
    proof {
        lemma_until_is(s@, c, n as int);
    }
    n
}

/// What stands before the first `c` and what stands behind it.
pub fn split_once<'a>(s: &'a [char], c: char) -> (parts: Option<(&'a [char], &'a [char])>)
    ensures
        match parts {
            Some((head, tail)) => until(s@, c) < s@.len() && head@ == s@.take(until(s@, c))
                && tail@ == s@.skip(until(s@, c) + 1),
            None => until(s@, c) == s@.len(),
        },
{
    let n: usize = count_until(s, c);
    if n == s.len() {
        return None;
    }
    let head: &[char] = slice_subrange(s, 0, n);
    let tail: &[char] = slice_subrange(s, n + 1, s.len());
    assert(head@ =~= s@.take(n as int));
    assert(tail@ =~= s@.skip(n + 1));
    Some((head, tail))
}

/// The pieces of `s` between the separators `c`.
pub fn split_at_each<'a>(s: &'a [char], c: char) -> (pieces: Vec<&'a [char]>)
    ensures
        piece_views(pieces@) == split(s@, c),
{
    let mut pieces: Vec<&'a [char]> = Vec::new();
    let mut rest: &'a [char] = s;
    loop
        invariant
            piece_views(pieces@) + split(rest@, c) =~= split(s@, c),
        decreases rest@.len(),
    {
        let ghost before = piece_views(pieces@);
        match split_once(rest, c) {
            Some((head, tail)) => {
                proof {
                    lemma_until(rest@, c);
                }
                pieces.push(head);
                assert(piece_views(pieces@) =~= before.push(head@));
                assert(split(rest@, c) == seq![head@] + split(tail@, c));
                rest = tail;
            },
            None => {
                pieces.push(rest);
                assert(piece_views(pieces@) =~= before.push(rest@));
                return pieces;
            },
        }
    }
}

/// `s` without the carriage return it may end with.
fn return_cut(s: &[char]) -> (rest: &[char])
    ensures
        rest@ == without_return(s@),
{
    if s.len() > 0 && s[s.len() - 1] == '\r' {
        let rest: &[char] = slice_subrange(s, 0, s.len() - 1);
        assert(rest@ =~= s@.drop_last());
        rest
    } else {
        s
    }
}

/// The lines of `s`.
pub fn lines_of<'a>(s: &'a [char]) -> (found: Vec<&'a [char]>)
    ensures
        piece_views(found@) == lines(s@),
{
    let mut found: Vec<&'a [char]> = Vec::new();
    let mut rest: &'a [char] = s;
    while rest.len() > 0
        invariant_except_break
            piece_views(found@) + lines(rest@) =~= lines(s@),
        ensures
            piece_views(found@) =~= lines(s@),
        decreases rest@.len(),
    {
        let ghost before = piece_views(found@);
        match split_once(rest, '\n') {
            Some((head, tail)) => {
                proof {
                    lemma_until(rest@, '\n');
                }
                let line: &'a [char] = return_cut(head);
                found.push(line);
                assert(piece_views(found@) =~= before.push(line@));
                assert(lines(rest@) == seq![line@] + lines(tail@));
                rest = tail;
            },
            None => {
                found.push(rest);
                assert(piece_views(found@) =~= before.push(rest@));
                assert(lines(rest@) == seq![rest@]);
                break;
            },
        }
    }
    found
}

/// The first word of `s`, and what stands behind it.
pub fn cut_word(s: &[char]) -> (parts: (&[char], &[char]))
    ensures
        parts.0@ == first_word(s@),
        parts.1@ == behind_first_word(s@),
{
    let t: &[char] = without_leading_space(s);
    let mut n: usize = 0;
    assert(t@.skip(0) =~= t@);
    while n < t.len() && !is_white(t[n])
        invariant
            n <= t.len(),
            until_space(t@) == n + until_space(t@.skip(n as int)),
        decreases t.len() - n,
    {
        assert(t@.skip(n as int).drop_first() =~= t@.skip(n + 1));
        n += 1;
    }
    let word: &[char] = slice_subrange(t, 0, n);
    let rest: &[char] = slice_subrange(t, n, t.len());
    assert(word@ =~= t@.take(n as int));
    assert(rest@ =~= t@.skip(n as int));
    (word, rest)
}

/// `part` replaced by `by` wherever it occurs in `s`.
pub fn replaced(s: &[char], part: &str, by: &str) -> (out: String)
    ensures
        out@ == replace(s@, part@, by@),
{
    let part: Vec<char> = chars_of(part);
    let mut out: String = String::new();
    let mut i: usize = 0;
    assert(s@.skip(0) =~= s@);
    while i < s.len()
        invariant
            i <= s.len(),
            out@ + replace(s@.skip(i as int), part@, by@) =~= replace(s@, part@, by@),
        decreases s.len() - i,
    {
        let ghost rest = s@.skip(i as int);
        assert(rest.drop_first() =~= s@.skip(i + 1));
        if part.len() == 0 {
            out.append(by);
            out.push(s[i]);
            i += 1;
        } else if occurs_here(s, part.as_slice(), i) {
            assert(rest.subrange(0, part@.len() as int) =~= s@.subrange(i as int, i + part@.len()));
            assert(rest.skip(part@.len() as int) =~= s@.skip(i + part@.len()));
            out.append(by);
            i += part.len();
        } else {
            proof {
                if text::starts_with(rest, part@) {
                    assert(rest.subrange(0, part@.len() as int) =~= s@.subrange(
                        i as int,
                        i + part@.len(),
                    ));
                }
            }
            out.push(s[i]);
            i += 1;
        }
    }
    if part.len() == 0 {
        out.append(by);
    }
    out
}

/// The characters of each string.
pub open spec fn string_views(strings: Seq<String>) -> Seq<Seq<char>> {
    strings.map_values(|s: String| s@)
}

} // verus!
