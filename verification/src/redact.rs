//! Keeping the address of the media out of what is told of a failure.
use crate::split;
use crate::text;
use vstd::prelude::*;

verus! {

/// A line with a mark in place of the address, wherever it stands.
pub open spec fn redacted(line: Seq<char>, url: Seq<char>) -> Seq<char> {
    split::replace(line, url, "[URL]"@)
}

/// A line with a mark in place of the address, wherever it stands.
pub fn redact(line: &str, url: &str) -> (out: String)
    ensures
        out@ == redacted(line@, url@),
{
    split::replaced(text::chars_of(line).as_slice(), url, "[URL]")
}

/// `part` cannot come about where `by` is put between other characters: neither holds the other,
/// and neither ends as the other begins.
pub open spec fn keeps_apart(part: Seq<char>, by: Seq<char>) -> bool {
    &&& part.len() > 0
    &&& by.len() > 0
    &&& !text::contains(by, part)
    &&& !text::contains(part, by)
    &&& forall|k: int|
        0 < k <= part.len() && k <= by.len() ==> #[trigger] part.take(k) != by.skip(by.len() - k)
    &&& forall|k: int|
        0 < k <= part.len() && k <= by.len() ==> #[trigger] by.take(k) != part.skip(part.len() - k)
}

/// Where the text with the replacements begins with an end of `part`, so does the text itself.
proof fn lemma_copied(s: Seq<char>, part: Seq<char>, by: Seq<char>, m: int)
    requires
        keeps_apart(part, by),
        1 <= m <= part.len(),
        text::starts_with(split::replace(s, part, by), part.skip(m)),
    ensures
        text::starts_with(s, part.skip(m)),
    decreases part.len() - m,
{
    let q = part.skip(m);
    let out = split::replace(s, part, by);
    if q.len() == 0 {
        assert(s.subrange(0, 0) =~= q);
    } else if text::starts_with(s, part) {
        let rest = split::replace(s.skip(part.len() as int), part, by);
        assert(out == by + rest);
        if q.len() <= by.len() {
            let k = q.len() as int;
            assert(by.take(k) =~= out.subrange(0, k));
            assert(part.skip(part.len() - k) =~= q);
            assert(false);
        } else {
            assert(part.subrange(m, m + by.len()) =~= q.take(by.len() as int));
            assert(q.take(by.len() as int) =~= out.subrange(0, by.len() as int));
            assert(out.subrange(0, by.len() as int) =~= by);
            assert(text::occurs_at(part, by, m));
            assert(false);
        }
    } else if s.len() == 0 {
        assert(out.len() == 0);
    } else {
        let rest = split::replace(s.drop_first(), part, by);
        assert(out == seq![s.first()] + rest);
        assert(out.subrange(0, q.len() as int)[0] == q[0]);
        assert(part.skip(m + 1) =~= q.drop_first());
        assert(rest.subrange(0, q.len() - 1) =~= out.subrange(0, q.len() as int).drop_first());
        lemma_copied(s.drop_first(), part, by, m + 1);
        assert(s.subrange(0, q.len() as int) =~= seq![s.first()] + s.drop_first().subrange(
            0,
            q.len() - 1,
        ));
        assert(q =~= seq![q[0]] + q.drop_first());
    }
}

/// Nothing of `part` is left where it was replaced by a text that keeps apart from it.
proof fn lemma_nothing_left(s: Seq<char>, part: Seq<char>, by: Seq<char>, i: int)
    requires
        keeps_apart(part, by),
    ensures
        !text::occurs_at(split::replace(s, part, by), part, i),
    decreases s.len(),
{
    let out = split::replace(s, part, by);
    let n = part.len() as int;
    if text::occurs_at(out, part, i) {
        if text::starts_with(s, part) {
            let rest = split::replace(s.skip(n), part, by);
            assert(out == by + rest);
            let m = by.len() as int;
            if i >= m {
                lemma_nothing_left(s.skip(n), part, by, i - m);
                assert(rest.subrange(i - m, i - m + n) =~= out.subrange(i, i + n));
            } else if i + n <= m {
                assert(by.subrange(i, i + n) =~= out.subrange(i, i + n));
                assert(text::occurs_at(by, part, i));
            } else {
                let k = m - i;
                assert(part.take(k) =~= out.subrange(i, i + n).take(k));
                assert(by.skip(m - k) =~= out.subrange(i, i + n).take(k));
            }
        } else if s.len() > 0 {
            let rest = split::replace(s.drop_first(), part, by);
            assert(out == seq![s.first()] + rest);
            if i >= 1 {
                lemma_nothing_left(s.drop_first(), part, by, i - 1);
                assert(rest.subrange(i - 1, i - 1 + n) =~= out.subrange(i, i + n));
            } else {
                assert(out.subrange(0, n)[0] == part[0]);
                assert(rest.subrange(0, n - 1) =~= out.subrange(0, n).drop_first());
                assert(part.skip(1) =~= part.drop_first());
                lemma_copied(s.drop_first(), part, by, 1);
                assert(s.subrange(0, n) =~= seq![s.first()] + s.drop_first().subrange(0, n - 1));
                assert(part =~= seq![part[0]] + part.drop_first());
                assert(text::starts_with(s, part));
            }
        }
    }
}

/// The address is not in a line from which it was taken, as long as it keeps apart from the mark.
pub proof fn redacted_lines_hide_the_address(line: Seq<char>, url: Seq<char>)
    requires
        keeps_apart(url, "[URL]"@),
    ensures
        !text::contains(redacted(line, url), url),
{
    assert forall|i: int| !#[trigger] text::occurs_at(redacted(line, url), url, i) by {
        lemma_nothing_left(line, url, "[URL]"@, i);
    }
}

/// An address of four characters or more without square brackets keeps apart from the mark.
pub proof fn ordinary_addresses_keep_apart(url: Seq<char>)
    requires
        url.len() >= 4,
        forall|i: int| 0 <= i < url.len() ==> #[trigger] url[i] != '[' && url[i] != ']',
    ensures
        keeps_apart(url, "[URL]"@),
{
    let by = "[URL]"@;
    reveal_strlit("[URL]");
    if text::contains(by, url) {
        let i = choose|i: int| #[trigger] text::occurs_at(by, url, i);
        let shared = by.subrange(i, i + url.len());
        assert(shared[0] == url[0] && shared[url.len() - 1] == url[url.len() - 1]);
        assert(shared[0] == by[i] && shared[url.len() - 1] == by[i + url.len() - 1]);
    }
    if text::contains(url, by) {
        let i = choose|i: int| #[trigger] text::occurs_at(url, by, i);
        assert(url.subrange(i, i + by.len())[0] == url[i]);
    }
    assert forall|k: int| 0 < k <= url.len() && k <= by.len() implies #[trigger] url.take(k)
        != by.skip(by.len() - k) by {
        assert(url.take(k)[k - 1] == url[k - 1]);
        assert(by.skip(by.len() - k)[k - 1] == by[by.len() - 1]);
    }
    assert forall|k: int| 0 < k <= url.len() && k <= by.len() implies #[trigger] by.take(k)
        != url.skip(url.len() - k) by {
        assert(by.take(k)[0] == '[');
        assert(url.skip(url.len() - k)[0] == url[url.len() - k]);
    }
}

/// A line that does not hold the address is told as it is.
pub proof fn other_lines_are_kept(line: Seq<char>, url: Seq<char>)
    requires
        url.len() > 0,
        !text::contains(line, url),
    ensures
        redacted(line, url) == line,
    decreases line.len(),
{
    assert(!text::occurs_at(line, url, 0));
    if line.len() > 0 {
        let rest = line.drop_first();
        assert forall|i: int| !#[trigger] text::occurs_at(rest, url, i) by {
            assert(!text::occurs_at(line, url, i + 1));
            if text::occurs_at(rest, url, i) {
                assert(line.subrange(i + 1, i + 1 + url.len()) =~= rest.subrange(i, i + url.len()));
            }
        }
        other_lines_are_kept(rest, url);
        assert(line =~= seq![line.first()] + rest);
    } else {
        assert(redacted(line, url) =~= line);
    }
}

} // verus!
