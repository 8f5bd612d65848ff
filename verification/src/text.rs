//! Text as sequences of characters: what searching, splitting, trimming and replacing mean, and
//! the routines that do it.
use vstd::prelude::*;
use vstd::slice::slice_subrange;

verus! {

/// `String::push` adds the character as the last one.
pub assume_specification[ String::push ](string: &mut String, ch: char)
    ensures
        final(string)@ == old(string)@.push(ch),
;

// ---------------------------------------------------------------------------------------------
// Occurrences
// ---------------------------------------------------------------------------------------------

/// `part` stands in `s` at position `i`.
pub open spec fn occurs_at(s: Seq<char>, part: Seq<char>, i: int) -> bool {
    &&& 0 <= i
    &&& i + part.len() <= s.len()
    &&& s.subrange(i, i + part.len()) == part
}

/// `part` stands somewhere in `s`.
pub open spec fn contains(s: Seq<char>, part: Seq<char>) -> bool {
    exists|i: int| #[trigger] occurs_at(s, part, i)
}

/// `s` begins with `part`.
pub open spec fn starts_with(s: Seq<char>, part: Seq<char>) -> bool {
    occurs_at(s, part, 0)
}

/// `s` ends with `part`.
pub open spec fn ends_with(s: Seq<char>, part: Seq<char>) -> bool {
    occurs_at(s, part, s.len() - part.len())
}

/// The characters of `s`, in order.
pub fn chars_of(s: &str) -> (chars: Vec<char>)
    ensures
        chars@ == s@,
{
    let mut chars: Vec<char> = Vec::new();
    for c in it: s.chars()
        invariant
            it.seq() == s@,
            chars@ == s@.take(it.index()),
    {
        chars.push(c);
        assert(s@.take(it.index() + 1) =~= s@.take(it.index()).push(c));
    }
    assert(s@.take(s@.len() as int) =~= s@);
    chars
}

/// The string made of `chars`.
pub fn string_of(chars: &[char]) -> (s: String)
    ensures
        s@ == chars@,
{
    let mut s: String = String::new();
    let mut i: usize = 0;
    while i < chars.len()
        invariant
            i <= chars.len(),
            s@ == chars@.take(i as int),
        decreases chars.len() - i,
    {
        s.push(chars[i]);
        assert(chars@.take(i + 1) =~= chars@.take(i as int).push(chars@[i as int]));
        i += 1;
    }
    assert(chars@.take(chars@.len() as int) =~= chars@);
    s
}

/// Whether `part` stands in `s` at position `i`.
pub fn occurs_here(s: &[char], part: &[char], i: usize) -> (b: bool)
    ensures
        b == occurs_at(s@, part@, i as int),
{
    if i > s.len() || s.len() - i < part.len() {
        return false;
    }
    let mut k: usize = 0;
    while k < part.len()
        invariant
            i + part.len() <= s.len(),
            k <= part.len(),
            forall|j: int| 0 <= j < k ==> s@[i + j] == part@[j],
        decreases part.len() - k,
    {
        if s[i + k] != part[k] {
            assert(s@.subrange(i as int, i + part@.len())[k as int] != part@[k as int]);
            return false;
        }
        k += 1;
    }
    assert(s@.subrange(i as int, i + part@.len()) =~= part@);
    true
}

/// The first position at which `part` stands in `s`.
pub fn find(s: &[char], part: &[char]) -> (found: Option<usize>)
    ensures
        match found {
            Some(i) => occurs_at(s@, part@, i as int) && forall|j: int|
                j < i ==> !#[trigger] occurs_at(s@, part@, j),
            None => !contains(s@, part@),
        },
{
    let mut i: usize = 0;
    while i < s.len()
        invariant
            i <= s.len(),
            forall|j: int| j < i ==> !#[trigger] occurs_at(s@, part@, j),
        decreases s.len() - i,
    {
        if occurs_here(s, part, i) {
            return Some(i);
        }
        i += 1;
    }
    if occurs_here(s, part, i) {
        Some(i)
    } else {
        None
    }
}

/// Whether two texts are the same.
pub fn same_chars(a: &[char], b: &[char]) -> (same: bool)
    ensures
        same == (a@ == b@),
{
    if a.len() != b.len() {
        return false;
    }
    let same: bool = occurs_here(a, b, 0);
    assert(a@.subrange(0, a@.len() as int) =~= a@);
    same
}

/// Whether two texts are the same.
pub fn same_text(a: &str, b: &str) -> (same: bool)
    ensures
        same == (a@ == b@),
{
    same_chars(chars_of(a).as_slice(), chars_of(b).as_slice())
}

/// Whether `s` reads `text`.
pub fn reads(s: &[char], text: &str) -> (b: bool)
    ensures
        b == (s@ == text@),
{
    same_chars(s, chars_of(text).as_slice())
}

/// Whether an optional text is present and reads `text`.
pub fn is_text(value: Option<&str>, text: &str) -> (b: bool)
    ensures
        b == (value matches Some(v) && v@ == text@),
{
    match value {
        Some(v) => same_text(v, text),
        None => false,
    }
}

/// Whether `part` stands somewhere in `s`.
pub fn has(s: &[char], part: &str) -> (b: bool)
    ensures
        b == contains(s@, part@),
{
    match find(s, chars_of(part).as_slice()) {
        Some(i) => true,
        None => false,
    }
}

/// Whether `s` begins with `part`.
pub fn begins(s: &[char], part: &str) -> (b: bool)
    ensures
        b == starts_with(s@, part@),
{
    occurs_here(s, chars_of(part).as_slice(), 0)
}

/// Whether `s` ends with `part`.
pub fn ends(s: &[char], part: &str) -> (b: bool)
    ensures
        b == ends_with(s@, part@),
{
    let part: Vec<char> = chars_of(part);
    if part.len() > s.len() {
        false
    } else {
        occurs_here(s, part.as_slice(), s.len() - part.len())
    }
}

/// The characters of `s` from position `start` on.
pub fn from(s: &[char], start: usize) -> (rest: &[char])
    requires
        start <= s@.len(),
    ensures
        rest@ == s@.skip(start as int),
{
    let rest: &[char] = slice_subrange(s, start, s.len());
    assert(rest@ =~= s@.skip(start as int));
    rest
}

/// What stands behind `prefix`, where `s` begins with it.
pub fn after_prefix<'a>(s: &'a [char], prefix: &str) -> (rest: Option<&'a [char]>)
    ensures
        match rest {
            Some(r) => starts_with(s@, prefix@) && r@ == s@.skip(prefix@.len() as int),
            None => !starts_with(s@, prefix@),
        },
{
    let prefix: Vec<char> = chars_of(prefix);
    if occurs_here(s, prefix.as_slice(), 0) {
        Some(from(s, prefix.len()))
    } else {
        None
    }
}

/// What stands behind the first occurrence of `part` in `s`.
pub open spec fn behind_first(s: Seq<char>, part: Seq<char>) -> Option<Seq<char>>
    decreases s.len(),
{
    if starts_with(s, part) {
        Some(s.skip(part.len() as int))
    } else if s.len() == 0 {
        None
    } else {
        behind_first(s.drop_first(), part)
    }
}

/// What stands behind the first occurrence of `part` in `s`.
pub fn behind<'a>(s: &'a [char], part: &str) -> (rest: Option<&'a [char]>)
    ensures
        match rest {
            Some(r) => behind_first(s@, part@) == Some(r@),
            None => behind_first(s@, part@) is None,
        },
{
    let sought: Vec<char> = chars_of(part);
    let mut rest: &'a [char] = s;
    loop
        invariant
            sought@ == part@,
            behind_first(s@, part@) == behind_first(rest@, part@),
        decreases rest@.len(),
    {
        if occurs_here(rest, sought.as_slice(), 0) {
            return Some(from(rest, sought.len()));
        }
        if rest.len() == 0 {
            return None;
        }
        assert(rest@.skip(1) =~= rest@.drop_first());
        rest = from(rest, 1);
    }
}

// ---------------------------------------------------------------------------------------------
// Letter case
// ---------------------------------------------------------------------------------------------

/// A letter from `A` to `Z` in lower case; any other character as it is.
pub open spec fn lower_char(c: char) -> char {
    if 'A' <= c <= 'Z' {
        ((c as u8) + 32) as char
    } else {
        c
    }
}

/// `s` with each letter from `A` to `Z` in lower case.
pub open spec fn ascii_lower(s: Seq<char>) -> Seq<char> {
    s.map_values(|c: char| lower_char(c))
}

/// `s` with each letter from `A` to `Z` in lower case.
pub fn in_ascii_lower(s: &str) -> (lower: Vec<char>)
    ensures
        lower@ == ascii_lower(s@),
{
    let chars: Vec<char> = chars_of(s);
    let mut lower: Vec<char> = Vec::new();
    let mut i: usize = 0;
    while i < chars.len()
        invariant
            i <= chars.len(),
            lower@ == ascii_lower(chars@.take(i as int)),
        decreases chars.len() - i,
    {
        let c: char = chars[i];
        let l: char = if 'A' <= c && c <= 'Z' {
            ((c as u8) + 32) as char
        } else {
            c
        };
        lower.push(l);
        i += 1;
        assert(lower@ =~= ascii_lower(chars@.take(i as int)));
    }
    assert(chars@.take(chars@.len() as int) =~= chars@);
    lower
}

/// Whether two texts are the same but for the case of the letters from `A` to `Z`.
pub fn same_but_case(a: &str, b: &str) -> (same: bool)
    ensures
        same == (ascii_lower(a@) == ascii_lower(b@)),
{
    same_chars(in_ascii_lower(a).as_slice(), in_ascii_lower(b).as_slice())
}

// ---------------------------------------------------------------------------------------------
// White space
// ---------------------------------------------------------------------------------------------

/// The characters that Unicode calls white space.
pub open spec fn is_space(c: char) -> bool {
    ||| '\u{9}' <= c <= '\u{d}'
    ||| c == ' '
    ||| c == '\u{85}'
    ||| c == '\u{a0}'
    ||| c == '\u{1680}'
    ||| '\u{2000}' <= c <= '\u{200a}'
    ||| c == '\u{2028}'
    ||| c == '\u{2029}'
    ||| c == '\u{202f}'
    ||| c == '\u{205f}'
    ||| c == '\u{3000}'
}

/// Whether a character is white space.
pub fn is_white(c: char) -> (b: bool)
    ensures
        b == is_space(c),
{
    ('\u{9}' <= c && c <= '\u{d}') || c == ' ' || c == '\u{85}' || c == '\u{a0}' || c == '\u{1680}'
        || ('\u{2000}' <= c && c <= '\u{200a}') || c == '\u{2028}' || c == '\u{2029}' || c
        == '\u{202f}' || c == '\u{205f}' || c == '\u{3000}'
}

/// `s` without the white space it begins with.
pub open spec fn trim_start(s: Seq<char>) -> Seq<char>
    decreases s.len(),
{
    if s.len() > 0 && is_space(s.first()) {
        trim_start(s.drop_first())
    } else {
        s
    }
}

/// `s` without the white space it ends with.
pub open spec fn trim_end(s: Seq<char>) -> Seq<char>
    decreases s.len(),
{
    if s.len() > 0 && is_space(s.last()) {
        trim_end(s.drop_last())
    } else {
        s
    }
}

/// `s` without the white space it begins and ends with.
pub open spec fn trim(s: Seq<char>) -> Seq<char> {
    trim_end(trim_start(s))
}

/// `s` without the white space it begins with.
pub fn without_leading_space(s: &[char]) -> (rest: &[char])
    ensures
        rest@ == trim_start(s@),
{
    let mut i: usize = 0;
    assert(s@.skip(0) =~= s@);
    while i < s.len() && is_white(s[i])
        invariant
            i <= s.len(),
            trim_start(s@) == trim_start(s@.skip(i as int)),
        decreases s.len() - i,
    {
        assert(s@.skip(i as int).drop_first() =~= s@.skip(i + 1));
        i += 1;
    }
    from(s, i)
}

/// `s` without the white space it ends with.
pub fn without_trailing_space(s: &[char]) -> (rest: &[char])
    ensures
        rest@ == trim_end(s@),
{
    let mut n: usize = s.len();
    assert(s@.take(s@.len() as int) =~= s@);
    while n > 0 && is_white(s[n - 1])
        invariant
            n <= s.len(),
            trim_end(s@) == trim_end(s@.take(n as int)),
        decreases n,
    {
        assert(s@.take(n as int).drop_last() =~= s@.take(n - 1));
        n -= 1;
    }
    let rest: &[char] = slice_subrange(s, 0, n);
    assert(rest@ =~= s@.take(n as int));
    rest
}

/// `s` without the white space it begins and ends with.
pub fn trimmed(s: &[char]) -> (rest: &[char])
    ensures
        rest@ == trim(s@),
{
    without_trailing_space(without_leading_space(s))
}

} // verus!
