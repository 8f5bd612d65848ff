//! How text is read.
use crate::codec;
use crate::split;
use crate::text;
use vstd::prelude::*;

verus! {

// ---------------------------------------------------------------------------------------------
// Searching
// ---------------------------------------------------------------------------------------------

/// A text stands in another from a place on where each of its characters stands there in turn.
pub proof fn parts_stand_where_their_characters_do(s: Seq<char>, part: Seq<char>, i: int)
    ensures
        text::occurs_at(s, part, i) <==> 0 <= i <= s.len() - part.len() && forall|k: int|
            0 <= k < part.len() ==> s[i + k] == #[trigger] part[k],
{
    let n = part.len() as int;
    if text::occurs_at(s, part, i) {
        assert forall|k: int| 0 <= k < part.len() implies s[i + k] == #[trigger] part[k] by {
            assert(s.subrange(i, i + n)[k] == part[k]);
        }
    }
    if 0 <= i <= s.len() - n && forall|k: int|
        0 <= k < part.len() ==> s[i + k] == #[trigger] part[k] {
        assert(s.subrange(i, i + n) =~= part);
    }
}

/// A text begins with another where it is that one and something behind it.
pub proof fn beginnings_are_followed_by_the_rest(s: Seq<char>, part: Seq<char>)
    ensures
        text::starts_with(s, part) <==> exists|rest: Seq<char>| s == #[trigger] (part + rest),
{
    if text::starts_with(s, part) {
        assert(s =~= part + s.skip(part.len() as int));
    }
    if exists|rest: Seq<char>| s == #[trigger] (part + rest) {
        assert(s.subrange(0, part.len() as int) =~= part);
    }
}

/// A text ends with another where it is something and that one behind it.
pub proof fn ends_are_preceded_by_the_rest(s: Seq<char>, part: Seq<char>)
    ensures
        text::ends_with(s, part) <==> exists|rest: Seq<char>| s == #[trigger] (rest + part),
{
    let n = part.len() as int;
    if text::ends_with(s, part) {
        assert(s =~= s.take(s.len() - n) + part);
    }
    if exists|rest: Seq<char>| s == #[trigger] (rest + part) {
        assert(s.subrange(s.len() - n, s.len() as int) =~= part);
    }
}

/// A text holds another where it is that one between two others.
pub proof fn parts_stand_between_others(s: Seq<char>, part: Seq<char>)
    ensures
        text::contains(s, part) <==> exists|a: Seq<char>, b: Seq<char>| s == #[trigger] (a + part
            + b),
{
    let n = part.len() as int;
    if text::contains(s, part) {
        let k = choose|k: int| #[trigger] text::occurs_at(s, part, k);
        assert(s =~= s.take(k) + part + s.skip(k + n));
    }
    if exists|a: Seq<char>, b: Seq<char>| s == #[trigger] (a + part + b) {
        let (a, b) = choose|a: Seq<char>, b: Seq<char>| s == #[trigger] (a + part + b);
        assert(s.subrange(a.len() as int, a.len() + n) =~= part);
        assert(text::occurs_at(s, part, a.len() as int));
    }
}

/// Letters from `A` to `Z` become the small ones, which stand 32 places behind them, and any other
/// character stays; so nothing changes a second time, and small letters stay.
pub proof fn letters_are_made_small(s: Seq<char>, i: int)
    requires
        0 <= i < s.len(),
    ensures
        text::ascii_lower(s).len() == s.len(),
        'A' <= s[i] <= 'Z' ==> text::ascii_lower(s)[i] as int == s[i] as int + 32,
        !('A' <= s[i] <= 'Z') ==> text::ascii_lower(s)[i] == s[i],
        text::ascii_lower(text::ascii_lower(s)) == text::ascii_lower(s),
{
    assert(text::ascii_lower(text::ascii_lower(s)) =~= text::ascii_lower(s));
}

/// Every character is white space.
pub open spec fn blank(s: Seq<char>) -> bool {
    forall|i: int| 0 <= i < s.len() ==> text::is_space(#[trigger] s[i])
}

/// White space is cut off at both ends and nowhere else: what is left neither begins nor ends with
/// it, and nothing but white space was cut off.
pub proof fn only_white_space_is_trimmed(s: Seq<char>)
    ensures
        ({
            let t = text::trim(s);
            &&& t.len() > 0 ==> !text::is_space(t[0]) && !text::is_space(t[t.len() - 1])
            &&& exists|a: Seq<char>, b: Seq<char>|
                blank(a) && blank(b) && s == #[trigger] (a + t + b)
        }),
{
    lemma_trim_start(s);
    let u = text::trim_start(s);
    let a = choose|a: Seq<char>| blank(a) && s == #[trigger] (a + u);
    lemma_trim_end(u);
    let t = text::trim_end(u);
    let b = choose|b: Seq<char>| blank(b) && u == #[trigger] (t + b);
    assert(s =~= a + t + b);
    if t.len() > 0 {
        assert(t[0] == u[0]);
    }
}

proof fn lemma_trim_start(s: Seq<char>)
    ensures
        ({
            let t = text::trim_start(s);
            &&& t.len() > 0 ==> !text::is_space(t[0])
            &&& exists|a: Seq<char>| blank(a) && s == #[trigger] (a + t)
        }),
    decreases s.len(),
{
    let t = text::trim_start(s);
    if s.len() > 0 && text::is_space(s.first()) {
        lemma_trim_start(s.drop_first());
        let a = choose|a: Seq<char>| blank(a) && s.drop_first() == #[trigger] (a + t);
        let all = seq![s.first()] + a;
        assert(s =~= seq![s.first()] + s.drop_first());
        assert(all + t =~= seq![s.first()] + (a + t));
        assert(blank(all));
    } else {
        let none = Seq::<char>::empty();
        assert(s =~= none + t);
        assert(blank(none));
    }
}

proof fn lemma_trim_end(s: Seq<char>)
    ensures
        ({
            let t = text::trim_end(s);
            &&& t.len() > 0 ==> !text::is_space(t[t.len() - 1])
            &&& exists|b: Seq<char>| blank(b) && s == #[trigger] (t + b)
        }),
    decreases s.len(),
{
    let t = text::trim_end(s);
    if s.len() > 0 && text::is_space(s.last()) {
        lemma_trim_end(s.drop_last());
        let b = choose|b: Seq<char>| blank(b) && s.drop_last() == #[trigger] (t + b);
        let all = b.push(s.last());
        assert(s =~= s.drop_last().push(s.last()));
        assert(t + all =~= (t + b).push(s.last()));
        assert(blank(all));
    } else {
        let none = Seq::<char>::empty();
        assert(s =~= t + none);
        assert(blank(none));
    }
}

// ---------------------------------------------------------------------------------------------
// Cutting
// ---------------------------------------------------------------------------------------------

/// The pieces between separators hold none, and put together with the separators they are the whole.
pub proof fn pieces_make_the_whole(s: Seq<char>, c: char)
    ensures
        ({
            let pieces = split::split(s, c);
            &&& pieces.len() > 0
            &&& split::join(pieces, seq![c]) == s
            &&& forall|i: int, k: int|
                0 <= i < pieces.len() && 0 <= k < pieces[i].len() ==> #[trigger] pieces[i][k] != c
        }),
    decreases s.len(),
{
    let n = split::until(s, c);
    split::lemma_until(s, c);
    let pieces = split::split(s, c);
    if n < s.len() {
        let rest = s.skip(n + 1);
        pieces_make_the_whole(rest, c);
        let others = split::split(rest, c);
        assert(pieces =~= seq![s.take(n)] + others);
        lemma_join_behind(s.take(n), others, seq![c]);
        assert(s =~= s.take(n) + seq![c] + rest);
        assert forall|i: int, k: int|
            0 <= i < pieces.len() && 0 <= k < pieces[i].len() implies #[trigger] pieces[i][k] != c by {
            if i > 0 {
                assert(pieces[i] == others[i - 1]);
                assert(others[i - 1][k] != c);
            }
        }
    }
}

/// A piece put before others.
pub proof fn lemma_join_behind(first: Seq<char>, pieces: Seq<Seq<char>>, between: Seq<char>)
    requires
        pieces.len() > 0,
    ensures
        split::join(seq![first] + pieces, between) == first + between + split::join(
            pieces,
            between,
        ),
    decreases pieces.len(),
{
    let all = seq![first] + pieces;
    assert(all.drop_last() =~= seq![first] + pieces.drop_last());
    assert(all.last() == pieces.last());
    if pieces.len() == 1 {
        assert(all.drop_last() =~= seq![first]);
        assert(split::join(seq![first], between) == first);
        assert(split::join(pieces, between) == pieces.last());
        assert(split::join(all, between) =~= first + between + pieces.last());
    } else {
        lemma_join_behind(first, pieces.drop_last(), between);
        assert(split::join(all, between) =~= first + between + split::join(pieces, between));
    }
}

/// A line ends at a line feed, which is not part of it, nor is a carriage return before it. What
/// stands behind the last line feed is a line where it is not empty.
pub proof fn lines_end_at_line_feeds(line: Seq<char>, rest: Seq<char>)
    requires
        forall|i: int| 0 <= i < line.len() ==> #[trigger] line[i] != '\n',
    ensures
        split::lines(line) == if line.len() == 0 {
            Seq::empty()
        } else {
            seq![line]
        },
        split::lines(line + seq!['\n'] + rest) == seq![
            if line.len() > 0 && line[line.len() - 1] == '\r' {
                line.take(line.len() - 1)
            } else {
                line
            },
        ] + split::lines(rest),
{
    let n = line.len() as int;
    let whole = line + seq!['\n'] + rest;
    split::lemma_until_is(line, '\n', n);
    split::lemma_until_is(whole, '\n', n);
    assert(whole.take(n) =~= line);
    assert(whole.skip(n + 1) =~= rest);
    if n > 0 {
        assert(line.drop_last() =~= line.take(n - 1));
    }
}

// ---------------------------------------------------------------------------------------------
// Codecs
// ---------------------------------------------------------------------------------------------

/// A codec counts as named unless it is empty or reads `none`, the case of letters apart.
pub proof fn codecs_are_named(name: Seq<char>)
    ensures
        !codec::codec_present(None),
        codec::codec_present(Some(name)) <==> name.len() > 0 && text::ascii_lower(name) != "none"@,
{
    reveal_strlit("none");
    assert(text::ascii_lower("none"@) =~= "none"@);
}

/// Names of codecs in any letters: H.264 by its name or as `avc1` or `avc3` with whatever follows,
/// AV1 by its name or as `av01`, AAC by its name or as `mp4a`; no name stands for two of them.
pub proof fn codecs_are_known_by_their_names(name: Seq<char>)
    ensures
        ({
            let small = text::ascii_lower(name);
            &&& codec::h264_codec(Some(name)) <==> {
                ||| small == "h264"@
                ||| exists|rest: Seq<char>| small == #[trigger] ("avc1"@ + rest)
                ||| exists|rest: Seq<char>| small == #[trigger] ("avc3"@ + rest)
            }
            &&& codec::av1_codec(Some(name)) <==> {
                ||| small == "av1"@
                ||| exists|rest: Seq<char>| small == #[trigger] ("av01"@ + rest)
            }
            &&& codec::aac_codec(Some(name)) <==> {
                ||| small == "aac"@
                ||| exists|rest: Seq<char>| small == #[trigger] ("mp4a"@ + rest)
            }
        }),
        !codec::h264_codec(None) && !codec::av1_codec(None) && !codec::aac_codec(None),
        !(codec::h264_codec(Some(name)) && codec::av1_codec(Some(name))),
        !(codec::h264_codec(Some(name)) && codec::aac_codec(Some(name))),
        !(codec::av1_codec(Some(name)) && codec::aac_codec(Some(name))),
{
    let small = text::ascii_lower(name);
    beginnings_are_followed_by_the_rest(small, "avc1"@);
    beginnings_are_followed_by_the_rest(small, "avc3"@);
    beginnings_are_followed_by_the_rest(small, "av01"@);
    beginnings_are_followed_by_the_rest(small, "mp4a"@);
    reveal_strlit("h264");
    reveal_strlit("avc1");
    reveal_strlit("avc3");
    reveal_strlit("av1");
    reveal_strlit("av01");
    reveal_strlit("aac");
    reveal_strlit("mp4a");
    assert("h264"@.len() == 4 && "h264"@[0] == 'h');
    assert("avc1"@.len() == 4 && "avc1"@[0] == 'a' && "avc1"@[2] == 'c');
    assert("avc3"@.len() == 4 && "avc3"@[0] == 'a' && "avc3"@[2] == 'c');
    assert("av1"@.len() == 3 && "av1"@[0] == 'a' && "av1"@[1] == 'v');
    assert("av01"@.len() == 4 && "av01"@[0] == 'a' && "av01"@[2] == '0');
    assert("aac"@.len() == 3 && "aac"@[0] == 'a' && "aac"@[1] == 'a');
    assert("mp4a"@.len() == 4 && "mp4a"@[0] == 'm');
}

/// A file name extension stands for an MP4 container where it reads `mp4` or `m4v` in any letters.
pub proof fn containers_are_known_by_their_extensions(extension: Seq<char>)
    ensures
        codec::mp4_container(extension) <==> text::ascii_lower(extension) == "mp4"@
            || text::ascii_lower(extension) == "m4v"@,
{
    reveal_strlit("mp4");
    reveal_strlit("m4v");
    assert(text::ascii_lower("mp4"@) =~= "mp4"@);
    assert(text::ascii_lower("m4v"@) =~= "m4v"@);
}

/// The text is a word: it is not empty, and holds no white space.
pub open spec fn word(s: Seq<char>) -> bool {
    s.len() > 0 && forall|i: int| 0 <= i < s.len() ==> !text::is_space(#[trigger] s[i])
}

/// A line of FFmpeg's list of decoders has flags, a name and a description. It names a decoder that
/// decodes AV1 in software exactly where the flags begin with `V` and the name is `libdav1d` or
/// `libaom-av1`, whatever else it says.
pub proof fn decoders_are_known_by_their_names(
    before: Seq<char>,
    flags: Seq<char>,
    between: Seq<char>,
    name: Seq<char>,
    after: Seq<char>,
)
    requires
        blank(before),
        word(flags),
        blank(between) && between.len() > 0,
        word(name),
        after.len() > 0 ==> text::is_space(after[0]),
    ensures
        codec::software_av1_line(before + flags + between + name + after) <==> flags[0] == 'V' && (
        name == "libdav1d"@ || name == "libaom-av1"@),
{
    let rest = between + name + after;
    let line = before + flags + between + name + after;
    assert(line =~= before + (flags + rest));
    lemma_word_cut(before, flags, rest);
    assert(rest =~= between + (name + after));
    lemma_word_cut(between, name, after);
    reveal_strlit("V");
    if flags[0] == 'V' {
        assert(flags.subrange(0, 1) =~= "V"@);
    } else if text::starts_with(flags, "V"@) {
        assert(flags.subrange(0, 1)[0] == 'V');
    }
}

/// A line with flags and no name, or with nothing, names no decoder.
pub proof fn nameless_lines_name_no_decoder(
    before: Seq<char>,
    flags: Seq<char>,
    after: Seq<char>,
)
    requires
        blank(before),
        word(flags),
        blank(after),
    ensures
        !codec::software_av1_line(before + (flags + after)),
        !codec::software_av1_line(before),
{
    reveal_strlit("libdav1d");
    reveal_strlit("libaom-av1");
    reveal_strlit("V");
    assert("libdav1d"@.len() == 8 && "libaom-av1"@.len() == 10 && "V"@.len() == 1);
    if after.len() > 0 {
        assert(text::is_space(after[0]));
    }
    lemma_word_cut(before, flags, after);
    lemma_blank_is_empty(after);
    lemma_blank_is_empty(before);
}

/// Of white space alone nothing is left, and no word stands in it.
pub proof fn lemma_blank_is_empty(s: Seq<char>)
    requires
        blank(s),
    ensures
        text::trim_start(s).len() == 0,
        split::first_word(s).len() == 0,
    decreases s.len(),
{
    if s.len() > 0 {
        assert(text::is_space(s[0]));
        assert forall|i: int| 0 <= i < s.drop_first().len() implies text::is_space(
            #[trigger] s.drop_first()[i],
        ) by {
            assert(text::is_space(s[i + 1]));
        }
        lemma_blank_is_empty(s.drop_first());
    }
}

proof fn lemma_word_cut(before: Seq<char>, first: Seq<char>, rest: Seq<char>)
    requires
        blank(before),
        word(first),
        rest.len() > 0 ==> text::is_space(rest[0]),
    ensures
        split::first_word(before + (first + rest)) == first,
        split::behind_first_word(before + (first + rest)) == rest,
{
    let t = first + rest;
    lemma_blank_is_cut(before, t);
    lemma_until_space_is(first, rest);
    assert(t.take(first.len() as int) =~= first);
    assert(t.skip(first.len() as int) =~= rest);
}

/// White space before a text is cut off.
pub proof fn lemma_blank_is_cut(before: Seq<char>, t: Seq<char>)
    requires
        blank(before),
        t.len() > 0 && !text::is_space(t[0]),
    ensures
        text::trim_start(before + t) == t,
    decreases before.len(),
{
    let s = before + t;
    if before.len() > 0 {
        assert(text::is_space(before[0]));
        assert(s.drop_first() =~= before.drop_first() + t);
        assert forall|i: int| 0 <= i < before.drop_first().len() implies text::is_space(
            #[trigger] before.drop_first()[i],
        ) by {
            assert(text::is_space(before[i + 1]));
        }
        lemma_blank_is_cut(before.drop_first(), t);
    } else {
        assert(s =~= t);
    }
}

proof fn lemma_until_space_is(first: Seq<char>, rest: Seq<char>)
    requires
        forall|i: int| 0 <= i < first.len() ==> !text::is_space(#[trigger] first[i]),
        rest.len() > 0 ==> text::is_space(rest[0]),
    ensures
        split::until_space(first + rest) == first.len(),
    decreases first.len(),
{
    let t = first + rest;
    if first.len() > 0 {
        assert(!text::is_space(first[0]));
        assert(t.drop_first() =~= first.drop_first() + rest);
        assert forall|i: int| 0 <= i < first.drop_first().len() implies !text::is_space(
            #[trigger] first.drop_first()[i],
        ) by {
            assert(!text::is_space(first[i + 1]));
        }
        lemma_until_space_is(first.drop_first(), rest);
    } else {
        assert(t =~= rest);
    }
}

/// A list names such a decoder where one of its lines does.
pub proof fn lists_are_read_by_line(line: Seq<char>, rest: Seq<char>)
    requires
        line.len() > 0,
        forall|i: int| 0 <= i < line.len() ==> #[trigger] line[i] != '\n' && line[i] != '\r',
    ensures
        codec::software_av1_listed(line) == codec::software_av1_line(line),
        codec::software_av1_listed(line + seq!['\n'] + rest) == (codec::software_av1_line(line)
            || codec::software_av1_listed(rest)),
        !codec::software_av1_listed(Seq::empty()),
{
    lines_end_at_line_feeds(line, rest);
    let one = split::lines(line);
    assert(one.len() == 1 && one[0] == line);
    let whole = split::lines(line + seq!['\n'] + rest);
    let others = split::lines(rest);
    assert(line[line.len() - 1] != '\r');
    assert(whole =~= seq![line] + others);
    assert(whole[0] == line);
    assert(forall|i: int| 0 <= i < others.len() ==> whole[i + 1] == others[i]);
    if codec::software_av1_listed(rest) {
        let i = choose|i: int|
            0 <= i < others.len() && codec::software_av1_line(#[trigger] others[i]);
        assert(codec::software_av1_line(whole[i + 1]));
    }
    if codec::software_av1_listed(line + seq!['\n'] + rest) {
        let i = choose|i: int|
            0 <= i < whole.len() && codec::software_av1_line(#[trigger] whole[i]);
        if i > 0 {
            assert(codec::software_av1_line(others[i - 1]));
        }
    }
}

} // verus!
