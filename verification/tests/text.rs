use inanna_media::redact::redact;
use inanna_media::split::{cut_word, lines_of, replaced, split_at_each, split_once};
use inanna_media::text::{
    behind, chars_of, ends, find, has, in_ascii_lower, is_white, same_but_case, string_of, trimmed,
};

const SAMPLES: [&str; 16] = [
    "",
    " ",
    "a",
    "a|b||c|",
    "|",
    "one\ntwo\r\nthree\r",
    "\n\n\r\n",
    "last line\n",
    "no end\r\nhere",
    "  word  next\tthird ",
    "aaa",
    "abaababaab",
    "Ünï|cödé\nıİ",
    "\u{2003}wide\u{3000}",
    "[URL] http://x/[::1] [URL]",
    "\r",
];

fn chars(s: &str) -> Vec<char> {
    s.chars().collect()
}

fn texts(pieces: Vec<&[char]>) -> Vec<String> {
    pieces.into_iter().map(|piece| piece.iter().collect()).collect()
}

#[test]
fn white_space_is_what_the_standard_library_says() {
    for code in 0..=0x10ffff {
        if let Some(c) = char::from_u32(code) {
            assert_eq!(is_white(c), c.is_whitespace(), "{code:x}");
        }
    }
}

#[test]
fn letters_are_lowered_as_in_ascii() {
    for code in 0..0x500 {
        if let Some(c) = char::from_u32(code) {
            let s = c.to_string();
            assert_eq!(string_of(&in_ascii_lower(&s)), s.to_ascii_lowercase());
        }
    }
    assert!(same_but_case("MiXeD", "mIxEd"));
    assert!(!same_but_case("É", "é"));
}

#[test]
fn splitting_agrees_with_the_standard_library() {
    for s in SAMPLES {
        let c = chars(s);
        assert_eq!(string_of(&chars_of(s)), s);
        assert_eq!(string_of(trimmed(&c)), s.trim());
        assert_eq!(
            texts(split_at_each(&c, '|')),
            s.split('|').map(str::to_owned).collect::<Vec<_>>()
        );
        assert_eq!(
            texts(lines_of(&c)),
            s.lines().map(str::to_owned).collect::<Vec<_>>()
        );
        assert_eq!(
            split_once(&c, '|').map(|(a, b)| (string_of(a), string_of(b))),
            s.split_once('|').map(|(a, b)| (a.to_owned(), b.to_owned()))
        );
        let (first, rest) = cut_word(&c);
        let (second, _) = cut_word(rest);
        let mut words = s.split_whitespace();
        assert_eq!(string_of(first), words.next().unwrap_or(""));
        assert_eq!(string_of(second), words.next().unwrap_or(""));
    }
}

#[test]
fn searching_agrees_with_the_standard_library() {
    for s in SAMPLES {
        let c = chars(s);
        for part in ["", "a", "aa", "ab", "aba", "|", "[URL]", "\n", "Ü"] {
            assert_eq!(has(&c, part), s.contains(part));
            assert_eq!(ends(&c, part), s.ends_with(part));
            assert_eq!(
                find(&c, &chars(part)),
                s.find(part).map(|at| s[..at].chars().count())
            );
            assert_eq!(
                behind(&c, part).map(string_of),
                s.find(part).map(|at| s[at + part.len()..].to_owned())
            );
            for by in ["", "[URL]", "aa"] {
                assert_eq!(replaced(&c, part, by), s.replace(part, by));
            }
        }
    }
}

#[test]
fn addresses_are_hidden() {
    let url = "https://example.com/v?id=1";
    let line = "ERROR: https://example.com/v?id=1 and https://example.com/v?id=12";
    let told = redact(line, url);
    assert_eq!(told, "ERROR: [URL] and [URL]2");
    assert!(!told.contains(url));
    assert_eq!(redact("nothing here", url), "nothing here");
    assert_eq!(redact("]xx", "]x"), "[URL]x");
}
