//! Which codecs and containers names stand for.
use crate::split;
use crate::text;
use vstd::prelude::*;

verus! {

/// The characters of an optional string.
pub open spec fn opt_view(value: Option<String>) -> Option<Seq<char>> {
    match value {
        Some(s) => Some(s@),
        None => None,
    }
}

/// The characters of an optional text.
pub open spec fn opt_str_view(value: Option<&str>) -> Option<Seq<char>> {
    match value {
        Some(s) => Some(s@),
        None => None,
    }
}

/// An optional string as an optional text.
pub fn as_text(value: &Option<String>) -> (t: Option<&str>)
    ensures
        opt_str_view(t) == opt_view(*value),
{
    match value {
        Some(s) => Some(s.as_str()),
        None => None,
    }
}

/// A codec is named, and not as `none`.
pub open spec fn codec_present(codec: Option<Seq<char>>) -> bool {
    codec matches Some(c) && c.len() > 0 && text::ascii_lower(c) != text::ascii_lower("none"@)
}

/// The name stands for AV1.
pub open spec fn av1_codec(codec: Option<Seq<char>>) -> bool {
    codec matches Some(c) && {
        let name = text::ascii_lower(c);
        name == "av1"@ || text::starts_with(name, "av01"@)
    }
}

/// The name stands for H.264.
pub open spec fn h264_codec(codec: Option<Seq<char>>) -> bool {
    codec matches Some(c) && {
        let name = text::ascii_lower(c);
        name == "h264"@ || text::starts_with(name, "avc1"@) || text::starts_with(name, "avc3"@)
    }
}

/// The name stands for AAC.
pub open spec fn aac_codec(codec: Option<Seq<char>>) -> bool {
    codec matches Some(c) && {
        let name = text::ascii_lower(c);
        name == "aac"@ || text::starts_with(name, "mp4a"@)
    }
}

/// The file name extension stands for an MP4 container.
pub open spec fn mp4_container(extension: Seq<char>) -> bool {
    ||| text::ascii_lower(extension) == text::ascii_lower("mp4"@)
    ||| text::ascii_lower(extension) == text::ascii_lower("m4v"@)
}

/// A line of FFmpeg's list of decoders names one that decodes AV1 in software: its flags begin
/// with `V` and its name is that of such a decoder. The decoder `av1` is for hardware alone.
pub open spec fn software_av1_line(line: Seq<char>) -> bool {
    let name = split::first_word(split::behind_first_word(line));
    &&& text::starts_with(split::first_word(line), "V"@)
    &&& name == "libdav1d"@ || name == "libaom-av1"@
}

/// Some line of FFmpeg's list of decoders names one that decodes AV1 in software.
pub open spec fn software_av1_listed(listing: Seq<char>) -> bool {
    exists|i: int|
        0 <= i < split::lines(listing).len() && software_av1_line(
            #[trigger] split::lines(listing)[i],
        )
}

/// Whether a codec is named, and not as `none`.
pub fn codec_is_present(codec: Option<&str>) -> (b: bool)
    ensures
        b == codec_present(opt_str_view(codec)),
{
    match codec {
        Some(c) => !c.is_empty() && !text::same_but_case(c, "none"),
        None => false,
    }
}

/// Whether the name stands for AV1.
pub fn is_av1_codec(codec: Option<&str>) -> (b: bool)
    ensures
        b == av1_codec(opt_str_view(codec)),
{
    match codec {
        Some(c) => {
            let name: Vec<char> = text::in_ascii_lower(c);
            text::reads(name.as_slice(), "av1") || text::begins(name.as_slice(), "av01")
        },
        None => false,
    }
}

/// Whether some line of FFmpeg's list of decoders names one that decodes AV1 in software.
pub fn has_software_av1_decoder(listing: &str) -> (b: bool)
    ensures
        b == software_av1_listed(listing@),
{
    let chars: Vec<char> = text::chars_of(listing);
    let lines: Vec<&[char]> = split::lines_of(chars.as_slice());
    let ghost views = split::lines(listing@);
    let mut i: usize = 0;
    while i < lines.len()
        invariant
            i <= lines.len(),
            views == split::lines(listing@),
            views == split::piece_views(lines@),
            forall|j: int| 0 <= j < i ==> !software_av1_line(#[trigger] views[j]),
        decreases lines.len() - i,
    {
        let (flags, rest) = split::cut_word(lines[i]);
        let (name, _) = split::cut_word(rest);
        assert(views[i as int] == lines@[i as int]@);
        if text::begins(flags, "V") && (text::reads(name, "libdav1d") || text::reads(
            name,
            "libaom-av1",
        )) {
            assert(software_av1_line(views[i as int]));
            return true;
        }
        i += 1;
    }
    false
}

/// Whether the name stands for H.264.
pub fn is_h264_codec(codec: Option<&str>) -> (b: bool)
    ensures
        b == h264_codec(opt_str_view(codec)),
{
    match codec {
        Some(c) => {
            let name: Vec<char> = text::in_ascii_lower(c);
            text::reads(name.as_slice(), "h264") || text::begins(name.as_slice(), "avc1")
                || text::begins(name.as_slice(), "avc3")
        },
        None => false,
    }
}

/// Whether the name stands for AAC.
pub fn is_aac_codec(codec: Option<&str>) -> (b: bool)
    ensures
        b == aac_codec(opt_str_view(codec)),
{
    match codec {
        Some(c) => {
            let name: Vec<char> = text::in_ascii_lower(c);
            text::reads(name.as_slice(), "aac") || text::begins(name.as_slice(), "mp4a")
        },
        None => false,
    }
}

/// Whether the file name extension stands for an MP4 container.
pub fn is_mp4_container(extension: &str) -> (b: bool)
    ensures
        b == mp4_container(extension@),
{
    text::same_but_case(extension, "mp4") || text::same_but_case(extension, "m4v")
}

} // verus!
