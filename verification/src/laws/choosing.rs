//! Which formats are downloaded.
use crate::codec;
use crate::error::{ErrorView, MediaError};
use crate::formats;
use crate::formats::{AvailableFormat, FormatSelection};
use crate::model::{DownloadMode, VideoQuality};
use crate::number;
use crate::text;
use vstd::prelude::*;

verus! {

// ---------------------------------------------------------------------------------------------
// What is said of a format
// ---------------------------------------------------------------------------------------------

/// A codec is named: by something, and not by `none` in whatever letters.
pub open spec fn named(name: Option<String>) -> bool {
    name matches Some(c) && c@.len() > 0 && text::ascii_lower(c@) != "none"@
}

/// A name in small letters is `whole`, or begins with `one` or `other`.
pub open spec fn known_as(
    name: Option<String>,
    whole: Seq<char>,
    one: Seq<char>,
    other: Seq<char>,
) -> bool {
    name matches Some(c) && {
        ||| text::ascii_lower(c@) == whole
        ||| text::starts_with(text::ascii_lower(c@), one)
        ||| text::starts_with(text::ascii_lower(c@), other)
    }
}

/// The format's picture is coded as H.264.
pub open spec fn in_h264(f: AvailableFormat) -> bool {
    known_as(f.vcodec, "h264"@, "avc1"@, "avc3"@)
}

/// The format's picture is coded as AV1.
pub open spec fn in_av1(f: AvailableFormat) -> bool {
    known_as(f.vcodec, "av1"@, "av01"@, "av01"@)
}

/// The format's sound is coded as AAC.
pub open spec fn in_aac(f: AvailableFormat) -> bool {
    known_as(f.acodec, "aac"@, "mp4a"@, "mp4a"@)
}

/// The picture of the format can be fetched: there is one, and nothing protects it.
pub open spec fn picture_at(formats: Seq<AvailableFormat>, i: int) -> bool {
    0 <= i < formats.len() && named(formats[i].vcodec) && formats[i].has_drm != Some(true)
}

/// The sound of the format can be fetched.
pub open spec fn sound_at(formats: Seq<AvailableFormat>, i: int) -> bool {
    0 <= i < formats.len() && named(formats[i].acodec) && formats[i].has_drm != Some(true)
}

/// The sound of the format can be fetched, and there is no picture with it.
pub open spec fn bare_sound_at(formats: Seq<AvailableFormat>, i: int) -> bool {
    sound_at(formats, i) && !named(formats[i].vcodec)
}

/// `n` is the length of the picture's shorter side, or of the one side that is known.
pub open spec fn lines(f: AvailableFormat, n: u32) -> bool {
    match (f.width, f.height) {
        (Some(w), Some(h)) => n <= w && n <= h && (n == w || n == h),
        (Some(w), None) => n == w,
        (None, Some(h)) => n == h,
        (None, None) => false,
    }
}

/// No side of the picture is known.
pub open spec fn sizeless(f: AvailableFormat) -> bool {
    f.width is None && f.height is None
}

/// The most lines that are wanted.
pub open spec fn most_lines(quality: VideoQuality, n: u32) -> bool {
    quality == VideoQuality::P1440 && n == 1440 || quality == VideoQuality::P1080 && n == 1080
}

// ---------------------------------------------------------------------------------------------
// What is chosen
// ---------------------------------------------------------------------------------------------

/// The picture at place `v` has the resolution to fetch: no other has more lines without exceeding
/// those that are wanted, and where all exceed them, no other has fewer. A picture of no known size
/// has it only where no size is known at all.
pub open spec fn resolution_fits(
    formats: Seq<AvailableFormat>,
    quality: VideoQuality,
    v: int,
) -> bool {
    &&& picture_at(formats, v)
    &&& forall|i: int, n: u32|
        #![trigger picture_at(formats, i), lines(formats[i], n)]
        picture_at(formats, i) && lines(formats[i], n) ==> !sizeless(formats[v])
    &&& forall|i: int, n: u32, m: u32|
        #![trigger picture_at(formats, i), lines(formats[i], n), lines(formats[v], m)]
        picture_at(formats, i) && lines(formats[i], n) && lines(formats[v], m) ==> {
            &&& quality == VideoQuality::Best ==> n <= m
            &&& forall|most: u32| #[trigger]
                most_lines(quality, most) ==> {
                    &&& m <= most && n <= most ==> n <= m
                    &&& m > most ==> n >= m
                }
        }
}

/// The pictures at two places have the same resolution, or no size of either is known.
pub open spec fn same_lines(formats: Seq<AvailableFormat>, i: int, v: int) -> bool {
    ||| sizeless(formats[i]) && sizeless(formats[v])
    ||| exists|n: u32| #[trigger] lines(formats[i], n) && lines(formats[v], n)
}

/// The picture at place `v` is the one to fetch: it has the resolution, it can be decoded, and of
/// those it is the last one in H.264, or the last one where none is.
pub open spec fn picture_chosen(
    formats: Seq<AvailableFormat>,
    quality: VideoQuality,
    av1_supported: bool,
    v: int,
) -> bool {
    &&& resolution_fits(formats, quality, v)
    &&& in_av1(formats[v]) ==> av1_supported
    &&& forall|i: int| #[trigger]
        picture_at(formats, i) && same_lines(formats, i, v) && (in_av1(formats[i])
            ==> av1_supported) ==> {
            &&& in_h264(formats[i]) ==> in_h264(formats[v])
            &&& in_h264(formats[i]) == in_h264(formats[v]) ==> i <= v
        }
}

/// The sound to fetch beside the picture at place `v`: none where it has its own. Else that of a
/// format without a picture, whatever its codec; the last one in AAC, or the last one where none
/// is; and none only where there is no such format.
pub open spec fn sound_chosen(formats: Seq<AvailableFormat>, v: int, sound: Option<int>) -> bool {
    match sound {
        Some(a) => {
            &&& !named(formats[v].acodec)
            &&& bare_sound_at(formats, a)
            &&& forall|i: int| #[trigger]
                bare_sound_at(formats, i) ==> {
                    &&& in_aac(formats[i]) ==> in_aac(formats[a])
                    &&& in_aac(formats[i]) == in_aac(formats[a]) ==> i <= a
                }
        },
        None => named(formats[v].acodec) || forall|i: int| !#[trigger] bare_sound_at(formats, i),
    }
}

/// The resolution as the user reads it: the number of lines, or words where it is not known.
pub open spec fn label_for(f: AvailableFormat, label: Seq<char>) -> bool {
    if sizeless(f) {
        label == "best resolution"@
    } else {
        exists|n: u32| #[trigger] lines(f, n) && label == number::decimal(n as nat) + "p"@
    }
}

/// The sound that comes with the picture at place `v` is AAC, or there is none.
pub open spec fn sound_kept(formats: Seq<AvailableFormat>, v: int, sound: Option<int>) -> bool {
    match sound {
        Some(a) => in_aac(formats[a]),
        None => named(formats[v].acodec) ==> in_aac(formats[v]),
    }
}

/// What the user is told of what was chosen.
pub open spec fn told_of(
    formats: Seq<AvailableFormat>,
    v: int,
    sound: Option<int>,
    label: Seq<char>,
    summary: Seq<char>,
) -> bool {
    let file_kept = sound is None && (formats[v].ext matches Some(e) && (text::ascii_lower(e@)
        == "mp4"@ || text::ascii_lower(e@) == "m4v"@));
    summary == if in_h264(formats[v]) {
        "Selected "@ + label + if !sound_kept(formats, v, sound) {
            " H.264; only audio requires conversion."@
        } else if file_kept {
            " H.264/AAC MP4; no conversion expected."@
        } else {
            " H.264/AAC; remuxing without conversion."@
        }
    } else if sound_kept(formats, v, sound) {
        "No H.264 stream is available at "@ + label + "; video requires conversion."@
    } else {
        "No compatible codecs are available at "@ + label + "; conversion is required."@
    }
}

/// What yt-dlp is asked for is the picture at place `v` and the sound beside it, by their
/// identifiers; in a container that is final where neither has to be converted.
pub open spec fn asked_for(
    formats: Seq<AvailableFormat>,
    v: int,
    sound: Option<int>,
    selection: FormatSelection,
) -> bool {
    &&& selection.format_spec@ == match sound {
        Some(a) => formats[v].format_id@ + "+"@ + formats[a].format_id@,
        None => formats[v].format_id@,
    }
    &&& selection.merge_container matches Some(container) && container@ == if in_h264(formats[v])
        && sound_kept(formats, v, sound) {
        "mp4"@
    } else {
        "mkv"@
    }
    &&& exists|label: Seq<char>| #[trigger]
        label_for(formats[v], label) && told_of(formats, v, sound, label, selection.summary@)
}

// ---------------------------------------------------------------------------------------------
// Laws
// ---------------------------------------------------------------------------------------------

/// Where a picture is wanted, what is fetched is a picture of the resolution to fetch that can be
/// decoded, in H.264 if there is one, and beside a silent picture some sound if there is any, in
/// AAC if there is some. Nothing is fetched only where there is no picture, or where each one of
/// that resolution is AV1 and cannot be decoded; and the user is told which.
pub proof fn pictures_are_chosen(
    formats: Seq<AvailableFormat>,
    quality: VideoQuality,
    av1_supported: bool,
    selection: Result<FormatSelection, MediaError>,
)
    requires
        formats::selected(formats, DownloadMode::Video, quality, av1_supported, selection),
    ensures
        match selection {
            Ok(s) => exists|v: int, sound: Option<int>|
                #![trigger asked_for(formats, v, sound, s)]
                {
                    &&& picture_chosen(formats, quality, av1_supported, v)
                    &&& sound_chosen(formats, v, sound)
                    &&& asked_for(formats, v, sound, s)
                },
            Err(e) => if forall|i: int| !#[trigger] picture_at(formats, i) {
                e@ == ErrorView::NoSuitableFormat("no video stream was reported"@)
            } else {
                &&& e@ == ErrorView::NoSuitableFormat(
                    "the selected resolution requires AV1 decoding, but this FFmpeg build has no software AV1 decoder. Choose a lower resolution or use an FFmpeg build with libdav1d support"@,
                )
                &&& !av1_supported
                &&& exists|v: int| #[trigger] resolution_fits(formats, quality, v)
                &&& forall|v: int| #[trigger]
                    resolution_fits(formats, quality, v) ==> in_av1(formats[v])
            },
        },
{
    lemma_words();
    match selection {
        Ok(s) => {
            let (wanted, v, sound) = choose|wanted: Option<u32>, v: int, sound: Option<int>| #[trigger]
                formats::picks_video(formats, quality, av1_supported, wanted, v, sound) && s@
                    == formats::video_selection(formats, wanted, v, sound);
            let ranks = formats::video_ranks(formats, wanted, av1_supported);
            assert(ranks[v] == formats::video_rank(formats[v], wanted, av1_supported));
            lemma_resolution(formats, quality, wanted, v);
            assert forall|i: int| #[trigger]
                picture_at(formats, i) && same_lines(formats, i, v) && (in_av1(formats[i])
                    ==> av1_supported) implies {
                &&& in_h264(formats[i]) ==> in_h264(formats[v])
                &&& in_h264(formats[i]) == in_h264(formats[v]) ==> i <= v
            } by {
                assert(ranks[i] == formats::video_rank(formats[i], wanted, av1_supported));
                assert(ranks[i] is Some);
            }
            lemma_sound(formats, v, sound);
            lemma_asked_for(formats, wanted, v, sound, s);
        },
        Err(e) => {
            assert(forall|i: int|
                0 <= i < formats.len() ==> formats::video_candidate(#[trigger] formats[i])
                    == picture_at(formats, i));
            if !formats::no_video(formats) {
                let k = choose|k: int|
                    0 <= k < formats.len() && formats::video_candidate(#[trigger] formats[k]);
                assert(picture_at(formats, k));
                let wanted = choose|wanted: Option<u32>| #[trigger]
                    formats::no_video_at(formats, quality, av1_supported, wanted);
                let ranks = formats::video_ranks(formats, wanted, av1_supported);
                match wanted {
                    Some(r) => {
                        assert(formats::offered(formats, r));
                        let i = choose|i: int|
                            0 <= i < formats.len() && formats::video_candidate(
                                #[trigger] formats[i],
                            ) && formats::resolution(formats[i]) == Some(r);
                        lemma_resolution(formats, quality, wanted, i);
                    },
                    None => {
                        lemma_resolution(formats, quality, wanted, k);
                    },
                }
                assert forall|v: int| #[trigger] resolution_fits(formats, quality, v) implies in_av1(
                    formats[v],
                ) by {
                    lemma_resolution_is_wanted(formats, quality, wanted, v);
                    assert(ranks[v] == formats::video_rank(formats[v], wanted, av1_supported));
                    assert(ranks[v] is None);
                }
            } else {
                assert forall|i: int| !#[trigger] picture_at(formats, i) by {
                    if picture_at(formats, i) {
                        assert(formats::video_candidate(formats[i]));
                    }
                }
            }
        },
    }
}

/// A picture without sound of its own comes with sound where some format has sound and no picture
/// and is not protected, whatever codec the sound has: the identifiers of both are asked for. The
/// picture comes alone only where there is no such format.
pub proof fn silent_pictures_get_sound(
    formats: Seq<AvailableFormat>,
    quality: VideoQuality,
    av1_supported: bool,
    s: FormatSelection,
)
    requires
        formats::selected(formats, DownloadMode::Video, quality, av1_supported, Ok(s)),
    ensures
        exists|v: int| #[trigger]
            picture_chosen(formats, quality, av1_supported, v) && if named(formats[v].acodec)
                || forall|i: int| !#[trigger] bare_sound_at(formats, i) {
                s.format_spec@ == formats[v].format_id@
            } else {
                exists|a: int| #[trigger]
                    bare_sound_at(formats, a) && s.format_spec@ == formats[v].format_id@ + "+"@
                        + formats[a].format_id@
            },
{
    pictures_are_chosen(formats, quality, av1_supported, Ok(s));
    let (v, sound) = choose|v: int, sound: Option<int>|
        #![trigger asked_for(formats, v, sound, s)]
        {
            &&& picture_chosen(formats, quality, av1_supported, v)
            &&& sound_chosen(formats, v, sound)
            &&& asked_for(formats, v, sound, s)
        };
    assert(picture_chosen(formats, quality, av1_supported, v));
    if let Some(a) = sound {
        assert(bare_sound_at(formats, a));
    }
}

/// Where sound alone is wanted, what is fetched is the sound of a format that is not protected: of
/// one without a picture if there is one, in AAC if there is one of those, and the last of them.
/// Nothing is fetched only where there is no sound.
pub proof fn sound_is_chosen(
    formats: Seq<AvailableFormat>,
    quality: VideoQuality,
    av1_supported: bool,
    selection: Result<FormatSelection, MediaError>,
)
    requires
        formats::selected(formats, DownloadMode::AudioOnly, quality, av1_supported, selection),
    ensures
        match selection {
            Ok(s) => exists|a: int|
                {
                    &&& #[trigger] sound_at(formats, a)
                    &&& forall|i: int| #[trigger]
                        sound_at(formats, i) ==> {
                            &&& named(formats[a].vcodec) ==> named(formats[i].vcodec)
                            &&& named(formats[a].vcodec) == named(formats[i].vcodec) ==> {
                                &&& in_aac(formats[i]) ==> in_aac(formats[a])
                                &&& in_aac(formats[i]) == in_aac(formats[a]) ==> i <= a
                            }
                        }
                    &&& s.format_spec@ == formats[a].format_id@
                    &&& s.merge_container is None
                    &&& s.summary@ == if in_aac(formats[a]) {
                        "Selected the best AAC audio stream; no conversion expected."@
                    } else {
                        "No AAC audio stream is available; audio conversion is required."@
                    }
                },
            Err(e) => {
                &&& forall|i: int| !#[trigger] sound_at(formats, i)
                &&& e@ == ErrorView::NoSuitableFormat("no audio stream was reported"@)
            },
        },
{
    lemma_words();
    let ranks = formats::audio_ranks(formats);
    assert(forall|i: int|
        0 <= i < formats.len() ==> #[trigger] ranks[i] == formats::audio_rank(formats[i]));
    match selection {
        Ok(s) => {
            let a = choose|a: int| #[trigger]
                formats::last_best(ranks, a) && s@ == formats::audio_selection(formats[a]);
            assert(ranks[a] is Some);
            assert(sound_at(formats, a));
            assert forall|i: int| #[trigger] sound_at(formats, i) implies {
                &&& named(formats[a].vcodec) ==> named(formats[i].vcodec)
                &&& named(formats[a].vcodec) == named(formats[i].vcodec) ==> {
                    &&& in_aac(formats[i]) ==> in_aac(formats[a])
                    &&& in_aac(formats[i]) == in_aac(formats[a]) ==> i <= a
                }
            } by {
                assert(ranks[i] is Some);
            }
        },
        Err(_) => {
            assert forall|i: int| !#[trigger] sound_at(formats, i) by {
                if sound_at(formats, i) {
                    assert(ranks[i] is None);
                }
            }
        },
    }
}

// ---------------------------------------------------------------------------------------------
// Steps
// ---------------------------------------------------------------------------------------------

proof fn lemma_words()
    ensures
        text::ascii_lower("none"@) == "none"@,
        text::ascii_lower("mp4"@) == "mp4"@,
        text::ascii_lower("m4v"@) == "m4v"@,
{
    reveal_strlit("none");
    reveal_strlit("mp4");
    reveal_strlit("m4v");
    assert(text::ascii_lower("none"@) =~= "none"@);
    assert(text::ascii_lower("mp4"@) =~= "mp4"@);
    assert(text::ascii_lower("m4v"@) =~= "m4v"@);
}

proof fn lemma_resolution(
    formats: Seq<AvailableFormat>,
    quality: VideoQuality,
    wanted: Option<u32>,
    v: int,
)
    requires
        formats::chosen_resolution(formats, quality, wanted),
        0 <= v < formats.len(),
        formats::video_candidate(formats[v]),
        wanted is None || formats::resolution(formats[v]) == wanted,
    ensures
        resolution_fits(formats, quality, v),
        wanted is None ==> sizeless(formats[v]),
        wanted matches Some(r) ==> lines(formats[v], r),
{
    lemma_words();
    assert forall|i: int, n: u32|
        picture_at(formats, i) && lines(formats[i], n) implies #[trigger] formats::offered(
        formats,
        n,
    ) && picture_at(formats, i) && #[trigger] lines(formats[i], n) by {
        assert(formats::video_candidate(formats[i]));
        assert(formats::resolution(formats[i]) == Some(n));
    }
    if wanted is None && !sizeless(formats[v]) {
        let n = formats::resolution(formats[v])->0;
        assert(picture_at(formats, v) && lines(formats[v], n));
        assert(formats::offered(formats, n));
    }
    if let Some(r) = wanted {
        assert(formats::offered(formats, r));
    }
    assert forall|i: int, n: u32|
        #![trigger picture_at(formats, i), lines(formats[i], n)]
        picture_at(formats, i) && lines(formats[i], n) implies !sizeless(formats[v]) by {
        assert(formats::offered(formats, n));
    }
    assert forall|i: int, n: u32, m: u32|
        #![trigger picture_at(formats, i), lines(formats[i], n), lines(formats[v], m)]
        picture_at(formats, i) && lines(formats[i], n) && lines(formats[v], m) implies {
        &&& quality == VideoQuality::Best ==> n <= m
        &&& forall|most: u32| #[trigger]
            most_lines(quality, most) ==> {
                &&& m <= most && n <= most ==> n <= m
                &&& m > most ==> n >= m
            }
    } by {
        assert(formats::offered(formats, n));
        assert(formats::resolution(formats[v]) == Some(m));
    }
}

proof fn lemma_resolution_is_wanted(
    formats: Seq<AvailableFormat>,
    quality: VideoQuality,
    wanted: Option<u32>,
    v: int,
)
    requires
        formats::chosen_resolution(formats, quality, wanted),
        resolution_fits(formats, quality, v),
    ensures
        formats::video_candidate(formats[v]),
        wanted is None || formats::resolution(formats[v]) == wanted,
{
    lemma_words();
    if let Some(r) = wanted {
        assert(formats::offered(formats, r));
        let i = choose|i: int|
            0 <= i < formats.len() && formats::video_candidate(#[trigger] formats[i])
                && formats::resolution(formats[i]) == Some(r);
        assert(picture_at(formats, i) && lines(formats[i], r));
        assert(!sizeless(formats[v]));
        let m = formats::resolution(formats[v])->0;
        assert(lines(formats[v], m));
        assert(formats::video_candidate(formats[v]));
        assert(formats::offered(formats, m));
        assert(most_lines(VideoQuality::P1440, 1440) && most_lines(VideoQuality::P1080, 1080));
    }
}

proof fn lemma_sound(formats: Seq<AvailableFormat>, v: int, sound: Option<int>)
    requires
        0 <= v < formats.len(),
        formats::chosen_companion(formats, v, sound),
    ensures
        sound_chosen(formats, v, sound),
{
    lemma_words();
    let ranks = formats::companion_ranks(formats);
    assert(forall|i: int|
        0 <= i < formats.len() ==> #[trigger] ranks[i] == formats::companion_rank(formats[i]));
    if !named(formats[v].acodec) {
        match sound {
            Some(a) => {
                assert(ranks[a] is Some);
                assert forall|i: int| #[trigger] bare_sound_at(formats, i) implies {
                    &&& in_aac(formats[i]) ==> in_aac(formats[a])
                    &&& in_aac(formats[i]) == in_aac(formats[a]) ==> i <= a
                } by {
                    assert(ranks[i] is Some);
                }
            },
            None => {
                assert forall|i: int| !#[trigger] bare_sound_at(formats, i) by {
                    if bare_sound_at(formats, i) {
                        assert(ranks[i] is None);
                    }
                }
            },
        }
    }
}

proof fn lemma_asked_for(
    formats: Seq<AvailableFormat>,
    wanted: Option<u32>,
    v: int,
    sound: Option<int>,
    s: FormatSelection,
)
    requires
        0 <= v < formats.len(),
        wanted is None ==> sizeless(formats[v]),
        wanted matches Some(r) ==> lines(formats[v], r),
        sound_chosen(formats, v, sound),
        s@ == formats::video_selection(formats, wanted, v, sound),
    ensures
        asked_for(formats, v, sound, s),
{
    lemma_words();
    let label = formats::resolution_label(wanted);
    assert(label_for(formats[v], label));
    assert(codec::opt_str_view(s.merge_container) is Some);
    assert(told_of(formats, v, sound, label, s.summary@)) by {
        assert(s.summary@ =~= s@.summary);
    }
}

} // verus!
