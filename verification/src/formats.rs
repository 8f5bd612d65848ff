//! Choosing among the formats that a site offers.
use crate::codec;
use crate::codec::{as_text, codec_is_present, is_aac_codec, is_av1_codec, is_h264_codec, is_mp4_container};
use crate::error::{ErrorView, MediaError};
use crate::model::{DownloadMode, VideoQuality};
use crate::number;
use vstd::prelude::*;

verus! {

/// A format that a site offers, as yt-dlp reports it.
#[derive(Debug, PartialEq, Eq)]
pub struct AvailableFormat {
    pub format_id: String,
    pub ext: Option<String>,
    pub vcodec: Option<String>,
    pub acodec: Option<String>,
    pub width: Option<u32>,
    pub height: Option<u32>,
    pub has_drm: Option<bool>,
}

/// What yt-dlp is asked to fetch.
#[derive(Debug, PartialEq, Eq)]
pub struct FormatSelection {
    pub format_spec: String,
    pub merge_container: Option<&'static str>,
    pub summary: String,
}

/// What a [`FormatSelection`] says.
#[verifier::ext_equal]
pub struct SelectionView {
    pub format_spec: Seq<char>,
    pub merge_container: Option<Seq<char>>,
    pub summary: Seq<char>,
}

impl View for FormatSelection {
    type V = SelectionView;

    open spec fn view(&self) -> SelectionView {
        SelectionView {
            format_spec: self.format_spec@,
            merge_container: codec::opt_str_view(self.merge_container),
            summary: self.summary@,
        }
    }
}

// ---------------------------------------------------------------------------------------------
// Single formats
// ---------------------------------------------------------------------------------------------

/// The format has a picture.
pub open spec fn shows(format: AvailableFormat) -> bool {
    codec::codec_present(codec::opt_view(format.vcodec))
}

/// The format has sound.
pub open spec fn sounds(format: AvailableFormat) -> bool {
    codec::codec_present(codec::opt_view(format.acodec))
}

/// The format is free of copy protection, as far as it is known.
pub open spec fn unprotected(format: AvailableFormat) -> bool {
    format.has_drm != Some(true)
}

/// The format's picture is coded as H.264.
pub open spec fn h264(format: AvailableFormat) -> bool {
    codec::h264_codec(codec::opt_view(format.vcodec))
}

/// The format's picture is coded as AV1.
pub open spec fn av1(format: AvailableFormat) -> bool {
    codec::av1_codec(codec::opt_view(format.vcodec))
}

/// The format's sound is coded as AAC.
pub open spec fn aac(format: AvailableFormat) -> bool {
    codec::aac_codec(codec::opt_view(format.acodec))
}

/// The length of the shorter side, or of the one side that is known.
pub open spec fn shorter_side(width: Option<u32>, height: Option<u32>) -> Option<u32> {
    match (width, height) {
        (Some(w), Some(h)) => Some(if w <= h { w } else { h }),
        (Some(w), None) => Some(w),
        (None, Some(h)) => Some(h),
        (None, None) => None,
    }
}

/// The format's resolution: the length of the shorter side of its picture.
pub open spec fn resolution(format: AvailableFormat) -> Option<u32> {
    shorter_side(format.width, format.height)
}

/// Whether the format has a picture.
pub fn has_video(format: &AvailableFormat) -> (b: bool)
    ensures
        b == shows(*format),
{
    codec_is_present(as_text(&format.vcodec))
}

/// Whether the format has sound.
pub fn has_audio(format: &AvailableFormat) -> (b: bool)
    ensures
        b == sounds(*format),
{
    codec_is_present(as_text(&format.acodec))
}

/// The length of the shorter side, or of the one side that is known.
pub fn shorter_dimension(width: Option<u32>, height: Option<u32>) -> (side: Option<u32>)
    ensures
        side == shorter_side(width, height),
{
    match (width, height) {
        (Some(w), Some(h)) => Some(
            if w <= h {
                w
            } else {
                h
            },
        ),
        (Some(w), None) => Some(w),
        (None, Some(h)) => Some(h),
        (None, None) => None,
    }
}

/// The format's resolution.
pub fn format_resolution(format: &AvailableFormat) -> (side: Option<u32>)
    ensures
        side == resolution(*format),
{
    shorter_dimension(format.width, format.height)
}

/// Whether the format is free of copy protection, as far as it is known.
fn is_unprotected(format: &AvailableFormat) -> (b: bool)
    ensures
        b == unprotected(*format),
{
    match format.has_drm {
        Some(drm) => !drm,
        None => true,
    }
}

// ---------------------------------------------------------------------------------------------
// The best of several
// ---------------------------------------------------------------------------------------------

/// `i` is the last of the places with the highest rank. A place without a rank does not compete.
pub open spec fn last_best(ranks: Seq<Option<u8>>, i: int) -> bool {
    &&& 0 <= i < ranks.len()
    &&& ranks[i] is Some
    &&& forall|j: int|
        0 <= j < ranks.len() && (#[trigger] ranks[j]) is Some ==> ranks[j]->0 < ranks[i]->0 || (
        ranks[j] == ranks[i] && j <= i)
}

/// No place competes.
pub open spec fn nothing_ranked(ranks: Seq<Option<u8>>) -> bool {
    forall|j: int| 0 <= j < ranks.len() ==> (#[trigger] ranks[j]) is None
}

/// `choice` is the last of the places with the highest rank, if any competes.
pub open spec fn best(ranks: Seq<Option<u8>>, choice: Option<int>) -> bool {
    match choice {
        Some(i) => last_best(ranks, i),
        None => nothing_ranked(ranks),
    }
}

/// There is one best place at most.
pub proof fn best_is_unique(ranks: Seq<Option<u8>>, a: Option<int>, b: Option<int>)
    requires
        best(ranks, a),
        best(ranks, b),
    ensures
        a == b,
{
    if a is Some && b is Some {
        assert(ranks[a->0] is Some && ranks[b->0] is Some);
    }
}

/// A place as a mathematical number.
pub open spec fn place(i: Option<usize>) -> Option<int> {
    match i {
        Some(i) => Some(i as int),
        None => None,
    }
}

/// The last of the places with the highest rank.
fn best_place(ranks: &Vec<Option<u8>>) -> (choice: Option<usize>)
    ensures
        best(ranks@, place(choice)),
{
    let mut choice: Option<usize> = None;
    let mut i: usize = 0;
    while i < ranks.len()
        invariant
            i <= ranks.len(),
            best(ranks@.take(i as int), place(choice)),
        decreases ranks.len() - i,
    {
        let ghost before = ranks@.take(i as int);
        let ghost now = ranks@.take(i + 1);
        assert(forall|j: int| 0 <= j < i ==> now[j] == before[j]);
        assert(now[i as int] == ranks@[i as int]);
        if let Some(rank) = ranks[i] {
            let better: bool = match choice {
                Some(c) => match ranks[c] {
                    Some(held) => held <= rank,
                    None => true,
                },
                None => true,
            };
            if better {
                choice = Some(i);
            }
        }
        i += 1;
    }
    assert(ranks@.take(ranks@.len() as int) =~= ranks@);
    choice
}

// ---------------------------------------------------------------------------------------------
// Sound
// ---------------------------------------------------------------------------------------------

/// How a format ranks as the sound beside a picture: without a picture of its own; AAC above the
/// others.
pub open spec fn companion_rank(format: AvailableFormat) -> Option<u8> {
    if sounds(format) && !shows(format) && unprotected(format) {
        Some(if aac(format) { 1u8 } else { 0u8 })
    } else {
        None
    }
}

/// How a format ranks where sound alone is wanted: one without a picture above one with it, and
/// then AAC above the others.
pub open spec fn audio_rank(format: AvailableFormat) -> Option<u8> {
    if sounds(format) && unprotected(format) {
        Some(
            match (shows(format), aac(format)) {
                (false, true) => 3u8,
                (false, false) => 2u8,
                (true, true) => 1u8,
                (true, false) => 0u8,
            },
        )
    } else {
        None
    }
}

/// The ranks of the formats as the sound beside a picture.
pub open spec fn companion_ranks(formats: Seq<AvailableFormat>) -> Seq<Option<u8>> {
    formats.map_values(|f: AvailableFormat| companion_rank(f))
}

/// The ranks of the formats where sound alone is wanted.
pub open spec fn audio_ranks(formats: Seq<AvailableFormat>) -> Seq<Option<u8>> {
    formats.map_values(|f: AvailableFormat| audio_rank(f))
}

/// The place of the best sound beside a picture.
pub fn best_companion(formats: &[AvailableFormat]) -> (choice: Option<usize>)
    ensures
        best(companion_ranks(formats@), place(choice)),
{
    let mut ranks: Vec<Option<u8>> = Vec::new();
    let mut i: usize = 0;
    while i < formats.len()
        invariant
            i <= formats.len(),
            ranks@ == companion_ranks(formats@.take(i as int)),
        decreases formats.len() - i,
    {
        let f: &AvailableFormat = &formats[i];
        let rank: Option<u8> = if has_audio(f) && !has_video(f) && is_unprotected(f) {
            Some(
                if is_aac_codec(as_text(&f.acodec)) {
                    1
                } else {
                    0
                },
            )
        } else {
            None
        };
        ranks.push(rank);
        i += 1;
        assert(ranks@ =~= companion_ranks(formats@.take(i as int)));
    }
    assert(formats@.take(formats@.len() as int) =~= formats@);
    best_place(&ranks)
}

/// The best sound beside a picture.
pub fn best_audio_only(formats: &[AvailableFormat]) -> (choice: Option<&AvailableFormat>)
    ensures
        match choice {
            Some(f) => exists|i: int| #[trigger]
                last_best(companion_ranks(formats@), i) && *f == formats@[i],
            None => nothing_ranked(companion_ranks(formats@)),
        },
{
    match best_companion(formats) {
        Some(i) => {
            assert(last_best(companion_ranks(formats@), i as int));
            Some(&formats[i])
        },
        None => None,
    }
}

/// What is fetched where sound alone is wanted and `format` is the best of it.
pub open spec fn audio_selection(format: AvailableFormat) -> SelectionView {
    SelectionView {
        format_spec: format.format_id@,
        merge_container: None,
        summary: if aac(format) {
            "Selected the best AAC audio stream; no conversion expected."@
        } else {
            "No AAC audio stream is available; audio conversion is required."@
        },
    }
}

/// What is fetched where sound alone is wanted, or why nothing is.
pub open spec fn audio_selected(
    formats: Seq<AvailableFormat>,
    selection: Result<FormatSelection, MediaError>,
) -> bool {
    match selection {
        Ok(s) => exists|i: int| #[trigger]
            last_best(audio_ranks(formats), i) && s@ == audio_selection(formats[i]),
        Err(e) => nothing_ranked(audio_ranks(formats)) && e@ == ErrorView::NoSuitableFormat(
            "no audio stream was reported"@,
        ),
    }
}

/// Chooses what to fetch where sound alone is wanted.
pub fn select_audio_format(formats: &[AvailableFormat]) -> (selection: Result<
    FormatSelection,
    MediaError,
>)
    ensures
        audio_selected(formats@, selection),
{
    let mut ranks: Vec<Option<u8>> = Vec::new();
    let mut i: usize = 0;
    while i < formats.len()
        invariant
            i <= formats.len(),
            ranks@ == audio_ranks(formats@.take(i as int)),
        decreases formats.len() - i,
    {
        let f: &AvailableFormat = &formats[i];
        let rank: Option<u8> = if has_audio(f) && is_unprotected(f) {
            Some(
                match (has_video(f), is_aac_codec(as_text(&f.acodec))) {
                    (false, true) => 3,
                    (false, false) => 2,
                    (true, true) => 1,
                    (true, false) => 0,
                },
            )
        } else {
            None
        };
        ranks.push(rank);
        i += 1;
        assert(ranks@ =~= audio_ranks(formats@.take(i as int)));
    }
    assert(formats@.take(formats@.len() as int) =~= formats@);
    match best_place(&ranks) {
        Some(i) => {
            assert(last_best(audio_ranks(formats@), i as int));
            let compatible: bool = is_aac_codec(as_text(&formats[i].acodec));
            Ok(
                FormatSelection {
                    format_spec: formats[i].format_id.clone(),
                    merge_container: None,
                    summary: if compatible {
                        "Selected the best AAC audio stream; no conversion expected.".to_owned()
                    } else {
                        "No AAC audio stream is available; audio conversion is required.".to_owned()
                    },
                },
            )
        },
        None => Err(MediaError::NoSuitableFormat("no audio stream was reported".to_owned())),
    }
}

// ---------------------------------------------------------------------------------------------
// Picture
// ---------------------------------------------------------------------------------------------

/// The format has a picture that can be fetched.
pub open spec fn video_candidate(format: AvailableFormat) -> bool {
    shows(format) && unprotected(format)
}

/// One of the first `n` formats has a picture that can be fetched, of resolution `r`.
pub open spec fn offered_among(formats: Seq<AvailableFormat>, n: int, r: u32) -> bool {
    exists|i: int|
        0 <= i < n && video_candidate(#[trigger] formats[i]) && resolution(formats[i]) == Some(r)
}

/// Some format has a picture that can be fetched, of resolution `r`.
pub open spec fn offered(formats: Seq<AvailableFormat>, r: u32) -> bool {
    offered_among(formats, formats.len() as int, r)
}

/// The resolution to fetch: the highest one within the limit; where all are above it, the lowest
/// one; none where no resolution is known.
pub open spec fn chosen_resolution(
    formats: Seq<AvailableFormat>,
    quality: VideoQuality,
    choice: Option<u32>,
) -> bool {
    match (choice, quality.limit()) {
        (None, _) => forall|r: u32| !#[trigger] offered(formats, r),
        (Some(c), None) => {
            &&& offered(formats, c)
            &&& forall|r: u32| #[trigger] offered(formats, r) ==> r <= c
        },
        (Some(c), Some(limit)) => {
            &&& offered(formats, c)
            &&& c <= limit ==> forall|r: u32| #[trigger] offered(formats, r) && r <= limit ==> r <= c
            &&& c > limit ==> forall|r: u32| #[trigger] offered(formats, r) ==> c <= r
        },
    }
}

/// How a format ranks where its picture is wanted at a given resolution: H.264 above the others;
/// AV1 only where it can be decoded.
pub open spec fn video_rank(
    format: AvailableFormat,
    wanted: Option<u32>,
    av1_supported: bool,
) -> Option<u8> {
    if video_candidate(format) && (wanted is None || resolution(format) == wanted) && (av1_supported
        || !av1(format)) {
        Some(if h264(format) { 1u8 } else { 0u8 })
    } else {
        None
    }
}

/// The ranks of the formats where a picture is wanted at a given resolution.
pub open spec fn video_ranks(
    formats: Seq<AvailableFormat>,
    wanted: Option<u32>,
    av1_supported: bool,
) -> Seq<Option<u8>> {
    formats.map_values(|f: AvailableFormat| video_rank(f, wanted, av1_supported))
}

/// The sound to fetch beside the picture at place `video`: none where it has its own.
pub open spec fn chosen_companion(
    formats: Seq<AvailableFormat>,
    video: int,
    audio: Option<int>,
) -> bool {
    if sounds(formats[video]) {
        audio is None
    } else {
        best(companion_ranks(formats), audio)
    }
}

/// `wanted` is the resolution, `video` the place of the picture and `audio` that of the sound to
/// fetch.
pub open spec fn picks_video(
    formats: Seq<AvailableFormat>,
    quality: VideoQuality,
    av1_supported: bool,
    wanted: Option<u32>,
    video: int,
    audio: Option<int>,
) -> bool {
    &&& chosen_resolution(formats, quality, wanted)
    &&& last_best(video_ranks(formats, wanted, av1_supported), video)
    &&& chosen_companion(formats, video, audio)
}

/// No picture can be fetched at the chosen resolution.
pub open spec fn no_video_at(
    formats: Seq<AvailableFormat>,
    quality: VideoQuality,
    av1_supported: bool,
    wanted: Option<u32>,
) -> bool {
    &&& chosen_resolution(formats, quality, wanted)
    &&& nothing_ranked(video_ranks(formats, wanted, av1_supported))
}

/// No format has a picture that can be fetched.
pub open spec fn no_video(formats: Seq<AvailableFormat>) -> bool {
    forall|i: int| 0 <= i < formats.len() ==> !video_candidate(#[trigger] formats[i])
}

/// The sound that is fetched can be kept as it is, or there is none.
pub open spec fn audio_kept(formats: Seq<AvailableFormat>, video: int, audio: Option<int>) -> bool {
    match audio {
        Some(a) => aac(formats[a]),
        None => !sounds(formats[video]) || aac(formats[video]),
    }
}

/// The resolution as the user reads it.
pub open spec fn resolution_label(wanted: Option<u32>) -> Seq<char> {
    match wanted {
        Some(r) => number::decimal(r as nat) + "p"@,
        None => "best resolution"@,
    }
}

/// What the user is told of the formats: whether the picture and the sound can be kept as they
/// are, and whether the file can.
pub open spec fn video_summary(
    label: Seq<char>,
    video_kept: bool,
    audio_kept: bool,
    file_kept: bool,
) -> Seq<char> {
    match (video_kept, audio_kept, file_kept) {
        (true, true, true) => "Selected "@ + label + " H.264/AAC MP4; no conversion expected."@,
        (true, true, false) => "Selected "@ + label
            + " H.264/AAC; remuxing without conversion."@,
        (true, false, _) => "Selected "@ + label + " H.264; only audio requires conversion."@,
        (false, true, _) => "No H.264 stream is available at "@ + label
            + "; video requires conversion."@,
        (false, false, _) => "No compatible codecs are available at "@ + label
            + "; conversion is required."@,
    }
}

/// What is fetched where the picture at place `video` and the sound at place `audio` were chosen.
pub open spec fn video_selection(
    formats: Seq<AvailableFormat>,
    wanted: Option<u32>,
    video: int,
    audio: Option<int>,
) -> SelectionView {
    let picture = formats[video];
    let sound_kept = audio_kept(formats, video, audio);
    let file_kept = audio is None && h264(picture) && sound_kept && (codec::opt_view(
        picture.ext,
    ) matches Some(e) && codec::mp4_container(e));
    SelectionView {
        format_spec: match audio {
            Some(a) => picture.format_id@ + "+"@ + formats[a].format_id@,
            None => picture.format_id@,
        },
        merge_container: Some(
            if h264(picture) && sound_kept {
                "mp4"@
            } else {
                "mkv"@
            },
        ),
        summary: video_summary(resolution_label(wanted), h264(picture), sound_kept, file_kept),
    }
}

/// What is said where only AV1 is on offer and nothing can decode it.
pub open spec fn av1_refusal() -> Seq<char> {
    "the selected resolution requires AV1 decoding, but this FFmpeg build has no software AV1 decoder. Choose a lower resolution or use an FFmpeg build with libdav1d support"@
}

/// Some format's picture is coded as AV1.
pub open spec fn offers_av1(formats: Seq<AvailableFormat>) -> bool {
    exists|i: int| 0 <= i < formats.len() && av1(#[trigger] formats[i])
}

/// The resolution to fetch.
pub fn select_resolution(formats: &[AvailableFormat], video_quality: VideoQuality) -> (choice:
    Option<u32>)
    ensures
        chosen_resolution(formats@, video_quality, choice),
{
    let limit: Option<u32> = video_quality.maximum_dimension();
    let mut within: Option<u32> = None;
    let mut lowest: Option<u32> = None;
    let mut i: usize = 0;
    while i < formats.len()
        invariant
            i <= formats.len(),
            limit == video_quality.limit(),
            match within {
                Some(w) => {
                    &&& offered_among(formats@, i as int, w)
                    &&& limit matches Some(l) ==> w <= l
                    &&& forall|r: u32| #[trigger]
                        offered_among(formats@, i as int, r) && (limit matches Some(l) ==> r <= l)
                            ==> r <= w
                },
                None => forall|r: u32| #[trigger]
                    offered_among(formats@, i as int, r) ==> (limit matches Some(l) && r > l),
            },
            match lowest {
                Some(w) => {
                    &&& offered_among(formats@, i as int, w)
                    &&& forall|r: u32| #[trigger] offered_among(formats@, i as int, r) ==> w <= r
                },
                None => forall|r: u32| !#[trigger] offered_among(formats@, i as int, r),
            },
        decreases formats.len() - i,
    {
        let f: &AvailableFormat = &formats[i];
        let candidate: bool = has_video(f) && is_unprotected(f);
        let side: Option<u32> = format_resolution(f);
        proof {
            assert forall|r: u32| #[trigger]
                offered_among(formats@, i + 1, r) == (offered_among(formats@, i as int, r) || (
                candidate && side == Some(r))) by {
                if offered_among(formats@, i as int, r) {
                    let k = choose|k: int|
                        0 <= k < i && video_candidate(#[trigger] formats@[k]) && resolution(
                            formats@[k],
                        ) == Some(r);
                    assert(0 <= k < i + 1 && video_candidate(formats@[k]));
                }
                if candidate && side == Some(r) {
                    assert(0 <= i < i + 1 && video_candidate(formats@[i as int]));
                }
            }
        }
        if candidate {
            if let Some(r) = side {
                let allowed: bool = match limit {
                    Some(l) => r <= l,
                    None => true,
                };
                let higher: bool = match within {
                    Some(w) => w < r,
                    None => true,
                };
                let lower: bool = match lowest {
                    Some(w) => r < w,
                    None => true,
                };
                if allowed && higher {
                    within = Some(r);
                }
                if lower {
                    lowest = Some(r);
                }
            }
        }
        i += 1;
    }
    match within {
        Some(r) => Some(r),
        None => lowest,
    }
}

/// Whether a format has a picture that can be fetched.
fn is_video_candidate(format: &AvailableFormat) -> (b: bool)
    ensures
        b == video_candidate(*format),
{
    has_video(format) && is_unprotected(format)
}

/// Whether some format has a picture that can be fetched.
fn has_video_candidate(formats: &[AvailableFormat]) -> (b: bool)
    ensures
        b == !no_video(formats@),
{
    let mut i: usize = 0;
    while i < formats.len()
        invariant
            i <= formats.len(),
            forall|j: int| 0 <= j < i ==> !video_candidate(#[trigger] formats@[j]),
        decreases formats.len() - i,
    {
        if is_video_candidate(&formats[i]) {
            assert(video_candidate(formats@[i as int]));
            return true;
        }
        i += 1;
    }
    false
}

/// Whether some format's picture is coded as AV1.
pub fn has_av1(formats: &[AvailableFormat]) -> (b: bool)
    ensures
        b == offers_av1(formats@),
{
    let mut i: usize = 0;
    while i < formats.len()
        invariant
            i <= formats.len(),
            forall|j: int| 0 <= j < i ==> !av1(#[trigger] formats@[j]),
        decreases formats.len() - i,
    {
        if is_av1_codec(as_text(&formats[i].vcodec)) {
            assert(av1(formats@[i as int]));
            return true;
        }
        i += 1;
    }
    false
}

/// The place of the best picture at a resolution.
pub fn best_video(formats: &[AvailableFormat], wanted: Option<u32>, av1_supported: bool) -> (choice:
    Option<usize>)
    ensures
        best(video_ranks(formats@, wanted, av1_supported), place(choice)),
{
    let mut ranks: Vec<Option<u8>> = Vec::new();
    let mut i: usize = 0;
    while i < formats.len()
        invariant
            i <= formats.len(),
            ranks@ == video_ranks(formats@.take(i as int), wanted, av1_supported),
        decreases formats.len() - i,
    {
        let f: &AvailableFormat = &formats[i];
        let fits: bool = match (wanted, format_resolution(f)) {
            (None, _) => true,
            (Some(w), Some(r)) => w == r,
            (Some(w), None) => false,
        };
        let rank: Option<u8> = if is_video_candidate(f) && fits && (av1_supported || !is_av1_codec(
            as_text(&f.vcodec),
        )) {
            Some(
                if is_h264_codec(as_text(&f.vcodec)) {
                    1
                } else {
                    0
                },
            )
        } else {
            None
        };
        ranks.push(rank);
        i += 1;
        assert(ranks@ =~= video_ranks(formats@.take(i as int), wanted, av1_supported));
    }
    assert(formats@.take(formats@.len() as int) =~= formats@);
    best_place(&ranks)
}

/// The resolution as the user reads it.
fn label_of(wanted: Option<u32>) -> (label: String)
    ensures
        label@ == resolution_label(wanted),
{
    match wanted {
        Some(r) => {
            let mut label: String = String::new();
            number::push_decimal(&mut label, r as u64);
            label.append("p");
            label
        },
        None => "best resolution".to_owned(),
    }
}

/// `text` between two others.
fn around(before: &str, text: &str, after: &str) -> (s: String)
    ensures
        s@ == before@ + text@ + after@,
{
    before.to_owned().concat(text).concat(after)
}

/// What the user is told of the formats.
fn summary_of(label: &str, video_kept: bool, audio_kept: bool, file_kept: bool) -> (summary: String)
    ensures
        summary@ == video_summary(label@, video_kept, audio_kept, file_kept),
{
    match (video_kept, audio_kept, file_kept) {
        (true, true, true) => around("Selected ", label, " H.264/AAC MP4; no conversion expected."),
        (true, true, false) => around(
            "Selected ",
            label,
            " H.264/AAC; remuxing without conversion.",
        ),
        (true, false, _) => around("Selected ", label, " H.264; only audio requires conversion."),
        (false, true, _) => around(
            "No H.264 stream is available at ",
            label,
            "; video requires conversion.",
        ),
        (false, false, _) => around(
            "No compatible codecs are available at ",
            label,
            "; conversion is required.",
        ),
    }
}

/// Where some picture can be fetched, some picture can be fetched at the chosen resolution, or
/// each one there is AV1 that cannot be decoded.
proof fn lemma_resolution_is_met(
    formats: Seq<AvailableFormat>,
    quality: VideoQuality,
    wanted: Option<u32>,
    av1_supported: bool,
)
    requires
        chosen_resolution(formats, quality, wanted),
        nothing_ranked(video_ranks(formats, wanted, av1_supported)),
        !no_video(formats),
    ensures
        !av1_supported,
{
    let ranks = video_ranks(formats, wanted, av1_supported);
    let k = choose|k: int| 0 <= k < formats.len() && video_candidate(#[trigger] formats[k]);
    match wanted {
        Some(r) => {
            assert(offered(formats, r));
            let i = choose|i: int|
                0 <= i < formats.len() && video_candidate(#[trigger] formats[i]) && resolution(
                    formats[i],
                ) == Some(r);
            assert(ranks[i] is None);
        },
        None => {
            assert(ranks[k] is None);
        },
    }
}

/// What is fetched where a picture is wanted, or why nothing is.
pub open spec fn video_selected(
    formats: Seq<AvailableFormat>,
    quality: VideoQuality,
    av1_supported: bool,
    selection: Result<FormatSelection, MediaError>,
) -> bool {
    match selection {
        Ok(s) => exists|wanted: Option<u32>, video: int, audio: Option<int>| #[trigger]
            picks_video(formats, quality, av1_supported, wanted, video, audio) && s@
                == video_selection(formats, wanted, video, audio),
        Err(e) => {
            ||| no_video(formats) && e@ == ErrorView::NoSuitableFormat(
                "no video stream was reported"@,
            )
            ||| !no_video(formats) && !av1_supported && e@ == ErrorView::NoSuitableFormat(
                av1_refusal(),
            ) && exists|wanted: Option<u32>| #[trigger]
                no_video_at(formats, quality, av1_supported, wanted)
        },
    }
}

/// What is fetched, or why nothing is.
pub open spec fn selected(
    formats: Seq<AvailableFormat>,
    mode: DownloadMode,
    quality: VideoQuality,
    av1_supported: bool,
    selection: Result<FormatSelection, MediaError>,
) -> bool {
    match mode {
        DownloadMode::Video => video_selected(formats, quality, av1_supported, selection),
        DownloadMode::AudioOnly => audio_selected(formats, selection),
    }
}

/// Chooses what to fetch where a picture is wanted.
pub fn select_video_formats(
    formats: &[AvailableFormat],
    video_quality: VideoQuality,
    av1_supported: bool,
) -> (selection: Result<FormatSelection, MediaError>)
    ensures
        video_selected(formats@, video_quality, av1_supported, selection),
{
    if !has_video_candidate(formats) {
        return Err(MediaError::NoSuitableFormat("no video stream was reported".to_owned()));
    }
    let wanted: Option<u32> = select_resolution(formats, video_quality);
    let video: usize = match best_video(formats, wanted, av1_supported) {
        Some(i) => i,
        None => {
            proof {
                lemma_resolution_is_met(formats@, video_quality, wanted, av1_supported);
                assert(no_video_at(formats@, video_quality, av1_supported, wanted));
            }
            return Err(
                MediaError::NoSuitableFormat(
                    "the selected resolution requires AV1 decoding, but this FFmpeg build has no software AV1 decoder. Choose a lower resolution or use an FFmpeg build with libdav1d support".to_owned(),
                ),
            );
        },
    };
    let picture: &AvailableFormat = &formats[video];
    let own_sound: bool = has_audio(picture);
    let audio: Option<usize> = if own_sound {
        None
    } else {
        best_companion(formats)
    };
    assert(picks_video(
        formats@,
        video_quality,
        av1_supported,
        wanted,
        video as int,
        place(audio),
    ));
    let format_spec: String = match audio {
        Some(a) => picture.format_id.clone().concat("+").concat(formats[a].format_id.as_str()),
        None => picture.format_id.clone(),
    };
    let video_compatible: bool = is_h264_codec(as_text(&picture.vcodec));
    let audio_compatible: bool = match audio {
        Some(a) => is_aac_codec(as_text(&formats[a].acodec)),
        None => !own_sound || is_aac_codec(as_text(&picture.acodec)),
    };
    let in_mp4: bool = match as_text(&picture.ext) {
        Some(e) => is_mp4_container(e),
        None => false,
    };
    let already_mp4: bool = audio.is_none() && in_mp4 && video_compatible && audio_compatible;
    let label: String = label_of(wanted);
    let selection: FormatSelection = FormatSelection {
        format_spec,
        merge_container: Some(
            if video_compatible && audio_compatible {
                "mp4"
            } else {
                "mkv"
            },
        ),
        summary: summary_of(label.as_str(), video_compatible, audio_compatible, already_mp4),
    };
    assert(selection@ == video_selection(formats@, wanted, video as int, place(audio)));
    Ok(selection)
}

/// Chooses what to fetch.
pub fn select_formats(
    formats: &[AvailableFormat],
    mode: DownloadMode,
    video_quality: VideoQuality,
    av1_supported: bool,
) -> (selection: Result<FormatSelection, MediaError>)
    ensures
        selected(formats@, mode, video_quality, av1_supported, selection),
{
    match mode {
        DownloadMode::Video => select_video_formats(formats, video_quality, av1_supported),
        DownloadMode::AudioOnly => select_audio_format(formats),
    }
}

// ---------------------------------------------------------------------------------------------
// Laws
// ---------------------------------------------------------------------------------------------

/// What is fetched has a picture, at the chosen resolution where one is known, is not protected,
/// and is AV1 only where that can be decoded. Sound that is fetched beside it has no picture and
/// is not protected either.
pub proof fn picked_formats_fit(
    formats: Seq<AvailableFormat>,
    quality: VideoQuality,
    av1_supported: bool,
    wanted: Option<u32>,
    video: int,
    audio: Option<int>,
)
    requires
        picks_video(formats, quality, av1_supported, wanted, video, audio),
    ensures
        0 <= video < formats.len(),
        shows(formats[video]) && unprotected(formats[video]),
        wanted is Some ==> resolution(formats[video]) == wanted,
        av1(formats[video]) ==> av1_supported,
        audio matches Some(a) ==> {
            &&& 0 <= a < formats.len()
            &&& sounds(formats[a]) && !shows(formats[a]) && unprotected(formats[a])
            &&& !sounds(formats[video])
        },
{
    assert(video_ranks(formats, wanted, av1_supported)[video] is Some);
    if let Some(a) = audio {
        assert(companion_ranks(formats)[a] is Some);
    }
}

/// Where a picture in H.264 can be fetched at the chosen resolution, one in H.264 is.
pub proof fn h264_is_preferred(
    formats: Seq<AvailableFormat>,
    quality: VideoQuality,
    av1_supported: bool,
    wanted: Option<u32>,
    video: int,
    audio: Option<int>,
    other: int,
)
    requires
        picks_video(formats, quality, av1_supported, wanted, video, audio),
        0 <= other < formats.len(),
        video_candidate(formats[other]) && h264(formats[other]),
        wanted is None || resolution(formats[other]) == wanted,
        av1_supported || !av1(formats[other]),
    ensures
        h264(formats[video]),
{
    let ranks = video_ranks(formats, wanted, av1_supported);
    assert(ranks[other] == Some(1u8));
    assert(ranks[video] is Some);
}

/// Where some resolution is within the limit, the chosen one is, and none within it is higher.
pub proof fn limit_is_kept(
    formats: Seq<AvailableFormat>,
    quality: VideoQuality,
    choice: Option<u32>,
    r: u32,
)
    requires
        chosen_resolution(formats, quality, choice),
        offered(formats, r),
        quality.limit() matches Some(limit) ==> r <= limit,
    ensures
        choice matches Some(c) && r <= c && offered(formats, c) && (quality.limit() matches Some(
            limit,
        ) ==> c <= limit),
{
}

/// The resolution is chosen from the sizes of the pictures alone, so there is only one choice:
/// none is given up for the sake of a codec.
pub proof fn resolution_is_unique(
    formats: Seq<AvailableFormat>,
    quality: VideoQuality,
    a: Option<u32>,
    b: Option<u32>,
)
    requires
        chosen_resolution(formats, quality, a),
        chosen_resolution(formats, quality, b),
    ensures
        a == b,
{
    if let Some(r) = a {
        assert(offered(formats, r));
    }
    if let Some(r) = b {
        assert(offered(formats, r));
    }
}

/// Where some picture can be fetched and AV1 can be decoded, a selection is made.
pub proof fn selection_is_owed(
    formats: Seq<AvailableFormat>,
    quality: VideoQuality,
    selection: Result<FormatSelection, MediaError>,
)
    requires
        video_selected(formats, quality, true, selection),
        !no_video(formats),
    ensures
        selection is Ok,
{
}

/// The formats, the mode and the limit decide what is selected, and what is said where nothing is.
pub proof fn selection_is_determined(
    formats: Seq<AvailableFormat>,
    mode: DownloadMode,
    quality: VideoQuality,
    av1_supported: bool,
    one: Result<FormatSelection, MediaError>,
    other: Result<FormatSelection, MediaError>,
)
    requires
        selected(formats, mode, quality, av1_supported, one),
        selected(formats, mode, quality, av1_supported, other),
    ensures
        match (one, other) {
            (Ok(a), Ok(b)) => a@ == b@,
            (Err(a), Err(b)) => a@ == b@,
            _ => false,
        },
{
    match mode {
        DownloadMode::Video => {
            lemma_video_determined(formats, quality, av1_supported, one, other);
            lemma_video_determined(formats, quality, av1_supported, other, one);
        },
        DownloadMode::AudioOnly => {
            lemma_audio_determined(formats, one, other);
            lemma_audio_determined(formats, other, one);
        },
    }
}

proof fn lemma_audio_determined(
    formats: Seq<AvailableFormat>,
    one: Result<FormatSelection, MediaError>,
    other: Result<FormatSelection, MediaError>,
)
    requires
        audio_selected(formats, one),
        audio_selected(formats, other),
    ensures
        one is Ok ==> other is Ok,
        one is Ok ==> one->Ok_0@ == other->Ok_0@,
{
    let ranks = audio_ranks(formats);
    if let Ok(a) = one {
        let i = choose|i: int| #[trigger] last_best(ranks, i) && a@ == audio_selection(formats[i]);
        assert(ranks[i] is Some);
        if let Ok(b) = other {
            let j = choose|j: int| #[trigger]
                last_best(ranks, j) && b@ == audio_selection(formats[j]);
            best_is_unique(ranks, Some(i), Some(j));
        }
    }
}

proof fn lemma_video_determined(
    formats: Seq<AvailableFormat>,
    quality: VideoQuality,
    av1_supported: bool,
    one: Result<FormatSelection, MediaError>,
    other: Result<FormatSelection, MediaError>,
)
    requires
        video_selected(formats, quality, av1_supported, one),
        video_selected(formats, quality, av1_supported, other),
    ensures
        one is Ok ==> other is Ok,
        one is Ok ==> one->Ok_0@ == other->Ok_0@,
{
    if let Ok(a) = one {
        let (w, v, s) = choose|w: Option<u32>, v: int, s: Option<int>| #[trigger]
            picks_video(formats, quality, av1_supported, w, v, s) && a@ == video_selection(
                formats,
                w,
                v,
                s,
            );
        let ranks = video_ranks(formats, w, av1_supported);
        assert(ranks[v] is Some);
        match other {
            Ok(b) => {
                let (w2, v2, s2) = choose|w2: Option<u32>, v2: int, s2: Option<int>| #[trigger]
                    picks_video(formats, quality, av1_supported, w2, v2, s2) && b@
                        == video_selection(formats, w2, v2, s2);
                resolution_is_unique(formats, quality, w, w2);
                best_is_unique(ranks, Some(v), Some(v2));
                if !sounds(formats[v]) {
                    best_is_unique(companion_ranks(formats), s, s2);
                }
            },
            Err(_) => {
                assert(video_candidate(formats[v]));
                let w2 = choose|w2: Option<u32>| #[trigger]
                    no_video_at(formats, quality, av1_supported, w2);
                resolution_is_unique(formats, quality, w, w2);
            },
        }
    }
}

/// A protected format has no say in the resolution that is chosen, wherever it stands.
pub proof fn protected_formats_do_not_count(
    before: Seq<AvailableFormat>,
    protected: AvailableFormat,
    after: Seq<AvailableFormat>,
    quality: VideoQuality,
    choice: Option<u32>,
)
    requires
        !unprotected(protected),
    ensures
        chosen_resolution(before + seq![protected] + after, quality, choice) == chosen_resolution(
            before + after,
            quality,
            choice,
        ),
{
    let with = before + seq![protected] + after;
    let without = before + after;
    assert forall|r: u32|
        #![trigger offered(with, r)]
        #![trigger offered(without, r)]
        offered(with, r) == offered(without, r) by {
        if offered(with, r) {
            let i = choose|i: int|
                0 <= i < with.len() && video_candidate(#[trigger] with[i]) && resolution(with[i])
                    == Some(r);
            let k = if i < before.len() {
                i
            } else {
                i - 1
            };
            assert(without[k] == with[i]);
        }
        if offered(without, r) {
            let i = choose|i: int|
                0 <= i < without.len() && video_candidate(#[trigger] without[i]) && resolution(
                    without[i],
                ) == Some(r);
            let k = if i < before.len() {
                i
            } else {
                i + 1
            };
            assert(with[k] == without[i]);
        }
    }
}

/// Whether AV1 can be decoded makes no difference where no format is coded so, nor where sound alone
/// is wanted.
pub proof fn decoders_matter_to_av1_alone(
    formats: Seq<AvailableFormat>,
    mode: DownloadMode,
    quality: VideoQuality,
    selection: Result<FormatSelection, MediaError>,
)
    requires
        mode == DownloadMode::AudioOnly || !offers_av1(formats),
    ensures
        selected(formats, mode, quality, true, selection) == selected(
            formats,
            mode,
            quality,
            false,
            selection,
        ),
{
    if mode == DownloadMode::Video {
        assert forall|wanted: Option<u32>| #[trigger]
            video_ranks(formats, wanted, true) == video_ranks(formats, wanted, false) by {
            assert(video_ranks(formats, wanted, true) =~= video_ranks(formats, wanted, false));
        }
        assert forall|wanted: Option<u32>, video: int, audio: Option<int>|
            #![trigger picks_video(formats, quality, true, wanted, video, audio)]
            #![trigger picks_video(formats, quality, false, wanted, video, audio)]
            picks_video(formats, quality, true, wanted, video, audio) == picks_video(
                formats,
                quality,
                false,
                wanted,
                video,
                audio,
            ) by {
            assert(video_ranks(formats, wanted, true) == video_ranks(formats, wanted, false));
        }
        assert forall|wanted: Option<u32>| !no_video(formats) implies !#[trigger] no_video_at(
            formats,
            quality,
            false,
            wanted,
        ) by {
            if no_video_at(formats, quality, false, wanted) {
                assert(video_ranks(formats, wanted, true) == video_ranks(formats, wanted, false));
                lemma_resolution_is_met(formats, quality, wanted, true);
            }
        }
    }
}

} // verus!
