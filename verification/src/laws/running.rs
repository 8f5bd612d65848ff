//! How the programs are run, and what is made of what they write.
use crate::activity;
use crate::codec;
use crate::command;
use crate::command::ArgumentView;
use crate::diagnostics;
use crate::encoder;
use crate::encoder::H264Encoder;
use crate::error::{ErrorView, MediaError};
use crate::ffmpeg;
use crate::ffmpeg::AttemptView;
use crate::finalize;
use crate::laws::encoding;
use crate::laws::reading;
use crate::laws::words;
use crate::model::{DownloadMode, Fraction, JobPhase, ProgressUpdate};
use crate::number;
use crate::outside;
use crate::probe;
use crate::progress;
use crate::redact;
use crate::split;
use crate::text;
use crate::ytdlp;
use crate::ytdlp::{InspectionView, RunView};
use vstd::prelude::*;

verus! {

// ---------------------------------------------------------------------------------------------
// Complaints
// ---------------------------------------------------------------------------------------------

/// `kept` is `lines` with one more behind them, without the first one where that makes more than
/// thirty.
pub open spec fn kept_with(lines: Seq<Seq<char>>, line: Seq<char>, kept: Seq<Seq<char>>) -> bool {
    if lines.len() < 30 {
        kept == lines.push(line)
    } else {
        kept == lines.drop_first().push(line)
    }
}

/// Of what a program complains the last thirty lines are kept, in order.
pub proof fn thirty_lines_are_kept(lines: Seq<Seq<char>>, line: Seq<char>, url: Seq<char>)
    requires
        lines.len() <= 30,
    ensures
        kept_with(
            lines,
            line,
            diagnostics::last_of(lines.push(line), diagnostics::KEPT_LINES as nat),
        ),
        kept_with(lines, redact::redacted(line, url), ytdlp::noted(lines, line, url)),
{
    let all = lines.push(line);
    assert(diagnostics::last_of(all, 30) =~= if lines.len() < 30 {
        all
    } else {
        lines.drop_first().push(line)
    });
    let safe = redact::redacted(line, url);
    assert(ytdlp::noted(lines, line, url) =~= if lines.len() < 30 {
        lines.push(safe)
    } else {
        lines.drop_first().push(safe)
    });
}

/// Every kept line is told, in order and one to a line; how the program ended is told only where
/// nothing was written.
pub proof fn complaints_are_told_line_by_line(lines: Seq<Seq<char>>, status: Seq<char>)
    requires
        forall|i: int, k: int|
            0 <= i < lines.len() && 0 <= k < lines[i].len() ==> #[trigger] lines[i][k] != '\n',
    ensures
        lines.len() == 0 ==> diagnostics::complaint(lines, status) == status,
        lines.len() == 1 && lines[0].len() == 0 ==> diagnostics::complaint(lines, status) == status,
        lines.len() > 1 || lines.len() == 1 && lines[0].len() > 0 ==> split::split(
            diagnostics::complaint(lines, status),
            '\n',
        ) == lines,
{
    reveal_strlit("\n");
    assert("\n"@ =~= seq!['\n']);
    if lines.len() > 0 {
        lemma_lines_joined(lines);
        let whole = split::join(lines, seq!['\n']);
        if whole.len() == 0 {
            assert(whole =~= Seq::empty());
            assert(split::split(whole, '\n') =~= seq![whole]);
            assert(lines.len() == 1);
        }
    }
}

proof fn lemma_lines_joined(lines: Seq<Seq<char>>)
    requires
        lines.len() > 0,
        forall|i: int, k: int|
            0 <= i < lines.len() && 0 <= k < lines[i].len() ==> #[trigger] lines[i][k] != '\n',
    ensures
        split::split(split::join(lines, seq!['\n']), '\n') == lines,
    decreases lines.len(),
{
    let first = lines[0];
    let n = first.len() as int;
    assert(forall|k: int| 0 <= k < n ==> lines[0][k] != '\n');
    if lines.len() == 1 {
        split::lemma_until_is(first, '\n', n);
        assert(split::split(first, '\n') =~= lines);
    } else {
        let rest = lines.drop_first();
        assert(lines =~= seq![first] + rest);
        assert forall|i: int, k: int| 0 <= i < rest.len() && 0 <= k < rest[i].len() implies
            #[trigger] rest[i][k] != '\n' by {
            assert(rest[i] == lines[i + 1]);
            assert(lines[i + 1][k] != '\n');
        }
        lemma_lines_joined(rest);
        reading::lemma_join_behind(first, rest, seq!['\n']);
        let tail = split::join(rest, seq!['\n']);
        let whole = first + seq!['\n'] + tail;
        split::lemma_until_is(whole, '\n', n);
        assert(whole.take(n) =~= first);
        assert(whole.skip(n + 1) =~= tail);
    }
}

/// Where the address stands in a line, `[URL]` stands in its place, and what stands before it stays;
/// what stands behind it is treated in the same way.
pub proof fn addresses_are_replaced(before: Seq<char>, url: Seq<char>, after: Seq<char>)
    requires
        url.len() > 0,
        forall|i: int|
            0 <= i < before.len() ==> !#[trigger] text::occurs_at(before + url + after, url, i),
    ensures
        redact::redacted(before + url + after, url) == before + "[URL]"@ + redact::redacted(
            after,
            url,
        ),
    decreases before.len(),
{
    let line = before + url + after;
    if before.len() == 0 {
        assert(line.subrange(0, url.len() as int) =~= url);
        assert(line.skip(url.len() as int) =~= after);
        assert(redact::redacted(line, url) =~= before + "[URL]"@ + redact::redacted(after, url));
    } else {
        let rest = before.drop_first();
        assert(!text::occurs_at(line, url, 0));
        assert(line.drop_first() =~= rest + url + after);
        assert forall|i: int| 0 <= i < rest.len() implies !#[trigger] text::occurs_at(
            rest + url + after,
            url,
            i,
        ) by {
            assert(!text::occurs_at(line, url, i + 1));
            if text::occurs_at(rest + url + after, url, i) {
                assert(line.subrange(i + 1, i + 1 + url.len()) =~= (rest + url + after).subrange(
                    i,
                    i + url.len(),
                ));
            }
        }
        addresses_are_replaced(rest, url, after);
        assert(line.first() == before.first());
        assert(redact::redacted(line, url) =~= before + "[URL]"@ + redact::redacted(after, url));
    }
}

// ---------------------------------------------------------------------------------------------
// Looking for formats
// ---------------------------------------------------------------------------------------------

/// A result that begins with a brace, white space apart, is added to the report as a line of its
/// own and told to nobody. Any other one leaves everything as it is, and is told as an activity.
pub proof fn results_are_reports_or_activities(
    state: InspectionView,
    before: Seq<char>,
    rest: Seq<char>,
)
    requires
        reading::blank(before),
        rest.len() > 0 && !text::is_space(rest[0]),
    ensures
        ({
            let line = before + rest;
            let (next, told) = ytdlp::inspected(state, line);
            &&& next.url == state.url
            &&& next.diagnostics == state.diagnostics
            &&& if rest[0] == '{' {
                next.json == state.json + line + seq!['\n'] && told is None
            } else {
                next.json == state.json && told == activity::inspection_stage(line)
            }
        }),
{
    reveal_strlit("{");
    reveal_strlit("\n");
    assert("\n"@ =~= seq!['\n']);
    let line = before + rest;
    reading::lemma_blank_is_cut(before, rest);
    if rest[0] == '{' {
        assert(rest.subrange(0, 1) =~= "{"@);
    } else if text::starts_with(rest, "{"@) {
        assert(rest.subrange(0, 1)[0] == '{');
    }
}

/// A result of white space alone changes nothing and is told to nobody.
pub proof fn blank_results_are_ignored(state: InspectionView, line: Seq<char>)
    requires
        reading::blank(line),
    ensures
        ytdlp::inspected(state, line).0 == state,
        ytdlp::inspected(state, line).1 is None,
{
    reveal_strlit("{");
    reveal_strlit("[");
    assert("{"@.len() == 1 && "["@.len() == 1);
    reading::lemma_blank_is_empty(line);
}

/// A complaint is kept without the address and told as an activity where it is one; the report stays
/// as it is.
pub proof fn complaints_of_an_inspection_are_kept(state: InspectionView, line: Seq<char>)
    requires
        state.diagnostics.len() <= 30,
    ensures
        ({
            let (next, told) = ytdlp::inspection_complained(state, line);
            &&& next.url == state.url
            &&& next.json == state.json
            &&& kept_with(
                state.diagnostics,
                redact::redacted(line, state.url),
                next.diagnostics,
            )
            &&& told == activity::inspection_stage(line)
        }),
{
    thirty_lines_are_kept(state.diagnostics, line, state.url);
}

/// An inspection succeeds exactly where yt-dlp does. It then gives the report without white space
/// around it; else what was complained of, as a failure of yt-dlp.
pub proof fn inspections_end_as_the_program_does(
    state: InspectionView,
    success: bool,
    status: Seq<char>,
    end: Result<(ProgressUpdate, String), MediaError>,
)
    requires
        ytdlp::inspection_ended(state, success, status, end),
    ensures
        end is Ok <==> success,
        end matches Ok((update, json)) ==> {
            &&& json@ == text::trim(state.json)
            &&& update.phase == JobPhase::Inspecting
            &&& update.fraction is None
            &&& update.message@ == "Choosing video and audio formats…"@
        },
        end matches Err(error) ==> error@ == ErrorView::YtDlp(
            diagnostics::complaint(state.diagnostics, status),
        ),
{
}

// ---------------------------------------------------------------------------------------------
// Downloading
// ---------------------------------------------------------------------------------------------

/// A result tells progress and changes nothing; or it names a file behind its mark, as a JSON
/// string, which is then the one that was made; or it changes nothing at all.
pub proof fn results_tell_progress_or_name_the_file(state: RunView, line: Seq<char>, json: Seq<char>)
    ensures
        ({
            let (next, told) = ytdlp::downloaded_line(state, line);
            &&& told == progress::reported_in_line(line)
            &&& next.url == state.url
            &&& next.diagnostics == state.diagnostics
            &&& told is Some ==> next.file == state.file
            &&& !text::starts_with(line, "__YTDLP_WRAPPER_FILE__"@) ==> next.file == state.file
            &&& line == "__YTDLP_WRAPPER_FILE__"@ + json && told is None ==> next.file
                == match outside::json_text(json) {
                Some(file) => Some(file),
                None => state.file,
            }
        }),
{
    let mark = "__YTDLP_WRAPPER_FILE__"@;
    if line == mark + json {
        assert(line.subrange(0, mark.len() as int) =~= mark);
        assert(line.skip(mark.len() as int) =~= json);
    }
}

/// A complaint is kept without the address, unless it tells progress; the file stays as it is.
pub proof fn complaints_of_a_download_are_kept(state: RunView, line: Seq<char>)
    requires
        state.diagnostics.len() <= 30,
    ensures
        ({
            let next = ytdlp::download_complained(state, line);
            &&& next.url == state.url
            &&& next.file == state.file
            &&& if progress::reported_in_line(line) is Some {
                next.diagnostics == state.diagnostics
            } else {
                kept_with(
                    state.diagnostics,
                    redact::redacted(line, state.url),
                    next.diagnostics,
                )
            }
        }),
{
    thirty_lines_are_kept(state.diagnostics, line, state.url);
}

/// A download succeeds exactly where yt-dlp does and has named a file, and gives that one. Where
/// yt-dlp fails, what was complained of is told, whether a file was named or not.
pub proof fn downloads_end_as_the_program_does(
    state: RunView,
    success: bool,
    status: Seq<char>,
    end: Result<String, MediaError>,
)
    requires
        ytdlp::download_ended(state, success, status, end),
    ensures
        end is Ok <==> success && state.file is Some,
        end matches Ok(file) ==> state.file == Some(file@),
        end matches Err(error) ==> error@ == if success {
            ErrorView::MissingOutput
        } else {
            ErrorView::YtDlp(diagnostics::complaint(state.diagnostics, status))
        },
{
}

/// yt-dlp reports the formats of one media in JSON, beside what it is doing, without colours,
/// without a playlist, without its own settings and without updating itself; with the tools and the
/// program for scripts that it is given, and nothing else.
pub proof fn formats_are_asked_for(deno: Seq<char>, url: Seq<char>)
    ensures
        ({
            let arguments = ytdlp::inspection_words(deno, url);
            &&& command::asks(arguments, "--no-config"@)
            &&& command::asks(arguments, "--no-update"@)
            &&& command::asks(arguments, "--no-playlist"@)
            &&& command::asks(arguments, "--no-quiet"@)
            &&& command::asks(arguments, "--no-colors"@)
            &&& command::asks(arguments, "--dump-single-json"@)
            &&& command::gives(arguments, "--ffmpeg-location"@, ArgumentView::ToolDirectory)
            &&& command::gives(
                arguments,
                "--js-runtimes"@,
                ArgumentView::Text("deno:"@ + deno),
            )
            &&& arguments[10] == ArgumentView::Text("--"@)
            &&& arguments[11] == ArgumentView::Text(url)
            &&& arguments.len() == 12
        }),
{
    reveal(command::asks);
    reveal(command::gives);
    let arguments = ytdlp::inspection_words(deno, url);
    assert(arguments.len() == 12);
    assert(arguments[0] == ArgumentView::Text("--no-config"@));
    assert(arguments[1] == ArgumentView::Text("--no-update"@));
    assert(arguments[2] == ArgumentView::Text("--no-playlist"@));
    assert(arguments[3] == ArgumentView::Text("--no-quiet"@));
    assert(arguments[4] == ArgumentView::Text("--no-colors"@));
    assert(arguments[5] == ArgumentView::Text("--dump-single-json"@));
    assert(arguments[6] == ArgumentView::Text("--ffmpeg-location"@));
    assert(arguments[7] == ArgumentView::ToolDirectory);
    assert(arguments[8] == ArgumentView::Text("--js-runtimes"@));
    assert(arguments[9] == ArgumentView::Text("deno:"@ + deno));
}

/// yt-dlp downloads the formats that were selected into the staging directory, puts a picture and
/// its sound together in the container that was selected, and writes file names as it is told. Its
/// progress and its file are marked as they are looked for: four fields, and a JSON string.
pub proof fn downloads_are_asked_for(
    deno: Seq<char>,
    staging: Seq<char>,
    file_names: Seq<Seq<char>>,
    format_spec: Seq<char>,
    merge_container: Option<Seq<char>>,
    mode: DownloadMode,
    url: Seq<char>,
)
    ensures
        ({
            let arguments = ytdlp::download_words(
                deno,
                staging,
                file_names,
                format_spec,
                merge_container,
                mode,
                url,
            );
            let merged = mode == DownloadMode::Video && merge_container is Some;
            &&& command::asks(arguments, "--no-config"@)
            &&& command::asks(arguments, "--no-update"@)
            &&& command::asks(arguments, "--no-playlist"@)
            &&& command::asks(arguments, "--newline"@)
            &&& command::asks(arguments, "--progress"@)
            &&& command::gives(arguments, "--progress-delta"@, ArgumentView::Text("0.2"@))
            &&& command::gives(arguments, "--ffmpeg-location"@, ArgumentView::ToolDirectory)
            &&& command::gives(
                arguments,
                "--js-runtimes"@,
                ArgumentView::Text("deno:"@ + deno),
            )
            &&& command::gives(arguments, "--paths"@, ArgumentView::Text("home:"@ + staging))
            &&& command::gives(
                arguments,
                "--output"@,
                ArgumentView::Text("%(title).180B [%(id)s].%(ext)s"@),
            )
            &&& command::gives(
                arguments,
                "--progress-template"@,
                ArgumentView::Text(
                    "download:"@ + "__YTDLP_WRAPPER_PROGRESS__"@
                        + "%(progress._percent)f|%(progress.downloaded_bytes)s|%(progress.total_bytes)s|%(progress.speed)s"@,
                ),
            )
            &&& command::gives(
                arguments,
                "--print"@,
                ArgumentView::Text("after_move:"@ + "__YTDLP_WRAPPER_FILE__"@ + "%(filepath)j"@),
            )
            &&& forall|i: int|
                0 <= i < file_names.len() ==> #[trigger] arguments[i + 19] == ArgumentView::Text(
                    file_names[i],
                )
            &&& command::gives(arguments, "--format"@, ArgumentView::Text(format_spec))
            &&& merged ==> command::gives(
                arguments,
                "--merge-output-format"@,
                ArgumentView::Text(merge_container->0),
            )
            &&& arguments.len() == file_names.len() + if merged {
                25int
            } else {
                23
            }
        }),
{
    reveal(command::asks);
    reveal(command::gives);
    let arguments = ytdlp::download_words(
        deno,
        staging,
        file_names,
        format_spec,
        merge_container,
        mode,
        url,
    );
    let n = file_names.len() as int;
    assert(arguments[0] == ArgumentView::Text("--no-config"@));
    assert(arguments[1] == ArgumentView::Text("--no-update"@));
    assert(arguments[2] == ArgumentView::Text("--no-playlist"@));
    assert(arguments[3] == ArgumentView::Text("--newline"@));
    assert(arguments[4] == ArgumentView::Text("--progress"@));
    assert(arguments[5] == ArgumentView::Text("--progress-delta"@));
    assert(arguments[6] == ArgumentView::Text("0.2"@));
    assert(arguments[7] == ArgumentView::Text("--ffmpeg-location"@));
    assert(arguments[8] == ArgumentView::ToolDirectory);
    assert(arguments[9] == ArgumentView::Text("--js-runtimes"@));
    assert(arguments[10] == ArgumentView::Text("deno:"@ + deno));
    assert(arguments[11] == ArgumentView::Text("--paths"@));
    assert(arguments[12] == ArgumentView::Text("home:"@ + staging));
    assert(arguments[13] == ArgumentView::Text("--output"@));
    assert(arguments[14] == ArgumentView::Text("%(title).180B [%(id)s].%(ext)s"@));
    assert(arguments[15] == ArgumentView::Text("--progress-template"@));
    assert(arguments[16] == ArgumentView::Text(
        "download:"@ + "__YTDLP_WRAPPER_PROGRESS__"@
            + "%(progress._percent)f|%(progress.downloaded_bytes)s|%(progress.total_bytes)s|%(progress.speed)s"@,
    ));
    assert(arguments[17] == ArgumentView::Text("--print"@));
    assert(arguments[18] == ArgumentView::Text(
        "after_move:"@ + "__YTDLP_WRAPPER_FILE__"@ + "%(filepath)j"@,
    ));
    assert forall|i: int| 0 <= i < n implies #[trigger] arguments[i + 19] == ArgumentView::Text(
        file_names[i],
    ) by {
        assert(command::texts(file_names)[i] == ArgumentView::Text(file_names[i]));
    }
    assert(arguments[n + 19] == ArgumentView::Text("--format"@));
    assert(arguments[n + 20] == ArgumentView::Text(format_spec));
    if mode == DownloadMode::Video && merge_container is Some {
        assert(arguments[n + 21] == ArgumentView::Text("--merge-output-format"@));
        assert(arguments[n + 22] == ArgumentView::Text(merge_container->0));
    }
}

// ---------------------------------------------------------------------------------------------
// FFmpeg
// ---------------------------------------------------------------------------------------------

/// The position is what stands behind its name, and a line with another name gives none.
pub proof fn positions_stand_behind_their_name(line: Seq<char>, value: Seq<char>)
    ensures
        ffmpeg::position_text("out_time_us="@ + value) == Some(value),
        !text::starts_with(line, "out_time_us="@) ==> ffmpeg::position_text(line) is None,
{
    let mark = "out_time_us="@;
    let whole = mark + value;
    assert(whole.subrange(0, mark.len() as int) =~= mark);
    assert(whole.skip(mark.len() as int) =~= value);
}

/// Once a decoder is listed it stays so, and only a line that lists one changes that. The answer is
/// given exactly where FFmpeg ends well; else how it ended is told.
pub proof fn decoders_are_looked_up(
    found: bool,
    line: Seq<char>,
    success: bool,
    status: Seq<char>,
    end: Result<bool, MediaError>,
)
    requires
        ffmpeg::decoders_ended(found, success, status, end),
    ensures
        ffmpeg::decoder_noted(true, line),
        ffmpeg::decoder_noted(false, line) == codec::software_av1_listed(line),
        end is Ok <==> success,
        end matches Ok(listed) ==> listed == found,
        end matches Err(error) ==> error@ == ErrorView::Ffmpeg(
            "could not inspect available decoders: "@ + status,
        ),
        ({
            let arguments = ffmpeg::decoder_words();
            &&& arguments.len() == 2
            &&& arguments[0] == ArgumentView::Text("-hide_banner"@)
            &&& arguments[1] == ArgumentView::Text("-decoders"@)
        }),
{
}

/// While FFmpeg works, the user is told the phase and the message, and how far it is where that is
/// known. Its complaints are kept, and told where it fails and only there.
pub proof fn conversions_are_told(
    state: AttemptView,
    fraction: Fraction,
    line: Seq<char>,
    status: Seq<char>,
)
    requires
        state.diagnostics.len() <= 30,
    ensures
        ({
            let start = ffmpeg::attempt_begun(state);
            let later = ffmpeg::attempt_advanced(state, fraction);
            &&& start.phase == state.phase && later.phase == state.phase
            &&& start.message == state.message && later.message == state.message
            &&& start.fraction is None && later.fraction == Some(fraction)
            &&& start.downloaded_bytes is None && later.downloaded_bytes is None
            &&& start.total_bytes is None && later.total_bytes is None
            &&& start.speed_bytes_per_second is None && later.speed_bytes_per_second is None
        }),
        ({
            let next = ffmpeg::attempt_complained(state, line);
            &&& next.phase == state.phase && next.message == state.message
            &&& kept_with(state.diagnostics, line, next.diagnostics)
        }),
        ffmpeg::attempt_failure(state, true, status) is None,
        ffmpeg::attempt_failure(state, false, status) == Some(
            diagnostics::complaint(state.diagnostics, status),
        ),
{
    thirty_lines_are_kept(state.diagnostics, line, Seq::empty());
}

/// An encoder is tried on one frame of black, without sound and without a file, at the rates for 720
/// lines; nothing but errors is written.
pub proof fn encoders_are_tried_on_one_frame(encoder: H264Encoder)
    ensures
        ({
            let arguments = finalize::trial_arguments(encoder);
            let tested = encoder::encoder_arguments(
                encoder,
                encoder::recommended(720, false),
            );
            &&& command::set_to_text(arguments, "-i"@, "color=c=black:s=1280x720:r=1"@)
            &&& command::gives(arguments, "-f"@, ArgumentView::Text("lavfi"@))
            &&& command::gives(arguments, "-f"@, ArgumentView::Text("null"@))
            &&& command::set_to_text(arguments, "-frames:v"@, "1"@)
            &&& command::set_to_text(arguments, "-loglevel"@, "error"@)
            &&& command::asks(arguments, "-hide_banner"@)
            &&& command::asks(arguments, "-an"@)
            &&& arguments[arguments.len() - 1] == ArgumentView::Text("-"@)
            &&& command::set_to_text(arguments, "-maxrate"@, "5000k"@)
            &&& command::set_to_text(arguments, "-bufsize"@, "10000k"@)
            &&& arguments.len() == tested.len() + 13
            &&& forall|i: int|
                0 <= i < tested.len() ==> #[trigger] arguments[i + 10] == tested[i]
        }),
{
    words::lemma_words();
    let rates = encoder::recommended(720, false);
    let tested = encoder::encoder_arguments(encoder, rates);
    encoding::bit_rates_are_limited(encoder, rates);
    encoding::encoders_leave_the_rest_alone(encoder, rates);
    lemma_five_and_ten_thousand();
    let head = trial_head();
    let tail = trial_tail();
    lemma_trial_parts();
    let first = head + tested;
    assert(finalize::trial_arguments(encoder) == first + tail);
    command::lemma_parts(head, tested);
    command::lemma_parts(first, tail);
    let whole = first + tail;
    assert forall|i: int| 0 <= i < tested.len() implies #[trigger] whole[i + 10] == tested[i] by {
        assert(first[i + 10] == tested[i]);
    }
}

spec fn trial_head() -> Seq<ArgumentView> {
    command::texts(
        seq![
            "-hide_banner"@,
            "-loglevel"@,
            "error"@,
            "-f"@,
            "lavfi"@,
            "-i"@,
            "color=c=black:s=1280x720:r=1"@,
            "-frames:v"@,
            "1"@,
            "-an"@,
        ],
    )
}

spec fn trial_tail() -> Seq<ArgumentView> {
    command::texts(seq!["-f"@, "null"@, "-"@])
}

proof fn lemma_trial_parts()
    ensures
        trial_head().len() == 10,
        trial_tail().len() == 3,
        trial_tail()[2] == ArgumentView::Text("-"@),
        forall|word: Seq<char>| #[trigger]
            command::asks(trial_head(), word) <==> (word == "-hide_banner"@ || word == "-loglevel"@
                || word == "error"@ || word == "-f"@ || word == "lavfi"@ || word == "-i"@ || word
                == "color=c=black:s=1280x720:r=1"@ || word == "-frames:v"@ || word == "1"@ || word
                == "-an"@),
        forall|word: Seq<char>| #[trigger]
            command::asks(trial_tail(), word) <==> (word == "-f"@ || word == "null"@ || word
                == "-"@),
        command::set_to_text(trial_head(), "-i"@, "color=c=black:s=1280x720:r=1"@),
        command::set_to_text(trial_head(), "-frames:v"@, "1"@),
        command::set_to_text(trial_head(), "-loglevel"@, "error"@),
        command::gives(trial_head(), "-f"@, ArgumentView::Text("lavfi"@)),
        command::gives(trial_tail(), "-f"@, ArgumentView::Text("null"@)),
{
    reveal(command::asks);
    reveal(command::gives);
    reveal(command::set_to);
    words::lemma_words();
    let head = trial_head();
    assert(head.len() == 10);
    assert(head[0] == ArgumentView::Text("-hide_banner"@));
    assert(head[1] == ArgumentView::Text("-loglevel"@));
    assert(head[2] == ArgumentView::Text("error"@));
    assert(head[3] == ArgumentView::Text("-f"@));
    assert(head[4] == ArgumentView::Text("lavfi"@));
    assert(head[5] == ArgumentView::Text("-i"@));
    assert(head[6] == ArgumentView::Text("color=c=black:s=1280x720:r=1"@));
    assert(head[7] == ArgumentView::Text("-frames:v"@));
    assert(head[8] == ArgumentView::Text("1"@));
    assert(head[9] == ArgumentView::Text("-an"@));
    let tail = trial_tail();
    assert(tail.len() == 3);
    assert(tail[0] == ArgumentView::Text("-f"@));
    assert(tail[1] == ArgumentView::Text("null"@));
    assert(tail[2] == ArgumentView::Text("-"@));
}

proof fn lemma_five_and_ten_thousand()
    ensures
        number::decimal(5000) + "k"@ == "5000k"@,
        number::decimal(10000) + "k"@ == "10000k"@,
{
    reveal_with_fuel(number::decimal, 5);
    reveal_strlit("k");
    reveal_strlit("5000k");
    reveal_strlit("10000k");
    assert(number::decimal(5000) + "k"@ =~= "5000k"@);
    assert(number::decimal(10000) + "k"@ =~= "10000k"@);
}

/// A file is probed for its streams and its length, as JSON, and nothing but errors is written
/// beside that; the file is named last.
pub proof fn files_are_probed()
    ensures
        ({
            let arguments = probe::probe_words();
            &&& arguments.len() == 7
            &&& command::set_to_text(arguments, "-v"@, "error"@)
            &&& command::set_to_text(
                arguments,
                "-show_entries"@,
                "stream=codec_type,codec_name,pix_fmt,width,height,avg_frame_rate:format=duration"@,
            )
            &&& command::set_to_text(arguments, "-of"@, "json"@)
            &&& arguments[6] == ArgumentView::Input
        }),
{
    reveal(command::gives);
    reveal(command::set_to);
    words::lemma_words();
    let arguments = probe::probe_words();
    assert(arguments.len() == 7);
    assert(arguments[0] == ArgumentView::Text("-v"@));
    assert(arguments[1] == ArgumentView::Text("error"@));
    assert(arguments[2] == ArgumentView::Text("-show_entries"@));
    assert(arguments[3] == ArgumentView::Text(
        "stream=codec_type,codec_name,pix_fmt,width,height,avg_frame_rate:format=duration"@,
    ));
    assert(arguments[4] == ArgumentView::Text("-of"@));
    assert(arguments[5] == ArgumentView::Text("json"@));
    assert(arguments[6] == ArgumentView::Input);
}

} // verus!
