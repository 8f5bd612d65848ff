//! The words that programs are started with, told apart.
use vstd::prelude::*;

verus! {

/// The lengths of the words for FFmpeg and FFprobe, and characters by which those of one length
/// differ.
pub proof fn lemma_words()
    ensures
        "1"@.len() == 1 && "1"@[0] == '1',
        "0"@.len() == 1 && "0"@[0] == '0',
        "-"@.len() == 1 && "-"@[0] == '-',
        "p5"@.len() == 2 && "p5"@[0] == 'p' && "p5"@[1] == '5',
        "hq"@.len() == 2 && "hq"@[0] == 'h' && "hq"@[1] == 'q',
        "23"@.len() == 2 && "23"@[0] == '2' && "23"@[1] == '3',
        "18"@.len() == 2 && "18"@[0] == '1' && "18"@[1] == '8',
        "-y"@.len() == 2 && "-y"@[0] == '-' && "-y"@[1] == 'y',
        "-i"@.len() == 2 && "-i"@[0] == '-' && "-i"@[1] == 'i',
        "-f"@.len() == 2 && "-f"@[0] == '-' && "-f"@[1] == 'f',
        "-v"@.len() == 2 && "-v"@[0] == '-' && "-v"@[1] == 'v',
        "-rc"@.len() == 3 && "-rc"@[0] == '-' && "-rc"@[1] == 'r',
        "vbr"@.len() == 3 && "vbr"@[0] == 'v' && "vbr"@[1] == 'b',
        "-cq"@.len() == 3 && "-cq"@[0] == '-' && "-cq"@[1] == 'c',
        "-vn"@.len() == 3 && "-vn"@[0] == '-' && "-vn"@[1] == 'v',
        "aac"@.len() == 3 && "aac"@[0] == 'a' && "aac"@[1] == 'a',
        "-an"@.len() == 3 && "-an"@[0] == '-' && "-an"@[1] == 'a',
        "-of"@.len() == 3 && "-of"@[0] == '-' && "-of"@[1] == 'o',
        "-c:v"@.len() == 4 && "-c:v"@[0] == '-' && "-c:v"@[3] == 'v' && "-c:v"@[1] == 'c',
        "nv12"@.len() == 4 && "nv12"@[0] == 'n' && "nv12"@[3] == '2' && "nv12"@[1] == 'v',
        "high"@.len() == 4 && "high"@[0] == 'h' && "high"@[3] == 'h' && "high"@[1] == 'i',
        "-crf"@.len() == 4 && "-crf"@[0] == '-' && "-crf"@[3] == 'f' && "-crf"@[1] == 'c',
        "-b:v"@.len() == 4 && "-b:v"@[0] == '-' && "-b:v"@[3] == 'v' && "-b:v"@[1] == 'b',
        "-map"@.len() == 4 && "-map"@[0] == '-' && "-map"@[3] == 'p' && "-map"@[1] == 'm',
        "copy"@.len() == 4 && "copy"@[0] == 'c' && "copy"@[3] == 'y' && "copy"@[1] == 'o',
        "avc1"@.len() == 4 && "avc1"@[0] == 'a' && "avc1"@[3] == '1' && "avc1"@[1] == 'v',
        "-c:a"@.len() == 4 && "-c:a"@[0] == '-' && "-c:a"@[3] == 'a' && "-c:a"@[1] == 'c',
        "-b:a"@.len() == 4 && "-b:a"@[0] == '-' && "-b:a"@[3] == 'a' && "-b:a"@[1] == 'b',
        "256k"@.len() == 4 && "256k"@[0] == '2' && "256k"@[3] == 'k' && "256k"@[1] == '5',
        "null"@.len() == 4 && "null"@[0] == 'n' && "null"@[3] == 'l' && "null"@[1] == 'u',
        "json"@.len() == 4 && "json"@[0] == 'j' && "json"@[3] == 'n' && "json"@[1] == 's',
        "-tune"@.len() == 5 && "-tune"@[0] == '-' && "-tune"@[2] == 'u',
        "0:v:0"@.len() == 5 && "0:v:0"@[0] == '0' && "0:v:0"@[2] == 'v',
        "0:a:0"@.len() == 5 && "0:a:0"@[0] == '0' && "0:a:0"@[2] == 'a',
        "error"@.len() == 5 && "error"@[0] == 'e' && "error"@[2] == 'r',
        "lavfi"@.len() == 5 && "lavfi"@[0] == 'l' && "lavfi"@[2] == 'v',
        "medium"@.len() == 6 && "medium"@[0] == 'm',
        "0:a:0?"@.len() == 6 && "0:a:0?"@[0] == '0',
        "-tag:v"@.len() == 6 && "-tag:v"@[0] == '-',
        "pipe:1"@.len() == 6 && "pipe:1"@[0] == 'p',
        "-preset"@.len() == 7 && "-preset"@[0] == '-',
        "yuv420p"@.len() == 7 && "yuv420p"@[0] == 'y',
        "quality"@.len() == 7 && "quality"@[0] == 'q',
        "libx264"@.len() == 7 && "libx264"@[0] == 'l',
        "-pix_fmt"@.len() == 8 && "-pix_fmt"@[0] == '-' && "-pix_fmt"@[1] == 'p' && "-pix_fmt"@[5] == 'f',
        "h264_qsv"@.len() == 8 && "h264_qsv"@[0] == 'h' && "h264_qsv"@[1] == '2' && "h264_qsv"@[5] == 'q',
        "h264_amf"@.len() == 8 && "h264_amf"@[0] == 'h' && "h264_amf"@[1] == '2' && "h264_amf"@[5] == 'a',
        "-quality"@.len() == 8 && "-quality"@[0] == '-' && "-quality"@[1] == 'q' && "-quality"@[5] == 'i',
        "vbr_peak"@.len() == 8 && "vbr_peak"@[0] == 'v' && "vbr_peak"@[1] == 'b' && "vbr_peak"@[5] == 'e',
        "-maxrate"@.len() == 8 && "-maxrate"@[0] == '-' && "-maxrate"@[1] == 'm' && "-maxrate"@[5] == 'a',
        "-bufsize"@.len() == 8 && "-bufsize"@[0] == '-' && "-bufsize"@[1] == 'b' && "-bufsize"@[5] == 'i',
        "-nostats"@.len() == 8 && "-nostats"@[0] == '-' && "-nostats"@[1] == 'n' && "-nostats"@[5] == 'a',
        "-allow_sw"@.len() == 9 && "-allow_sw"@[0] == '-' && "-allow_sw"@[1] == 'a',
        "-movflags"@.len() == 9 && "-movflags"@[0] == '-' && "-movflags"@[1] == 'm',
        "-progress"@.len() == 9 && "-progress"@[0] == '-' && "-progress"@[1] == 'p',
        "-loglevel"@.len() == 9 && "-loglevel"@[0] == '-' && "-loglevel"@[1] == 'l',
        "-frames:v"@.len() == 9 && "-frames:v"@[0] == '-' && "-frames:v"@[1] == 'f',
        "-decoders"@.len() == 9 && "-decoders"@[0] == '-' && "-decoders"@[1] == 'd',
        "h264_nvenc"@.len() == 10 && "h264_nvenc"@[0] == 'h',
        "-profile:v"@.len() == 10 && "-profile:v"@[0] == '-',
        "+faststart"@.len() == 10 && "+faststart"@[0] == '+',
        "-spatial-aq"@.len() == 11 && "-spatial-aq"@[0] == '-',
        "-hide_banner"@.len() == 12 && "-hide_banner"@[0] == '-',
        "-map_metadata"@.len() == 13 && "-map_metadata"@[0] == '-' && "-map_metadata"@[5] == 'm',
        "-map_chapters"@.len() == 13 && "-map_chapters"@[0] == '-' && "-map_chapters"@[5] == 'c',
        "-show_entries"@.len() == 13 && "-show_entries"@[0] == '-' && "-show_entries"@[5] == '_',
        "h264_videotoolbox"@.len() == 17 && "h264_videotoolbox"@[0] == 'h',
        "color=c=black:s=1280x720:r=1"@.len() == 28 && "color=c=black:s=1280x720:r=1"@[0] == 'c',
        "stream=codec_type,codec_name,pix_fmt,width,height,avg_frame_rate:format=duration"@.len() == 80 && "stream=codec_type,codec_name,pix_fmt,width,height,avg_frame_rate:format=duration"@[0] == 's',
{
    reveal_strlit("-c:v");
    reveal_strlit("h264_nvenc");
    reveal_strlit("-preset");
    reveal_strlit("p5");
    reveal_strlit("-tune");
    reveal_strlit("hq");
    reveal_strlit("-rc");
    reveal_strlit("vbr");
    reveal_strlit("-cq");
    reveal_strlit("23");
    reveal_strlit("-spatial-aq");
    reveal_strlit("1");
    reveal_strlit("-pix_fmt");
    reveal_strlit("yuv420p");
    reveal_strlit("h264_qsv");
    reveal_strlit("medium");
    reveal_strlit("nv12");
    reveal_strlit("h264_amf");
    reveal_strlit("-quality");
    reveal_strlit("quality");
    reveal_strlit("vbr_peak");
    reveal_strlit("h264_videotoolbox");
    reveal_strlit("-profile:v");
    reveal_strlit("high");
    reveal_strlit("-allow_sw");
    reveal_strlit("0");
    reveal_strlit("libx264");
    reveal_strlit("-crf");
    reveal_strlit("18");
    reveal_strlit("-b:v");
    reveal_strlit("-maxrate");
    reveal_strlit("-bufsize");
    reveal_strlit("-hide_banner");
    reveal_strlit("-y");
    reveal_strlit("-i");
    reveal_strlit("-map");
    reveal_strlit("0:v:0");
    reveal_strlit("0:a:0?");
    reveal_strlit("0:a:0");
    reveal_strlit("-vn");
    reveal_strlit("copy");
    reveal_strlit("-tag:v");
    reveal_strlit("avc1");
    reveal_strlit("-c:a");
    reveal_strlit("aac");
    reveal_strlit("-b:a");
    reveal_strlit("256k");
    reveal_strlit("-map_metadata");
    reveal_strlit("-map_chapters");
    reveal_strlit("-movflags");
    reveal_strlit("+faststart");
    reveal_strlit("-progress");
    reveal_strlit("pipe:1");
    reveal_strlit("-nostats");
    reveal_strlit("-loglevel");
    reveal_strlit("error");
    reveal_strlit("-f");
    reveal_strlit("lavfi");
    reveal_strlit("color=c=black:s=1280x720:r=1");
    reveal_strlit("-frames:v");
    reveal_strlit("-an");
    reveal_strlit("null");
    reveal_strlit("-");
    reveal_strlit("-v");
    reveal_strlit("-show_entries");
    reveal_strlit("stream=codec_type,codec_name,pix_fmt,width,height,avg_frame_rate:format=duration");
    reveal_strlit("-of");
    reveal_strlit("json");
    reveal_strlit("-decoders");
}

} // verus!
