# inanna_media

Downloads video or audio with yt-dlp and brings it into a form that every player reads, with
FFmpeg. The library decides; the programs, files and clocks are driven from `app/`. What the
library does is stated in `requires` and `ensures` and proved by Verus.

| Module | What it is about |
| --- | --- |
| `text`, `split`, `number` | searching, cutting and putting together text; numbers and sizes in text |
| `model`, `error` | what is asked for, how far it has come, why it can fail |
| `codec`, `formats` | which codecs names stand for; choosing among the formats of a site |
| `encoder`, `probe`, `finalize` | encoders and bit rates; what a file holds; copying or converting it |
| `progress`, `activity` | reading and telling progress; showing that work goes on |
| `retry` | which failures are worth another attempt, and when it is made |
| `diagnostics`, `redact` | the last complaints of a program, without the address of the media |
| `command`, `ytdlp`, `ffmpeg` | how the programs are started, what their lines and their ends mean |
| `output`, `pipeline` | names for files; a download from beginning to end |
| `outside` | the calls into other crates whose contracts are taken on trust |

Where outside work and decisions alternate, a module holds a state and functions from an event to
what is to be done next: `retry::Retries`, `finalize::Finalization`, `pipeline`, `activity::Activity`,
`ytdlp::FormatInspection`, `ytdlp::DownloadRun` and others. Each module ends with laws: proof
functions that state what holds of its functions together.

Numbers in floating point cross the border as their bits (`model::Fraction`, `encoder::FrameRate`)
or as the text they were written as; they are read and divided in `app/numbers.rs`.
