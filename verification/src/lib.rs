//! Choosing, fetching and converting media with yt-dlp and FFmpeg.
pub mod activity;
pub mod codec;
pub mod command;
pub mod diagnostics;
pub mod encoder;
pub mod error;
pub mod ffmpeg;
pub mod finalize;
pub mod formats;
pub mod laws;
pub mod model;
pub mod number;
pub mod output;
pub mod outside;
pub mod pipeline;
pub mod probe;
pub mod progress;
pub mod redact;
pub mod retry;
pub mod split;
pub mod text;
pub mod ytdlp;
