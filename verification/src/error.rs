//! Why a download can fail.
use vstd::prelude::*;

verus! {

/// Why a download failed.
#[derive(Debug, PartialEq, Eq)]
pub enum MediaError {
    /// A file could not be read, written, moved or run; with what the system says of it.
    Io(String),
    /// A report about the media could not be read; with what is wrong with it.
    Json(String),
    /// The user asked to stop.
    Cancelled,
    /// yt-dlp failed, with what it wrote.
    YtDlp(String),
    /// The last of several attempts failed like those before it.
    RetriesExhausted(Box<MediaError>),
    /// FFmpeg failed, with what it wrote.
    Ffmpeg(String),
    /// yt-dlp ended well without naming a file.
    MissingOutput,
    /// No format of the media will do.
    NoSuitableFormat(String),
    /// The file lacks the stream that was asked for.
    MissingStream,
}

/// What a [`MediaError`] says.
pub enum ErrorView {
    Io(Seq<char>),
    Json(Seq<char>),
    Cancelled,
    YtDlp(Seq<char>),
    RetriesExhausted(Box<ErrorView>),
    Ffmpeg(Seq<char>),
    MissingOutput,
    NoSuitableFormat(Seq<char>),
    MissingStream,
}

impl View for MediaError {
    type V = ErrorView;

    open spec fn view(&self) -> ErrorView
        decreases *self,
    {
        match *self {
            MediaError::Io(text) => ErrorView::Io(text@),
            MediaError::Json(text) => ErrorView::Json(text@),
            MediaError::Cancelled => ErrorView::Cancelled,
            MediaError::YtDlp(text) => ErrorView::YtDlp(text@),
            MediaError::RetriesExhausted(last) => ErrorView::RetriesExhausted(
                Box::new((*last).view()),
            ),
            MediaError::Ffmpeg(text) => ErrorView::Ffmpeg(text@),
            MediaError::MissingOutput => ErrorView::MissingOutput,
            MediaError::NoSuitableFormat(text) => ErrorView::NoSuitableFormat(text@),
            MediaError::MissingStream => ErrorView::MissingStream,
        }
    }
}

/// The sentence that tells the user of an error.
pub open spec fn sentence(error: ErrorView) -> Seq<char>
    decreases error,
{
    match error {
        ErrorView::Io(text) => "file operation failed: "@ + text,
        ErrorView::Json(text) => "media information is invalid: "@ + text,
        ErrorView::Cancelled => "the operation was cancelled"@,
        ErrorView::YtDlp(text) => "yt-dlp failed: "@ + text,
        ErrorView::RetriesExhausted(last) => "automatic retries exhausted: "@ + sentence(*last),
        ErrorView::Ffmpeg(text) => "FFmpeg failed: "@ + text,
        ErrorView::MissingOutput => "yt-dlp did not report the downloaded file"@,
        ErrorView::NoSuitableFormat(text) => "no suitable media format is available: "@ + text,
        ErrorView::MissingStream => "the downloaded file has no supported media stream"@,
    }
}

impl MediaError {
    /// The sentence that tells the user of the error.
    pub fn message(&self) -> (text: String)
        ensures
            text@ == sentence(self@),
        decreases *self,
    {
        match self {
            MediaError::Io(text) => "file operation failed: ".to_owned().concat(text.as_str()),
            MediaError::Json(text) => "media information is invalid: ".to_owned().concat(
                text.as_str(),
            ),
            MediaError::Cancelled => "the operation was cancelled".to_owned(),
            MediaError::YtDlp(text) => "yt-dlp failed: ".to_owned().concat(text.as_str()),
            MediaError::RetriesExhausted(last) => "automatic retries exhausted: ".to_owned().concat(
                last.message().as_str(),
            ),
            MediaError::Ffmpeg(text) => "FFmpeg failed: ".to_owned().concat(text.as_str()),
            MediaError::MissingOutput => "yt-dlp did not report the downloaded file".to_owned(),
            MediaError::NoSuitableFormat(
                text,
            ) => "no suitable media format is available: ".to_owned().concat(text.as_str()),
            MediaError::MissingStream => {
                "the downloaded file has no supported media stream".to_owned()
            },
        }
    }
}

} // verus!
