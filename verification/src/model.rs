//! What is asked for, and how far it has come.
use vstd::prelude::*;

verus! {

/// What a download is to yield.
#[derive(Clone, Copy, Debug, PartialEq, Eq, Structural)]
pub enum DownloadMode {
    Video,
    AudioOnly,
}

/// The highest resolution that is wanted.
#[derive(Clone, Copy, Debug, PartialEq, Eq, Structural)]
pub enum VideoQuality {
    Best,
    P1440,
    P1080,
}

impl VideoQuality {
    /// The length that the shorter side of the picture may have; any where there is none.
    pub open spec fn limit(self) -> Option<u32> {
        match self {
            VideoQuality::Best => None,
            VideoQuality::P1440 => Some(1440u32),
            VideoQuality::P1080 => Some(1080u32),
        }
    }

    /// The length that the shorter side of the picture may have; any where there is none.
    pub fn maximum_dimension(self) -> (limit: Option<u32>)
        ensures
            limit == self.limit(),
    {
        match self {
            VideoQuality::Best => None,
            VideoQuality::P1440 => Some(1440),
            VideoQuality::P1080 => Some(1080),
        }
    }
}

/// The stage that a job is in.
#[derive(Clone, Copy, Debug, PartialEq, Eq, Structural)]
pub enum JobPhase {
    Preparing,
    Inspecting,
    Downloading,
    Retrying,
    Remuxing,
    Converting,
    Finalizing,
    Completed,
    Cancelled,
    Failed,
}

/// A part of the whole, from none to all of it, as the bits of a single-precision number.
#[derive(Clone, Copy, Debug, PartialEq, Eq, Structural)]
pub struct Fraction {
    pub bits: u32,
}

impl Fraction {
    /// The fraction 0.0.
    pub open spec fn none() -> Fraction {
        Fraction { bits: 0u32 }
    }

    /// The fraction 1.0: no sign, an exponent of zero under its bias of 127, no further bits.
    pub open spec fn all() -> Fraction {
        Fraction { bits: 0x3f80_0000u32 }
    }

    /// The fraction 0.0.
    pub fn nothing() -> (f: Fraction)
        ensures
            f == Fraction::none(),
    {
        Fraction { bits: 0 }
    }

    /// The fraction 1.0.
    pub fn everything() -> (f: Fraction)
        ensures
            f == Fraction::all(),
    {
        Fraction { bits: 0x3f80_0000 }
    }
}

/// How far a job has come.
#[derive(Debug, PartialEq, Eq)]
pub struct ProgressUpdate {
    pub phase: JobPhase,
    pub fraction: Option<Fraction>,
    pub downloaded_bytes: Option<u64>,
    pub total_bytes: Option<u64>,
    pub speed_bytes_per_second: Option<u64>,
    pub message: String,
}

/// What a [`ProgressUpdate`] says.
#[verifier::ext_equal]
pub struct UpdateView {
    pub phase: JobPhase,
    pub fraction: Option<Fraction>,
    pub downloaded_bytes: Option<u64>,
    pub total_bytes: Option<u64>,
    pub speed_bytes_per_second: Option<u64>,
    pub message: Seq<char>,
}

impl View for ProgressUpdate {
    type V = UpdateView;

    open spec fn view(&self) -> UpdateView {
        UpdateView {
            phase: self.phase,
            fraction: self.fraction,
            downloaded_bytes: self.downloaded_bytes,
            total_bytes: self.total_bytes,
            speed_bytes_per_second: self.speed_bytes_per_second,
            message: self.message@,
        }
    }
}

/// An update that tells a phase and a message and no numbers.
pub open spec fn told(phase: JobPhase, message: Seq<char>) -> UpdateView {
    UpdateView {
        phase,
        fraction: None,
        downloaded_bytes: None,
        total_bytes: None,
        speed_bytes_per_second: None,
        message,
    }
}

impl ProgressUpdate {
    /// An update that tells a phase and a message and no numbers.
    pub fn message(phase: JobPhase, message: &str) -> (update: ProgressUpdate)
        ensures
            update@ == told(phase, message@),
    {
        ProgressUpdate {
            phase,
            fraction: None,
            downloaded_bytes: None,
            total_bytes: None,
            speed_bytes_per_second: None,
            message: message.to_owned(),
        }
    }

    /// An update that tells a phase, a fraction and a message.
    pub fn partial(phase: JobPhase, fraction: Fraction, message: &str) -> (update: ProgressUpdate)
        ensures
            update@ == (UpdateView { fraction: Some(fraction), ..told(phase, message@) }),
    {
        let mut update: ProgressUpdate = ProgressUpdate::message(phase, message);
        update.fraction = Some(fraction);
        update
    }
}

impl Clone for ProgressUpdate {
    fn clone(&self) -> (copy: ProgressUpdate)
        ensures
            copy == *self,
    {
        ProgressUpdate {
            phase: self.phase,
            fraction: self.fraction,
            downloaded_bytes: self.downloaded_bytes,
            total_bytes: self.total_bytes,
            speed_bytes_per_second: self.speed_bytes_per_second,
            message: self.message.clone(),
        }
    }
}

} // verus!
