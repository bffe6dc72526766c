//! The ways in which a capture request can end without a result.

use vstd::prelude::*;
use vstd::string::*;

verus! {

/// The category of a failed capture request. Every one of them ends the
/// request; none is retried.
#[derive(Clone, Copy, Debug, PartialEq, Eq, Structural)]
pub enum ErrorKind {
    /// The capture tool is switched off in the settings.
    ToolDisabled,
    /// No window is in the foreground.
    NoActiveWindow,
    /// The region to capture has no area.
    EmptyRegion,
    /// A device context, a bitmap, the pixel copy or the read-back failed.
    PlatformResourceFailure,
    /// The region exceeds what the text recognizer accepts.
    RegionTooLarge,
    /// The text recognizer is missing or could not be started.
    EngineUnavailable,
    /// The image could not be put into its portable form.
    EncodeFailure,
    /// The cache directory or the file in it could not be written.
    StorageUnavailable,
    /// The clock could not be read.
    ClockError,
    /// This operating system has no capture backend.
    UnsupportedPlatform,
}

/// The sentence that describes a failure of `kind` when nothing more is known.
pub open spec fn default_message(kind: ErrorKind) -> Seq<char> {
    match kind {
        ErrorKind::ToolDisabled => "Screen capture tool disabled in settings."@,
        ErrorKind::NoActiveWindow => "No active window found."@,
        ErrorKind::EmptyRegion => "Capture region is empty."@,
        ErrorKind::PlatformResourceFailure => "Screen capture failed."@,
        ErrorKind::RegionTooLarge => "Capture region is too large for text recognition."@,
        ErrorKind::EngineUnavailable => "Text recognition is not available."@,
        ErrorKind::EncodeFailure => "Failed to create image buffer."@,
        ErrorKind::StorageUnavailable => "Failed to store capture."@,
        ErrorKind::ClockError => "Failed to generate timestamp."@,
        ErrorKind::UnsupportedPlatform => "Screen capture is not implemented for this OS yet."@,
    }
}

/// Whether `text` begins with `prefix`.
pub open spec fn starts_with(text: Seq<char>, prefix: Seq<char>) -> bool {
    prefix.len() <= text.len() && text.subrange(0, prefix.len() as int) == prefix
}

/// Whether what a function returned is what `expected` asks for: the value
/// with the expected view, or a failure of the expected category.
pub open spec fn agrees<T: View>(
    returned: Result<T, CaptureError>,
    expected: Result<T::V, ErrorKind>,
) -> bool {
    match (returned, expected) {
        (Ok(value), Ok(model)) => value@ == model,
        (Err(error), Err(kind)) => error.kind == kind,
        _ => false,
    }
}

/// A failed capture request: its category and the sentence shown to the user.
#[derive(Debug)]
pub struct CaptureError {
    pub kind: ErrorKind,
    pub message: String,
}

impl Clone for CaptureError {
    fn clone(&self) -> (out: Self)
        ensures
            out.kind == self.kind,
            out.message@ == self.message@,
    {
        CaptureError { kind: self.kind, message: self.message.clone() }
    }
}

impl CaptureError {
    /// A failure of `kind` with its usual sentence.
    pub fn of_kind(kind: ErrorKind) -> (out: CaptureError)
        ensures
            out.kind == kind,
            out.message@ == default_message(kind),
    {
        let sentence = match kind {
            ErrorKind::ToolDisabled => "Screen capture tool disabled in settings.",
            ErrorKind::NoActiveWindow => "No active window found.",
            ErrorKind::EmptyRegion => "Capture region is empty.",
            ErrorKind::PlatformResourceFailure => "Screen capture failed.",
            ErrorKind::RegionTooLarge => "Capture region is too large for text recognition.",
            ErrorKind::EngineUnavailable => "Text recognition is not available.",
            ErrorKind::EncodeFailure => "Failed to create image buffer.",
            ErrorKind::StorageUnavailable => "Failed to store capture.",
            ErrorKind::ClockError => "Failed to generate timestamp.",
            ErrorKind::UnsupportedPlatform => "Screen capture is not implemented for this OS yet.",
        };
        CaptureError { kind, message: String::from_str(sentence) }
    }

    /// A failure of `kind` described by `sentence`.
    pub fn described(kind: ErrorKind, sentence: &str) -> (out: CaptureError)
        ensures
            out.kind == kind,
            out.message@ == sentence@,
    {
        CaptureError { kind, message: String::from_str(sentence) }
    }

    /// A failure of `kind` whose sentence is `summary` followed by `detail`.
    pub fn with_detail(kind: ErrorKind, summary: &str, detail: &str) -> (out: CaptureError)
        ensures
            out.kind == kind,
            out.message@ == summary@ + detail@,
            starts_with(out.message@, summary@),
    {
        let mut message = String::from_str(summary);
        message.append(detail);
        assert(message@.subrange(0, summary@.len() as int) =~= summary@);
        CaptureError { kind, message }
    }

    /// The category of the failure.
    pub fn kind(&self) -> (out: ErrorKind)
        ensures
            out == self.kind,
    {
        self.kind
    }

    /// The sentence shown to the user.
    pub fn message(&self) -> (out: String)
        ensures
            out@ == self.message@,
    {
        self.message.clone()
    }
}

} // verus!
