//! The rules around the text recognizer: what it is given and what is made
//! of its answer. The engine itself belongs to the platform.

use vstd::prelude::*;
use vstd::string::*;
use crate::error::{default_message, CaptureError, ErrorKind};
use crate::text::{trim_text, trimmed};

verus! {

/// Whether an image of `width` by `height` pixels is more than a recognizer
/// takes that supports edges of up to `max_dimension` pixels.
pub open spec fn exceeds_limit(width: u32, height: u32, max_dimension: u32) -> bool {
    width > max_dimension || height > max_dimension
}

/// Refuses an image that the recognizer cannot take, before the engine is
/// called.
pub fn check_dimensions(width: u32, height: u32, max_dimension: u32) -> (out: Result<
    (),
    CaptureError,
>)
    ensures
        out is Err <==> exceeds_limit(width, height, max_dimension),
        out matches Err(error) ==> error.kind == ErrorKind::RegionTooLarge && error.message@
            == default_message(ErrorKind::RegionTooLarge),
{
    if width > max_dimension || height > max_dimension {
        Err(CaptureError::of_kind(ErrorKind::RegionTooLarge))
    } else {
        Ok(())
    }
}

/// The text to return for what the engine recognized: the same without the
/// white space at its ends, and nothing else changed.
pub fn recognized_text(engine_output: &str) -> (out: String)
    ensures
        out@ == trimmed(engine_output@),
{
    trim_text(engine_output)
}

} // verus!
