//! The part of the screen that a capture covers and the title of the window
//! it shows.

use vstd::prelude::*;
use vstd::string::*;
use crate::error::{default_message, CaptureError, ErrorKind};
use crate::text::{is_blank, text_is_blank};

verus! {

/// The rectangle that a window occupies on the screen. `right` and `bottom`
/// lie one pixel past the window.
#[derive(Clone, Copy, Debug, PartialEq, Eq, Structural)]
pub struct WindowBounds {
    pub left: i32,
    pub top: i32,
    pub right: i32,
    pub bottom: i32,
}

/// The pixels to capture: the offset of the first one and how many there are
/// in each direction.
#[derive(Clone, Copy, Debug, PartialEq, Eq, Structural)]
pub struct CaptureRegion {
    pub x: i32,
    pub y: i32,
    pub width: u32,
    pub height: u32,
}

/// The distance from `low` to `high`, or zero where `high` lies before `low`.
pub open spec fn extent(low: int, high: int) -> int {
    if high > low {
        high - low
    } else {
        0
    }
}

/// The region that `bounds` encloses.
pub open spec fn region_of(bounds: WindowBounds) -> CaptureRegion {
    CaptureRegion {
        x: bounds.left,
        y: bounds.top,
        width: extent(bounds.left as int, bounds.right as int) as u32,
        height: extent(bounds.top as int, bounds.bottom as int) as u32,
    }
}

impl CaptureRegion {
    /// Whether the region holds no pixel.
    pub open spec fn is_empty(self) -> bool {
        self.width == 0 || self.height == 0
    }

    /// Whether the region holds no pixel.
    pub fn has_no_area(&self) -> (out: bool)
        ensures
            out == self.is_empty(),
    {
        self.width == 0 || self.height == 0
    }
}

/// The distance from `low` to `high`, or zero where `high` lies before `low`.
fn edge_extent(low: i32, high: i32) -> (out: u32)
    ensures
        out == extent(low as int, high as int),
{
    if high > low {
        let distance: i64 = high as i64 - low as i64;
        distance as u32
    } else {
        0
    }
}

/// The region that the window with `bounds` covers. A window without area
/// has no region to capture.
pub fn capture_region(bounds: WindowBounds) -> (out: Result<CaptureRegion, CaptureError>)
    ensures
        match out {
            Ok(region) => region == region_of(bounds) && !region.is_empty(),
            Err(error) => {
                &&& region_of(bounds).is_empty()
                &&& error.kind == ErrorKind::EmptyRegion
                &&& error.message@ == default_message(ErrorKind::EmptyRegion)
            },
        },
{
    let region = CaptureRegion {
        x: bounds.left,
        y: bounds.top,
        width: edge_extent(bounds.left, bounds.right),
        height: edge_extent(bounds.top, bounds.bottom),
    };
    if region.has_no_area() {
        Err(CaptureError::of_kind(ErrorKind::EmptyRegion))
    } else {
        Ok(region)
    }
}

/// The text that `String::from_utf16_lossy` reads out of UTF-16 code units,
/// with the replacement character in place of each unpaired surrogate.
pub uninterp spec fn utf16_text(units: Seq<u16>) -> Seq<char>;

/// Calls `String::from_utf16_lossy`. Trusted: the text is a function of the
/// code units alone.
#[verifier::external_body]
fn decode_utf16(units: &[u16]) -> (out: String)
    ensures
        out@ == utf16_text(units@),
{
    String::from_utf16_lossy(units)
}

/// The title that a window shows, or none where it shows nothing but white
/// space.
pub open spec fn shown_title(text: Seq<char>) -> Option<Seq<char>> {
    if is_blank(text) {
        None
    } else {
        Some(text)
    }
}

/// The title to report for a window whose title text is `text`: the text as
/// it is, or none where it is empty or all white space.
pub fn normalize_title(text: String) -> (out: Option<String>)
    ensures
        match out {
            Some(title) => shown_title(text@) == Some(title@),
            None => shown_title(text@) is None,
        },
{
    if text_is_blank(text.as_str()) {
        None
    } else {
        Some(text)
    }
}

/// Number of code units to make room for before asking for a title that the
/// platform reports to be `length` units long: one more than the length, for
/// the terminator; none where there is no title to ask for.
pub fn title_buffer_len(length: i32) -> (out: Option<usize>)
    ensures
        length <= 0 ==> out is None,
        length > 0 ==> out == Some((length + 1) as usize),
{
    if length <= 0 {
        None
    } else {
        Some(length as usize + 1)
    }
}

/// The title of a window from the UTF-16 code units that the platform copied
/// out: none where it copied nothing or the title is all white space.
pub fn window_title(units: &[u16]) -> (out: Option<String>)
    ensures
        match out {
            Some(title) => units@.len() > 0 && shown_title(utf16_text(units@)) == Some(title@),
            None => units@.len() == 0 || shown_title(utf16_text(units@)) is None,
        },
{
    if units.len() == 0 {
        return None;
    }
    normalize_title(decode_utf16(units))
}

} // verus!
