//! Images in canonical channel order: how they are made from a raw capture,
//! shrunk to the storage limit and encoded.

use vstd::prelude::*;
use vstd::string::*;
use crate::codec::{
    decode_rgba,
    MAX_EDGE,
    encode_rgba_png,
    image_decoding,
    image_error_text,
    png_encoding,
    resample_triangle,
    triangle_resampling,
};
use crate::error::{agrees, default_message, starts_with, CaptureError, ErrorKind};
use crate::pixels::{reorder_channels, reordered, ChannelOrder};
use crate::scale::{longer_edge, Ratio, ScaleFactor};

verus! {

/// What an image is: its dimensions and its bytes, four for each pixel.
pub struct ImageModel {
    pub width: u32,
    pub height: u32,
    pub pixels: Seq<u8>,
}

impl ImageModel {
    /// Both edges have at least one pixel and at most `MAX_EDGE`, and every
    /// pixel has its four bytes.
    pub open spec fn well_formed(self) -> bool {
        &&& 1 <= self.width <= MAX_EDGE
        &&& 1 <= self.height <= MAX_EDGE
        &&& self.pixels.len() == 4 * self.width * self.height
    }
}

/// Pixels as a platform hands them over, in that platform's channel order.
pub struct RawPixelBuffer {
    pub width: u32,
    pub height: u32,
    pub order: ChannelOrder,
    pub bytes: Vec<u8>,
}

impl View for RawPixelBuffer {
    type V = ImageModel;

    /// The image that the buffer holds once its channels are in canonical
    /// order.
    open spec fn view(&self) -> ImageModel {
        ImageModel {
            width: self.width,
            height: self.height,
            pixels: reordered(self.bytes@, self.order),
        }
    }
}

/// An image in canonical channel order with at least one pixel and no edge
/// longer than `MAX_EDGE`.
pub struct NormalizedImage {
    width: u32,
    height: u32,
    pixels: Vec<u8>,
}

impl View for NormalizedImage {
    type V = ImageModel;

    closed spec fn view(&self) -> ImageModel {
        ImageModel { width: self.width, height: self.height, pixels: self.pixels@ }
    }
}

/// An image in its portable compressed form, with the dimensions and the
/// ratio it was produced at. Once made it does not change.
pub struct EncodedPng {
    bytes: Vec<u8>,
    width: u32,
    height: u32,
    scale_factor: ScaleFactor,
}

/// What an encoded image is.
pub struct EncodedModel {
    pub bytes: Seq<u8>,
    pub width: u32,
    pub height: u32,
    pub scale: Ratio,
}

impl View for EncodedPng {
    type V = EncodedModel;

    closed spec fn view(&self) -> EncodedModel {
        EncodedModel {
            bytes: self.bytes@,
            width: self.width,
            height: self.height,
            scale: self.scale_factor@,
        }
    }
}

impl EncodedPng {
    /// The bytes of the PNG file.
    pub fn bytes(&self) -> (out: &Vec<u8>)
        ensures
            out@ == self@.bytes,
    {
        &self.bytes
    }

    /// The bytes of the PNG file, taken out of the image.
    pub fn into_bytes(self) -> (out: Vec<u8>)
        ensures
            out@ == self@.bytes,
    {
        self.bytes
    }

    /// Width of the encoded image in pixels.
    pub fn width(&self) -> (out: u32)
        ensures
            out == self@.width,
    {
        self.width
    }

    /// Height of the encoded image in pixels.
    pub fn height(&self) -> (out: u32)
        ensures
            out == self@.height,
    {
        self.height
    }

    /// The ratio between the encoded image and what was captured.
    pub fn scale_factor(&self) -> (out: ScaleFactor)
        ensures
            out@ == self@.scale,
    {
        self.scale_factor
    }
}

/// The image that `width`, `height` and `pixels` make, or the reason why
/// they make none: an edge without pixels, an edge of more than `MAX_EDGE`
/// pixels, or bytes that do not amount to four for each pixel.
pub open spec fn image_of(width: u32, height: u32, pixels: Seq<u8>) -> Result<
    ImageModel,
    ErrorKind,
> {
    if width == 0 || height == 0 {
        Err(ErrorKind::EmptyRegion)
    } else if width > MAX_EDGE || height > MAX_EDGE || pixels.len() != 4 * width * height {
        Err(ErrorKind::EncodeFailure)
    } else {
        Ok(ImageModel { width, height, pixels })
    }
}

/// The image and the ratio that downscaling to a longer edge of at most
/// `limit` pixels gives: the image itself where it fits, else the image
/// resampled to its scaled dimensions.
pub open spec fn downscaled(image: ImageModel, limit: u32) -> (ImageModel, Ratio) {
    let edge = longer_edge(image.width as nat, image.height as nat);
    if edge <= limit {
        (image, Ratio::one())
    } else {
        let ratio = Ratio { numerator: limit as nat, denominator: edge };
        let width = ratio.apply(image.width as nat) as u32;
        let height = ratio.apply(image.height as nat) as u32;
        (
            ImageModel {
                width,
                height,
                pixels: triangle_resampling(image.width, image.height, image.pixels, width, height),
            },
            ratio,
        )
    }
}

/// The encoded form of `image` after downscaling to `limit`, where the
/// encoder accepts it.
pub open spec fn encoded(image: ImageModel, limit: u32) -> Result<EncodedModel, ErrorKind> {
    let (scaled, ratio) = downscaled(image, limit);
    match png_encoding(scaled.width, scaled.height, scaled.pixels) {
        Some(bytes) => Ok(
            EncodedModel { bytes, width: scaled.width, height: scaled.height, scale: ratio },
        ),
        None => Err(ErrorKind::EncodeFailure),
    }
}

/// What becomes of a raw capture: its canonical image, downscaled to `limit`
/// and encoded, or the first failure on the way.
pub open spec fn encoded_capture(raw: ImageModel, limit: u32) -> Result<EncodedModel, ErrorKind> {
    match image_of(raw.width, raw.height, raw.pixels) {
        Ok(image) => encoded(image, limit),
        Err(kind) => Err(kind),
    }
}

/// What becomes of a screenshot file: the image read out of it, downscaled
/// to `limit` and encoded again, or the first failure on the way.
pub open spec fn encoded_screenshot(file: Seq<u8>, limit: u32) -> Result<EncodedModel, ErrorKind> {
    match image_decoding(file) {
        Some((width, height, pixels)) => encoded_capture(ImageModel { width, height, pixels }, limit),
        None => Err(ErrorKind::PlatformResourceFailure),
    }
}

/// What the sentence of a failed capture of `raw` says: the usual sentence
/// of the kind where the pixels make no image, and the words of the encoder
/// after a heading where they do.
pub open spec fn capture_failure_says(raw: ImageModel, message: Seq<char>, kind: ErrorKind) -> bool {
    if image_of(raw.width, raw.height, raw.pixels) is Err {
        message == default_message(kind)
    } else {
        starts_with(message, "PNG encode failed: "@)
    }
}

/// What the sentence of a failed capture from the screenshot `file` says:
/// the words of the decoder after a heading where the file is no image, and
/// else what a failed capture of the decoded image says.
pub open spec fn screenshot_failure_says(file: Seq<u8>, message: Seq<char>, kind: ErrorKind) -> bool {
    match image_decoding(file) {
        None => starts_with(message, "PNG load failed: "@),
        Some((width, height, pixels)) => capture_failure_says(
            ImageModel { width, height, pixels },
            message,
            kind,
        ),
    }
}

/// Downscaling leaves an image that fits the limit untouched, at a ratio of one.
pub proof fn lemma_downscale_within_limit(image: ImageModel, limit: u32)
    requires
        longer_edge(image.width as nat, image.height as nat) <= limit,
    ensures
        downscaled(image, limit) == (image, Ratio::one()),
        downscaled(image, limit).1.is_one(),
{
}

/// Downscaling an image that exceeds the limit scales by `limit` over the
/// longer edge, brings the longer edge to the limit exactly and leaves no
/// edge without a pixel.
pub proof fn lemma_downscale_beyond_limit(image: ImageModel, limit: u32)
    requires
        image.well_formed(),
        1 <= limit,
        longer_edge(image.width as nat, image.height as nat) > limit,
    ensures
        downscaled(image, limit).1 == (Ratio {
            numerator: limit as nat,
            denominator: longer_edge(image.width as nat, image.height as nat),
        }),
        longer_edge(
            downscaled(image, limit).0.width as nat,
            downscaled(image, limit).0.height as nat,
        ) == limit,
        downscaled(image, limit).0.width >= 1,
        downscaled(image, limit).0.height >= 1,
{
    crate::scale::lemma_scaled_image_fits(image.width as nat, image.height as nat, limit as nat);
}

impl NormalizedImage {
    #[verifier::type_invariant]
    closed spec fn holds_whole_pixels(self) -> bool {
        &&& 1 <= self.width <= MAX_EDGE
        &&& 1 <= self.height <= MAX_EDGE
        &&& self.pixels@.len() == 4 * self.width * self.height
    }

    /// The image of `width` by `height` pixels that `pixels` holds in
    /// canonical order, where both edges have between one and `MAX_EDGE`
    /// pixels and the bytes amount to four for each pixel.
    pub fn from_pixels(width: u32, height: u32, pixels: Vec<u8>) -> (out: Result<
        NormalizedImage,
        CaptureError,
    >)
        ensures
            agrees(out, image_of(width, height, pixels@)),
            out matches Ok(image) ==> image@.well_formed(),
            out matches Err(error) ==> error.message@ == default_message(error.kind),
    {
        if width == 0 || height == 0 {
            return Err(CaptureError::of_kind(ErrorKind::EmptyRegion));
        }
        if width > MAX_EDGE || height > MAX_EDGE {
            return Err(CaptureError::of_kind(ErrorKind::EncodeFailure));
        }
        let wide_width: u128 = width as u128;
        let wide_height: u128 = height as u128;
        assert(4 * wide_width * wide_height <= 4 * 0xffff_ffff * 0xffff_ffff) by (nonlinear_arith)
            requires
                wide_width <= 0xffff_ffff,
                wide_height <= 0xffff_ffff,
        ;
        let needed: u128 = 4 * wide_width * wide_height;
        if pixels.len() as u128 != needed {
            return Err(CaptureError::of_kind(ErrorKind::EncodeFailure));
        }
        Ok(NormalizedImage { width, height, pixels })
    }

    /// Width in pixels.
    pub fn width(&self) -> (out: u32)
        ensures
            out == self@.width,
            1 <= out <= MAX_EDGE,
    {
        proof {
            use_type_invariant(self);
        }
        self.width
    }

    /// Height in pixels.
    pub fn height(&self) -> (out: u32)
        ensures
            out == self@.height,
            1 <= out <= MAX_EDGE,
    {
        proof {
            use_type_invariant(self);
        }
        self.height
    }

    /// The bytes of the pixels, row by row, four for each pixel.
    pub fn pixels(&self) -> (out: &Vec<u8>)
        ensures
            out@ == self@.pixels,
            self@.well_formed(),
    {
        proof {
            use_type_invariant(self);
        }
        &self.pixels
    }

    /// The bytes of the pixels, taken out of the image.
    pub fn into_pixels(self) -> (out: Vec<u8>)
        ensures
            out@ == self@.pixels,
            self@.well_formed(),
    {
        proof {
            use_type_invariant(&self);
        }
        self.pixels
    }
}

/// Brings a raw capture into canonical channel order.
pub fn to_canonical(raw: RawPixelBuffer) -> (out: Result<NormalizedImage, CaptureError>)
    ensures
        agrees(out, image_of(raw.width, raw.height, raw@.pixels)),
        out matches Ok(image) ==> image@.well_formed(),
        out matches Err(error) ==> error.message@ == default_message(error.kind),
{
    let pixels = reorder_channels(raw.bytes.as_slice(), raw.order);
    NormalizedImage::from_pixels(raw.width, raw.height, pixels)
}

/// Shrinks `image` so that its longer edge is at most `max_dimension`
/// pixels, keeping the aspect ratio, and reports the ratio applied.
pub fn downscale_image(image: NormalizedImage, max_dimension: u32) -> (out: (
    NormalizedImage,
    ScaleFactor,
))
    ensures
        (out.0@, out.1@) == downscaled(image@, max_dimension),
        out.0@.well_formed(),
{
    proof {
        use_type_invariant(&image);
    }
    let width = image.width;
    let height = image.height;
    let edge = if width >= height {
        width
    } else {
        height
    };
    match ScaleFactor::shrinking(max_dimension, edge) {
        None => (image, ScaleFactor::identity()),
        Some(factor) => {
            let new_width = factor.apply(width);
            let new_height = factor.apply(height);
            let pixels = resample_triangle(width, height, image.pixels, new_width, new_height);
            (NormalizedImage { width: new_width, height: new_height, pixels }, factor)
        },
    }
}

/// Encodes `image` as a PNG file in memory.
pub fn encode_png(image: NormalizedImage) -> (out: Result<Vec<u8>, CaptureError>)
    ensures
        match out {
            Ok(bytes) => png_encoding(image@.width, image@.height, image@.pixels) == Some(bytes@),
            Err(error) => {
                &&& png_encoding(image@.width, image@.height, image@.pixels) is None
                &&& error.kind == ErrorKind::EncodeFailure
                &&& starts_with(error.message@, "PNG encode failed: "@)
            },
        },
{
    proof {
        use_type_invariant(&image);
    }
    match encode_rgba_png(image.width, image.height, image.pixels) {
        Ok(bytes) => Ok(bytes),
        Err(error) => {
            let detail = image_error_text(&error);
            Err(
                CaptureError::with_detail(
                    ErrorKind::EncodeFailure,
                    "PNG encode failed: ",
                    detail.as_str(),
                ),
            )
        },
    }
}

/// Downscales `image` to `max_dimension` and encodes it.
pub fn encode_capture(image: NormalizedImage, max_dimension: u32) -> (out: Result<
    EncodedPng,
    CaptureError,
>)
    ensures
        agrees(out, encoded(image@, max_dimension)),
        out matches Err(error) ==> starts_with(error.message@, "PNG encode failed: "@),
{
    let (resized, scale_factor) = downscale_image(image, max_dimension);
    let width = resized.width();
    let height = resized.height();
    match encode_png(resized) {
        Ok(bytes) => Ok(EncodedPng { bytes, width, height, scale_factor }),
        Err(error) => Err(error),
    }
}

/// Turns the pixels of a captured region into an encoded image: channel
/// order, downscaling to `max_dimension`, PNG.
pub fn capture_png(raw: RawPixelBuffer, max_dimension: u32) -> (out: Result<
    EncodedPng,
    CaptureError,
>)
    ensures
        agrees(out, encoded_capture(raw@, max_dimension)),
        out matches Err(error) ==> capture_failure_says(raw@, error.message@, error.kind),
{
    match to_canonical(raw) {
        Ok(image) => encode_capture(image, max_dimension),
        Err(error) => Err(error),
    }
}

/// Turns the screenshot file that a platform tool wrote into an encoded
/// image: decoding as PNG, downscaling to `max_dimension`, PNG.
pub fn capture_screen_png(file: &[u8], max_dimension: u32) -> (out: Result<
    EncodedPng,
    CaptureError,
>)
    ensures
        agrees(out, encoded_screenshot(file@, max_dimension)),
        out matches Err(error) ==> screenshot_failure_says(file@, error.message@, error.kind),
{
    match decode_rgba(file) {
        Ok(decoded) => {
            let (width, height, pixels) = decoded;
            match NormalizedImage::from_pixels(width, height, pixels) {
                Ok(image) => encode_capture(image, max_dimension),
                Err(error) => Err(error),
            }
        },
        Err(error) => {
            let detail = image_error_text(&error);
            Err(
                CaptureError::with_detail(
                    ErrorKind::PlatformResourceFailure,
                    "PNG load failed: ",
                    detail.as_str(),
                ),
            )
        },
    }
}

} // verus!
