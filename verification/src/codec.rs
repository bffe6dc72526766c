//! The calls into the `image` crate: resampling, PNG encoding and decoding.
//! Nothing in this file is proved; each contract says what is taken on trust.

use vstd::prelude::*;

verus! {

/// The error type of the `image` crate, carried through without a look inside.
#[verifier::external_type_specification]
#[verifier::external_body]
pub struct ExImageError(image::ImageError);

/// Longest edge, in pixels, of an image that is handed to the resampling of
/// the `image` crate. The crate places its filter in single precision; up
/// to this length the centre of an output pixel is off by less than an
/// eighth of a source pixel, so the source pixel next to it always lies
/// under the filter with a weight of its own.
pub const MAX_EDGE: u32 = 0x10_0000;

/// The pixels that `image::DynamicImage::resize_exact` with the triangle
/// filter makes of an RGBA image of `width` by `height` pixels when asked for
/// `new_width` by `new_height` pixels.
pub uninterp spec fn triangle_resampling(
    width: u32,
    height: u32,
    pixels: Seq<u8>,
    new_width: u32,
    new_height: u32,
) -> Seq<u8>;

/// The PNG file that `image::DynamicImage::write_to` makes of an RGBA image of
/// `width` by `height` pixels, or nothing where the encoder reports an error.
pub uninterp spec fn png_encoding(width: u32, height: u32, pixels: Seq<u8>) -> Option<Seq<u8>>;

/// Width, height and RGBA pixels of the image that
/// `image::load_from_memory_with_format` reads out of `bytes` as a PNG file,
/// or nothing where it reports an error.
pub uninterp spec fn image_decoding(bytes: Seq<u8>) -> Option<(u32, u32, Seq<u8>)>;

/// Calls `image::DynamicImage::resize_exact` with `FilterType::Triangle` on
/// the RGBA image that `pixels` holds. Trusted: the result is a function of
/// the arguments alone, and, as the crate documents, the new image has the
/// dimensions asked for, so four bytes for each of its pixels. The edges
/// are kept to `MAX_EDGE`: beyond some sixteen million pixels the crate's
/// single-precision arithmetic can leave an output pixel without any
/// weight and panic.
#[verifier::external_body]
pub(crate) fn resample_triangle(
    width: u32,
    height: u32,
    pixels: Vec<u8>,
    new_width: u32,
    new_height: u32,
) -> (out: Vec<u8>)
    requires
        1 <= new_width <= width <= MAX_EDGE,
        1 <= new_height <= height <= MAX_EDGE,
        pixels@.len() == 4 * width * height,
    ensures
        out@ == triangle_resampling(width, height, pixels@, new_width, new_height),
        out@.len() == 4 * new_width * new_height,
{
    let source = image::RgbaImage::from_raw(width, height, pixels).unwrap();
    let resized = image::DynamicImage::ImageRgba8(source).resize_exact(
        new_width,
        new_height,
        image::imageops::FilterType::Triangle,
    );
    resized.into_rgba8().into_raw()
}

/// Calls `image::DynamicImage::write_to` with `ImageFormat::Png` on the RGBA
/// image that `pixels` holds, writing into memory. Trusted: whether the
/// encoder succeeds, and the bytes it writes, are a function of the arguments
/// alone.
#[verifier::external_body]
pub(crate) fn encode_rgba_png(width: u32, height: u32, pixels: Vec<u8>) -> (out: Result<
    Vec<u8>,
    image::ImageError,
>)
    requires
        pixels@.len() == 4 * width * height,
    ensures
        match out {
            Ok(bytes) => png_encoding(width, height, pixels@) == Some(bytes@),
            Err(_) => png_encoding(width, height, pixels@) is None,
        },
{
    let source = image::RgbaImage::from_raw(width, height, pixels).unwrap();
    let mut sink = std::io::Cursor::new(Vec::new());
    image::DynamicImage::ImageRgba8(source).write_to(&mut sink, image::ImageFormat::Png)?;
    Ok(sink.into_inner())
}

/// Calls `image::load_from_memory_with_format` with `ImageFormat::Png` on
/// `bytes` and hands out the image as RGBA pixels. With the format given,
/// the crate goes straight to its own PNG decoder and asks no format hook
/// that the process may have registered. Trusted: whether the decoder
/// succeeds, and the image it reads, are a function of the bytes alone.
#[verifier::external_body]
pub(crate) fn decode_rgba(bytes: &[u8]) -> (out: Result<(u32, u32, Vec<u8>), image::ImageError>)
    ensures
        match out {
            Ok(decoded) => image_decoding(bytes@) == Some((decoded.0, decoded.1, decoded.2@)),
            Err(_) => image_decoding(bytes@) is None,
        },
{
    let decoded =
        image::load_from_memory_with_format(bytes, image::ImageFormat::Png)?.into_rgba8();
    Ok((decoded.width(), decoded.height(), decoded.into_raw()))
}

/// The sentence with which an error of the `image` crate describes itself,
/// through its `Display` impl. Nothing is claimed of it.
#[verifier::external_body]
pub(crate) fn image_error_text(error: &image::ImageError) -> (out: String) {
    format!("{error}")
}

} // verus!
