use ai_copilot::codec::MAX_EDGE;
use ai_copilot::error::ErrorKind;
use ai_copilot::pixels::ChannelOrder;
use ai_copilot::raster::{
    capture_png, capture_screen_png, downscale_image, encode_capture, encode_png, to_canonical,
    NormalizedImage, RawPixelBuffer,
};

const PNG_SIGNATURE: [u8; 8] = [0x89, b'P', b'N', b'G', 0x0D, 0x0A, 0x1A, 0x0A];

fn gradient(width: u32, height: u32) -> Vec<u8> {
    let mut pixels = Vec::with_capacity((width * height * 4) as usize);
    for y in 0..height {
        for x in 0..width {
            pixels.push((x % 256) as u8);
            pixels.push((y % 256) as u8);
            pixels.push(((x + y) % 256) as u8);
            pixels.push(255);
        }
    }
    pixels
}

#[test]
fn image_from_pixels_keeps_them() {
    let pixels = gradient(3, 2);
    let image = NormalizedImage::from_pixels(3, 2, pixels.clone()).unwrap();
    assert_eq!(image.width(), 3);
    assert_eq!(image.height(), 2);
    assert_eq!(image.pixels(), &pixels);
    assert_eq!(image.into_pixels(), pixels);
}

#[test]
fn image_without_area_is_refused() {
    let error = NormalizedImage::from_pixels(0, 5, Vec::new()).err().unwrap();
    assert_eq!(error.kind, ErrorKind::EmptyRegion);
    let error = NormalizedImage::from_pixels(5, 0, Vec::new()).err().unwrap();
    assert_eq!(error.kind, ErrorKind::EmptyRegion);
}

#[test]
fn buffer_that_is_not_whole_pixels_is_refused() {
    let error = NormalizedImage::from_pixels(2, 2, vec![0u8; 15]).err().unwrap();
    assert_eq!(error.kind, ErrorKind::EncodeFailure);
    assert_eq!(error.message, "Failed to create image buffer.");
    let error = NormalizedImage::from_pixels(2, 2, vec![0u8; 17]).err().unwrap();
    assert_eq!(error.kind, ErrorKind::EncodeFailure);
    let error = NormalizedImage::from_pixels(u32::MAX, u32::MAX, vec![0u8; 4]).err().unwrap();
    assert_eq!(error.kind, ErrorKind::EncodeFailure);
}

#[test]
fn raw_bgra_becomes_canonical_rgba() {
    let raw = RawPixelBuffer {
        width: 2,
        height: 1,
        order: ChannelOrder::Bgra,
        bytes: vec![1, 2, 3, 4, 5, 6, 7, 8],
    };
    let image = to_canonical(raw).unwrap();
    assert_eq!(image.pixels(), &vec![3u8, 2, 1, 4, 7, 6, 5, 8]);
    assert_eq!((image.width(), image.height()), (2, 1));
}

#[test]
fn small_image_is_not_scaled() {
    let pixels = gradient(800, 600);
    let image = NormalizedImage::from_pixels(800, 600, pixels.clone()).unwrap();
    let (same, factor) = downscale_image(image, 1280);
    assert!(factor.is_unscaled());
    assert_eq!((factor.numerator(), factor.denominator()), (1, 1));
    assert_eq!((same.width(), same.height()), (800, 600));
    assert_eq!(same.pixels(), &pixels);
}

#[test]
fn image_at_the_limit_is_not_scaled() {
    let image = NormalizedImage::from_pixels(1280, 2, gradient(1280, 2)).unwrap();
    let (same, factor) = downscale_image(image, 1280);
    assert!(factor.is_unscaled());
    assert_eq!((same.width(), same.height()), (1280, 2));
}

#[test]
fn wide_image_is_scaled_to_the_limit() {
    let image = NormalizedImage::from_pixels(2560, 1600, gradient(2560, 1600)).unwrap();
    let (small, factor) = downscale_image(image, 1280);
    assert_eq!((small.width(), small.height()), (1280, 800));
    assert_eq!((factor.numerator(), factor.denominator()), (1280, 2560));
    assert_eq!(small.pixels().len(), 1280 * 800 * 4);
}

#[test]
fn tall_image_is_scaled_to_the_limit() {
    let image = NormalizedImage::from_pixels(10, 40, gradient(10, 40)).unwrap();
    let (small, factor) = downscale_image(image, 20);
    assert_eq!((small.width(), small.height()), (5, 20));
    assert_eq!((factor.numerator(), factor.denominator()), (20, 40));
}

#[test]
fn longer_edge_reaches_the_limit_whatever_the_aspect() {
    // 3000 x 1004 scales to 1280 x 428.37..: both edges are rounded on their own.
    let image = NormalizedImage::from_pixels(3000, 1004, vec![9u8; 3000 * 1004 * 4]).unwrap();
    let (small, _) = downscale_image(image, 1280);
    assert_eq!((small.width(), small.height()), (1280, 428));
}

#[test]
fn thin_image_keeps_one_pixel() {
    let image = NormalizedImage::from_pixels(5000, 1, vec![7u8; 5000 * 4]).unwrap();
    let (small, _) = downscale_image(image, 1280);
    assert_eq!((small.width(), small.height()), (1280, 1));
}

#[test]
fn uniform_image_stays_uniform_when_resampled() {
    let image = NormalizedImage::from_pixels(8, 8, vec![200u8; 8 * 8 * 4]).unwrap();
    let (small, _) = downscale_image(image, 4);
    assert_eq!(small.pixels(), &vec![200u8; 4 * 4 * 4]);
}

#[test]
fn resampling_mixes_neighbouring_pixels() {
    // Two columns, black and white: the one pixel that is left is grey.
    let image =
        NormalizedImage::from_pixels(2, 1, vec![0, 0, 0, 255, 255, 255, 255, 255]).unwrap();
    let (small, _) = downscale_image(image, 1);
    assert_eq!((small.width(), small.height()), (1, 1));
    let pixel = small.pixels().clone();
    assert_eq!(pixel.len(), 4);
    assert!(pixel[0] > 100 && pixel[0] < 155);
    assert_eq!(pixel[3], 255);
}

#[test]
fn encoded_image_is_a_png_file() {
    let image = NormalizedImage::from_pixels(4, 3, gradient(4, 3)).unwrap();
    let bytes = encode_png(image).unwrap();
    assert_eq!(&bytes[..8], &PNG_SIGNATURE);
    assert_ne!(bytes, gradient(4, 3));
}

#[test]
fn encoding_and_decoding_gives_the_image_back() {
    let pixels = gradient(31, 17);
    let image = NormalizedImage::from_pixels(31, 17, pixels.clone()).unwrap();
    let bytes = encode_png(image).unwrap();
    let decoded = image::load_from_memory(&bytes).unwrap().into_rgba8();
    assert_eq!(decoded.width(), 31);
    assert_eq!(decoded.height(), 17);
    assert_eq!(decoded.into_raw(), pixels);
}

#[test]
fn encoding_is_repeatable() {
    let first = encode_png(NormalizedImage::from_pixels(9, 9, gradient(9, 9)).unwrap()).unwrap();
    let second = encode_png(NormalizedImage::from_pixels(9, 9, gradient(9, 9)).unwrap()).unwrap();
    assert_eq!(first, second);
}

#[test]
fn encoded_capture_reports_scaled_dimensions() {
    let image = NormalizedImage::from_pixels(64, 32, gradient(64, 32)).unwrap();
    let png = encode_capture(image, 16).unwrap();
    assert_eq!((png.width(), png.height()), (16, 8));
    assert_eq!((png.scale_factor().numerator(), png.scale_factor().denominator()), (16, 64));
    let decoded = image::load_from_memory(png.bytes()).unwrap();
    assert_eq!((decoded.width(), decoded.height()), (16, 8));
}

#[test]
fn captured_window_pixels_come_out_in_rgba() {
    // One blue pixel as the platform delivers it: B, G, R, A.
    let raw = RawPixelBuffer {
        width: 1,
        height: 1,
        order: ChannelOrder::Bgra,
        bytes: vec![255, 0, 0, 255],
    };
    let png = capture_png(raw, 1280).unwrap();
    assert_eq!((png.width(), png.height()), (1, 1));
    assert!(png.scale_factor().is_unscaled());
    let decoded = image::load_from_memory(png.bytes()).unwrap().into_rgba8();
    assert_eq!(decoded.into_raw(), vec![0, 0, 255, 255]);
}

#[test]
fn capture_with_short_buffer_fails() {
    let raw = RawPixelBuffer {
        width: 2,
        height: 2,
        order: ChannelOrder::Bgra,
        bytes: vec![0u8; 12],
    };
    let error = capture_png(raw, 1280).err().unwrap();
    assert_eq!(error.kind, ErrorKind::EncodeFailure);
}

#[test]
fn capture_without_area_fails() {
    let raw = RawPixelBuffer { width: 0, height: 0, order: ChannelOrder::Bgra, bytes: Vec::new() };
    let error = capture_png(raw, 1280).err().unwrap();
    assert_eq!(error.kind, ErrorKind::EmptyRegion);
}

#[test]
fn screenshot_file_is_decoded_scaled_and_encoded_again() {
    let file = encode_png(NormalizedImage::from_pixels(40, 20, gradient(40, 20)).unwrap()).unwrap();
    let png = capture_screen_png(&file, 10).unwrap();
    assert_eq!((png.width(), png.height()), (10, 5));
    assert_eq!((png.scale_factor().numerator(), png.scale_factor().denominator()), (10, 40));
    assert_eq!(&png.bytes()[..8], &PNG_SIGNATURE);
    let decoded = image::load_from_memory(png.bytes()).unwrap();
    assert_eq!((decoded.width(), decoded.height()), (10, 5));
}

#[test]
fn screenshot_within_the_limit_keeps_its_pixels() {
    let pixels = gradient(6, 5);
    let file = encode_png(NormalizedImage::from_pixels(6, 5, pixels.clone()).unwrap()).unwrap();
    let png = capture_screen_png(&file, 1280).unwrap();
    assert!(png.scale_factor().is_unscaled());
    let decoded = image::load_from_memory(png.bytes()).unwrap().into_rgba8();
    assert_eq!(decoded.into_raw(), pixels);
}

#[test]
fn screenshot_that_is_no_image_fails() {
    let error = capture_screen_png(b"this is no image", 1280).err().unwrap();
    assert_eq!(error.kind, ErrorKind::PlatformResourceFailure);
    assert!(error.message.starts_with("PNG load failed: "));
    assert!(error.message.len() > "PNG load failed: ".len());
}

#[test]
fn screenshot_in_another_format_is_refused() {
    // A GIF header: the screenshot tool is asked for PNG and nothing else is read.
    let error = capture_screen_png(b"GIF89a\x01\x00\x01\x00\x00\x00\x00;", 1280).err().unwrap();
    assert_eq!(error.kind, ErrorKind::PlatformResourceFailure);
    assert!(error.message.starts_with("PNG load failed: "));
}

#[test]
fn failed_capture_says_why() {
    let raw = RawPixelBuffer { width: 3, height: 3, order: ChannelOrder::Rgba, bytes: vec![0u8; 35] };
    assert_eq!(capture_png(raw, 1280).err().unwrap().message, "Failed to create image buffer.");
    let raw = RawPixelBuffer { width: 0, height: 3, order: ChannelOrder::Rgba, bytes: vec![0u8; 35] };
    assert_eq!(capture_png(raw, 1280).err().unwrap().message, "Capture region is empty.");
}

#[test]
fn the_longest_edge_is_two_to_the_twentieth() {
    assert_eq!(MAX_EDGE, 1_048_576);
}

#[test]
fn widest_image_is_scaled_by_one_pixel() {
    let width = MAX_EDGE;
    let image = NormalizedImage::from_pixels(width, 1, vec![7u8; width as usize * 4]).unwrap();
    let (small, factor) = downscale_image(image, width - 1);
    assert_eq!((small.width(), small.height()), (width - 1, 1));
    assert_eq!((factor.numerator(), factor.denominator()), (width - 1, width));
    assert_eq!(small.pixels(), &vec![7u8; (width as usize - 1) * 4]);
}

#[test]
fn tallest_image_is_scaled_by_one_pixel() {
    let height = MAX_EDGE;
    let image = NormalizedImage::from_pixels(1, height, vec![9u8; height as usize * 4]).unwrap();
    let (small, _) = downscale_image(image, height - 1);
    assert_eq!((small.width(), small.height()), (1, height - 1));
    assert_eq!(small.pixels(), &vec![9u8; (height as usize - 1) * 4]);
}

#[test]
fn widest_image_is_scaled_to_the_storage_limit() {
    let width = MAX_EDGE;
    let image = NormalizedImage::from_pixels(width, 2, vec![200u8; width as usize * 8]).unwrap();
    let (small, factor) = downscale_image(image, 1280);
    assert_eq!((small.width(), small.height()), (1280, 1));
    assert_eq!((factor.numerator(), factor.denominator()), (1280, width));
    assert_eq!(small.pixels(), &vec![200u8; 1280 * 4]);
}

#[test]
fn image_beyond_the_longest_edge_is_refused() {
    let width = MAX_EDGE + 1;
    let error = NormalizedImage::from_pixels(width, 1, vec![0u8; width as usize * 4]).err().unwrap();
    assert_eq!(error.kind, ErrorKind::EncodeFailure);
    assert_eq!(error.message, "Failed to create image buffer.");
    let error = NormalizedImage::from_pixels(1, width, vec![0u8; width as usize * 4]).err().unwrap();
    assert_eq!(error.kind, ErrorKind::EncodeFailure);
    // An edge at which the resampling is known to stop is never reached.
    let error = NormalizedImage::from_pixels(16_777_215, 1, vec![0u8; 16_777_215 * 4]).err().unwrap();
    assert_eq!(error.kind, ErrorKind::EncodeFailure);
}

#[test]
fn capture_beyond_the_longest_edge_fails() {
    let width = MAX_EDGE + 1;
    let raw = RawPixelBuffer {
        width,
        height: 1,
        order: ChannelOrder::Bgra,
        bytes: vec![0u8; width as usize * 4],
    };
    let error = capture_png(raw, width - 2).err().unwrap();
    assert_eq!(error.kind, ErrorKind::EncodeFailure);
    assert_eq!(error.message, "Failed to create image buffer.");
}

#[test]
fn long_edges_are_resampled_at_every_ratio() {
    let mut width = 3u32;
    while width <= MAX_EDGE {
        for edge in [width - 1, width] {
            for target in [1, 2, edge / 3 + 1, edge / 2, edge - 1] {
                if target == 0 || target >= edge {
                    continue;
                }
                let image =
                    NormalizedImage::from_pixels(edge, 1, vec![33u8; edge as usize * 4]).unwrap();
                let (small, _) = downscale_image(image, target);
                assert_eq!((small.width(), small.height()), (target, 1));
                assert_eq!(small.pixels(), &vec![33u8; target as usize * 4]);
            }
        }
        width *= 4;
    }
}
