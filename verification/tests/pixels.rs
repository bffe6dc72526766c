use ai_copilot::pixels::{reorder_channels, restore_channels, ChannelOrder};

#[test]
fn bgra_pixels_become_rgba() {
    let raw = vec![10u8, 20, 30, 40, 50, 60, 70, 80];
    let out = reorder_channels(&raw, ChannelOrder::Bgra);
    assert_eq!(out, vec![30u8, 20, 10, 40, 70, 60, 50, 80]);
}

#[test]
fn rgba_pixels_stay_as_they_are() {
    let raw = vec![1u8, 2, 3, 4, 5, 6, 7, 8];
    assert_eq!(reorder_channels(&raw, ChannelOrder::Rgba), raw);
}

#[test]
fn trailing_partial_pixel_is_kept() {
    let raw = vec![1u8, 2, 3, 4, 5, 6, 7];
    let out = reorder_channels(&raw, ChannelOrder::Bgra);
    assert_eq!(out, vec![3u8, 2, 1, 4, 5, 6, 7]);
}

#[test]
fn reordering_twice_restores_the_buffer() {
    let raw: Vec<u8> = (0..=255u8).collect();
    let there = reorder_channels(&raw, ChannelOrder::Bgra);
    assert_ne!(there, raw);
    let back = restore_channels(&there, ChannelOrder::Bgra);
    assert_eq!(back, raw);
}
