use ai_copilot::error::ErrorKind;
use ai_copilot::region::{
    capture_region, normalize_title, title_buffer_len, window_title, CaptureRegion, WindowBounds,
};

#[test]
fn region_of_a_window() {
    let bounds = WindowBounds { left: 100, top: 50, right: 900, bottom: 650 };
    let region = capture_region(bounds).unwrap();
    assert_eq!(region, CaptureRegion { x: 100, y: 50, width: 800, height: 600 });
    assert!(!region.has_no_area());
}

#[test]
fn region_with_negative_offsets() {
    let bounds = WindowBounds { left: -1920, top: -10, right: -1000, bottom: 30 };
    let region = capture_region(bounds).unwrap();
    assert_eq!(region, CaptureRegion { x: -1920, y: -10, width: 920, height: 40 });
}

#[test]
fn region_spanning_the_whole_coordinate_range() {
    let bounds = WindowBounds { left: i32::MIN, top: i32::MIN, right: i32::MAX, bottom: i32::MAX };
    let region = capture_region(bounds).unwrap();
    assert_eq!(region.width, u32::MAX);
    assert_eq!(region.height, u32::MAX);
}

#[test]
fn window_without_width_is_an_empty_region() {
    let error = capture_region(WindowBounds { left: 10, top: 0, right: 10, bottom: 100 }).unwrap_err();
    assert_eq!(error.kind, ErrorKind::EmptyRegion);
    assert_eq!(error.message, "Capture region is empty.");
}

#[test]
fn window_without_height_is_an_empty_region() {
    let error = capture_region(WindowBounds { left: 0, top: 7, right: 100, bottom: 7 }).unwrap_err();
    assert_eq!(error.kind(), ErrorKind::EmptyRegion);
    assert_eq!(error.message(), "Capture region is empty.");
}

#[test]
fn inverted_bounds_are_an_empty_region() {
    let error = capture_region(WindowBounds { left: 50, top: 50, right: 10, bottom: 10 }).unwrap_err();
    assert_eq!(error.kind, ErrorKind::EmptyRegion);
}

#[test]
fn title_is_kept_as_it_is() {
    assert_eq!(normalize_title(String::from(" Notes - Editor ")), Some(String::from(" Notes - Editor ")));
}

#[test]
fn blank_title_is_no_title() {
    assert_eq!(normalize_title(String::new()), None);
    assert_eq!(normalize_title(String::from(" \t\u{3000}")), None);
}

#[test]
fn title_from_utf16() {
    let units: Vec<u16> = "Überblick 📷".encode_utf16().collect();
    assert_eq!(window_title(&units), Some(String::from("Überblick 📷")));
}

#[test]
fn unpaired_surrogate_becomes_replacement_character() {
    let units = [0x0041u16, 0xD800, 0x0042];
    assert_eq!(window_title(&units), Some(String::from("A\u{FFFD}B")));
}

#[test]
fn nothing_copied_is_no_title() {
    assert_eq!(window_title(&[]), None);
}

#[test]
fn whitespace_title_from_utf16_is_no_title() {
    let units: Vec<u16> = "   ".encode_utf16().collect();
    assert_eq!(window_title(&units), None);
}

#[test]
fn title_buffer_has_room_for_the_terminator() {
    assert_eq!(title_buffer_len(12), Some(13));
    assert_eq!(title_buffer_len(1), Some(2));
    assert_eq!(title_buffer_len(0), None);
    assert_eq!(title_buffer_len(-1), None);
    assert_eq!(title_buffer_len(i32::MAX), Some(i32::MAX as usize + 1));
}
