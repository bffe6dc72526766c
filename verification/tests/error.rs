use ai_copilot::error::{CaptureError, ErrorKind};
use ai_copilot::recognize::{check_dimensions, recognized_text};

#[test]
fn every_kind_has_its_sentence() {
    let sentences = [
        (ErrorKind::ToolDisabled, "Screen capture tool disabled in settings."),
        (ErrorKind::NoActiveWindow, "No active window found."),
        (ErrorKind::EmptyRegion, "Capture region is empty."),
        (ErrorKind::PlatformResourceFailure, "Screen capture failed."),
        (ErrorKind::RegionTooLarge, "Capture region is too large for text recognition."),
        (ErrorKind::EngineUnavailable, "Text recognition is not available."),
        (ErrorKind::EncodeFailure, "Failed to create image buffer."),
        (ErrorKind::StorageUnavailable, "Failed to store capture."),
        (ErrorKind::ClockError, "Failed to generate timestamp."),
        (ErrorKind::UnsupportedPlatform, "Screen capture is not implemented for this OS yet."),
    ];
    for (kind, sentence) in sentences {
        let error = CaptureError::of_kind(kind);
        assert_eq!(error.kind(), kind);
        assert_eq!(error.message(), sentence);
    }
}

#[test]
fn errors_with_their_own_sentence() {
    let error = CaptureError::described(ErrorKind::PlatformResourceFailure, "Failed to create bitmap.");
    assert_eq!(error.kind, ErrorKind::PlatformResourceFailure);
    assert_eq!(error.message, "Failed to create bitmap.");
    let error = CaptureError::with_detail(ErrorKind::EncodeFailure, "PNG encode failed: ", "oops");
    assert_eq!(error.kind, ErrorKind::EncodeFailure);
    assert_eq!(error.message, "PNG encode failed: oops");
    let copy = error.clone();
    assert_eq!(copy.kind, error.kind);
    assert_eq!(copy.message, error.message);
}

#[test]
fn recognizer_refuses_5000_by_5000_at_a_limit_of_4096() {
    let error = check_dimensions(5000, 5000, 4096).unwrap_err();
    assert_eq!(error.kind, ErrorKind::RegionTooLarge);
    assert_eq!(error.message, "Capture region is too large for text recognition.");
}

#[test]
fn one_edge_beyond_the_limit_is_enough() {
    assert_eq!(check_dimensions(4097, 1, 4096).unwrap_err().kind, ErrorKind::RegionTooLarge);
    assert_eq!(check_dimensions(1, 4097, 4096).unwrap_err().kind, ErrorKind::RegionTooLarge);
    assert!(check_dimensions(4096, 4096, 4096).is_ok());
    assert!(check_dimensions(0, 0, 0).is_ok());
}

#[test]
fn recognized_text_is_trimmed_and_nothing_else() {
    assert_eq!(recognized_text("\n  Line one\n  Line two  \n"), "Line one\n  Line two");
    assert_eq!(recognized_text("   "), "");
}
