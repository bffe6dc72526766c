use ai_copilot::error::ErrorKind;
use ai_copilot::screenshot::{Screenshot, ShotStep};

#[test]
fn screenshot_asks_for_its_calls_in_order() {
    let mut shot = Screenshot::begin();
    assert_eq!(shot.step(), ShotStep::ReadClock);
    assert_eq!(shot.clock_read(1700000000123), ShotStep::RunTool);
    assert_eq!(shot.file_name(), "ai-copilot-screen-1700000000123.png");
    assert_eq!(shot.tool_exited(true), ShotStep::ReadFile);
    assert_eq!(shot.file_read(vec![1, 2, 3]), ShotStep::RemoveFile);
    assert_eq!(shot.removed(), ShotStep::Taken);
    assert_eq!(shot.file(), &vec![1u8, 2, 3]);
    assert!(shot.error().is_none());
}

#[test]
fn screenshot_without_clock_fails() {
    let mut shot = Screenshot::begin();
    assert_eq!(shot.clock_failed(), ShotStep::Failed);
    let error = shot.error().unwrap();
    assert_eq!(error.kind, ErrorKind::ClockError);
    assert_eq!(error.message, "Failed to generate timestamp.");
}

#[test]
fn tool_that_cannot_be_started_fails_the_screenshot() {
    let mut shot = Screenshot::begin();
    shot.clock_read(1);
    assert_eq!(shot.tool_missing("No such file or directory"), ShotStep::Failed);
    let error = shot.error().unwrap();
    assert_eq!(error.kind, ErrorKind::PlatformResourceFailure);
    assert_eq!(error.message, "Failed to run screencapture: No such file or directory");
}

#[test]
fn tool_that_exits_with_an_error_fails_the_screenshot() {
    let mut shot = Screenshot::begin();
    shot.clock_read(1);
    assert_eq!(shot.tool_exited(false), ShotStep::Failed);
    let error = shot.error().unwrap();
    assert_eq!(error.kind, ErrorKind::PlatformResourceFailure);
    assert_eq!(error.message, "screencapture command failed.");
}

#[test]
fn unreadable_file_is_removed_before_the_screenshot_fails() {
    let mut shot = Screenshot::begin();
    shot.clock_read(1);
    shot.tool_exited(true);
    assert_eq!(shot.file_unreadable("permission denied"), ShotStep::RemoveFile);
    assert_eq!(shot.removed(), ShotStep::Failed);
    let error = shot.error().unwrap();
    assert_eq!(error.kind, ErrorKind::PlatformResourceFailure);
    assert_eq!(error.message, "Failed to read capture: permission denied");
}

#[test]
fn screenshot_outcomes_out_of_turn_change_nothing() {
    let mut shot = Screenshot::begin();
    assert_eq!(shot.tool_exited(true), ShotStep::ReadClock);
    assert_eq!(shot.file_read(vec![9]), ShotStep::ReadClock);
    assert_eq!(shot.removed(), ShotStep::ReadClock);
    assert_eq!(shot.tool_missing("x"), ShotStep::ReadClock);
    assert_eq!(shot.file_unreadable("x"), ShotStep::ReadClock);
    assert!(shot.file().is_empty());
    assert!(shot.error().is_none());
    shot.clock_read(2);
    assert_eq!(shot.clock_failed(), ShotStep::RunTool);
    assert_eq!(shot.clock_read(3), ShotStep::RunTool);
    assert_eq!(shot.file_name(), "ai-copilot-screen-2.png");
}
