use ai_copilot::acquire::{copy_failure, copy_plan, CopyStep, FailedStep, Handle, PixelCopy};
use ai_copilot::error::ErrorKind;
use ai_copilot::region::CaptureRegion;

fn run(outcomes: &[bool]) -> Vec<CopyStep> {
    let mut copy = PixelCopy::start();
    let mut steps = vec![copy.pending()];
    for outcome in outcomes {
        steps.push(copy.advance(*outcome));
    }
    steps
}

#[test]
fn copy_that_succeeds_acquires_copies_reads_and_releases() {
    let steps = run(&[true; 10]);
    assert_eq!(
        steps,
        vec![
            CopyStep::Acquire(Handle::ScreenContext),
            CopyStep::Acquire(Handle::MemoryContext),
            CopyStep::Acquire(Handle::Bitmap),
            CopyStep::Acquire(Handle::Selection),
            CopyStep::CopyPixels,
            CopyStep::ReadPixels,
            CopyStep::Release(Handle::Selection),
            CopyStep::Release(Handle::Bitmap),
            CopyStep::Release(Handle::MemoryContext),
            CopyStep::Release(Handle::ScreenContext),
            CopyStep::Done(None),
        ]
    );
}

#[test]
fn missing_screen_context_ends_the_copy_at_once() {
    assert_eq!(
        run(&[false]),
        vec![CopyStep::Acquire(Handle::ScreenContext), CopyStep::Done(Some(FailedStep::ScreenContext))]
    );
}

#[test]
fn missing_memory_context_releases_the_screen_context() {
    assert_eq!(
        run(&[true, false, true]),
        vec![
            CopyStep::Acquire(Handle::ScreenContext),
            CopyStep::Acquire(Handle::MemoryContext),
            CopyStep::Release(Handle::ScreenContext),
            CopyStep::Done(Some(FailedStep::MemoryContext)),
        ]
    );
}

#[test]
fn missing_bitmap_releases_both_contexts() {
    assert_eq!(
        run(&[true, true, false, true, true]),
        vec![
            CopyStep::Acquire(Handle::ScreenContext),
            CopyStep::Acquire(Handle::MemoryContext),
            CopyStep::Acquire(Handle::Bitmap),
            CopyStep::Release(Handle::MemoryContext),
            CopyStep::Release(Handle::ScreenContext),
            CopyStep::Done(Some(FailedStep::Bitmap)),
        ]
    );
}

#[test]
fn failed_copy_releases_everything_in_reverse() {
    assert_eq!(
        run(&[true, true, true, true, false, true, true, true, true]),
        vec![
            CopyStep::Acquire(Handle::ScreenContext),
            CopyStep::Acquire(Handle::MemoryContext),
            CopyStep::Acquire(Handle::Bitmap),
            CopyStep::Acquire(Handle::Selection),
            CopyStep::CopyPixels,
            CopyStep::Release(Handle::Selection),
            CopyStep::Release(Handle::Bitmap),
            CopyStep::Release(Handle::MemoryContext),
            CopyStep::Release(Handle::ScreenContext),
            CopyStep::Done(Some(FailedStep::CopyPixels)),
        ]
    );
}

#[test]
fn failed_read_releases_everything_and_reports_the_read() {
    let steps = run(&[true, true, true, true, true, false, true, true, true, true]);
    assert_eq!(steps[5], CopyStep::ReadPixels);
    assert_eq!(steps[6], CopyStep::Release(Handle::Selection));
    assert_eq!(steps[10], CopyStep::Done(Some(FailedStep::ReadPixels)));
}

#[test]
fn handle_that_cannot_be_released_counts_as_released() {
    let steps = run(&[true, true, true, true, true, true, false, false, false, false]);
    assert_eq!(steps[10], CopyStep::Done(None));
}

#[test]
fn selecting_the_bitmap_is_not_checked() {
    let steps = run(&[true, true, true, false]);
    assert_eq!(steps[4], CopyStep::CopyPixels);
}

#[test]
fn finished_copy_stays_finished() {
    let mut copy = PixelCopy::start();
    copy.advance(false);
    assert_eq!(copy.advance(true), CopyStep::Done(Some(FailedStep::ScreenContext)));
    assert_eq!(copy.advance(false), CopyStep::Done(Some(FailedStep::ScreenContext)));
    assert_eq!(copy.pending(), CopyStep::Done(Some(FailedStep::ScreenContext)));
}

#[test]
fn every_run_ends_within_ten_calls_with_nothing_held() {
    for pattern in 0u32..1024 {
        let outcomes: Vec<bool> = (0..10).map(|bit| pattern & (1 << bit) != 0).collect();
        let steps = run(&outcomes);
        let mut held: Vec<Handle> = Vec::new();
        for (asked, step) in steps.iter().enumerate() {
            match step {
                CopyStep::Acquire(handle) => {
                    if outcomes[asked] || *handle == Handle::Selection {
                        held.push(*handle);
                    }
                }
                CopyStep::Release(handle) => assert_eq!(held.pop(), Some(*handle)),
                CopyStep::CopyPixels | CopyStep::ReadPixels => assert_eq!(held.len(), 4),
                CopyStep::Done(_) => assert!(held.is_empty()),
            }
        }
        assert!(matches!(steps[10], CopyStep::Done(_)));
    }
}

#[test]
fn each_failure_has_its_own_sentence() {
    let sentences = [
        (FailedStep::ScreenContext, "Failed to access screen device context."),
        (FailedStep::MemoryContext, "Failed to create compatible DC."),
        (FailedStep::Bitmap, "Failed to create bitmap."),
        (FailedStep::CopyPixels, "Failed to copy screen pixels."),
        (FailedStep::ReadPixels, "Failed to read bitmap data."),
    ];
    for (step, sentence) in sentences {
        let error = copy_failure(step);
        assert_eq!(error.kind, ErrorKind::PlatformResourceFailure);
        assert_eq!(error.message, sentence);
    }
}

#[test]
fn buffer_holds_four_bytes_for_each_pixel() {
    let plan = copy_plan(CaptureRegion { x: 100, y: 50, width: 800, height: 600 }).unwrap();
    assert_eq!(plan.width, 800);
    assert_eq!(plan.height, 600);
    assert_eq!(plan.buffer_len, 800 * 600 * 4);
}

#[test]
fn region_without_area_is_not_copied() {
    let error = copy_plan(CaptureRegion { x: 0, y: 0, width: 0, height: 600 }).unwrap_err();
    assert_eq!(error.kind, ErrorKind::EmptyRegion);
}

#[test]
fn region_beyond_the_platform_sizes_is_not_copied() {
    let error =
        copy_plan(CaptureRegion { x: 0, y: 0, width: 0x8000_0000, height: 1 }).unwrap_err();
    assert_eq!(error.kind, ErrorKind::PlatformResourceFailure);
    assert_eq!(error.message, "Failed to create bitmap.");
    let error =
        copy_plan(CaptureRegion { x: 0, y: 0, width: 1, height: u32::MAX }).unwrap_err();
    assert_eq!(error.kind, ErrorKind::PlatformResourceFailure);
}
