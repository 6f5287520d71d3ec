use konjac::capture::TickObservation;
use konjac::diff::DiffScore;
use konjac::session::SessionState;
use konjac::capture::{
    capture_changed, check_capture_request, region_below_toolbar, screencapture_failure,
    screencapture_region, CaptureError, CaptureMonitor, CaptureRect, WindowBounds, TOOLBAR_HEIGHT,
};
use konjac::diff::Frame;

fn rect(x: i32, y: i32, width: u32, height: u32) -> CaptureRect {
    CaptureRect { x, y, width, height }
}

fn platform_text(r: Result<(), CaptureError>) -> String {
    match r {
        Err(CaptureError::Platform(s)) => s,
        other => panic!("unexpected {:?}", other),
    }
}

#[test]
fn region_skips_toolbar() {
    let r = region_below_toolbar(10, 20, 300, 200);
    assert_eq!(r, rect(10, 20 + TOOLBAR_HEIGHT as i32, 300, 200 - TOOLBAR_HEIGHT));
}

#[test]
fn region_height_saturates_at_zero() {
    let r = region_below_toolbar(-5, -40, 100, 10);
    assert_eq!(r, rect(-5, -8, 100, 0));
}

#[test]
fn zero_dimension_rect_is_refused_first() {
    assert_eq!(platform_text(check_capture_request(rect(0, 0, 0, 10), false)), "zero-dimension rect");
    assert_eq!(platform_text(check_capture_request(rect(0, 0, 10, 0), true)), "zero-dimension rect");
}

#[test]
fn missing_permission_is_refused() {
    let text = platform_text(check_capture_request(rect(0, 0, 10, 10), false));
    assert!(text.starts_with("Screen Recording permission not granted"));
}

#[test]
fn permitted_nonempty_rect_passes() {
    assert!(check_capture_request(rect(1, 2, 3, 4), true).is_ok());
}

#[test]
fn region_argument_is_comma_separated_decimal() {
    assert_eq!(screencapture_region(rect(10, 52, 640, 480)), "10,52,640,480");
    assert_eq!(screencapture_region(rect(-1920, 0, 0, 7)), "-1920,0,0,7");
    assert_eq!(
        screencapture_region(rect(i32::MIN, i32::MAX, u32::MAX, 1)),
        format!("{},{},{},{}", i32::MIN, i32::MAX, u32::MAX, 1)
    );
}

#[test]
fn screencapture_failure_carries_stderr() {
    match screencapture_failure("could not create image") {
        CaptureError::Platform(s) => assert_eq!(
            s,
            "screencapture failed — check Screen Recording permission in System Settings (could not create image)"
        ),
        other => panic!("unexpected {:?}", other),
    }
}

#[test]
fn capture_error_messages() {
    assert_eq!(CaptureError::NullImage.message(), "capture returned null image");
    assert_eq!(CaptureError::ConversionError.message(), "image conversion failed");
    assert_eq!(CaptureError::Platform("boom".to_string()).message(), "platform error: boom");
}

fn frame(v: u8) -> Frame {
    Frame { width: 2, height: 2, rgb: vec![v; 12] }
}

#[test]
fn monitor_reports_first_bounds_as_change() {
    let mut m = CaptureMonitor::new();
    let b = WindowBounds { x: 0, y: 0, width: 800, height: 600 };
    assert!(m.track_bounds(b));
    assert!(!m.track_bounds(b));
    assert!(m.track_bounds(WindowBounds { x: 1, ..b }));
}

#[test]
fn monitor_scores_against_previous_frame() {
    let mut m = CaptureMonitor::new();
    assert!(m.compare_and_keep(frame(0)).is_none());
    let s = m.compare_and_keep(frame(0)).unwrap();
    assert_eq!(s.total, 0);
    let s = m.compare_and_keep(frame(255)).unwrap();
    assert_eq!(s.total, s.max_total);
}

#[test]
fn monitor_forgets_frame_after_failed_capture() {
    let mut m = CaptureMonitor::new();
    m.compare_and_keep(frame(0));
    m.forget_frame();
    assert!(m.compare_and_keep(frame(0)).is_none());
}

#[test]
fn monitor_reset_forgets_everything() {
    let mut m = CaptureMonitor::new();
    let b = WindowBounds { x: 3, y: 4, width: 5, height: 6 };
    m.track_bounds(b);
    m.compare_and_keep(frame(9));
    m.reset();
    assert!(m.track_bounds(b));
    assert!(m.compare_and_keep(frame(9)).is_none());
}

#[test]
fn change_rules() {
    let s = Some(konjac::diff::DiffScore { total: 0, max_total: 10 });
    assert!(capture_changed(true, s, false));
    assert!(capture_changed(false, None, false));
    assert!(capture_changed(false, s, true));
    assert!(!capture_changed(false, s, false));
}

fn never(_: DiffScore) -> bool {
    false
}

fn always(_: DiffScore) -> bool {
    true
}

#[test]
fn tick_first_capture_marks_stale_once() {
    let mut m = CaptureMonitor::new();
    let mut s = SessionState::new();
    let b = WindowBounds { x: 0, y: 0, width: 10, height: 10 };
    assert!(m.tick(&mut s, TickObservation::Captured(b, frame(1)), never));
    assert!(s.is_stale);
    // Moving the window is a change, but the user was told already.
    let moved = WindowBounds { x: 5, ..b };
    assert!(!m.tick(&mut s, TickObservation::Captured(moved, frame(1)), never));
    assert!(s.is_stale);
}

#[test]
fn tick_unchanged_frame_is_silent() {
    let mut m = CaptureMonitor::new();
    let mut s = SessionState::new();
    let b = WindowBounds { x: 0, y: 0, width: 10, height: 10 };
    m.tick(&mut s, TickObservation::Captured(b, frame(1)), never);
    s.begin_translation("gw", "key");
    assert!(!s.is_stale);
    assert!(!m.tick(&mut s, TickObservation::Captured(b, frame(1)), never));
    assert!(!s.is_stale);
    // The same bounds with a frame over the threshold is a change.
    assert!(m.tick(&mut s, TickObservation::Captured(b, frame(200)), always));
    assert!(s.is_stale);
}

#[test]
fn tick_pause_and_failure_drop_baseline() {
    let mut m = CaptureMonitor::new();
    let mut s = SessionState::new();
    let b = WindowBounds { x: 0, y: 0, width: 10, height: 10 };
    m.tick(&mut s, TickObservation::Captured(b, frame(1)), never);
    s.begin_translation("gw", "key");
    assert!(!m.tick(&mut s, TickObservation::Paused, always));
    assert!(!s.is_stale);
    assert!(m.tick(&mut s, TickObservation::Captured(b, frame(1)), never));
    s.begin_translation("gw", "key");
    assert!(!m.tick(&mut s, TickObservation::CaptureFailed(b), always));
    assert!(!s.is_stale);
    assert!(m.tick(&mut s, TickObservation::Captured(b, frame(1)), never));
}

#[test]
fn tick_without_window_changes_nothing() {
    let mut m = CaptureMonitor::new();
    let mut s = SessionState::new();
    let b = WindowBounds { x: 0, y: 0, width: 10, height: 10 };
    m.tick(&mut s, TickObservation::Captured(b, frame(1)), never);
    s.begin_translation("gw", "key");
    assert!(!m.tick(&mut s, TickObservation::WindowUnavailable, always));
    assert!(!s.is_stale);
    assert!(!m.tick(&mut s, TickObservation::Captured(b, frame(1)), never));
}
