use recall::continuous::{should_retry_capture, ContinuousCapture, FailureDecision, FrameDecision};
use recall::monitor::{find_monitor, MonitorData, MonitorListError, SafeMonitor};

fn data(name: &str) -> MonitorData {
    MonitorData { width: 1920, height: 1080, x: 0, y: 0, name: name.to_string(), is_primary: true }
}

#[test]
fn continuous_capture_gives_up_after_ten_failures() {
    let mut c = ContinuousCapture::new(0);
    for _ in 0..10 {
        assert_eq!(c.on_capture_failed(), FailureDecision::RetryAfterPause);
    }
    assert_eq!(c.on_capture_failed(), FailureDecision::GiveUp);
}

#[test]
fn continuous_capture_skips_small_changes_until_forced() {
    let mut c = ContinuousCapture::new(0);
    c.on_capture_failed();
    assert_eq!(c.on_frame(5_000, 1_000), FrameDecision::Skip);
    assert_eq!(c.consecutive_failures, 0);
    assert_eq!(c.on_frame(50_000, 2_000), FrameDecision::Keep { forced: false });
    assert_eq!(c.last_capture_millis, 2_000);
    assert_eq!(c.on_frame(0, 11_999), FrameDecision::Skip);
    assert_eq!(c.on_frame(0, 12_000), FrameDecision::Keep { forced: true });
    assert_eq!(c.frame_counter, 4);
}

#[test]
fn capture_retries_three_times() {
    assert!(should_retry_capture(0));
    assert!(should_retry_capture(2));
    assert!(!should_retry_capture(3));
}

#[test]
fn monitors_are_found_by_id() {
    let monitors = vec![SafeMonitor::new(5, data("left")), SafeMonitor::new(7, data("right")), SafeMonitor::new(7, data("dup"))];
    assert_eq!(find_monitor(&monitors, 7), Some(1));
    assert_eq!(find_monitor(&monitors, 9), None);
    assert_eq!(monitors[0].id(), 5);
    assert_eq!(monitors[1].name(), "right");
    assert_eq!(monitors[1].info().width, 1920);
    let mut m = monitors[0].clone();
    m.refresh_with(data("renamed"));
    assert_eq!(m.name(), "renamed");
    assert_eq!(m.id(), 5);
}

#[test]
fn monitor_list_error_messages() {
    assert_eq!(MonitorListError::NoMonitorsFound.message(), "No monitors found");
    assert_eq!(
        MonitorListError::PermissionDenied.message(),
        "Screen recording permission not granted. Check privacy settings."
    );
    assert_eq!(MonitorListError::Other("boom".to_string()).message(), "boom");
}
