use jolt::sync::{ErrorTracker, PauseReason, SyncPhase, SyncStatus, SyncTabState};

#[test]
fn five_errors_in_a_minute_pause_sync() {
    let mut s = SyncTabState::new();
    assert!(s.toggle());
    assert_eq!(s.status, SyncStatus::Running);
    let t0 = 1_000_000_i64;
    for k in 0..4 {
        s.log_error_at(format!("e{}", k), t0 + k * 10_000);
        assert_eq!(s.status, SyncStatus::Running);
    }
    s.log_error_at("e4".to_string(), t0 + 59_000);
    assert_eq!(s.status, SyncStatus::Paused { reason: PauseReason::ErrorThreshold });
    assert_eq!(s.metrics.errors_total, 5);
    assert_eq!(s.status_display(), ("PAUSED", "red"));
}

#[test]
fn old_errors_leave_the_window() {
    let mut t = ErrorTracker::new();
    for k in 0..4 {
        assert!(!t.record_error_at(k * 1000));
    }
    assert!(!t.record_error_at(61_500));
    assert_eq!(t.count_in_window(), 3);
    assert!(!t.record_error_at(62_000));
    assert!(!t.record_error_at(62_500));
    assert!(t.record_error_at(62_600));
    t.reset();
    assert_eq!(t.count_in_window(), 0);
}

#[test]
fn re_enabling_clears_the_window() {
    let mut s = SyncTabState::new();
    s.toggle();
    for k in 0..5 {
        s.log_error_at("x".to_string(), k);
    }
    assert!(matches!(s.status, SyncStatus::Paused { .. }));
    assert!(!s.toggle());
    assert_eq!(s.status, SyncStatus::Paused { reason: PauseReason::UserDisabled });
    assert!(s.toggle());
    assert_eq!(s.error_tracker.count_in_window(), 0);
    assert!(s.is_running());
}

#[test]
fn recording_now_counts() {
    let mut t = ErrorTracker::new();
    assert!(!t.record_error());
    assert_eq!(t.count_in_window(), 1);
}

#[test]
fn phase_texts() {
    assert_eq!(SyncPhase::Idle.display(), "Idle");
    assert_eq!(SyncPhase::DownloadingLogs.display(), "Downloading logs");
    assert_eq!(SyncTabState::new().status_display(), ("OFF", "gray"));
}

#[test]
fn stale_errors_are_dropped_wherever_they_stand() {
    let mut t = ErrorTracker::new();
    t.record_error_at(100_000);
    // the clock stepped back: this entry is older than the next cutoff
    t.record_error_at(10_000);
    assert_eq!(t.count_in_window(), 2);
    t.record_error_at(100_500);
    // cutoff 40_500 drops 10_000 though it is not first
    assert_eq!(t.count_in_window(), 2);
}

#[test]
fn window_count_at_a_time_leaves_out_aged_errors() {
    let mut t = ErrorTracker::new();
    t.record_error_at(0);
    t.record_error_at(30_000);
    assert_eq!(t.count_in_window_at(30_000), 2);
    assert_eq!(t.count_in_window_at(70_000), 1);
    assert_eq!(t.count_in_window_at(100_000), 0);
    assert_eq!(t.count_in_window(), 2);
}
