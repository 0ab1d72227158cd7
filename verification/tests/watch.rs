use whatcable::watch::{Debounce, RefreshReason, WaitResult, WatcherConfig};

#[test]
fn watcher_config_defaults_to_usb_and_typec() {
    let cfg = WatcherConfig::default();
    assert!(cfg.subsystems.iter().any(|s| s == "usb"));
    assert!(cfg.subsystems.iter().any(|s| s == "typec"));
}

#[test]
fn idle_debounce_waits_forever() {
    let d = Debounce::new();
    assert_eq!(d.timeout_ms(1_000), None);
}

#[test]
fn burst_of_events_refreshes_once_after_the_window() {
    let mut d = Debounce::new();
    // Event at t=100 opens a 500 ms window.
    assert!(!d.after_wait(WaitResult::Readable, 100, 500));
    assert_eq!(d.timeout_ms(100), Some(500));
    // Another event at t=300 restarts it.
    assert!(!d.after_wait(WaitResult::Readable, 300, 500));
    assert_eq!(d.timeout_ms(400), Some(400));
    // Interrupted waits decide nothing.
    assert!(!d.after_wait(WaitResult::Interrupted, 900, 500));
    assert_eq!(d.deadline_ms, Some(800));
    // The window elapses: one refresh, then quiet.
    assert!(d.after_wait(WaitResult::Timeout, 800, 500));
    assert_eq!(d.deadline_ms, None);
    assert!(!d.after_wait(WaitResult::Timeout, 2_000, 500));
    assert_eq!(d.timeout_ms(2_000), None);
}

#[test]
fn overdue_deadline_times_out_immediately() {
    let d = Debounce { deadline_ms: Some(100) };
    assert_eq!(d.timeout_ms(250), Some(0));
}

#[test]
fn zero_window_refreshes_on_the_event() {
    let mut d = Debounce::new();
    assert!(d.after_wait(WaitResult::Readable, 10, 0));
    assert_eq!(d.deadline_ms, None);
}

#[test]
fn refresh_reasons_are_distinct() {
    assert_ne!(RefreshReason::Initial, RefreshReason::Hotplug);
}
