use auto_logout::watcher::WatcherEffect;
use auto_logout::watcher::WatcherEvent;
use auto_logout::watcher::WatcherState;

#[test]
fn empty_watcher_is_not_globally_idle() {
    let w = WatcherState::new();
    assert!(!w.is_global_idle());
    assert!(!w.is_countdown_outstanding());
    assert_eq!(w.tracked_count(), 0);
    assert_eq!(w.idle_count(), 0);
}

#[test]
fn stale_idle_report_for_unknown_device_is_ignored() {
    let mut w = WatcherState::new();
    let eff = w.on_event(WatcherEvent::Idled { id: 7 });
    assert_eq!(eff, WatcherEffect::Nothing);
    assert_eq!(w.idle_count(), 0);
    assert!(!w.is_global_idle());
    assert!(!w.is_countdown_outstanding());
}

#[test]
fn removing_last_device_does_not_start_countdown() {
    let mut w = WatcherState::new();
    assert_eq!(w.on_event(WatcherEvent::DeviceAdded { id: 1 }), WatcherEffect::Nothing);
    assert_eq!(w.on_event(WatcherEvent::DeviceRemoved { id: 1 }), WatcherEffect::Nothing);
    assert_eq!(w.tracked_count(), 0);
    assert!(!w.is_global_idle());
    assert!(!w.is_countdown_outstanding());
}

#[test]
fn adding_a_device_does_not_change_aggregation() {
    let mut w = WatcherState::new();
    assert_eq!(w.on_event(WatcherEvent::DeviceAdded { id: 1 }), WatcherEffect::Nothing);
    assert_eq!(w.on_event(WatcherEvent::DeviceAdded { id: 2 }), WatcherEffect::Nothing);
    assert_eq!(w.tracked_count(), 2);
    assert_eq!(w.idle_count(), 0);
    assert!(!w.is_global_idle());
}

#[test]
fn all_devices_idle_starts_one_countdown() {
    let mut w = WatcherState::new();
    w.on_event(WatcherEvent::DeviceAdded { id: 1 });
    w.on_event(WatcherEvent::DeviceAdded { id: 2 });
    assert_eq!(w.on_event(WatcherEvent::Idled { id: 1 }), WatcherEffect::Nothing);
    assert!(!w.is_global_idle());
    assert_eq!(w.on_event(WatcherEvent::Idled { id: 2 }), WatcherEffect::StartCountdown);
    assert!(w.is_global_idle());
    assert!(w.is_countdown_outstanding());
}

#[test]
fn duplicate_idle_reports_do_not_start_a_second_countdown() {
    let mut w = WatcherState::new();
    w.on_event(WatcherEvent::DeviceAdded { id: 1 });
    assert_eq!(w.on_event(WatcherEvent::Idled { id: 1 }), WatcherEffect::StartCountdown);
    assert_eq!(w.on_event(WatcherEvent::Idled { id: 1 }), WatcherEffect::Nothing);
    assert_eq!(w.idle_count(), 1);
    assert!(w.is_countdown_outstanding());
}

#[test]
fn resume_cancels_the_outstanding_countdown() {
    let mut w = WatcherState::new();
    w.on_event(WatcherEvent::DeviceAdded { id: 1 });
    w.on_event(WatcherEvent::Idled { id: 1 });
    assert_eq!(w.on_event(WatcherEvent::Resumed { id: 1 }), WatcherEffect::CancelCountdown);
    assert!(!w.is_countdown_outstanding());
    assert_eq!(w.idle_count(), 0);
    assert_eq!(w.on_event(WatcherEvent::Resumed { id: 1 }), WatcherEffect::Nothing);
}

#[test]
fn device_added_mid_countdown_cancels_it() {
    let mut w = WatcherState::new();
    w.on_event(WatcherEvent::DeviceAdded { id: 1 });
    w.on_event(WatcherEvent::Idled { id: 1 });
    assert!(w.is_countdown_outstanding());
    assert_eq!(w.on_event(WatcherEvent::DeviceAdded { id: 2 }), WatcherEffect::CancelCountdown);
    assert!(!w.is_countdown_outstanding());
    assert_eq!(w.tracked_count(), 2);
    assert_eq!(w.idle_count(), 1);
    assert!(!w.is_global_idle());
}

#[test]
fn removal_that_completes_idleness_starts_a_countdown() {
    let mut w = WatcherState::new();
    w.on_event(WatcherEvent::DeviceAdded { id: 1 });
    w.on_event(WatcherEvent::DeviceAdded { id: 2 });
    assert_eq!(w.on_event(WatcherEvent::Idled { id: 1 }), WatcherEffect::Nothing);
    assert_eq!(w.on_event(WatcherEvent::DeviceRemoved { id: 2 }), WatcherEffect::StartCountdown);
    assert!(w.is_global_idle());
    assert!(w.is_countdown_outstanding());
}

#[test]
fn readding_an_idle_device_marks_it_active_again() {
    let mut w = WatcherState::new();
    w.on_event(WatcherEvent::DeviceAdded { id: 1 });
    w.on_event(WatcherEvent::Idled { id: 1 });
    assert_eq!(w.on_event(WatcherEvent::DeviceAdded { id: 1 }), WatcherEffect::CancelCountdown);
    assert_eq!(w.tracked_count(), 1);
    assert_eq!(w.idle_count(), 0);
    assert!(!w.is_countdown_outstanding());
}

#[test]
fn re_idling_after_cancellation_starts_a_fresh_countdown() {
    let mut w = WatcherState::new();
    w.on_event(WatcherEvent::DeviceAdded { id: 1 });
    w.on_event(WatcherEvent::DeviceAdded { id: 2 });
    w.on_event(WatcherEvent::Idled { id: 1 });
    assert_eq!(w.on_event(WatcherEvent::Idled { id: 2 }), WatcherEffect::StartCountdown);
    assert_eq!(w.on_event(WatcherEvent::Resumed { id: 1 }), WatcherEffect::CancelCountdown);
    assert_eq!(w.on_event(WatcherEvent::Idled { id: 1 }), WatcherEffect::StartCountdown);
    assert!(w.is_countdown_outstanding());
}
