//! The end-to-end walks: two devices and a five-second countdown, once
//! cancelled by a resume at three seconds remaining, once left to expire.

use auto_logout::counter::Controller;
use auto_logout::counter::Directive;
use auto_logout::counter::Phase;
use auto_logout::watcher::WatcherEffect;
use auto_logout::watcher::WatcherEvent;
use auto_logout::watcher::WatcherState;

const DEVICE_A: u32 = 1;
const DEVICE_B: u32 = 2;

fn both_devices_idle(w: &mut WatcherState) {
    assert_eq!(w.on_event(WatcherEvent::DeviceAdded { id: DEVICE_A }), WatcherEffect::Nothing);
    assert_eq!(w.on_event(WatcherEvent::DeviceAdded { id: DEVICE_B }), WatcherEffect::Nothing);
    assert_eq!(w.on_event(WatcherEvent::Idled { id: DEVICE_A }), WatcherEffect::Nothing);
    assert_eq!(w.on_event(WatcherEvent::Idled { id: DEVICE_B }), WatcherEffect::StartCountdown);
}

#[test]
fn countdown_cancelled_by_a_resume_at_three_seconds() {
    let mut w = WatcherState::new();
    both_devices_idle(&mut w);

    let mut c = Controller::new(5);
    c.on_begin();
    assert_eq!(c.directive(), Directive::Notify { replaces_id: 0, remaining: 5 });
    c.on_notified(41);
    c.on_wait_outcome(false);
    assert_eq!(c.directive(), Directive::Notify { replaces_id: 41, remaining: 4 });
    c.on_notified(41);
    c.on_wait_outcome(false);
    assert_eq!(c.directive(), Directive::Notify { replaces_id: 41, remaining: 3 });
    c.on_notified(41);

    // Device A sees activity: the aggregator signals the cancellation, and
    // the controller's timed wait observes it within this tick.
    assert_eq!(w.on_event(WatcherEvent::Resumed { id: DEVICE_A }), WatcherEffect::CancelCountdown);
    c.on_wait_outcome(true);
    assert_eq!(c.phase, Phase::Cancelled);
    assert_eq!(c.directive(), Directive::NotifyCancelled { replaces_id: 41 });
    c.on_confirm_shown();
    assert_eq!(c.phase, Phase::Waiting);
    assert!(!w.is_countdown_outstanding());
}

#[test]
fn countdown_left_alone_expires_and_demands_the_action() {
    let mut w = WatcherState::new();
    both_devices_idle(&mut w);

    let mut c = Controller::new(5);
    c.on_begin();
    let mut expected_remaining: u64 = 5;
    while expected_remaining > 0 {
        assert_eq!(
            c.directive(),
            Directive::Notify {
                replaces_id: if expected_remaining == 5 { 0 } else { 41 },
                remaining: expected_remaining
            }
        );
        c.on_notified(41);
        c.on_wait_outcome(false);
        expected_remaining -= 1;
    }
    assert_eq!(c.phase, Phase::Expired);
    assert_eq!(c.directive(), Directive::Act);
}
