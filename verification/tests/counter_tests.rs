use auto_logout::config::derive_config;
use auto_logout::counter::Action;
use auto_logout::counter::Controller;
use auto_logout::counter::Directive;
use auto_logout::counter::Phase;

#[test]
fn immune_group_names_are_fixed() {
    let names = auto_logout::counter::immune_group_names();
    assert_eq!(names, vec!["ocfstaff".to_string(), "opstaff".to_string()]);
}

#[test]
fn resolver_locks_for_an_immune_member() {
    let member = vec![10, 20, 100];
    let immune = vec![20, 30];
    assert_eq!(Action::resolve_for_groups(&member, &immune), Action::LockSession);
}

#[test]
fn resolver_logs_out_without_an_immune_match() {
    let member = vec![10, 20];
    let immune = vec![30, 40];
    assert_eq!(Action::resolve_for_groups(&member, &immune), Action::LogOut);
}

#[test]
fn resolver_logs_out_with_no_memberships_at_all() {
    let member: Vec<u32> = vec![];
    let immune = vec![30];
    assert_eq!(Action::resolve_for_groups(&member, &immune), Action::LogOut);
    let any_member = vec![1, 2, 3];
    let no_immune: Vec<u32> = vec![];
    assert_eq!(Action::resolve_for_groups(&any_member, &no_immune), Action::LogOut);
}

#[test]
fn controller_counts_down_and_expires() {
    let mut c = Controller::new(3);
    assert_eq!(c.directive(), Directive::AwaitBegin);
    c.on_begin();
    assert_eq!(c.phase, Phase::Counting { remaining: 3 });
    assert_eq!(c.directive(), Directive::Notify { replaces_id: 0, remaining: 3 });
    c.on_notified(17);
    c.on_wait_outcome(false);
    assert_eq!(c.phase, Phase::Counting { remaining: 2 });
    assert_eq!(c.directive(), Directive::Notify { replaces_id: 17, remaining: 2 });
    c.on_notified(17);
    c.on_wait_outcome(false);
    assert_eq!(c.phase, Phase::Counting { remaining: 1 });
    c.on_notified(17);
    c.on_wait_outcome(false);
    assert_eq!(c.phase, Phase::Expired);
    assert_eq!(c.directive(), Directive::Act);
}

#[test]
fn controller_cancellation_shows_confirmation_and_returns_to_waiting() {
    let mut c = Controller::new(5);
    c.on_begin();
    c.on_notified(9);
    c.on_wait_outcome(true);
    assert_eq!(c.phase, Phase::Cancelled);
    assert_eq!(c.directive(), Directive::NotifyCancelled { replaces_id: 9 });
    c.on_confirm_shown();
    assert_eq!(c.phase, Phase::Waiting);
    assert_eq!(c.directive(), Directive::AwaitBegin);
}

#[test]
fn controller_aborts_the_countdown_when_a_push_fails() {
    let mut c = Controller::new(5);
    c.on_begin();
    c.on_notify_failed();
    assert_eq!(c.phase, Phase::Waiting);
    assert_eq!(c.directive(), Directive::AwaitBegin);
}

#[test]
fn zero_length_countdown_expires_at_once() {
    let mut c = Controller::new(0);
    c.on_begin();
    assert_eq!(c.phase, Phase::Expired);
    assert_eq!(c.directive(), Directive::Act);
}

#[test]
fn countdown_after_cancellation_restarts_from_the_full_total() {
    let mut c = Controller::new(5);
    c.on_begin();
    c.on_notified(3);
    c.on_wait_outcome(false);
    c.on_notified(3);
    c.on_wait_outcome(false);
    assert_eq!(c.phase, Phase::Counting { remaining: 3 });
    c.on_notified(3);
    c.on_wait_outcome(true);
    c.on_confirm_shown();
    c.on_begin();
    assert_eq!(c.phase, Phase::Counting { remaining: 5 });
    assert_eq!(c.notif_id, 0);
}

#[test]
fn config_splits_the_timeout_into_wait_and_countdown() {
    let c = derive_config(600_000, 180_000).unwrap();
    assert_eq!(c.countdown_secs, 180);
    assert_eq!(c.wait_millis, 420_000);
}

#[test]
fn config_caps_the_countdown_at_the_timeout() {
    let c = derive_config(5_000, 180_000).unwrap();
    assert_eq!(c.countdown_secs, 5);
    assert_eq!(c.wait_millis, 0);
}

#[test]
fn config_floors_the_countdown_to_whole_seconds() {
    let c = derive_config(10_500, 2_500).unwrap();
    assert_eq!(c.countdown_secs, 2);
    assert_eq!(c.wait_millis, 8_500);
}

#[test]
fn config_rejects_a_wait_beyond_the_field_width() {
    assert!(derive_config(5_000_000_000_000, 0).is_none());
}
