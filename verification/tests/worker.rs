use win_desktop_switcher::hotkey::Action;
use win_desktop_switcher::config::Config;
use win_desktop_switcher::worker::{
    fallback_switch, handle_action, shows_overlay, switch_mechanism, ActionPlan, SwitchMechanism,
    WorkerSettings, OVERLAY_SHOW_MS,
};

#[test]
fn animation_modes() {
    assert_eq!(switch_mechanism("slide-push"), SwitchMechanism::SlidePush);
    assert_eq!(switch_mechanism("instant"), SwitchMechanism::Instant);
    assert_eq!(switch_mechanism("touch"), SwitchMechanism::TouchSwipe);
    assert_eq!(switch_mechanism(" instant"), SwitchMechanism::TouchSwipe);
    assert_eq!(switch_mechanism("Slide-Push"), SwitchMechanism::TouchSwipe);
}

#[test]
fn actions() {
    assert_eq!(handle_action(Action::SwitchPrev, 3), ActionPlan::Relative(-1));
    assert_eq!(handle_action(Action::SwitchNext, 3), ActionPlan::Relative(1));
    assert_eq!(handle_action(Action::SwitchTo(2), 3), ActionPlan::Absolute(2));
    assert_eq!(handle_action(Action::SwitchTo(3), 3), ActionPlan::OutOfRange);
    assert_eq!(handle_action(Action::MovePrev, 3), ActionPlan::NotImplemented);
    assert_eq!(handle_action(Action::MoveNext, 3), ActionPlan::NotImplemented);
}

#[test]
fn indicator_after_switch() {
    assert!(ActionPlan::Relative(-1).switches());
    assert!(ActionPlan::Absolute(0).switches());
    assert!(!ActionPlan::OutOfRange.switches());
    assert_eq!(ActionPlan::Relative(-1).direction(), -1);
    assert_eq!(ActionPlan::Absolute(4).direction(), 0);
    assert!(shows_overlay(true, true));
    assert!(!shows_overlay(true, false));
    assert!(!shows_overlay(false, true));
    assert_eq!(OVERLAY_SHOW_MS, 1100);
}

#[test]
fn plain_switch_fallback() {
    assert!(fallback_switch(SwitchMechanism::Instant, true));
    assert!(fallback_switch(SwitchMechanism::Instant, false));
    assert!(!fallback_switch(SwitchMechanism::SlidePush, true));
    assert!(fallback_switch(SwitchMechanism::SlidePush, false));
    assert!(!fallback_switch(SwitchMechanism::TouchSwipe, true));
    assert!(fallback_switch(SwitchMechanism::TouchSwipe, false));
}

#[test]
fn worker_settings_of_defaults() {
    let s = WorkerSettings::from_config(&Config::default());
    assert_eq!(s.animation_mode, "slide-push");
    assert_eq!(s.duration_ms, 320);
    assert_eq!(s.easing, "cubic-bezier(0.4, 0.0, 0.2, 1)");
    assert!(s.overlay_enabled);
    assert!(s.wrap);
}
