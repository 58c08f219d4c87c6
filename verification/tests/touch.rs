use win_desktop_switcher::config::Touch;
use win_desktop_switcher::touch::{
    init, parse_easing, set_params, swipe_plan, TouchError, TouchParams,
};

#[test]
fn easing_names() {
    assert_eq!(parse_easing("ease-in"), 1);
    assert_eq!(parse_easing("  Ease-Out\t"), 2);
    assert_eq!(parse_easing("EASE-IN-OUT"), 3);
    assert_eq!(parse_easing("linear"), 0);
    assert_eq!(parse_easing("bounce"), 0);
    assert_eq!(parse_easing(""), 0);
    assert_eq!(parse_easing("\u{3000}ease-in\u{a0}"), 1);
}

#[test]
fn params_are_raised_to_their_minimum() {
    let mut p = TouchParams::new();
    let mut cfg = Touch::default();
    cfg.swipe_distance_px = 10;
    cfg.swipe_steps = 0;
    cfg.step_delay_ms = 0;
    cfg.easing = "ease-out".to_string();
    set_params(&mut p, &cfg);
    assert_eq!(
        p,
        TouchParams {
            enabled: true,
            distance_px: 50,
            steps: 2,
            step_delay_ms: 1,
            hold_before_ms: 15,
            hold_after_ms: 35,
            easing: 2,
        }
    );
}

#[test]
fn init_only_once_and_only_when_enabled() {
    let mut p = TouchParams::new();
    let cfg = Touch::default();
    assert!(init(&mut p, &cfg, false));
    assert!(!init(&mut p, &cfg, true));
    let mut off = Touch::default();
    off.enabled = false;
    assert!(!init(&mut p, &off, false));
    assert!(!p.enabled);
}

#[test]
fn swipe_needs_injection() {
    let p = TouchParams::new();
    assert_eq!(swipe_plan(&p, true, 1, 1920, 1080).err(), Some(TouchError::NotReady));
    let mut q = TouchParams::new();
    set_params(&mut q, &Touch::default());
    assert_eq!(swipe_plan(&q, false, 1, 1920, 1080).err(), Some(TouchError::NotReady));
    assert!(matches!(swipe_plan(&q, true, 0, 1920, 1080), Ok(None)));
}

#[test]
fn swipe_geometry() {
    let mut p = TouchParams::new();
    set_params(&mut p, &Touch::default());
    let next = swipe_plan(&p, true, 1, 1920, 1080).unwrap().unwrap();
    assert_eq!(next.start_x, vec![870, 930, 990, 1050]);
    assert_eq!(next.end_x, vec![220, 280, 340, 400]);
    assert_eq!(next.total_dx, -650);
    assert_eq!(next.y, 540);
    assert_eq!((next.steps, next.step_delay_ms, next.easing), (28, 11, 1));
    let prev = swipe_plan(&p, true, -3, 1921, 1081).unwrap().unwrap();
    assert_eq!(prev.total_dx, 650);
    assert_eq!(prev.start_x, vec![870, 930, 990, 1050]);
    assert_eq!(prev.end_x, vec![1520, 1580, 1640, 1700]);
    assert_eq!(prev.y, 540);
}
