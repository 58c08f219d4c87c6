use win_desktop_switcher::config::Config;
use win_desktop_switcher::hotkey::HotkeyState;
use win_desktop_switcher::touch::TouchParams;
use win_desktop_switcher::tray::{
    command_id, handle_command, reload_config, show_menu, tray_event_shows_menu, TrayCommand,
};
use win_desktop_switcher::wheel::WheelState;
use win_desktop_switcher::worker::WorkerSettings;

#[test]
fn menu_opens_on_right_click_and_double_click() {
    assert!(tray_event_shows_menu(0x0205));
    assert!(tray_event_shows_menu(0x0203));
    assert!(tray_event_shows_menu(0x7_0205));
    assert!(!tray_event_shows_menu(0x0202));
    assert!(!tray_event_shows_menu(0x0200));
}

#[test]
fn commands() {
    assert_eq!(command_id(0x1234_03E9), 1001);
    assert_eq!(handle_command(1001), Some(TrayCommand::ReloadConfig));
    assert_eq!(handle_command(1002), Some(TrayCommand::OpenConfig));
    assert_eq!(handle_command(1003), Some(TrayCommand::ToggleAutostart));
    assert_eq!(handle_command(1010), Some(TrayCommand::Quit));
    assert_eq!(handle_command(1004), None);
}

#[test]
fn menu_entries() {
    let m = show_menu(true);
    let labels: Vec<&str> = m.iter().map(|e| e.label).collect();
    assert_eq!(labels, vec!["Reload config", "Open config.toml", "Run at startup", "", "Quit"]);
    assert!(m[2].checked);
    assert!(m[3].separator);
    assert!(!show_menu(false)[2].checked);
}

#[test]
fn reload_reaches_all_hooks() {
    let mut cfg = Config::default();
    cfg.wheel.cooldown_ms = 300;
    cfg.wheel.threshold = 240;
    cfg.wheel.velocity_damping_milli = 7000;
    cfg.wheel.hot_zone_height_px = -1;
    cfg.touch.easing = "ease-in-out".to_string();
    cfg.touch.swipe_steps = 1;
    let mut worker = WorkerSettings::from_config(&cfg);
    cfg.animation.mode = "instant".to_string();
    cfg.animation.duration_ms = 500;
    cfg.animation.easing = "linear".to_string();
    cfg.overlay.enabled = false;
    cfg.navigation.wrap = false;
    let mut h = HotkeyState::new(150);
    h.win_pressed = true;
    let mut w = WheelState::new();
    w.accumulator = 40;
    let mut t = TouchParams::new();
    reload_config(&cfg, &mut h, &mut w, &mut t, &mut worker);
    assert_eq!(h.cooldown_ms, 300);
    assert!(h.win_pressed);
    assert_eq!((w.threshold, w.cooldown_ms, w.damping_milli, w.hot_zone_px, w.accumulator), (240, 300, 5000, 0, 40));
    assert_eq!((t.enabled, t.steps, t.easing), (true, 2, 3));
    assert_eq!(worker.animation_mode, "instant");
    assert_eq!(worker.duration_ms, 500);
    assert_eq!(worker.easing, "linear");
    assert!(!worker.overlay_enabled);
    assert!(!worker.wrap);
}
