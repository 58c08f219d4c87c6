use win_desktop_switcher::hotkey::{
    keyboard_proc, key_action, set_cooldown, Action, HotkeyState, KeyEvent, KeyVerdict, VK_LEFT,
    VK_LSHIFT, VK_LWIN, VK_RIGHT, VK_RWIN, WM_KEYDOWN, WM_KEYUP, WM_SYSKEYDOWN,
};

fn ev(vk: u16, message: u32, now_ms: u64) -> KeyEvent {
    KeyEvent { vk, message, injected: false, now_ms }
}

fn pass() -> KeyVerdict {
    KeyVerdict { block: false, send: None, suppress_start_menu: false }
}

#[test]
fn fresh_state() {
    let s = HotkeyState::new(150);
    assert!(!s.win_pressed && !s.shift_pressed && !s.consumed_win);
    assert_eq!(s.last_key_switch_ms, 0);
    assert_eq!(s.cooldown_ms, 150);
}

#[test]
fn win_right_switches_and_keeps_start_menu_shut() {
    let mut s = HotkeyState::new(150);
    assert_eq!(keyboard_proc(&mut s, ev(VK_LWIN, WM_KEYDOWN, 900)), pass());
    assert!(s.win_pressed);
    let v = keyboard_proc(&mut s, ev(VK_RIGHT, WM_KEYDOWN, 1000));
    assert_eq!(v, KeyVerdict { block: true, send: Some(Action::SwitchNext), suppress_start_menu: false });
    assert_eq!(s.last_key_switch_ms, 1000);
    assert!(s.consumed_win);
    let v = keyboard_proc(&mut s, ev(VK_RIGHT, WM_KEYUP, 1050));
    assert_eq!(v, KeyVerdict { block: true, send: None, suppress_start_menu: false });
    let v = keyboard_proc(&mut s, ev(VK_LWIN, WM_KEYUP, 1100));
    assert_eq!(v, KeyVerdict { block: false, send: None, suppress_start_menu: true });
    assert!(!s.win_pressed && !s.consumed_win);
}

#[test]
fn plain_win_tap_opens_start_menu() {
    let mut s = HotkeyState::new(150);
    keyboard_proc(&mut s, ev(VK_RWIN, WM_KEYDOWN, 10));
    assert_eq!(keyboard_proc(&mut s, ev(VK_RWIN, WM_KEYUP, 20)), pass());
}

#[test]
fn auto_repeat_is_held_back_by_the_cooldown() {
    let mut s = HotkeyState::new(150);
    keyboard_proc(&mut s, ev(VK_LWIN, WM_KEYDOWN, 0));
    let a = keyboard_proc(&mut s, ev(VK_LEFT, WM_KEYDOWN, 1000));
    assert_eq!(a.send, Some(Action::SwitchPrev));
    let b = keyboard_proc(&mut s, ev(VK_LEFT, WM_KEYDOWN, 1100));
    assert_eq!(b, KeyVerdict { block: true, send: None, suppress_start_menu: false });
    assert_eq!(s.last_key_switch_ms, 1000);
    let c = keyboard_proc(&mut s, ev(VK_LEFT, WM_KEYDOWN, 1150));
    assert_eq!(c.send, Some(Action::SwitchPrev));
    assert_eq!(s.last_key_switch_ms, 1150);
}

#[test]
fn shift_digits_and_sys_keys() {
    let mut s = HotkeyState::new(0);
    keyboard_proc(&mut s, ev(VK_LWIN, WM_KEYDOWN, 0));
    keyboard_proc(&mut s, ev(VK_LSHIFT, WM_KEYDOWN, 1));
    assert!(s.shift_pressed);
    assert_eq!(keyboard_proc(&mut s, ev(VK_LEFT, WM_KEYDOWN, 2)).send, Some(Action::MovePrev));
    assert_eq!(keyboard_proc(&mut s, ev(VK_RIGHT, WM_SYSKEYDOWN, 3)).send, Some(Action::MoveNext));
    keyboard_proc(&mut s, ev(VK_LSHIFT, WM_KEYUP, 4));
    assert!(!s.shift_pressed);
    assert_eq!(keyboard_proc(&mut s, ev(0x33, WM_KEYDOWN, 5)).send, Some(Action::SwitchTo(2)));
    assert_eq!(keyboard_proc(&mut s, ev(0x31, WM_KEYDOWN, 6)).send, Some(Action::SwitchTo(0)));
    assert_eq!(keyboard_proc(&mut s, ev(0x39, WM_KEYDOWN, 7)).send, Some(Action::SwitchTo(8)));
}

#[test]
fn other_keys_and_keys_without_win_pass() {
    let mut s = HotkeyState::new(150);
    assert_eq!(keyboard_proc(&mut s, ev(VK_RIGHT, WM_KEYDOWN, 1000)), pass());
    keyboard_proc(&mut s, ev(VK_LWIN, WM_KEYDOWN, 1000));
    assert_eq!(keyboard_proc(&mut s, ev(0x41, WM_KEYDOWN, 1000)), pass());
    assert_eq!(keyboard_proc(&mut s, ev(0x30, WM_KEYDOWN, 1000)), pass());
    assert!(!s.consumed_win);
}

#[test]
fn injected_events_are_ignored() {
    let mut s = HotkeyState::new(150);
    keyboard_proc(&mut s, ev(VK_LWIN, WM_KEYDOWN, 0));
    let before = s;
    let v = keyboard_proc(&mut s, KeyEvent { vk: VK_RIGHT, message: WM_KEYDOWN, injected: true, now_ms: 5000 });
    assert_eq!(v, pass());
    assert_eq!(s, before);
}

#[test]
fn cooldown_can_be_changed() {
    let mut s = HotkeyState::new(150);
    set_cooldown(&mut s, 400);
    assert_eq!(s, HotkeyState::new(400));
}

#[test]
fn key_actions() {
    assert_eq!(key_action(VK_LEFT, false), Some(Action::SwitchPrev));
    assert_eq!(key_action(VK_RIGHT, true), Some(Action::MoveNext));
    assert_eq!(key_action(0x35, false), Some(Action::SwitchTo(4)));
    assert_eq!(key_action(0x26, false), None);
}
