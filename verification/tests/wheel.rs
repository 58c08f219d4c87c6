use win_desktop_switcher::hotkey::Action;
use win_desktop_switcher::wheel::{
    delta_of, mouse_proc, next_accumulator, set_params, wheel_accumulate, WheelEvent, WheelState,
    WheelStep, WheelVerdict, WM_MOUSEWHEEL,
};

fn wheel(delta: i16, win: bool, y: i32, now_ms: u64) -> WheelEvent {
    WheelEvent {
        message: WM_MOUSEWHEEL,
        injected: false,
        win_pressed: win,
        cursor_y: y,
        screen_height: 1080,
        mouse_data: ((delta as u16 as u32) << 16) | 0x1234,
        now_ms,
    }
}

#[test]
fn delta_is_the_signed_high_word() {
    assert_eq!(delta_of(0x0078_0000), 120);
    assert_eq!(delta_of(0xFF88_0000), -120);
    assert_eq!(delta_of(0x8000_FFFF), -32768);
    assert_eq!(delta_of(0x7FFF_0000), 32767);
    assert_eq!(delta_of(0x0000_FFFF), 0);
}

#[test]
fn foreign_events_pass() {
    let mut s = WheelState::new();
    let pass = WheelStep { verdict: WheelVerdict::Pass, consume_win: false };
    let mut e = wheel(120, true, 0, 1000);
    e.message = 0x0200;
    assert_eq!(mouse_proc(&mut s, e), pass);
    let mut e = wheel(120, true, 0, 1000);
    e.injected = true;
    assert_eq!(mouse_proc(&mut s, e), pass);
    assert_eq!(mouse_proc(&mut s, wheel(120, false, 500, 1000)), pass);
    assert_eq!(s, WheelState::new());
}

#[test]
fn hot_zone_works_without_win() {
    let mut s = WheelState::new();
    let step = mouse_proc(&mut s, wheel(-120, false, 1030, 1000));
    assert_eq!(step, WheelStep { verdict: WheelVerdict::Measure { burst: 0 }, consume_win: false });
    assert_eq!(s.last_event_ms, 1000);
    let mut s = WheelState::new();
    set_params(&mut s, 120, 150, 400, 0);
    let step = mouse_proc(&mut s, wheel(-120, false, 1079, 1000));
    assert_eq!(step.verdict, WheelVerdict::Pass);
}

#[test]
fn zero_delta_is_swallowed_quietly() {
    let mut s = WheelState::new();
    let step = mouse_proc(&mut s, wheel(0, true, 0, 1000));
    assert_eq!(step, WheelStep { verdict: WheelVerdict::Swallow, consume_win: false });
}

#[test]
fn one_notch_switches() {
    let mut s = WheelState::new();
    let step = mouse_proc(&mut s, wheel(120, true, 0, 1000));
    assert_eq!(step, WheelStep { verdict: WheelVerdict::Measure { burst: 0 }, consume_win: true });
    assert_eq!(wheel_accumulate(&mut s, 120, 1000, 120), Some(Action::SwitchPrev));
    assert_eq!(s.accumulator, 0);
    assert_eq!(s.last_switch_ms, 1000);
    let mut s = WheelState::new();
    assert_eq!(wheel_accumulate(&mut s, -120, 2000, 120), Some(Action::SwitchNext));
}

#[test]
fn small_turns_accumulate_and_reversal_restarts() {
    let mut s = WheelState::new();
    assert_eq!(wheel_accumulate(&mut s, 60, 1000, 120), None);
    assert_eq!(s.accumulator, 60);
    assert_eq!(wheel_accumulate(&mut s, -40, 1100, 120), None);
    assert_eq!(s.accumulator, -40);
    assert_eq!(wheel_accumulate(&mut s, -80, 1200, 120), Some(Action::SwitchNext));
    assert_eq!(next_accumulator(50, 30), 80);
    assert_eq!(next_accumulator(50, -30), -30);
    assert_eq!(next_accumulator(0, -30), -30);
}

#[test]
fn cooldown_after_switch_swallows() {
    let mut s = WheelState::new();
    mouse_proc(&mut s, wheel(120, true, 0, 1000));
    wheel_accumulate(&mut s, 120, 1000, 120);
    let before = s;
    let step = mouse_proc(&mut s, wheel(120, true, 0, 1100));
    assert_eq!(step, WheelStep { verdict: WheelVerdict::Swallow, consume_win: true });
    assert_eq!(s, before);
    let step = mouse_proc(&mut s, wheel(120, true, 0, 1150));
    assert!(matches!(step.verdict, WheelVerdict::Measure { .. }));
}

#[test]
fn fast_bursts_are_counted() {
    let mut s = WheelState::new();
    set_params(&mut s, 120, 0, 400, 60);
    assert_eq!(mouse_proc(&mut s, wheel(40, true, 0, 1000)).verdict, WheelVerdict::Measure { burst: 0 });
    assert_eq!(mouse_proc(&mut s, wheel(40, true, 0, 1030)).verdict, WheelVerdict::Measure { burst: 1 });
    assert_eq!(mouse_proc(&mut s, wheel(40, true, 0, 1060)).verdict, WheelVerdict::Measure { burst: 2 });
    assert_eq!(mouse_proc(&mut s, wheel(40, true, 0, 1200)).verdict, WheelVerdict::Measure { burst: 0 });
    assert_eq!(s.burst_count, 0);
}

#[test]
fn params_are_bounded() {
    let mut s = WheelState::new();
    set_params(&mut s, 240, 300, 9000, -5);
    assert_eq!((s.threshold, s.cooldown_ms, s.damping_milli, s.hot_zone_px), (240, 300, 5000, 0));
    set_params(&mut s, 240, 300, 1200, 80);
    assert_eq!((s.damping_milli, s.hot_zone_px), (1200, 80));
}
