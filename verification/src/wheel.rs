//! The mouse-wheel hook's decisions: Win+wheel, or the wheel over the hot zone
//! at the bottom of the screen, switches desktops once enough scrolling has
//! accumulated, with a cooldown and a threshold that grows during fast bursts.
//!
//! A wheel event is decided in two steps. [`mouse_proc`] filters the event,
//! applies the cooldown and counts the burst. When its answer is to measure
//! the event, the threshold for that burst length is a floating-point
//! product of the base threshold and the damping, worked out by the program;
//! [`wheel_accumulate`] then accumulates and decides on a switch.
use vstd::prelude::*;
use crate::hotkey::{Action, elapsed_ms};

verus! {

/// Window message of a vertical wheel turn.
pub const WM_MOUSEWHEEL: u32 = 0x020A;
/// Events closer together than this (ms) belong to one burst.
pub const BURST_WINDOW_MS: u64 = 50;
/// Largest damping factor, in thousandths (5.0).
pub const MAX_DAMPING_MILLI: u32 = 5000;

/// Parameters and running state of the wheel hook.
#[derive(Debug, Clone, Copy, PartialEq, Eq, Structural)]
pub struct WheelState {
    /// Scroll amount (wheel units, 120 per notch) that switches a desktop.
    pub threshold: i32,
    /// Quiet time (ms) after a switch during which wheel events are swallowed.
    pub cooldown_ms: u32,
    /// Threshold growth per burst event, in thousandths.
    pub damping_milli: u32,
    /// Height (px) of the zone at the bottom of the screen where the wheel
    /// switches without Win; 0 turns it off.
    pub hot_zone_px: i32,
    /// Scrolling accumulated in the current direction.
    pub accumulator: i32,
    /// Tick (ms) of the last wheel event that was measured.
    pub last_event_ms: u64,
    /// Tick (ms) of the last switch.
    pub last_switch_ms: u64,
    /// Number of measured events in the current burst, less one.
    pub burst_count: i32,
}

/// One low-level mouse event, as the hook reports it.
#[derive(Debug, Clone, Copy, PartialEq, Eq, Structural)]
pub struct WheelEvent {
    /// The window message.
    pub message: u32,
    /// The event was injected by software.
    pub injected: bool,
    /// A Windows key is held (from the keyboard hook).
    pub win_pressed: bool,
    /// Cursor position, y coordinate (px).
    pub cursor_y: i32,
    /// Height of the primary screen (px).
    pub screen_height: i32,
    /// The raw `mouseData` field: the signed wheel delta sits in its high word.
    pub mouse_data: u32,
    /// Tick (ms) at which the event is handled.
    pub now_ms: u64,
}

/// What the first step decides.
#[derive(Debug, Clone, Copy, PartialEq, Eq, Structural)]
pub enum WheelVerdict {
    /// Not ours: hand the event to the next hook.
    Pass,
    /// Ours, but nothing more to do: swallow the event.
    Swallow,
    /// Swallow the event, and accumulate it against the threshold scaled for
    /// this burst length.
    Measure { burst: i32 },
}

/// The first step's answer.
#[derive(Debug, Clone, Copy, PartialEq, Eq, Structural)]
pub struct WheelStep {
    pub verdict: WheelVerdict,
    /// Win served as a modifier: its release must not open the Start menu.
    pub consume_win: bool,
}

/// The signed wheel delta held in the high word of `mouse_data`.
pub open spec fn wheel_delta(mouse_data: u32) -> int {
    let hi = mouse_data as int / 65536;
    if hi >= 32768 {
        hi - 65536
    } else {
        hi
    }
}

/// The cursor is over the hot zone at the bottom of the screen.
pub open spec fn in_hot_zone(s: WheelState, e: WheelEvent) -> bool {
    s.hot_zone_px > 0 && e.cursor_y >= e.screen_height - s.hot_zone_px
}

pub open spec fn sign(x: int) -> int {
    if x > 0 {
        1
    } else if x < 0 {
        -1
    } else {
        0
    }
}

/// `i32` addition that wraps around, as `AtomicI32::fetch_add` does.
pub open spec fn wrap_i32(x: int) -> i32 {
    if x > i32::MAX {
        (x - 0x1_0000_0000) as i32
    } else if x < i32::MIN {
        (x + 0x1_0000_0000) as i32
    } else {
        x as i32
    }
}

/// The accumulator before adding `delta`: emptied when the direction reverses.
pub open spec fn accumulator_base(acc: i32, delta: i32) -> int {
    if acc != 0 && sign(acc as int) != sign(delta as int) {
        0
    } else {
        acc as int
    }
}

/// The accumulator after adding `delta`.
pub open spec fn accumulator_next(acc: i32, delta: i32) -> i32 {
    wrap_i32(accumulator_base(acc, delta) + delta)
}

pub open spec fn abs(x: int) -> int {
    if x < 0 {
        -x
    } else {
        x
    }
}

/// The first step on one event: next state and answer.
pub open spec fn wheel_begin(s: WheelState, e: WheelEvent) -> (WheelState, WheelStep) {
    let pass = WheelStep { verdict: WheelVerdict::Pass, consume_win: false };
    if e.message != WM_MOUSEWHEEL || e.injected {
        (s, pass)
    } else if !e.win_pressed && !in_hot_zone(s, e) {
        (s, pass)
    } else if wheel_delta(e.mouse_data) == 0 {
        (s, WheelStep { verdict: WheelVerdict::Swallow, consume_win: false })
    } else if elapsed_ms(e.now_ms, s.last_switch_ms) < s.cooldown_ms {
        (s, WheelStep { verdict: WheelVerdict::Swallow, consume_win: e.win_pressed })
    } else if elapsed_ms(e.now_ms, s.last_event_ms) < BURST_WINDOW_MS {
        let b = wrap_i32(s.burst_count + 1);
        (
            WheelState { burst_count: b, last_event_ms: e.now_ms, ..s },
            WheelStep { verdict: WheelVerdict::Measure { burst: b }, consume_win: e.win_pressed },
        )
    } else {
        (
            WheelState { burst_count: 0, last_event_ms: e.now_ms, ..s },
            WheelStep { verdict: WheelVerdict::Measure { burst: 0 }, consume_win: e.win_pressed },
        )
    }
}

/// The second step: accumulate `delta` and switch once the accumulated amount
/// reaches `threshold` (scrolling up goes to the previous desktop).
pub open spec fn wheel_finish(s: WheelState, delta: i32, now_ms: u64, threshold: i32) -> (
    WheelState,
    Option<Action>,
) {
    let acc = accumulator_next(s.accumulator, delta);
    if abs(acc as int) >= threshold {
        (
            WheelState { accumulator: 0, last_switch_ms: now_ms, ..s },
            Some(if acc > 0 { Action::SwitchPrev } else { Action::SwitchNext }),
        )
    } else {
        (WheelState { accumulator: acc, ..s }, None)
    }
}

impl WheelState {
    /// The hook's state before any configuration is applied.
    pub fn new() -> (s: WheelState)
        ensures
            s == (WheelState {
                threshold: 120,
                cooldown_ms: 150,
                damping_milli: 400,
                hot_zone_px: 60,
                accumulator: 0,
                last_event_ms: 0,
                last_switch_ms: 0,
                burst_count: 0,
            }),
    {
        WheelState {
            threshold: 120,
            cooldown_ms: 150,
            damping_milli: 400,
            hot_zone_px: 60,
            accumulator: 0,
            last_event_ms: 0,
            last_switch_ms: 0,
            burst_count: 0,
        }
    }
}

/// Sets the wheel parameters without touching the running state (for a
/// configuration reload): the damping is capped at 5.0, the hot zone at no less than 0.
pub fn set_params(
    state: &mut WheelState,
    threshold: i32,
    cooldown_ms: u32,
    damping_milli: u32,
    hot_zone_px: i32,
)
    ensures
        *final(state) == (WheelState {
            threshold,
            cooldown_ms,
            damping_milli: if damping_milli > MAX_DAMPING_MILLI {
                MAX_DAMPING_MILLI
            } else {
                damping_milli
            },
            hot_zone_px: if hot_zone_px < 0 {
                0
            } else {
                hot_zone_px
            },
            ..*old(state)
        }),
{
    state.threshold = threshold;
    state.cooldown_ms = cooldown_ms;
    state.damping_milli = if damping_milli > MAX_DAMPING_MILLI {
        MAX_DAMPING_MILLI
    } else {
        damping_milli
    };
    state.hot_zone_px = if hot_zone_px < 0 {
        0
    } else {
        hot_zone_px
    };
}

/// The signed wheel delta of a raw `mouseData` value.
pub fn delta_of(mouse_data: u32) -> (d: i32)
    ensures
        d == wheel_delta(mouse_data),
{
    let hi: u32 = mouse_data >> 16;
    assert(hi == mouse_data / 65536) by (bit_vector)
        requires
            hi == mouse_data >> 16,
    ;
    let d = ((mouse_data >> 16) as i16) as i32;
    assert(d == (if hi >= 32768 {
        hi - 65536
    } else {
        hi as int
    })) by (bit_vector)
        requires
            hi == mouse_data >> 16,
            d == ((mouse_data >> 16) as i16) as i32,
    ;
    d
}

fn sign_of(x: i32) -> (r: i32)
    ensures
        r == sign(x as int),
{
    if x > 0 {
        1
    } else if x < 0 {
        -1
    } else {
        0
    }
}

/// The accumulator after adding `delta` to `acc`, emptied first when the direction reverses.
pub fn next_accumulator(acc: i32, delta: i32) -> (r: i32)
    ensures
        r == accumulator_next(acc, delta),
{
    let base: i32 = if acc != 0 && sign_of(acc) != sign_of(delta) {
        0
    } else {
        acc
    };
    let r = base.wrapping_add(delta);
    r
}

/// First step of the hook on one event: filters, applies the cooldown and counts the burst.
pub fn mouse_proc(state: &mut WheelState, ev: WheelEvent) -> (step: WheelStep)
    ensures
        (*final(state), step) == wheel_begin(*old(state), ev),
{
    let pass = WheelStep { verdict: WheelVerdict::Pass, consume_win: false };
    if ev.message != WM_MOUSEWHEEL || ev.injected {
        return pass;
    }
    let in_zone = if state.hot_zone_px > 0 {
        ev.cursor_y as i64 >= ev.screen_height as i64 - state.hot_zone_px as i64
    } else {
        false
    };
    if !ev.win_pressed && !in_zone {
        return pass;
    }
    let delta = delta_of(ev.mouse_data);
    if delta == 0 {
        return WheelStep { verdict: WheelVerdict::Swallow, consume_win: false };
    }
    let now = ev.now_ms;
    if now.saturating_sub(state.last_switch_ms) < state.cooldown_ms as u64 {
        return WheelStep { verdict: WheelVerdict::Swallow, consume_win: ev.win_pressed };
    }
    let burst: i32 = if now.saturating_sub(state.last_event_ms) < BURST_WINDOW_MS {
        state.burst_count.wrapping_add(1)
    } else {
        0
    };
    state.burst_count = burst;
    state.last_event_ms = now;
    WheelStep { verdict: WheelVerdict::Measure { burst }, consume_win: ev.win_pressed }
}

/// Second step of the hook: accumulates `delta` and answers the action to send, if any.
/// `threshold` is the configured threshold scaled for the burst that the first step reported.
pub fn wheel_accumulate(state: &mut WheelState, delta: i32, now_ms: u64, threshold: i32) -> (r:
    Option<Action>)
    requires
        accumulator_next(old(state).accumulator, delta) != i32::MIN,
    ensures
        (*final(state), r) == wheel_finish(*old(state), delta, now_ms, threshold),
{
    let acc = next_accumulator(state.accumulator, delta);
    let magnitude: i32 = if acc < 0 {
        -acc
    } else {
        acc
    };
    if magnitude >= threshold {
        state.accumulator = 0;
        state.last_switch_ms = now_ms;
        if acc > 0 {
            Some(Action::SwitchPrev)
        } else {
            Some(Action::SwitchNext)
        }
    } else {
        state.accumulator = acc;
        None
    }
}

/// Events that are not wheel turns, injected ones, and turns made without Win
/// away from the hot zone pass untouched and leave the state as it was.
pub proof fn foreign_wheel_events_pass(s: WheelState, e: WheelEvent)
    requires
        e.message != WM_MOUSEWHEEL || e.injected || (!e.win_pressed && !in_hot_zone(s, e)),
    ensures
        wheel_begin(s, e) == (s, WheelStep { verdict: WheelVerdict::Pass, consume_win: false }),
{
}

/// During the cooldown after a switch, wheel events are swallowed without
/// accumulating anything: the state stays as it was.
pub proof fn cooldown_swallows_wheel(s: WheelState, e: WheelEvent)
    requires
        e.message == WM_MOUSEWHEEL,
        !e.injected,
        e.win_pressed || in_hot_zone(s, e),
        elapsed_ms(e.now_ms, s.last_switch_ms) < s.cooldown_ms,
    ensures
        wheel_begin(s, e).0 == s,
        wheel_begin(s, e).1.verdict == WheelVerdict::Swallow,
{
}

/// A switch happens exactly when the accumulated scrolling reaches the
/// threshold; it empties the accumulator and starts the cooldown. Otherwise the
/// accumulated amount stays below the threshold.
pub proof fn switch_exactly_at_threshold(s: WheelState, delta: i32, now_ms: u64, threshold: i32)
    ensures
        wheel_finish(s, delta, now_ms, threshold).1 is Some <==> abs(
            accumulator_next(s.accumulator, delta) as int,
        ) >= threshold,
        wheel_finish(s, delta, now_ms, threshold).1 is Some ==> wheel_finish(
            s,
            delta,
            now_ms,
            threshold,
        ).0.accumulator == 0 && wheel_finish(s, delta, now_ms, threshold).0.last_switch_ms
            == now_ms,
        wheel_finish(s, delta, now_ms, threshold).1 is None ==> abs(
            wheel_finish(s, delta, now_ms, threshold).0.accumulator as int,
        ) < threshold,
{
}

/// Scrolling up can only go to the previous desktop and scrolling down only to
/// the next one, and the accumulator never mixes the two directions.
pub proof fn scroll_direction_decides(s: WheelState, delta: i32, now_ms: u64, threshold: i32)
    requires
        delta != 0,
        i32::MIN < accumulator_base(s.accumulator, delta) + delta <= i32::MAX,
    ensures
        wheel_finish(s, delta, now_ms, threshold).1 == Some(Action::SwitchPrev) ==> delta > 0,
        wheel_finish(s, delta, now_ms, threshold).1 == Some(Action::SwitchNext) ==> delta < 0,
        wheel_finish(s, delta, now_ms, threshold).1 is Some || sign(
            wheel_finish(s, delta, now_ms, threshold).0.accumulator as int,
        ) == sign(delta as int),
{
}

/// After a switch, no wheel event inside the cooldown can lead to another one:
/// the first step never asks to measure it.
pub proof fn no_switch_within_cooldown(
    s: WheelState,
    delta: i32,
    t: u64,
    threshold: i32,
    e: WheelEvent,
)
    requires
        wheel_finish(s, delta, t, threshold).1 is Some,
        elapsed_ms(e.now_ms, t) < s.cooldown_ms,
    ensures
        !(wheel_begin(wheel_finish(s, delta, t, threshold).0, e).1.verdict is Measure),
{
}

/// A hot zone of height 0 is off; a wheel turn over an active hot zone is
/// handled without Win held.
pub proof fn hot_zone_switches_without_win(s: WheelState, e: WheelEvent)
    ensures
        s.hot_zone_px == 0 ==> !in_hot_zone(s, e),
        e.message == WM_MOUSEWHEEL && !e.injected && in_hot_zone(s, e) ==> wheel_begin(
            s,
            e,
        ).1.verdict != WheelVerdict::Pass,
        e.message == WM_MOUSEWHEEL && !e.injected && in_hot_zone(s, e) && !e.win_pressed
            ==> !wheel_begin(s, e).1.consume_win,
{
}

/// Measured events less than 50 ms after the previous one lengthen the burst
/// by one; a pause starts a new burst at zero.
pub proof fn bursts_count_fast_events(s: WheelState, e: WheelEvent)
    requires
        (wheel_begin(s, e).1.verdict is Measure),
        s.burst_count < i32::MAX,
    ensures
        elapsed_ms(e.now_ms, s.last_event_ms) < BURST_WINDOW_MS ==> wheel_begin(s, e).1.verdict
            == (WheelVerdict::Measure { burst: (s.burst_count + 1) as i32 }),
        elapsed_ms(e.now_ms, s.last_event_ms) >= BURST_WINDOW_MS ==> wheel_begin(s, e).1.verdict
            == (WheelVerdict::Measure { burst: 0 }),
        wheel_begin(s, e).0.last_event_ms == e.now_ms,
{
}

/// Without Win, a wheel turn is ours exactly over the bottom `hot_zone_px`
/// rows of the screen: with the cursor above them the turn passes on to the
/// window under it, on them it is swallowed.
pub proof fn hot_zone_is_the_bottom_rows(s: WheelState, e: WheelEvent)
    requires
        e.message == 0x020A,
        !e.injected,
        !e.win_pressed,
    ensures
        (s.hot_zone_px <= 0 || e.cursor_y < e.screen_height - s.hot_zone_px) ==> wheel_begin(
            s,
            e,
        ) == (s, WheelStep { verdict: WheelVerdict::Pass, consume_win: false }),
        (s.hot_zone_px > 0 && e.cursor_y >= e.screen_height - s.hot_zone_px) ==> wheel_begin(
            s,
            e,
        ).1.verdict != WheelVerdict::Pass,
{
}

/// With Win held, every wheel turn is ours, wherever the cursor is; a turn
/// that moved the wheel marks Win as used.
pub proof fn win_wheel_is_ours(s: WheelState, e: WheelEvent)
    requires
        e.message == 0x020A,
        !e.injected,
        e.win_pressed,
    ensures
        wheel_begin(s, e).1.verdict != WheelVerdict::Pass,
        wheel_begin(s, e).1.consume_win == (e.mouse_data / 65536 != 0),
{
}

/// The wheel delta is the high 16 bits of `mouse_data` read as a signed number.
pub proof fn delta_is_signed_high_word(m: u32)
    ensures
        -32768 <= wheel_delta(m) <= 32767,
        (wheel_delta(m) - m as int / 65536) % 65536 == 0,
        m as int / 65536 <= 32767 ==> wheel_delta(m) == m as int / 65536,
{
}

} // verus!
