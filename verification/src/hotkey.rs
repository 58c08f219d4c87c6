//! The keyboard hook's decisions: Win+←/→ and Win+Shift+←/→, Win+1..9, with a
//! cooldown against auto-repeat, and suppression of the Start menu after Win
//! has served as a modifier.
use vstd::prelude::*;

verus! {

/// Virtual-key code of Shift.
pub const VK_SHIFT: u16 = 0x10;
/// Virtual-key code of the left arrow.
pub const VK_LEFT: u16 = 0x25;
/// Virtual-key code of the right arrow.
pub const VK_RIGHT: u16 = 0x27;
/// Virtual-key code of the digit 1 (digits 1..9 follow in order).
pub const VK_1: u16 = 0x31;
/// Virtual-key code of the digit 9.
pub const VK_9: u16 = 0x39;
/// Virtual-key code of the left Windows key.
pub const VK_LWIN: u16 = 0x5B;
/// Virtual-key code of the right Windows key.
pub const VK_RWIN: u16 = 0x5C;
/// Virtual-key code of the left Shift.
pub const VK_LSHIFT: u16 = 0xA0;
/// Virtual-key code of the right Shift.
pub const VK_RSHIFT: u16 = 0xA1;
/// Window message of a key press.
pub const WM_KEYDOWN: u32 = 0x0100;
/// Window message of a key release.
pub const WM_KEYUP: u32 = 0x0101;
/// Window message of a key press while Alt is held.
pub const WM_SYSKEYDOWN: u32 = 0x0104;
/// Window message of a key release while Alt is held.
pub const WM_SYSKEYUP: u32 = 0x0105;
/// Cooldown between two hotkey switches until the configuration sets one.
pub const DEFAULT_COOLDOWN_MS: u32 = 150;

/// Commands from the hooks to the desktop worker.
#[derive(Debug, Clone, Copy, PartialEq, Eq, Structural)]
pub enum Action {
    SwitchPrev,
    SwitchNext,
    SwitchTo(u32),
    MovePrev,
    MoveNext,
}

/// State that the keyboard hook keeps between events.
#[derive(Debug, Clone, Copy, PartialEq, Eq, Structural)]
pub struct HotkeyState {
    /// A Windows key is held.
    pub win_pressed: bool,
    /// A Shift key is held.
    pub shift_pressed: bool,
    /// Win served as a modifier of one of our hotkeys since it was pressed.
    pub consumed_win: bool,
    /// Tick (ms) of the last hotkey that sent an action.
    pub last_key_switch_ms: u64,
    /// Minimum time (ms) between two sent actions.
    pub cooldown_ms: u32,
}

/// One low-level keyboard event, as the hook reports it.
#[derive(Debug, Clone, Copy, PartialEq, Eq, Structural)]
pub struct KeyEvent {
    /// Virtual-key code.
    pub vk: u16,
    /// The window message (`WM_KEYDOWN`, `WM_KEYUP`, ...).
    pub message: u32,
    /// The event was injected by software (for instance by ourselves).
    pub injected: bool,
    /// Tick (ms) at which the event is handled.
    pub now_ms: u64,
}

/// What the hook does with an event.
#[derive(Debug, Clone, Copy, PartialEq, Eq, Structural)]
pub struct KeyVerdict {
    /// Swallow the event (true) or pass it on to the next hook (false).
    pub block: bool,
    /// Action to hand to the desktop worker.
    pub send: Option<Action>,
    /// Inject a dummy Ctrl press and release, so that the Start menu stays closed.
    pub suppress_start_menu: bool,
}

/// Letting the event through untouched.
pub open spec fn pass_verdict() -> KeyVerdict {
    KeyVerdict { block: false, send: None, suppress_start_menu: false }
}

pub open spec fn is_key_down(message: u32) -> bool {
    message == WM_KEYDOWN || message == WM_SYSKEYDOWN
}

pub open spec fn is_key_up(message: u32) -> bool {
    message == WM_KEYUP || message == WM_SYSKEYUP
}

pub open spec fn is_win_key(vk: u16) -> bool {
    vk == VK_LWIN || vk == VK_RWIN
}

pub open spec fn is_shift_key(vk: u16) -> bool {
    vk == VK_LSHIFT || vk == VK_RSHIFT || vk == VK_SHIFT
}

/// Time from `since` to `now`, zero if the clock went back (`u64::saturating_sub`).
pub open spec fn elapsed_ms(now: u64, since: u64) -> int {
    if now >= since {
        now - since
    } else {
        0
    }
}

/// The action that a key stands for while Win is held.
pub open spec fn hotkey_action(vk: u16, shift: bool) -> Option<Action> {
    if vk == VK_LEFT {
        Some(if shift { Action::MovePrev } else { Action::SwitchPrev })
    } else if vk == VK_RIGHT {
        Some(if shift { Action::MoveNext } else { Action::SwitchNext })
    } else if VK_1 <= vk <= VK_9 {
        Some(Action::SwitchTo((vk - VK_1) as u32))
    } else {
        None
    }
}

/// The hook's whole behaviour on one event: next state and verdict.
pub open spec fn key_transition(s: HotkeyState, e: KeyEvent) -> (HotkeyState, KeyVerdict) {
    if e.injected {
        (s, pass_verdict())
    } else if is_win_key(e.vk) {
        if is_key_down(e.message) {
            (HotkeyState { win_pressed: true, ..s }, pass_verdict())
        } else if is_key_up(e.message) {
            (
                HotkeyState { win_pressed: false, consumed_win: false, ..s },
                KeyVerdict { suppress_start_menu: s.consumed_win, ..pass_verdict() },
            )
        } else {
            (s, pass_verdict())
        }
    } else if is_shift_key(e.vk) {
        if is_key_down(e.message) {
            (HotkeyState { shift_pressed: true, ..s }, pass_verdict())
        } else if is_key_up(e.message) {
            (HotkeyState { shift_pressed: false, ..s }, pass_verdict())
        } else {
            (s, pass_verdict())
        }
    } else if !s.win_pressed {
        (s, pass_verdict())
    } else {
        match hotkey_action(e.vk, s.shift_pressed) {
            None => (s, pass_verdict()),
            Some(a) => {
                if !is_key_down(e.message) {
                    (s, KeyVerdict { block: true, ..pass_verdict() })
                } else if elapsed_ms(e.now_ms, s.last_key_switch_ms) >= s.cooldown_ms {
                    (
                        HotkeyState { consumed_win: true, last_key_switch_ms: e.now_ms, ..s },
                        KeyVerdict { block: true, send: Some(a), suppress_start_menu: false },
                    )
                } else {
                    (
                        HotkeyState { consumed_win: true, ..s },
                        KeyVerdict { block: true, ..pass_verdict() },
                    )
                }
            },
        }
    }
}

impl HotkeyState {
    /// The state when the hook is installed: no key held, no switch yet.
    pub fn new(cooldown_ms: u32) -> (s: HotkeyState)
        ensures
            s == (HotkeyState {
                win_pressed: false,
                shift_pressed: false,
                consumed_win: false,
                last_key_switch_ms: 0,
                cooldown_ms,
            }),
    {
        HotkeyState {
            win_pressed: false,
            shift_pressed: false,
            consumed_win: false,
            last_key_switch_ms: 0,
            cooldown_ms,
        }
    }
}

/// Changes the cooldown without touching anything else (for a configuration reload).
pub fn set_cooldown(state: &mut HotkeyState, ms: u32)
    ensures
        *final(state) == (HotkeyState { cooldown_ms: ms, ..*old(state) }),
{
    state.cooldown_ms = ms;
}

/// The action that key `vk` stands for while Win is held, given whether Shift is held.
pub fn key_action(vk: u16, shift: bool) -> (r: Option<Action>)
    ensures
        r == hotkey_action(vk, shift),
{
    if vk == VK_LEFT {
        Some(if shift { Action::MovePrev } else { Action::SwitchPrev })
    } else if vk == VK_RIGHT {
        Some(if shift { Action::MoveNext } else { Action::SwitchNext })
    } else if VK_1 <= vk && vk <= VK_9 {
        Some(Action::SwitchTo((vk - VK_1) as u32))
    } else {
        None
    }
}

/// Handles one keyboard event: updates the hook state and says whether to
/// swallow the event, which action to send and whether to keep the Start menu shut.
pub fn keyboard_proc(state: &mut HotkeyState, ev: KeyEvent) -> (v: KeyVerdict)
    ensures
        (*final(state), v) == key_transition(*old(state), ev),
{
    let pass = KeyVerdict { block: false, send: None, suppress_start_menu: false };
    if ev.injected {
        return pass;
    }
    let down = ev.message == WM_KEYDOWN || ev.message == WM_SYSKEYDOWN;
    let up = ev.message == WM_KEYUP || ev.message == WM_SYSKEYUP;
    if ev.vk == VK_LWIN || ev.vk == VK_RWIN {
        if down {
            state.win_pressed = true;
            return pass;
        } else if up {
            let was_consumed = state.consumed_win;
            state.win_pressed = false;
            state.consumed_win = false;
            return KeyVerdict { block: false, send: None, suppress_start_menu: was_consumed };
        }
        return pass;
    }
    if ev.vk == VK_LSHIFT || ev.vk == VK_RSHIFT || ev.vk == VK_SHIFT {
        if down {
            state.shift_pressed = true;
        } else if up {
            state.shift_pressed = false;
        }
        return pass;
    }
    if !state.win_pressed {
        return pass;
    }
    let act = match key_action(ev.vk, state.shift_pressed) {
        None => {
            return pass;
        },
        Some(a) => a,
    };
    if down {
        let since = ev.now_ms.saturating_sub(state.last_key_switch_ms);
        let mut send: Option<Action> = None;
        if since >= state.cooldown_ms as u64 {
            send = Some(act);
            state.last_key_switch_ms = ev.now_ms;
        }
        state.consumed_win = true;
        return KeyVerdict { block: true, send, suppress_start_menu: false };
    }
    KeyVerdict { block: true, send: None, suppress_start_menu: false }
}

/// The hook state after the first `k` events of `evs`.
pub open spec fn key_state_after(s: HotkeyState, evs: Seq<KeyEvent>, k: nat) -> HotkeyState
    decreases k,
{
    if k == 0 {
        s
    } else {
        key_transition(key_state_after(s, evs, (k - 1) as nat), evs[k - 1]).0
    }
}

/// The verdict on event `k` of `evs`.
pub open spec fn key_verdict_at(s: HotkeyState, evs: Seq<KeyEvent>, k: nat) -> KeyVerdict {
    key_transition(key_state_after(s, evs, k), evs[k as int]).1
}

/// Events marked as injected (our own dummy Ctrl among them) are never acted on:
/// the state stays as it was and the event passes.
pub proof fn injected_events_pass(s: HotkeyState, e: KeyEvent)
    requires
        e.injected,
    ensures
        key_transition(s, e) == (s, pass_verdict()),
{
}

/// While Win is held, a hotkey never reaches the system, neither its press nor
/// its release, so Windows' own Win+arrow handling (Snap) never sees it.
pub proof fn held_hotkeys_are_swallowed(s: HotkeyState, e: KeyEvent)
    requires
        !e.injected,
        s.win_pressed,
        !is_win_key(e.vk),
        !is_shift_key(e.vk),
        hotkey_action(e.vk, s.shift_pressed) is Some,
    ensures
        key_transition(s, e).1.block,
{
}

/// Releasing Win keeps the Start menu shut exactly when Win served as a
/// modifier of a hotkey since it was pressed, and starts the next press afresh.
pub proof fn win_release_suppresses_start_menu(s: HotkeyState, e: KeyEvent)
    requires
        !e.injected,
        is_win_key(e.vk),
        is_key_up(e.message),
    ensures
        key_transition(s, e).1.suppress_start_menu == s.consumed_win,
        !key_transition(s, e).0.consumed_win,
        !key_transition(s, e).0.win_pressed,
        !key_transition(s, e).1.block,
{
}

/// A hotkey pressed with Win held marks Win as used, whether or not the cooldown let it through.
pub proof fn hotkey_press_consumes_win(s: HotkeyState, e: KeyEvent)
    requires
        !e.injected,
        s.win_pressed,
        !is_win_key(e.vk),
        !is_shift_key(e.vk),
        hotkey_action(e.vk, s.shift_pressed) is Some,
        is_key_down(e.message),
    ensures
        key_transition(s, e).0.consumed_win,
        key_transition(s, e).1.send is Some ==> key_transition(s, e).1.send == hotkey_action(
            e.vk,
            s.shift_pressed,
        ),
{
}

proof fn lemma_cooldown_constant(s: HotkeyState, evs: Seq<KeyEvent>, k: nat)
    requires
        k <= evs.len(),
    ensures
        key_state_after(s, evs, k).cooldown_ms == s.cooldown_ms,
    decreases k,
{
    if k > 0 {
        lemma_cooldown_constant(s, evs, (k - 1) as nat);
    }
}

proof fn lemma_last_switch_kept(s: HotkeyState, evs: Seq<KeyEvent>, i: nat, k: nat)
    requires
        i < k <= evs.len(),
        key_verdict_at(s, evs, i).send is Some,
        forall|m: nat| i < m < k ==> (#[trigger] key_verdict_at(s, evs, m)).send is None,
    ensures
        key_state_after(s, evs, k).last_key_switch_ms == evs[i as int].now_ms,
    decreases k - i,
{
    if k > i + 1 {
        lemma_last_switch_kept(s, evs, i, (k - 1) as nat);
        assert(key_verdict_at(s, evs, (k - 1) as nat).send is None);
    }
}

/// Between two actions that the hook sends, with none sent in between, at
/// least one cooldown passes: holding an arrow with Win does not flood the worker.
pub proof fn sent_actions_respect_cooldown(s: HotkeyState, evs: Seq<KeyEvent>, i: nat, j: nat)
    requires
        i < j < evs.len(),
        key_verdict_at(s, evs, i).send is Some,
        key_verdict_at(s, evs, j).send is Some,
        forall|m: nat| i < m < j ==> (#[trigger] key_verdict_at(s, evs, m)).send is None,
    ensures
        elapsed_ms(evs[j as int].now_ms, evs[i as int].now_ms) >= s.cooldown_ms,
{
    lemma_last_switch_kept(s, evs, i, j);
    lemma_cooldown_constant(s, evs, j);
}

/// Win+1 .. Win+9 stand for desktops 0 .. 8, with or without Shift.
pub proof fn digit_hotkeys_jump(k: u16, shift: bool)
    requires
        1 <= k <= 9,
    ensures
        hotkey_action((VK_1 + k - 1) as u16, shift) == Some(Action::SwitchTo((k - 1) as u32)),
{
}

/// Both Windows keys (left 0x5B, right 0x5C) are Win: pressing either sets
/// Win as held and releasing either clears it, and either lets the event pass.
pub proof fn both_windows_keys_are_win(s: HotkeyState, e: KeyEvent)
    requires
        !e.injected,
        e.vk == 0x5B || e.vk == 0x5C,
    ensures
        (e.message == 0x0100 || e.message == 0x0104) ==> key_transition(s, e).0.win_pressed,
        (e.message == 0x0101 || e.message == 0x0105) ==> !key_transition(s, e).0.win_pressed,
        !key_transition(s, e).1.block,
        key_transition(s, e).1.send is None,
{
}

/// Pressing either Windows key and then an arrow, once the cooldown has
/// passed, switches: left to the previous desktop, right to the next (with
/// Shift the window moves instead); the arrow is swallowed.
pub proof fn win_then_arrow_switches(s: HotkeyState, w: KeyEvent, a: KeyEvent)
    requires
        !w.injected,
        w.vk == 0x5B || w.vk == 0x5C,
        w.message == 0x0100,
        !a.injected,
        a.vk == 0x25 || a.vk == 0x27,
        a.message == 0x0100,
        elapsed_ms(a.now_ms, s.last_key_switch_ms) >= s.cooldown_ms,
    ensures
        ({
            let s1 = key_transition(s, w).0;
            let v = key_transition(s1, a).1;
            &&& v.block
            &&& v.send == Some(
                if a.vk == 0x25 {
                    if s.shift_pressed { Action::MovePrev } else { Action::SwitchPrev }
                } else {
                    if s.shift_pressed { Action::MoveNext } else { Action::SwitchNext }
                },
            )
            &&& key_transition(s1, a).0.last_key_switch_ms == a.now_ms
            &&& key_transition(s1, a).0.consumed_win
        }),
{
}

/// With Win held, the digit keys 1..9 (0x31..0x39) jump to desktops 0..8 and
/// every other key that is neither Win, Shift nor an arrow passes untouched.
pub proof fn win_digits_jump_others_pass(s: HotkeyState, e: KeyEvent)
    requires
        !e.injected,
        s.win_pressed,
        e.message == 0x0100,
        elapsed_ms(e.now_ms, s.last_key_switch_ms) >= s.cooldown_ms,
        e.vk != 0x5B && e.vk != 0x5C && e.vk != 0x10 && e.vk != 0xA0 && e.vk != 0xA1,
    ensures
        0x31 <= e.vk <= 0x39 ==> key_transition(s, e).1.send == Some(
            Action::SwitchTo((e.vk - 0x31) as u32),
        ),
        !(0x31 <= e.vk <= 0x39) && e.vk != 0x25 && e.vk != 0x27 ==> key_transition(s, e) == (
            s,
            pass_verdict(),
        ),
{
}

} // verus!
