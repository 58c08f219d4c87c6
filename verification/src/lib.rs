//! Decision logic of a virtual-desktop switcher: navigation between desktops,
//! the keyboard and mouse-wheel hook state machines, the switch indicator's
//! layout and timing, the touch-swipe geometry and the configuration model.
//! The Win32 and virtual-desktop calls themselves live in the program around it.
use vstd::prelude::*;

pub mod autostart;
pub mod config;
pub mod desktop;
pub mod hotkey;
pub mod overlay;
pub mod slide_overlay;
pub mod text;
pub mod touch;
pub mod tray;
pub mod wheel;
pub mod worker;

verus! {

/// Rust's `/` on integers, which rounds the quotient toward zero, for `d > 0`.
pub open spec fn trunc_div(x: int, d: int) -> int {
    if x >= 0 {
        x / d
    } else {
        -((-x) / d)
    }
}

/// Rust's `%` on integers, the remainder of [`trunc_div`], for `d > 0`.
pub open spec fn trunc_rem(x: int, d: int) -> int {
    if x >= 0 {
        x % d
    } else {
        -((-x) % d)
    }
}

} // verus!
