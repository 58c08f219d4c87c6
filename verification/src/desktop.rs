//! Navigation among virtual desktops: where a relative move lands.
use vstd::prelude::*;
use crate::trunc_rem;

verus! {

/// The desktop reached from `cur` by `delta` steps among `count` desktops:
/// cyclically when `wrap`, otherwise clamped to `[0, count - 1]`.
pub open spec fn relative_target(count: int, cur: int, delta: int, wrap: bool) -> int {
    if wrap {
        (cur + delta) % count
    } else if cur + delta < 0 {
        0
    } else if cur + delta > count - 1 {
        count - 1
    } else {
        cur + delta
    }
}

/// Inputs on which the `i32` arithmetic of a relative move stays in range.
pub open spec fn relative_move_fits(count: u32, cur: u32, delta: i32, wrap: bool) -> bool {
    &&& cur <= i32::MAX
    &&& i32::MIN <= cur + delta <= i32::MAX
    &&& wrap ==> trunc_rem(cur + delta, count as int) + count <= i32::MAX
}

/// What a relative move asks of the virtual-desktop service next.
#[derive(Debug, Clone, Copy, PartialEq, Eq, Structural)]
pub enum RelativeSwitch {
    /// Nothing to do: there are no desktops, or the target is the current one.
    Stay,
    /// The index of the current desktop is needed before deciding.
    QueryCurrent,
    /// Switch to this desktop.
    SwitchTo(u32),
}

/// Why a desktop manager could not be created.
#[derive(Debug, Clone, Copy, PartialEq, Eq, Structural)]
pub enum DesktopError {
    /// The virtual-desktop service reported no desktops at all.
    NoDesktops,
}

/// Handle on the virtual-desktop service, with navigation that can wrap around.
#[derive(Debug, Clone, Copy, PartialEq, Eq, Structural)]
pub struct DesktopManager;

proof fn lemma_trunc_rem_congruent(x: int, c: int)
    requires
        c > 0,
    ensures
        -c < trunc_rem(x, c) < c,
        (trunc_rem(x, c) + c) % c == x % c,
{
    if x >= 0 {
        let r = x % c;
        vstd::arithmetic::div_mod::lemma_mod_multiples_vanish(1, r, c);
        vstd::arithmetic::div_mod::lemma_small_mod(r as nat, c as nat);
    } else {
        let q = (-x) / c;
        let m = (-x) % c;
        vstd::arithmetic::div_mod::lemma_fundamental_div_mod(-x, c);
        assert(x == c * (-q - 1) + (c - m)) by (nonlinear_arith)
            requires
                -x == c * q + m,
        ;
        vstd::arithmetic::div_mod::lemma_mod_multiples_vanish(-q - 1, c - m, c);
    }
}

/// Whether a relative move from `cur` among `count` desktops stays within the
/// `i32` arithmetic of [`DesktopManager::switch_relative`].
pub fn relative_move_in_range(count: u32, cur: u32, delta: i32, wrap: bool) -> (r: bool)
    ensures
        r == (count <= i32::MAX && (count != 0 ==> relative_move_fits(count, cur, delta, wrap))),
{
    if count > i32::MAX as u32 {
        return false;
    }
    if count == 0 {
        return true;
    }
    if cur > i32::MAX as u32 {
        return false;
    }
    let moved = cur as i64 + delta as i64;
    if moved < i32::MIN as i64 || moved > i32::MAX as i64 {
        return false;
    }
    if wrap {
        let rem = (moved as i32) % (count as i32);
        proof {
            lemma_trunc_rem_congruent(moved as int, count as int);
        }
        rem as i64 + count as i64 <= i32::MAX as i64
    } else {
        true
    }
}

impl DesktopManager {
    /// Checks the first answer of the service: a manager is created only when
    /// the service reports at least one desktop.
    pub fn new(count: u32) -> (r: Result<DesktopManager, DesktopError>)
        ensures
            r is Ok <==> count != 0,
            r is Err ==> r == Err::<DesktopManager, DesktopError>(DesktopError::NoDesktops),
    {
        if count == 0 {
            Err(DesktopError::NoDesktops)
        } else {
            Ok(DesktopManager)
        }
    }

    /// One decision of a move by `delta` desktops (negative moves left).
    /// Called first with `current == None` once the desktop count is known,
    /// then, where it asks for it, with the current index.
    pub fn switch_relative(&self, delta: i32, wrap: bool, count: u32, current: Option<u32>) -> (r:
        RelativeSwitch)
        requires
            count <= i32::MAX,
            count != 0 && current is Some ==> relative_move_fits(count, current->0, delta, wrap),
        ensures
            count == 0 ==> r == RelativeSwitch::Stay,
            count != 0 && current is None ==> r == RelativeSwitch::QueryCurrent,
            (count != 0 && current is Some) ==> {
                let c = current->0;
                let t = relative_target(count as int, c as int, delta as int, wrap);
                &&& 0 <= t < count
                &&& r == if t == c {
                    RelativeSwitch::Stay
                } else {
                    RelativeSwitch::SwitchTo(t as u32)
                }
            },
    {
        if count == 0 {
            return RelativeSwitch::Stay;
        }
        let cur_u = match current {
            None => {
                return RelativeSwitch::QueryCurrent;
            },
            Some(c) => c,
        };
        let n = count as i32;
        let cur = cur_u as i32;
        let target: i32 = if wrap {
            proof {
                lemma_trunc_rem_congruent(cur + delta, n as int);
            }
            ((cur + delta) % n + n) % n
        } else {
            let moved = cur + delta;
            if moved < 0 {
                0
            } else if moved > n - 1 {
                n - 1
            } else {
                moved
            }
        };
        if target != cur {
            RelativeSwitch::SwitchTo(target as u32)
        } else {
            RelativeSwitch::Stay
        }
    }
}

/// Every relative move lands on an existing desktop.
pub proof fn targets_stay_in_range(count: int, cur: int, delta: int, wrap: bool)
    requires
        count > 0,
    ensures
        0 <= relative_target(count, cur, delta, wrap) < count,
{
}

/// With wrapping, two moves in a row land where one move by their sum lands.
pub proof fn wrapped_moves_compose(count: int, cur: int, a: int, b: int)
    requires
        count > 0,
    ensures
        relative_target(count, relative_target(count, cur, a, true), b, true) == relative_target(
            count,
            cur,
            a + b,
            true,
        ),
{
    vstd::arithmetic::div_mod::lemma_add_mod_noop(cur + a, b, count);
    vstd::arithmetic::div_mod::lemma_mod_twice(cur + a, count);
    vstd::arithmetic::div_mod::lemma_add_mod_noop((cur + a) % count, b, count);
}

/// With wrapping, moving back undoes a move: Win+→ then Win+← returns to
/// the desktop one started from.
pub proof fn wrapped_move_undone(count: int, cur: int, delta: int)
    requires
        0 <= cur < count,
    ensures
        relative_target(count, relative_target(count, cur, delta, true), -delta, true) == cur,
{
    wrapped_moves_compose(count, cur, delta, -delta);
    vstd::arithmetic::div_mod::lemma_small_mod(cur as nat, count as nat);
}

/// With wrapping, the step after the last desktop is the first and the step
/// before the first is the last; without it, both ends hold.
pub proof fn ends_wrap_or_hold(count: int)
    requires
        count > 0,
    ensures
        relative_target(count, count - 1, 1, true) == 0,
        relative_target(count, 0, -1, true) == count - 1,
        relative_target(count, count - 1, 1, false) == count - 1,
        relative_target(count, 0, -1, false) == 0,
{
    vstd::arithmetic::div_mod::lemma_mod_self_0(count);
    vstd::arithmetic::div_mod::lemma_mod_multiples_vanish(-1, count - 1, count);
    vstd::arithmetic::div_mod::lemma_small_mod((count - 1) as nat, count as nat);
}

/// Without wrapping, a move lands exactly on `cur + delta` when that desktop
/// exists, and otherwise stops at the nearer end.
pub proof fn unwrapped_move_is_clamped(count: int, cur: int, delta: int)
    requires
        count > 0,
    ensures
        0 <= cur + delta < count ==> relative_target(count, cur, delta, false) == cur + delta,
        cur + delta < 0 ==> relative_target(count, cur, delta, false) == 0,
        cur + delta >= count ==> relative_target(count, cur, delta, false) == count - 1,
{
}

/// With wrapping, a move lands on the desktop that is `cur + delta` counted
/// round the ring of `count` desktops: in range, and a whole number of rounds
/// away from `cur + delta`.
pub proof fn wrapped_move_goes_round(count: int, cur: int, delta: int)
    requires
        count > 0,
    ensures
        0 <= relative_target(count, cur, delta, true) < count,
        (cur + delta - relative_target(count, cur, delta, true)) % count == 0,
        0 <= cur + delta < count ==> relative_target(count, cur, delta, true) == cur + delta,
{
    let t = relative_target(count, cur, delta, true);
    vstd::arithmetic::div_mod::lemma_fundamental_div_mod(cur + delta, count);
    let q = (cur + delta) / count;
    assert(cur + delta - t == count * q);
    vstd::arithmetic::div_mod::lemma_mod_multiples_basic(q, count);
    assert((q * count) % count == 0);
    assert(count * q == q * count) by (nonlinear_arith);
    if 0 <= cur + delta < count {
        vstd::arithmetic::div_mod::lemma_small_mod((cur + delta) as nat, count as nat);
    }
}

} // verus!
