//! Running at startup: the value written under the user's `Run` registry key,
//! and the decisions around reading, writing and deleting it.
use vstd::prelude::*;

verus! {

/// The change that toggling makes.
#[derive(Debug, Clone, Copy, PartialEq, Eq, Structural)]
pub enum AutostartChange {
    /// Write the `Run` value.
    Enable,
    /// Delete the `Run` value.
    Disable,
}

/// Why turning running at startup off failed.
#[derive(Debug, Clone, Copy, PartialEq, Eq, Structural)]
pub enum AutostartError {
    /// Deleting the value failed and the value is still there.
    DeleteFailed,
}

/// The change that toggling makes: a present value is deleted, a missing one is written.
pub open spec fn toggle_change(enabled_now: bool) -> AutostartChange {
    if enabled_now {
        AutostartChange::Disable
    } else {
        AutostartChange::Enable
    }
}

/// Whether running at startup is on once `c` succeeded.
pub open spec fn state_after(c: AutostartChange) -> bool {
    c == AutostartChange::Enable
}

/// Toggling: a present value is deleted, a missing one is written.
pub fn toggle(enabled_now: bool) -> (c: AutostartChange)
    ensures
        c == toggle_change(enabled_now),
{
    if enabled_now {
        AutostartChange::Disable
    } else {
        AutostartChange::Enable
    }
}

impl AutostartChange {
    /// Whether running at startup is on once the change succeeded.
    pub fn resulting_state(&self) -> (on: bool)
        ensures
            on == state_after(*self),
    {
        match self {
            AutostartChange::Enable => true,
            AutostartChange::Disable => false,
        }
    }
}

/// Whether running at startup is on, from the registry's answers: the `Run`
/// key opened, the value was found, and it is not empty.
pub fn value_present(key_opened: bool, value_found: bool, value_size: u32) -> (on: bool)
    ensures
        on == (key_opened && value_found && value_size > 0),
{
    key_opened && value_found && value_size > 0
}

/// The outcome of turning running at startup off: a failed delete counts
/// only when the value is still there afterwards.
pub fn disable_outcome(delete_ok: bool, still_enabled: bool) -> (r: Result<(), AutostartError>)
    ensures
        r is Err <==> (!delete_ok && still_enabled),
        r is Err ==> r == Err::<(), AutostartError>(AutostartError::DeleteFailed),
{
    if !delete_ok && still_enabled {
        Err(AutostartError::DeleteFailed)
    } else {
        Ok(())
    }
}

/// The command line stored in the `Run` value: the executable's path in
/// double quotes, so that spaces in it are kept.
pub fn run_value(exe_path: &str) -> (v: String)
    ensures
        v@ == seq!['"'] + exe_path@ + seq!['"'],
{
    proof {
        reveal_strlit("\"");
    }
    let mut v = String::from_str("\"");
    v.append(exe_path);
    v.append("\"");
    v
}

/// Toggling turns running at startup to the opposite state, and toggling
/// twice comes back to where it started.
pub proof fn toggle_twice_restores(enabled_now: bool)
    ensures
        state_after(toggle_change(enabled_now)) == !enabled_now,
        state_after(toggle_change(state_after(toggle_change(enabled_now)))) == enabled_now,
{
}

} // verus!
