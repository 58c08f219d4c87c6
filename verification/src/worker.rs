//! The desktop worker's decisions: how an action is carried out, which
//! animation a relative switch uses, and when the indicator follows.
use vstd::prelude::*;
use crate::hotkey::Action;
use crate::text::chars_equal;
use crate::config::Config;

verus! {

/// How long the indicator is shown after a switch (ms).
pub const OVERLAY_SHOW_MS: u32 = 1100;

/// The animation of a switch to a neighbouring desktop.
#[derive(Debug, Clone, Copy, PartialEq, Eq, Structural)]
pub enum SwitchMechanism {
    /// The film strip; a plain switch if it fails.
    SlidePush,
    /// A plain switch.
    Instant,
    /// Windows' own slide through an injected swipe; a plain switch if it fails.
    TouchSwipe,
}

/// What an action amounts to.
#[derive(Debug, Clone, Copy, PartialEq, Eq, Structural)]
pub enum ActionPlan {
    /// Move by this many desktops (the sign gives the direction).
    Relative(i32),
    /// Go to this desktop.
    Absolute(u32),
    /// The requested desktop does not exist: nothing happens.
    OutOfRange,
    /// Moving windows between desktops is not implemented: nothing happens.
    NotImplemented,
}

/// The settings the desktop worker acts by; a configuration reload replaces them.
#[derive(Debug, Clone)]
pub struct WorkerSettings {
    /// `[animation] mode`.
    pub animation_mode: String,
    /// `[animation] duration_ms`.
    pub duration_ms: u32,
    /// `[animation] easing`.
    pub easing: String,
    /// `[overlay] enabled`.
    pub overlay_enabled: bool,
    /// `[navigation] wrap`.
    pub wrap: bool,
}

/// The worker settings that a configuration gives.
pub open spec fn worker_settings_from(cfg: Config) -> WorkerSettings {
    WorkerSettings {
        animation_mode: cfg.animation.mode,
        duration_ms: cfg.animation.duration_ms,
        easing: cfg.animation.easing,
        overlay_enabled: cfg.overlay.enabled,
        wrap: cfg.navigation.wrap,
    }
}

impl WorkerSettings {
    /// The worker settings of `cfg`.
    pub fn from_config(cfg: &Config) -> (s: WorkerSettings)
        ensures
            s == worker_settings_from(*cfg),
    {
        WorkerSettings {
            animation_mode: cfg.animation.mode.clone(),
            duration_ms: cfg.animation.duration_ms,
            easing: cfg.animation.easing.clone(),
            overlay_enabled: cfg.overlay.enabled,
            wrap: cfg.navigation.wrap,
        }
    }
}

/// The animation that an `[animation] mode` selects: "slide-push" and
/// "instant" as written, anything else (such as "touch") the injected swipe.
pub open spec fn mechanism_of(mode: Seq<char>) -> SwitchMechanism {
    if mode == "slide-push"@ {
        SwitchMechanism::SlidePush
    } else if mode == "instant"@ {
        SwitchMechanism::Instant
    } else {
        SwitchMechanism::TouchSwipe
    }
}

/// What an action amounts to with `count` desktops.
pub open spec fn plan_of(action: Action, count: u32) -> ActionPlan {
    match action {
        Action::SwitchPrev => ActionPlan::Relative(-1i32),
        Action::SwitchNext => ActionPlan::Relative(1i32),
        Action::SwitchTo(i) => if i < count {
            ActionPlan::Absolute(i)
        } else {
            ActionPlan::OutOfRange
        },
        Action::MovePrev | Action::MoveNext => ActionPlan::NotImplemented,
    }
}

/// The animation for `mode`.
pub fn switch_mechanism(mode: &str) -> (m: SwitchMechanism)
    ensures
        m == mechanism_of(mode@),
{
    let v = crate::text::chars_of(mode);
    if chars_equal(&v, "slide-push") {
        SwitchMechanism::SlidePush
    } else if chars_equal(&v, "instant") {
        SwitchMechanism::Instant
    } else {
        SwitchMechanism::TouchSwipe
    }
}

/// Decides how to carry out `action` when there are `count` desktops.
pub fn handle_action(action: Action, count: u32) -> (p: ActionPlan)
    ensures
        p == plan_of(action, count),
{
    match action {
        Action::SwitchPrev => ActionPlan::Relative(-1),
        Action::SwitchNext => ActionPlan::Relative(1),
        Action::SwitchTo(i) => if i < count {
            ActionPlan::Absolute(i)
        } else {
            ActionPlan::OutOfRange
        },
        Action::MovePrev | Action::MoveNext => ActionPlan::NotImplemented,
    }
}

impl ActionPlan {
    /// Whether carrying the plan out switches desktops (a relative move
    /// counts as a switch even where it stays on the same desktop).
    pub fn switches(&self) -> (r: bool)
        ensures
            r == (*self is Relative || *self is Absolute),
    {
        match self {
            ActionPlan::Relative(_) | ActionPlan::Absolute(_) => true,
            _ => false,
        }
    }

    /// The side from which the indicator slides in: the move's direction,
    /// none for a jump.
    pub fn direction(&self) -> (d: i32)
        ensures
            *self matches ActionPlan::Relative(r) ==> d == r,
            !(*self is Relative) ==> d == 0,
    {
        match self {
            ActionPlan::Relative(r) => *r,
            _ => 0,
        }
    }
}

/// Whether a relative switch ends with a plain switch: always in instant
/// mode, and, in the animated modes, when the animation reported failure.
pub open spec fn plain_switch_after(m: SwitchMechanism, animation_ok: bool) -> bool {
    m == SwitchMechanism::Instant || !animation_ok
}

/// Decides whether to make a plain switch after the animation of `m` was
/// tried (`animation_ok` is ignored in instant mode, where none is tried).
/// A film strip that fails after it switched leads to a second switch.
pub fn fallback_switch(m: SwitchMechanism, animation_ok: bool) -> (r: bool)
    ensures
        r == plain_switch_after(m, animation_ok),
{
    match m {
        SwitchMechanism::Instant => true,
        _ => !animation_ok,
    }
}

/// The indicator follows a switch when it is enabled.
pub fn shows_overlay(did_switch: bool, overlay_enabled: bool) -> (r: bool)
    ensures
        r == (did_switch && overlay_enabled),
{
    did_switch && overlay_enabled
}

/// Win+1..9 reaches desktop 1..9 exactly when it exists, and never anything else.
pub proof fn jumps_stay_in_range(i: u32, count: u32)
    ensures
        plan_of(Action::SwitchTo(i), count) is Absolute <==> i < count,
        plan_of(Action::SwitchTo(i), count) matches ActionPlan::Absolute(j) ==> j == i,
{
}

} // verus!
