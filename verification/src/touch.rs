//! Touch injection settings and the geometry of the simulated four-finger
//! swipe that triggers Windows' own slide animation between desktops.
use vstd::prelude::*;
use crate::config::Touch;
use crate::text::{normalized, normalize, chars_equal};
use crate::trunc_div;

verus! {

/// Number of simulated fingers.
pub const FINGERS: usize = 4;
/// Horizontal distance between neighbouring fingers (px).
pub const FINGER_SPACING: i32 = 60;
/// Shortest swipe distance that is used (px).
pub const MIN_DISTANCE_PX: i32 = 50;
/// Easing codes: linear, ease-in (cubic), ease-out (cubic), ease-in-out (cubic).
pub const EASING_LINEAR: u8 = 0;
pub const EASING_IN: u8 = 1;
pub const EASING_OUT: u8 = 2;
pub const EASING_IN_OUT: u8 = 3;

/// The parameters the touch injector runs with.
#[derive(Debug, Clone, Copy, PartialEq, Eq, Structural)]
pub struct TouchParams {
    pub enabled: bool,
    /// Finger travel of a swipe (px), at least 50.
    pub distance_px: i32,
    /// Number of move frames, at least 2.
    pub steps: u32,
    /// Pause between frames (ms), at least 1.
    pub step_delay_ms: u64,
    pub hold_before_ms: u64,
    pub hold_after_ms: u64,
    /// One of the easing codes.
    pub easing: u8,
}

/// Why no swipe can be made.
#[derive(Debug, Clone, Copy, PartialEq, Eq, Structural)]
pub enum TouchError {
    /// Touch injection is turned off or was never initialised.
    NotReady,
}

/// The swipe to inject: where the fingers touch down and how far they travel.
#[derive(Debug, Clone)]
pub struct SwipePlan {
    /// Horizontal start of each finger (px).
    pub start_x: Vec<i32>,
    /// Horizontal end of each finger (px): its start plus `total_dx`.
    pub end_x: Vec<i32>,
    /// Vertical position of all fingers (px).
    pub y: i32,
    /// Signed travel: leftwards (negative) for the next desktop, rightwards for the previous.
    pub total_dx: i32,
    pub steps: u32,
    pub step_delay_ms: u64,
    pub hold_before_ms: u64,
    pub hold_after_ms: u64,
    pub easing: u8,
}

/// The easing code that an easing name selects; unknown names are linear.
pub open spec fn easing_code(s: Seq<char>) -> u8 {
    let n = normalized(s);
    if n == "ease-in"@ {
        EASING_IN
    } else if n == "ease-out"@ {
        EASING_OUT
    } else if n == "ease-in-out"@ {
        EASING_IN_OUT
    } else {
        EASING_LINEAR
    }
}

impl TouchParams {
    /// The parameters keep their lower bounds.
    pub open spec fn wf(self) -> bool {
        &&& self.distance_px >= MIN_DISTANCE_PX
        &&& self.steps >= 2
        &&& self.step_delay_ms >= 1
        &&& self.easing <= EASING_IN_OUT
    }

    /// The parameters before any configuration is applied (injection off).
    pub fn new() -> (p: TouchParams)
        ensures
            p.wf(),
            p == (TouchParams {
                enabled: false,
                distance_px: 650,
                steps: 28,
                step_delay_ms: 11,
                hold_before_ms: 15,
                hold_after_ms: 35,
                easing: EASING_IN,
            }),
    {
        TouchParams {
            enabled: false,
            distance_px: 650,
            steps: 28,
            step_delay_ms: 11,
            hold_before_ms: 15,
            hold_after_ms: 35,
            easing: EASING_IN,
        }
    }
}

/// The easing code for an easing name, compared trimmed and in lower case.
pub fn parse_easing(s: &str) -> (r: u8)
    ensures
        r == easing_code(s@),
{
    let n = normalize(s);
    proof {
        reveal_strlit("ease-in");
        reveal_strlit("ease-out");
        reveal_strlit("ease-in-out");
    }
    if chars_equal(&n, "ease-in") {
        EASING_IN
    } else if chars_equal(&n, "ease-out") {
        EASING_OUT
    } else if chars_equal(&n, "ease-in-out") {
        EASING_IN_OUT
    } else {
        EASING_LINEAR
    }
}

/// The parameters that a `[touch]` section gives: distance, frames and frame
/// pause raised to their lower bounds (50 px, 2 frames, 1 ms), the easing
/// name read as a code.
pub open spec fn params_from(cfg: Touch) -> TouchParams {
    TouchParams {
        enabled: cfg.enabled,
        distance_px: if cfg.swipe_distance_px < MIN_DISTANCE_PX {
            MIN_DISTANCE_PX
        } else {
            cfg.swipe_distance_px
        },
        steps: if cfg.swipe_steps < 2 {
            2
        } else {
            cfg.swipe_steps
        },
        step_delay_ms: if cfg.step_delay_ms < 1 {
            1
        } else {
            cfg.step_delay_ms
        },
        hold_before_ms: cfg.hold_before_ms,
        hold_after_ms: cfg.hold_after_ms,
        easing: easing_code(cfg.easing@),
    }
}

/// Takes the `[touch]` section over.
pub fn set_params(params: &mut TouchParams, cfg: &Touch)
    ensures
        *final(params) == params_from(*cfg),
        final(params).wf(),
{
    params.enabled = cfg.enabled;
    params.distance_px = if cfg.swipe_distance_px < MIN_DISTANCE_PX {
        MIN_DISTANCE_PX
    } else {
        cfg.swipe_distance_px
    };
    params.steps = if cfg.swipe_steps < 2 {
        2
    } else {
        cfg.swipe_steps
    };
    params.step_delay_ms = if cfg.step_delay_ms < 1 {
        1
    } else {
        cfg.step_delay_ms
    };
    params.hold_before_ms = cfg.hold_before_ms;
    params.hold_after_ms = cfg.hold_after_ms;
    params.easing = parse_easing(cfg.easing.as_str());
}

/// Applies the `[touch]` section and says whether touch injection must now be
/// initialised: only when it is enabled and not initialised yet.
pub fn init(params: &mut TouchParams, cfg: &Touch, initialized: bool) -> (must_initialize: bool)
    ensures
        must_initialize == (cfg.enabled && !initialized),
        *final(params) == params_from(*cfg),
        final(params).wf(),
{
    set_params(params, cfg);
    cfg.enabled && !initialized
}

/// Horizontal start of finger `i` around the screen centre `cx`.
pub open spec fn finger_start(cx: int, i: int) -> int {
    cx - 90 + 60 * i
}

/// Signed finger travel for a swipe in `direction`.
pub open spec fn swipe_travel(direction: i32, distance: i32) -> int {
    if direction > 0 {
        -distance
    } else {
        distance as int
    }
}

/// The finger positions of a swipe stay within `i32`.
pub open spec fn swipe_fits(params: TouchParams, direction: i32, screen_width: i32) -> bool {
    let cx = trunc_div(screen_width as int, 2);
    let dx = swipe_travel(direction, params.distance_px);
    i32::MIN <= finger_start(cx, 0) + dx && finger_start(cx, 3) + dx <= i32::MAX
}

/// Whether the finger positions of a swipe stay within `i32` (see [`swipe_plan`]).
pub fn swipe_in_range(params: &TouchParams, direction: i32, screen_width: i32) -> (r: bool)
    ensures
        r == swipe_fits(*params, direction, screen_width),
{
    let cx = (screen_width / 2) as i64;
    let dx: i64 = if direction > 0 {
        -(params.distance_px as i64)
    } else {
        params.distance_px as i64
    };
    cx - 90 + dx >= i32::MIN as i64 && cx + 90 + dx <= i32::MAX as i64
}

/// Plans a swipe towards `direction` (-1: previous desktop, swipe to the right;
/// +1: next desktop, swipe to the left) from the centre of a screen of the
/// given size. Fails when injection is off or not initialised; a zero
/// direction needs no swipe.
pub fn swipe_plan(
    params: &TouchParams,
    initialized: bool,
    direction: i32,
    screen_width: i32,
    screen_height: i32,
) -> (r: Result<Option<SwipePlan>, TouchError>)
    requires
        params.wf(),
        params.enabled && initialized && direction != 0 ==> swipe_fits(
            *params,
            direction,
            screen_width,
        ),
    ensures
        !(params.enabled && initialized) ==> r == Err::<Option<SwipePlan>, TouchError>(
            TouchError::NotReady,
        ),
        params.enabled && initialized && direction == 0 ==> r matches Ok(None),
        params.enabled && initialized && direction != 0 ==> (r matches Ok(Some(p)) && {
            let cx = trunc_div(screen_width as int, 2);
            let dx = swipe_travel(direction, params.distance_px);
            &&& p.total_dx == dx
            &&& p.y == trunc_div(screen_height as int, 2)
            &&& p.start_x@.len() == FINGERS
            &&& p.end_x@.len() == FINGERS
            &&& forall|i: int| 0 <= i < FINGERS ==> #[trigger] p.start_x@[i] == finger_start(cx, i)
            &&& forall|i: int| 0 <= i < FINGERS ==> #[trigger] p.end_x@[i] == finger_start(cx, i) + dx
            &&& p.steps == params.steps
            &&& p.step_delay_ms == params.step_delay_ms
            &&& p.hold_before_ms == params.hold_before_ms
            &&& p.hold_after_ms == params.hold_after_ms
            &&& p.easing == params.easing
        }),
{
    if !params.enabled || !initialized {
        return Err(TouchError::NotReady);
    }
    if direction == 0 {
        return Ok(None);
    }
    let total_dx: i32 = if direction > 0 {
        -params.distance_px
    } else {
        params.distance_px
    };
    let cx = screen_width / 2;
    let cy = screen_height / 2;
    let mut start_x: Vec<i32> = Vec::new();
    let mut end_x: Vec<i32> = Vec::new();
    let mut i: usize = 0;
    while i < FINGERS
        invariant
            cx == trunc_div(screen_width as int, 2),
            total_dx == swipe_travel(direction, params.distance_px),
            swipe_fits(*params, direction, screen_width),
            i <= FINGERS,
            start_x@.len() == i,
            end_x@.len() == i,
            forall|k: int| 0 <= k < i ==> #[trigger] start_x@[k] == finger_start(cx as int, k),
            forall|k: int| 0 <= k < i ==> #[trigger] end_x@[k] == finger_start(cx as int, k) + total_dx,
        decreases FINGERS - i,
    {
        let x = cx - 90 + 60 * (i as i32);
        start_x.push(x);
        end_x.push(x + total_dx);
        i = i + 1;
    }
    let plan = SwipePlan {
        start_x,
        end_x,
        y: cy,
        total_dx,
        steps: params.steps,
        step_delay_ms: params.step_delay_ms,
        hold_before_ms: params.hold_before_ms,
        hold_after_ms: params.hold_after_ms,
        easing: params.easing,
    };
    Ok(Some(plan))
}

/// The four fingers are centred on the screen centre `cx`, 60 px apart: the
/// first starts 90 px left of it, and the mean of their positions is `cx`.
pub proof fn fingers_centred(cx: int)
    ensures
        finger_start(cx, 0) == cx - 90,
        forall|i: int| #[trigger] finger_start(cx, i + 1) == finger_start(cx, i) + 60,
        finger_start(cx, 0) + finger_start(cx, 1) + finger_start(cx, 2) + finger_start(cx, 3) == 4
            * cx,
{
}

/// A swipe travels the configured distance: leftwards for the next desktop,
/// rightwards for the previous one.
pub proof fn swipe_travels_distance(direction: i32, distance: i32)
    requires
        direction != 0,
    ensures
        direction > 0 ==> swipe_travel(direction, distance) == -distance,
        direction < 0 ==> swipe_travel(direction, distance) == distance,
{
}

/// The centre the fingers start around is half the screen width (rounded
/// toward zero), so the plan follows the screen.
pub proof fn centre_is_half_the_width(w: i32)
    requires
        w >= 0,
    ensures
        trunc_div(w as int, 2) * 2 == w || trunc_div(w as int, 2) * 2 + 1 == w,
        trunc_div(w as int, 2) >= 0,
{
}

} // verus!
