//! The switch indicator: a rounded window with one dot per desktop and the
//! text "current / total", faded in and out. This module packs the request
//! to show it, unpacks it in the window, times the animation phases and lays
//! out the dots.
use vstd::prelude::*;
use crate::trunc_div;

verus! {

/// Width of the indicator window (px).
pub const WIN_W: i32 = 520;
/// Height of the indicator window (px).
pub const WIN_H: i32 = 110;
/// Shortest time the indicator stays up (ms).
pub const MIN_DURATION_MS: u32 = 900;
/// Diameter of an inactive dot (px).
pub const DOT_NORMAL: i32 = 12;
/// Diameter of the dot of the current desktop (px).
pub const DOT_ACTIVE: i32 = 22;
/// Gap between dots (px).
pub const DOT_GAP: i32 = 14;
/// Largest index or count that fits in the request (16 bits).
pub const FIELD_MAX: u32 = 0xFFFF;

/// The message that asks the indicator window to show itself.
#[derive(Debug, Clone, Copy, PartialEq, Eq, Structural)]
pub struct ShowMessage {
    /// Current index in the low 16 bits, total in the next 16.
    pub wparam: usize,
    /// Duration (ms).
    pub lparam: isize,
    /// -1, 0 or 1: the side from which the indicator slides in.
    pub direction: i32,
}

/// What the indicator window takes from a show message.
#[derive(Debug, Clone, Copy, PartialEq, Eq, Structural)]
pub struct ShowRequest {
    pub current: u32,
    pub total: u32,
    pub duration_ms: u32,
}

/// Where the indicator animation stands.
#[derive(Debug, Clone, Copy, PartialEq, Eq, Structural)]
pub enum AnimPhase {
    /// Fading (and sliding) in: `elapsed` of `span` ms.
    FadeIn { elapsed: u64, span: u64 },
    /// Fully visible.
    Opaque,
    /// Fading out: `elapsed` of `span` ms.
    FadeOut { elapsed: u64, span: u64 },
    /// Over: hide the window and stop the timer.
    Finished,
}

/// One dot of the indicator.
#[derive(Debug, Clone, Copy, PartialEq, Eq, Structural)]
pub struct Dot {
    pub left: i32,
    pub top: i32,
    pub size: i32,
    pub active: bool,
}

/// The client rectangle of the indicator window.
#[derive(Debug, Clone, Copy, PartialEq, Eq, Structural)]
pub struct Rect {
    pub left: i32,
    pub top: i32,
    pub right: i32,
    pub bottom: i32,
}

/// What is drawn on the indicator besides its background and border.
#[derive(Debug, Clone)]
pub struct OverlayLayout {
    /// One dot per desktop, left to right.
    pub dots: Vec<Dot>,
    /// The rectangle of the "current / total" text.
    pub text_rect: Rect,
    /// The numbers of the text: the current desktop counted from 1, and the total.
    pub label_current: u32,
    pub label_total: u32,
}

pub open spec fn min_u32(a: u32, b: u32) -> u32 {
    if a < b {
        a
    } else {
        b
    }
}

pub open spec fn max_u32(a: u32, b: u32) -> u32 {
    if a > b {
        a
    } else {
        b
    }
}

/// Length of the fade-in for a duration: a quarter, at least 1 ms.
pub open spec fn fade_in_span(d: u64) -> int {
    if d * 25 / 100 > 1 {
        d * 25 / 100
    } else {
        1
    }
}

/// Start of the fade-out: the last 35 % of the duration.
pub open spec fn fade_out_start(d: u64) -> int {
    d - d * 35 / 100
}

/// Length of the fade-out, at least 1 ms.
pub open spec fn fade_out_span(d: u64) -> int {
    if d - fade_out_start(d) > 1 {
        d - fade_out_start(d)
    } else {
        1
    }
}

/// The phase of the animation `elapsed` ms after it started.
pub open spec fn anim_phase(elapsed: u64, d: u64) -> AnimPhase {
    if elapsed >= d {
        AnimPhase::Finished
    } else if elapsed < fade_in_span(d) {
        AnimPhase::FadeIn { elapsed, span: fade_in_span(d) as u64 }
    } else if elapsed < fade_out_start(d) {
        AnimPhase::Opaque
    } else {
        AnimPhase::FadeOut {
            elapsed: (elapsed - fade_out_start(d)) as u64,
            span: fade_out_span(d) as u64,
        }
    }
}

/// The order of the phases.
pub open spec fn phase_rank(p: AnimPhase) -> int {
    match p {
        AnimPhase::FadeIn { .. } => 0,
        AnimPhase::Opaque => 1,
        AnimPhase::FadeOut { .. } => 2,
        AnimPhase::Finished => 3,
    }
}

/// Width of the row of `total` dots, one of them the larger current one.
pub open spec fn dots_width(total: int) -> int {
    (total - 1) * DOT_NORMAL + DOT_ACTIVE + (total - 1) * DOT_GAP
}

/// Left edge of dot `i`: each dot before it takes its size and a gap, the
/// current one 10 px more than the others.
pub open spec fn dot_left(start: int, i: int, current: int) -> int {
    start + (DOT_NORMAL + DOT_GAP) * i + if current < i {
        DOT_ACTIVE - DOT_NORMAL
    } else {
        0
    }
}

/// The client rectangle is one on which the layout arithmetic stays in `i32`.
pub open spec fn layout_fits(client: Rect, total: u32) -> bool {
    &&& i32::MIN <= client.right - client.left <= i32::MAX
    &&& i32::MIN <= client.bottom - client.top <= i32::MAX
    &&& client.right - client.left - dots_width(total as int) >= i32::MIN
    &&& client.bottom - 6 >= i32::MIN
}

/// Whether the layout of `total` dots in `client` stays within `i32` (see [`paint_layout`]).
pub fn layout_in_range(client: Rect, total: u32) -> (r: bool)
    ensures
        r == layout_fits(client, total),
{
    let w = client.right as i64 - client.left as i64;
    let h = client.bottom as i64 - client.top as i64;
    let n = total as i64;
    let dots_w = (n - 1) * 12 + 22 + (n - 1) * 14;
    i32::MIN as i64 <= w && w <= i32::MAX as i64 && i32::MIN as i64 <= h && h <= i32::MAX as i64 && w
        - dots_w >= i32::MIN as i64 && client.bottom as i64 - 6 >= i32::MIN as i64
}

/// Whether [`position`] stays within `i32` on a screen of the given size.
pub fn position_in_range(screen_w: i32, screen_h: i32) -> (r: bool)
    ensures
        r == (screen_w >= i32::MIN + WIN_W && i32::MIN <= screen_h * 36 <= i32::MAX && screen_h
            - trunc_div(screen_h * 36, 100) - WIN_H / 2 >= i32::MIN),
{
    let h36 = screen_h as i64 * 36;
    if !(screen_w as i64 >= i32::MIN as i64 + 520 && i32::MIN as i64 <= h36 && h36 <= i32::MAX as i64) {
        return false;
    }
    let y = screen_h as i64 - ((h36 as i32) / 100) as i64 - 55;
    y >= i32::MIN as i64
}

/// Packs a request to show the indicator for desktop `current_index` of
/// `total` (each cut to 16 bits) for `duration_ms`, sliding in from `direction`'s side.
pub fn show(current_index: u32, total: u32, duration_ms: u32, direction: i32) -> (m: ShowMessage)
    ensures
        m.wparam == min_u32(total, FIELD_MAX) * 65536 + min_u32(current_index, FIELD_MAX),
        m.lparam == duration_ms as isize,
        m.direction == (if direction > 0 {
            1
        } else if direction < 0 {
            -1int
        } else {
            0
        }),
{
    let cur = if current_index < FIELD_MAX {
        current_index
    } else {
        FIELD_MAX
    };
    let tot = if total < FIELD_MAX {
        total
    } else {
        FIELD_MAX
    };
    let c = cur as usize;
    let t = tot as usize;
    let wp = (t << 16) | c;
    assert(wp == t * 65536 + c) by (bit_vector)
        requires
            wp == (t << 16) | c,
            t <= 0xFFFF,
            c <= 0xFFFF,
    ;
    let dir: i32 = if direction > 0 {
        1
    } else if direction < 0 {
        -1
    } else {
        0
    };
    ShowMessage { wparam: wp, lparam: duration_ms as isize, direction: dir }
}

/// Unpacks a show message in the indicator window: the index and total from
/// the two low 16-bit fields, and the duration, at least 900 ms.
pub fn decode_show(wparam: usize, lparam: isize) -> (r: ShowRequest)
    ensures
        r.current == wparam % 65536,
        r.total == (wparam / 65536) % 65536,
        r.duration_ms == max_u32(lparam as u32, MIN_DURATION_MS),
{
    let lo = wparam & 0xFFFF;
    let hi = (wparam >> 16) & 0xFFFF;
    assert(lo == wparam % 65536 && hi == (wparam / 65536) % 65536) by (bit_vector)
        requires
            lo == wparam & 0xFFFF,
            hi == (wparam >> 16) & 0xFFFF,
    ;
    let d = lparam as u32;
    ShowRequest {
        current: lo as u32,
        total: hi as u32,
        duration_ms: if d > MIN_DURATION_MS {
            d
        } else {
            MIN_DURATION_MS
        },
    }
}

/// The animation phase `elapsed` ms into an indicator shown for `duration_ms`.
pub fn tick(elapsed: u64, duration_ms: u32) -> (p: AnimPhase)
    ensures
        p == anim_phase(elapsed, duration_ms as u64),
{
    let d = duration_ms as u64;
    if elapsed >= d {
        return AnimPhase::Finished;
    }
    let quarter = d * 25 / 100;
    let fade_in = if quarter > 1 {
        quarter
    } else {
        1
    };
    let out_start = d - d * 35 / 100;
    let out_len = if d - out_start > 1 {
        d - out_start
    } else {
        1
    };
    if elapsed < fade_in {
        AnimPhase::FadeIn { elapsed, span: fade_in }
    } else if elapsed < out_start {
        AnimPhase::Opaque
    } else {
        AnimPhase::FadeOut { elapsed: elapsed - out_start, span: out_len }
    }
}

/// Lays the indicator out in `client` for desktop `current` of `total`:
/// nothing when there are no desktops, else a centred row of dots in the upper
/// half and the text rectangle in the lower half.
pub fn paint_layout(client: Rect, current: u32, total: u32) -> (r: Option<OverlayLayout>)
    requires
        current <= FIELD_MAX,
        total <= FIELD_MAX,
        layout_fits(client, total),
    ensures
        total == 0 ==> r is None,
        total > 0 ==> (r matches Some(l) && {
            let w = client.right - client.left;
            let h = client.bottom - client.top;
            let start = trunc_div(w - dots_width(total as int), 2);
            let center_y = trunc_div(h, 2) - 14;
            &&& l.dots@.len() == total
            &&& forall|i: int|
                0 <= i < total ==> (#[trigger] l.dots@[i]).left == dot_left(start, i, current as int)
            &&& forall|i: int|
                0 <= i < total ==> (#[trigger] l.dots@[i]).active == (i == current)
            &&& forall|i: int|
                0 <= i < total ==> (#[trigger] l.dots@[i]).size == if i == current {
                    DOT_ACTIVE
                } else {
                    DOT_NORMAL
                }
            &&& forall|i: int|
                0 <= i < total ==> (#[trigger] l.dots@[i]).top == center_y - trunc_div(l.dots@[i].size as int, 2)
            &&& l.text_rect == (Rect {
                left: client.left,
                right: client.right,
                top: (trunc_div(h, 2) + 4) as i32,
                bottom: (client.bottom - 6) as i32,
            })
            &&& l.label_current == current + 1
            &&& l.label_total == total
        }),
{
    if total == 0 {
        return None;
    }
    let w = client.right - client.left;
    let h = client.bottom - client.top;
    let n = total as i32;
    let total_dots_w = (n - 1) * DOT_NORMAL + DOT_ACTIVE + (n - 1) * DOT_GAP;
    let start = (w - total_dots_w) / 2;
    let center_y = h / 2 - 14;
    let cur = current as i32;
    let mut dots: Vec<Dot> = Vec::new();
    let mut x = start;
    let mut i: i32 = 0;
    while i < n
        invariant
            n == total,
            total <= FIELD_MAX,
            cur == current,
            start == trunc_div(w - dots_width(total as int), 2),
            center_y == trunc_div(h as int, 2) - 14,
            i32::MIN / 2 <= start <= i32::MAX / 2 + 1,
            0 <= i <= n,
            dots@.len() == i,
            x == dot_left(start as int, i as int, cur as int),
            forall|k: int|
                0 <= k < i ==> (#[trigger] dots@[k]).left == dot_left(
                    start as int,
                    k,
                    cur as int,
                ),
            forall|k: int| 0 <= k < i ==> (#[trigger] dots@[k]).active == (k == cur),
            forall|k: int|
                0 <= k < i ==> (#[trigger] dots@[k]).size == if k == cur {
                    DOT_ACTIVE
                } else {
                    DOT_NORMAL
                },
            forall|k: int|
                0 <= k < i ==> (#[trigger] dots@[k]).top == center_y - trunc_div(dots@[k].size as int, 2),
        decreases n - i,
    {
        let active = i == cur;
        let size = if active {
            DOT_ACTIVE
        } else {
            DOT_NORMAL
        };
        let top = center_y - size / 2;
        dots.push(Dot { left: x, top, size, active });
        x = x + size + DOT_GAP;
        i = i + 1;
    }
    let text_rect = Rect { left: client.left, right: client.right, top: h / 2 + 4, bottom: client.bottom - 6 };
    Some(OverlayLayout { dots, text_rect, label_current: current + 1, label_total: total })
}

/// Where the indicator window sits on a screen of the given size: centred
/// horizontally, its middle 36 % of the height above the bottom.
pub fn position(screen_w: i32, screen_h: i32) -> (r: (i32, i32))
    requires
        screen_w >= i32::MIN + WIN_W,
        i32::MIN <= screen_h * 36 <= i32::MAX,
        screen_h - trunc_div(screen_h * 36, 100) - WIN_H / 2 >= i32::MIN,
    ensures
        r.0 == trunc_div(screen_w - WIN_W, 2),
        r.1 == screen_h - trunc_div(screen_h * 36, 100) - WIN_H / 2,
{
    let x = (screen_w - WIN_W) / 2;
    let y = screen_h - (screen_h * 36 / 100) - WIN_H / 2;
    (x, y)
}

/// What the indicator window unpacks is what was asked for, each count cut
/// to 16 bits, and the duration raised to at least 900 ms.
pub proof fn show_message_round_trip(current: u32, total: u32, duration_ms: u32)
    ensures
        ({
            let wp = min_u32(total, FIELD_MAX) * 65536 + min_u32(current, FIELD_MAX);
            &&& wp % 65536 == min_u32(current, FIELD_MAX)
            &&& (wp / 65536) % 65536 == min_u32(total, FIELD_MAX)
            &&& max_u32((duration_ms as isize) as u32, MIN_DURATION_MS) == max_u32(
                duration_ms,
                MIN_DURATION_MS,
            )
        }),
{
    let c = min_u32(current, FIELD_MAX) as int;
    let t = min_u32(total, FIELD_MAX) as int;
    let wp = t * 65536 + c;
    vstd::arithmetic::div_mod::lemma_fundamental_div_mod_converse(wp, 65536, t, c);
    vstd::arithmetic::div_mod::lemma_small_mod(t as nat, 65536);
    assert(((duration_ms as isize) as u32) == duration_ms) by (bit_vector);
}

/// The indicator goes through its phases in order (fade-in, fully visible,
/// fade-out, hidden), and hides exactly when its duration is over.
pub proof fn phases_in_order(e1: u64, e2: u64, d: u64)
    requires
        e1 <= e2,
    ensures
        phase_rank(anim_phase(e1, d)) <= phase_rank(anim_phase(e2, d)),
        anim_phase(e1, d) == AnimPhase::Finished <==> e1 >= d,
{
}

/// Within a fade the progress stays below its span, so the animated alpha and
/// offset never overshoot.
pub proof fn fade_progress_below_span(e: u64, d: u64)
    ensures
        anim_phase(e, d) matches AnimPhase::FadeIn { elapsed, span } ==> elapsed < span,
        anim_phase(e, d) matches AnimPhase::FadeOut { elapsed, span } ==> elapsed < span,
{
}

/// Neighbouring dots are one gap apart, and only the dot of the current
/// desktop is the large one.
pub proof fn dots_are_evenly_spaced(start: int, current: u32, i: int)
    requires
        0 <= i,
    ensures
        dot_left(start, i + 1, current as int) == dot_left(start, i, current as int) + (if i
            == current {
            DOT_ACTIVE
        } else {
            DOT_NORMAL
        }) + DOT_GAP,
{
}

/// The row of dots is 26 px per desktop less one 4 px saving (inactive dots
/// are 12 px, the current one 22 px, with 14 px gaps), and it starts at the
/// first dot: the row is centred when `start` is half the free width.
pub proof fn dot_row_width(n: int, start: int, current: int)
    requires
        n >= 1,
    ensures
        dots_width(n) == 26 * n - 4,
        current >= 0 ==> dot_left(start, 0, current) == start,
        0 <= current < n ==> dot_left(start, n - 1, current) + (if current == n - 1 {
            22int
        } else {
            12
        }) == start + dots_width(n),
{
}

/// The indicator fades in over the first quarter of its time (at least 1 ms),
/// stays, and fades out over the last 35 %.
pub proof fn fade_spans(d: u64)
    ensures
        fade_in_span(d) >= 1,
        d >= 4 ==> fade_in_span(d) == d * 25 / 100,
        fade_out_start(d) + d * 35 / 100 == d,
        fade_out_span(d) >= 1,
        d >= 3 ==> fade_out_span(d) == d * 35 / 100,
{
}

} // verus!
