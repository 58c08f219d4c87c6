//! The "film strip" switch: the old and the new desktop side by side in one
//! wide window that slides by one screen width. This module plans the strip
//! and reads the CSS easing name that shapes its motion.
use vstd::prelude::*;
use crate::text::{
    normalized,
    has_prefix,
    has_suffix,
    contains,
    normalize,
    chars_equal,
    chars_start_with,
    chars_end_with,
    chars_contain,
    trim,
    trim_chars,
};

verus! {

/// Shortest animation that is played (ms).
pub const MIN_SLIDE_MS: u32 = 16;

/// Why the strip cannot be played.
#[derive(Debug, Clone, Copy, PartialEq, Eq, Structural)]
pub enum SlideError {
    /// The screen reports no positive size.
    InvalidScreen,
}

/// The layout and motion of the strip.
#[derive(Debug, Clone, Copy, PartialEq, Eq, Structural)]
pub struct SlideGeometry {
    /// Size of one screen (px).
    pub width: i32,
    pub height: i32,
    /// Width of the strip: two screens (px).
    pub strip_width: i32,
    /// The new desktop is the right half of the strip (moving to the next
    /// desktop); otherwise it is the left half.
    pub new_on_right: bool,
    /// Horizontal position of the strip when the animation starts and ends (px).
    pub initial_x: i32,
    pub final_x: i32,
    /// Length of the animation (ms).
    pub duration_ms: u32,
}

/// The curve that a CSS easing name selects.
#[derive(Debug, Clone)]
pub enum EasingCurve {
    Linear,
    /// `cubic-bezier(...)`: the comma-separated arguments, each trimmed; they
    /// are numbers to be parsed, and four of them make the curve.
    CubicBezier(Vec<Vec<char>>),
    EaseInOut,
    EaseOut,
    EaseIn,
}

/// `s` cut at every `sep`, as `str::split` cuts it.
pub open spec fn split_on(s: Seq<char>, sep: char) -> Seq<Seq<char>>
    decreases s.len(),
{
    if s.len() == 0 {
        seq![Seq::<char>::empty()]
    } else {
        let init = split_on(s.drop_last(), sep);
        if s.last() == sep {
            init.push(Seq::<char>::empty())
        } else {
            init.update(init.len() - 1, init.last().push(s.last()))
        }
    }
}

proof fn lemma_split_nonempty(s: Seq<char>, sep: char)
    ensures
        split_on(s, sep).len() >= 1,
    decreases s.len(),
{
    if s.len() > 0 {
        lemma_split_nonempty(s.drop_last(), sep);
    }
}

/// The text between `cubic-bezier(` and the closing `)`.
pub open spec fn bezier_inner(n: Seq<char>) -> Seq<char> {
    n.subrange(13, n.len() - 1)
}

/// Which curve an easing name selects, and, for `cubic-bezier(...)`, the
/// trimmed arguments of the call. Unknown names ease out.
pub enum EasingKind {
    Linear,
    CubicBezier(Seq<Seq<char>>),
    EaseInOut,
    EaseOut,
    EaseIn,
}

/// The reading of an easing name: trimmed and in lower case, "linear" is
/// linear; `cubic-bezier(...)` yields its arguments (without the closing
/// parenthesis it eases out); otherwise the first of "ease-in-out",
/// "ease-out", "ease-in" that it contains, else ease-out.
pub open spec fn easing_kind(s: Seq<char>) -> EasingKind {
    let n = normalized(s);
    if n == "linear"@ {
        EasingKind::Linear
    } else if has_prefix(n, "cubic-bezier("@) {
        if has_suffix(n.subrange(13, n.len() as int), ")"@) {
            EasingKind::CubicBezier(
                split_on(bezier_inner(n), ',').map_values(|p: Seq<char>| trim(p)),
            )
        } else {
            EasingKind::EaseOut
        }
    } else if contains(n, "ease-in-out"@) {
        EasingKind::EaseInOut
    } else if contains(n, "ease-out"@) {
        EasingKind::EaseOut
    } else if contains(n, "ease-in"@) {
        EasingKind::EaseIn
    } else {
        EasingKind::EaseOut
    }
}

/// The mathematical reading of a curve value.
pub open spec fn curve_kind(c: EasingCurve) -> EasingKind {
    match c {
        EasingCurve::Linear => EasingKind::Linear,
        EasingCurve::CubicBezier(parts) => EasingKind::CubicBezier(
            parts@.map_values(|p: Vec<char>| p@),
        ),
        EasingCurve::EaseInOut => EasingKind::EaseInOut,
        EasingCurve::EaseOut => EasingKind::EaseOut,
        EasingCurve::EaseIn => EasingKind::EaseIn,
    }
}

/// The pieces of `v` between commas.
fn split_commas(v: &Vec<char>) -> (r: Vec<Vec<char>>)
    ensures
        r@.map_values(|p: Vec<char>| p@) == split_on(v@, ','),
{
    let mut done: Vec<Vec<char>> = Vec::new();
    let mut cur: Vec<char> = Vec::new();
    let mut k: usize = 0;
    while k < v.len()
        invariant
            k <= v@.len(),
            done@.map_values(|p: Vec<char>| p@).push(cur@) == split_on(v@.subrange(0, k as int), ','),
        decreases v@.len() - k,
    {
        let c = v[k];
        let ghost before = v@.subrange(0, k as int);
        let ghost after = v@.subrange(0, k + 1);
        assert(after.drop_last() =~= before);
        assert(after.last() == c);
        proof {
            lemma_split_nonempty(before, ',');
        }
        if c == ',' {
            let piece = cur;
            done.push(piece);
            cur = Vec::new();
            assert(done@.map_values(|p: Vec<char>| p@).push(cur@) =~= split_on(before, ',').push(
                Seq::<char>::empty(),
            ));
        } else {
            let ghost old_cur = cur@;
            cur.push(c);
            assert(done@.map_values(|p: Vec<char>| p@).push(cur@) =~= split_on(before, ',').update(
                split_on(before, ',').len() - 1,
                old_cur.push(c),
            ));
        }
        k = k + 1;
    }
    assert(v@.subrange(0, v@.len() as int) =~= v@);
    done.push(cur);
    assert(done@.map_values(|p: Vec<char>| p@) =~= split_on(v@, ','));
    done
}

/// Reads a CSS easing name.
pub fn easing_curve(s: &str) -> (r: EasingCurve)
    ensures
        curve_kind(r) == easing_kind(s@),
{
    let n = normalize(s);
    proof {
        reveal_strlit("linear");
        reveal_strlit("cubic-bezier(");
        reveal_strlit(")");
        reveal_strlit("ease-in-out");
        reveal_strlit("ease-out");
        reveal_strlit("ease-in");
    }
    if chars_equal(&n, "linear") {
        return EasingCurve::Linear;
    }
    if chars_start_with(&n, "cubic-bezier(") {
        if chars_end_with(&n, ")") && n.len() >= 14 {
            let mut inner: Vec<char> = Vec::new();
            let mut k: usize = 13;
            while k < n.len() - 1
                invariant
                    n@.len() >= 14,
                    13 <= k <= n@.len() - 1,
                    inner@ == n@.subrange(13, k as int),
                decreases n@.len() - 1 - k,
            {
                inner.push(n[k]);
                k = k + 1;
                assert(inner@ =~= n@.subrange(13, k as int));
            }
            let pieces = split_commas(&inner);
            let mut parts: Vec<Vec<char>> = Vec::new();
            let mut j: usize = 0;
            while j < pieces.len()
                invariant
                    j <= pieces@.len(),
                    parts@.len() == j,
                    forall|m: int| 0 <= m < j ==> (#[trigger] parts@[m])@ == trim(pieces@[m]@),
                decreases pieces@.len() - j,
            {
                parts.push(trim_chars(&pieces[j]));
                j = j + 1;
            }
            proof {
                let sp = split_on(bezier_inner(n@), ',');
                assert(inner@ =~= bezier_inner(n@));
                assert(has_suffix(n@.subrange(13, n@.len() as int), ")"@)) by {
                    assert(n@.subrange(13, n@.len() as int).subrange(
                        n@.len() - 14,
                        n@.len() - 13,
                    ) =~= n@.subrange(n@.len() - 1, n@.len() as int));
                }
                assert(parts@.map_values(|p: Vec<char>| p@) =~= sp.map_values(
                    |p: Seq<char>| trim(p),
                ));
            }
            return EasingCurve::CubicBezier(parts);
        }
        proof {
            if has_suffix(n@.subrange(13, n@.len() as int), ")"@) {
                assert(n@.subrange(13, n@.len() as int).subrange(
                    n@.len() - 14,
                    n@.len() - 13,
                ) =~= n@.subrange(n@.len() - 1, n@.len() as int));
            }
        }
        return EasingCurve::EaseOut;
    }
    if chars_contain(&n, "ease-in-out") {
        EasingCurve::EaseInOut
    } else if chars_contain(&n, "ease-out") {
        EasingCurve::EaseOut
    } else if chars_contain(&n, "ease-in") {
        EasingCurve::EaseIn
    } else {
        EasingCurve::EaseOut
    }
}

/// The strip for a switch towards `direction` on a screen of positive size:
/// two screens wide; moving to the next desktop it starts at 0 and ends one
/// screen to the left with the new desktop on the right, moving to the
/// previous one it starts one screen to the left and ends at 0.
pub open spec fn slide_geometry(direction: i32, width: i32, height: i32, duration_ms: u32) -> SlideGeometry {
    SlideGeometry {
        width,
        height,
        strip_width: (2 * width) as i32,
        new_on_right: direction > 0,
        initial_x: if direction > 0 {
            0
        } else {
            (-width) as i32
        },
        final_x: if direction > 0 {
            (-width) as i32
        } else {
            0
        },
        duration_ms: if duration_ms > MIN_SLIDE_MS {
            duration_ms
        } else {
            MIN_SLIDE_MS
        },
    }
}

/// Plans the strip for a switch towards `direction` (+1 next, -1 previous) on
/// a screen of the given size. A zero direction needs no strip (the switch
/// happens alone); a screen without positive size cannot have one.
pub fn slide_push_plan(direction: i32, width: i32, height: i32, duration_ms: u32) -> (r: Result<
    Option<SlideGeometry>,
    SlideError,
>)
    requires
        direction != 0 && width > 0 && height > 0 ==> width <= i32::MAX / 2,
    ensures
        direction == 0 ==> r matches Ok(None),
        direction != 0 && (width <= 0 || height <= 0) ==> r == Err::<Option<SlideGeometry>, SlideError>(
            SlideError::InvalidScreen,
        ),
        direction != 0 && width > 0 && height > 0 ==> r == Ok::<Option<SlideGeometry>, SlideError>(
            Some(slide_geometry(direction, width, height, duration_ms)),
        ),
{
    if direction == 0 {
        return Ok(None);
    }
    if width <= 0 || height <= 0 {
        return Err(SlideError::InvalidScreen);
    }
    let forward = direction > 0;
    Ok(
        Some(
            SlideGeometry {
                width,
                height,
                strip_width: 2 * width,
                new_on_right: forward,
                initial_x: if forward {
                    0
                } else {
                    -width
                },
                final_x: if forward {
                    -width
                } else {
                    0
                },
                duration_ms: if duration_ms > MIN_SLIDE_MS {
                    duration_ms
                } else {
                    MIN_SLIDE_MS
                },
            },
        ),
    )
}

/// The strip travels exactly one screen width: to the left when moving to
/// the next desktop, to the right when moving to the previous one; it ends
/// with the new desktop where the screen is, and the strip is two screens wide.
pub proof fn strip_travels_one_screen(direction: i32, width: i32, height: i32, duration_ms: u32)
    requires
        direction != 0,
        0 < width <= i32::MAX / 2,
    ensures
        ({
            let g = slide_geometry(direction, width, height, duration_ms);
            &&& g.final_x - g.initial_x == if direction > 0 {
                -width
            } else {
                width as int
            }
            &&& g.strip_width == 2 * width
            &&& (g.new_on_right ==> g.final_x == -width)
            &&& (!g.new_on_right ==> g.final_x == 0)
            &&& g.duration_ms >= MIN_SLIDE_MS
        }),
{
}

/// The strip plays for the configured duration, raised only to the 16 ms minimum.
pub proof fn strip_plays_configured_duration(
    direction: i32,
    width: i32,
    height: i32,
    duration_ms: u32,
)
    ensures
        duration_ms >= 16 ==> slide_geometry(direction, width, height, duration_ms).duration_ms
            == duration_ms,
        duration_ms < 16 ==> slide_geometry(direction, width, height, duration_ms).duration_ms
            == 16,
        slide_geometry(direction, width, height, duration_ms).width == width,
        slide_geometry(direction, width, height, duration_ms).height == height,
{
}

} // verus!
