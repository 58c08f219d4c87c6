use win_desktop_switcher::slide_overlay::{
    easing_curve, slide_push_plan, EasingCurve, SlideError, SlideGeometry,
};

fn parts(c: EasingCurve) -> Option<Vec<String>> {
    match c {
        EasingCurve::CubicBezier(p) => Some(p.into_iter().map(|v| v.into_iter().collect()).collect()),
        _ => None,
    }
}

#[test]
fn no_direction_no_strip() {
    assert_eq!(slide_push_plan(0, 0, 0, 320), Ok(None));
}

#[test]
fn bad_screen() {
    assert_eq!(slide_push_plan(1, 0, 1080, 320), Err(SlideError::InvalidScreen));
    assert_eq!(slide_push_plan(-1, 1920, -1, 320), Err(SlideError::InvalidScreen));
}

#[test]
fn strip_moves_by_one_screen() {
    assert_eq!(
        slide_push_plan(1, 1920, 1080, 320),
        Ok(Some(SlideGeometry {
            width: 1920,
            height: 1080,
            strip_width: 3840,
            new_on_right: true,
            initial_x: 0,
            final_x: -1920,
            duration_ms: 320,
        }))
    );
    assert_eq!(
        slide_push_plan(-1, 1920, 1080, 5),
        Ok(Some(SlideGeometry {
            width: 1920,
            height: 1080,
            strip_width: 3840,
            new_on_right: false,
            initial_x: -1920,
            final_x: 0,
            duration_ms: 16,
        }))
    );
}

#[test]
fn css_easing_names() {
    assert!(matches!(easing_curve(" Linear "), EasingCurve::Linear));
    assert_eq!(
        parts(easing_curve("cubic-bezier(0.4, 0.0, 0.2, 1)")),
        Some(vec!["0.4".to_string(), "0.0".to_string(), "0.2".to_string(), "1".to_string()])
    );
    assert_eq!(parts(easing_curve("cubic-bezier()")), Some(vec![String::new()]));
    assert_eq!(
        parts(easing_curve("CUBIC-BEZIER(a,,b)")),
        Some(vec!["a".to_string(), String::new(), "b".to_string()])
    );
    assert!(matches!(easing_curve("cubic-bezier(1, 2"), EasingCurve::EaseOut));
    assert!(matches!(easing_curve("EASE-IN-OUT"), EasingCurve::EaseInOut));
    assert!(matches!(easing_curve("my-ease-out"), EasingCurve::EaseOut));
    assert!(matches!(easing_curve("ease-in"), EasingCurve::EaseIn));
    assert!(matches!(easing_curve("bounce"), EasingCurve::EaseOut));
}
