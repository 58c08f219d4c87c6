use win_desktop_switcher::overlay::{
    decode_show, paint_layout, position, show, tick, AnimPhase, Dot, Rect, ShowRequest,
};

#[test]
fn show_packs_index_and_total() {
    let m = show(2, 5, 1100, -3);
    assert_eq!(m.wparam, (5 << 16) | 2);
    assert_eq!(m.lparam, 1100);
    assert_eq!(m.direction, -1);
    assert_eq!(show(0, 1, 0, 0).direction, 0);
    assert_eq!(show(0, 1, 0, 7).direction, 1);
    let big = show(70000, 100000, 5, 1);
    assert_eq!(big.wparam, (0xFFFF << 16) | 0xFFFF);
}

#[test]
fn decode_reverses_show() {
    let m = show(3, 9, 1100, 1);
    assert_eq!(decode_show(m.wparam, m.lparam), ShowRequest { current: 3, total: 9, duration_ms: 1100 });
    let m = show(1, 2, 300, 1);
    assert_eq!(decode_show(m.wparam, m.lparam).duration_ms, 900);
    assert_eq!(decode_show(0xABCD_0001_0002, 0).current, 2);
    assert_eq!(decode_show(0xABCD_0001_0002, 0).total, 1);
}

#[test]
fn animation_phases() {
    assert_eq!(tick(0, 1100), AnimPhase::FadeIn { elapsed: 0, span: 275 });
    assert_eq!(tick(274, 1100), AnimPhase::FadeIn { elapsed: 274, span: 275 });
    assert_eq!(tick(275, 1100), AnimPhase::Opaque);
    assert_eq!(tick(714, 1100), AnimPhase::Opaque);
    assert_eq!(tick(800, 1100), AnimPhase::FadeOut { elapsed: 85, span: 385 });
    assert_eq!(tick(1100, 1100), AnimPhase::Finished);
    assert_eq!(tick(0, 2), AnimPhase::FadeIn { elapsed: 0, span: 1 });
    assert_eq!(tick(1, 2), AnimPhase::Opaque);
    assert_eq!(tick(0, 0), AnimPhase::Finished);
}

#[test]
fn dots_layout() {
    let rc = Rect { left: 0, top: 0, right: 520, bottom: 110 };
    let l = paint_layout(rc, 1, 3).unwrap();
    assert_eq!(
        l.dots,
        vec![
            Dot { left: 223, top: 35, size: 12, active: false },
            Dot { left: 249, top: 30, size: 22, active: true },
            Dot { left: 285, top: 35, size: 12, active: false },
        ]
    );
    assert_eq!(l.text_rect, Rect { left: 0, top: 59, right: 520, bottom: 104 });
    assert_eq!((l.label_current, l.label_total), (2, 3));
    assert!(paint_layout(rc, 0, 0).is_none());
    let wide = paint_layout(Rect { left: 0, top: 0, right: 10, bottom: 110 }, 0, 2).unwrap();
    assert_eq!(wide.dots[0].left, -19);
    assert_eq!(wide.dots[1].left, 17);
}

#[test]
fn window_position() {
    assert_eq!(position(1920, 1080), (700, 637));
    assert_eq!(position(500, 100), (-10, 9));
}
