use win_desktop_switcher::desktop::{DesktopError, DesktopManager, RelativeSwitch};

#[test]
fn new_needs_a_desktop() {
    assert_eq!(DesktopManager::new(0), Err(DesktopError::NoDesktops));
    assert_eq!(DesktopManager::new(3), Ok(DesktopManager));
}

#[test]
fn no_desktops_means_no_switch() {
    let m = DesktopManager;
    assert_eq!(m.switch_relative(1, true, 0, None), RelativeSwitch::Stay);
    assert_eq!(m.switch_relative(1, false, 0, Some(0)), RelativeSwitch::Stay);
}

#[test]
fn current_index_is_asked_for() {
    let m = DesktopManager;
    assert_eq!(m.switch_relative(1, true, 4, None), RelativeSwitch::QueryCurrent);
}

#[test]
fn wrap_goes_from_last_to_first_and_back() {
    let m = DesktopManager;
    assert_eq!(m.switch_relative(1, true, 5, Some(4)), RelativeSwitch::SwitchTo(0));
    assert_eq!(m.switch_relative(-1, true, 5, Some(0)), RelativeSwitch::SwitchTo(4));
    assert_eq!(m.switch_relative(-7, true, 5, Some(1)), RelativeSwitch::SwitchTo(4));
    assert_eq!(m.switch_relative(12, true, 5, Some(1)), RelativeSwitch::SwitchTo(3));
}

#[test]
fn without_wrap_the_ends_hold() {
    let m = DesktopManager;
    assert_eq!(m.switch_relative(1, false, 5, Some(4)), RelativeSwitch::Stay);
    assert_eq!(m.switch_relative(-1, false, 5, Some(0)), RelativeSwitch::Stay);
    assert_eq!(m.switch_relative(-9, false, 5, Some(3)), RelativeSwitch::SwitchTo(0));
    assert_eq!(m.switch_relative(9, false, 5, Some(1)), RelativeSwitch::SwitchTo(4));
}

#[test]
fn ordinary_moves() {
    let m = DesktopManager;
    assert_eq!(m.switch_relative(1, false, 5, Some(2)), RelativeSwitch::SwitchTo(3));
    assert_eq!(m.switch_relative(-1, true, 5, Some(2)), RelativeSwitch::SwitchTo(1));
    assert_eq!(m.switch_relative(0, true, 5, Some(2)), RelativeSwitch::Stay);
    assert_eq!(m.switch_relative(5, true, 5, Some(2)), RelativeSwitch::Stay);
    assert_eq!(m.switch_relative(1, true, 1, Some(0)), RelativeSwitch::Stay);
}

#[test]
fn wrapped_move_is_undone_by_the_opposite_move() {
    let m = DesktopManager;
    for cur in 0..6u32 {
        for delta in -8i32..=8 {
            let there = match m.switch_relative(delta, true, 6, Some(cur)) {
                RelativeSwitch::SwitchTo(t) => t,
                RelativeSwitch::Stay => cur,
                RelativeSwitch::QueryCurrent => panic!("current was given"),
            };
            let back = match m.switch_relative(-delta, true, 6, Some(there)) {
                RelativeSwitch::SwitchTo(t) => t,
                RelativeSwitch::Stay => there,
                RelativeSwitch::QueryCurrent => panic!("current was given"),
            };
            assert_eq!(back, cur);
        }
    }
}
