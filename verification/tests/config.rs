use win_desktop_switcher::config::{
    config_path, find_config_path, Animation, Config, ConfigCandidate, Display, DisplayMode,
    Navigation, Overlay, Touch, Wheel,
};

fn cand(path: &str, is_file: bool) -> Option<ConfigCandidate> {
    Some(ConfigCandidate { path: path.to_string(), is_file })
}

#[test]
fn defaults() {
    let c = Config::default();
    assert_eq!(c.display.mode, DisplayMode::Overlay);
    assert_eq!(c.animation.mode, "slide-push");
    assert_eq!(c.animation.duration_ms, 320);
    assert_eq!(c.animation.easing, "cubic-bezier(0.4, 0.0, 0.2, 1)");
    assert!(c.overlay.enabled);
    assert_eq!(c.wheel, Wheel { threshold: 120, cooldown_ms: 150, velocity_damping_milli: 400, hot_zone_height_px: 60 });
    assert_eq!(
        (c.touch.enabled, c.touch.swipe_distance_px, c.touch.swipe_steps, c.touch.step_delay_ms),
        (true, 650, 28, 11)
    );
    assert_eq!((c.touch.easing.as_str(), c.touch.hold_before_ms, c.touch.hold_after_ms), ("ease-in", 15, 35));
    assert!(c.navigation.wrap);
    assert_eq!(DisplayMode::default(), DisplayMode::Overlay);
    assert_eq!(Display::default().mode, DisplayMode::Overlay);
    assert!(Overlay::default().enabled);
    assert!(Navigation::default().wrap);
    assert_eq!(Animation::default().duration_ms, 320);
    assert_eq!(Touch::default().swipe_steps, 28);
}

#[test]
fn working_directory_first() {
    assert_eq!(find_config_path(cand("cwd/config.toml", true), cand("exe/config.toml", true)), Some("cwd/config.toml".to_string()));
    assert_eq!(find_config_path(cand("cwd/config.toml", false), cand("exe/config.toml", true)), Some("exe/config.toml".to_string()));
    assert_eq!(find_config_path(None, cand("exe/config.toml", true)), Some("exe/config.toml".to_string()));
    assert_eq!(find_config_path(cand("cwd/config.toml", false), cand("exe/config.toml", false)), None);
    assert_eq!(find_config_path(None, None), None);
}

#[test]
fn path_for_a_new_file() {
    assert_eq!(config_path(cand("cwd/config.toml", true), cand("exe/config.toml", false)), "cwd/config.toml");
    assert_eq!(config_path(cand("cwd/config.toml", false), cand("exe/config.toml", false)), "exe/config.toml");
    assert_eq!(config_path(cand("cwd/config.toml", false), None), "config.toml");
    assert_eq!(config_path(None, None), "config.toml");
}

#[test]
fn config_path_names_the_found_file_or_a_new_one() {
    let cases = [
        (cand("cwd/config.toml", true), cand("exe/config.toml", true)),
        (cand("cwd/config.toml", false), cand("exe/config.toml", true)),
        (cand("cwd/config.toml", false), cand("exe/config.toml", false)),
        (cand("config.toml", false), None),
        (None, None),
    ];
    for (cwd, exe) in cases {
        let found = find_config_path(cwd.clone(), exe.clone());
        let path = config_path(cwd.clone(), exe.clone());
        match found {
            Some(p) => assert_eq!(path, p),
            None => {
                let named = [cwd, exe].into_iter().flatten().find(|c| c.path == path);
                assert!(named.map_or(true, |c| !c.is_file));
            }
        }
    }
}
