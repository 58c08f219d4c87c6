//! The configuration model (`config.toml`): its sections, their defaults, and
//! where the file is looked for.
use vstd::prelude::*;

verus! {

/// How a switch is presented.
#[derive(Debug, Clone, Copy, PartialEq, Eq, Structural)]
pub enum DisplayMode {
    Instant,
    Indicator,
    Overlay,
    System,
}

impl Default for DisplayMode {
    fn default() -> (r: Self)
        ensures
            r == DisplayMode::Overlay,
    {
        DisplayMode::Overlay
    }
}

/// `[overlay]`: the "2 / 5" indicator with dots shown after a switch.
#[derive(Debug, Clone, Copy, PartialEq, Eq, Structural)]
pub struct Overlay {
    pub enabled: bool,
}

impl Default for Overlay {
    fn default() -> (r: Self)
        ensures
            r.enabled,
    {
        Overlay { enabled: true }
    }
}

/// `[display]`.
#[derive(Debug, Clone, Copy, PartialEq, Eq, Structural)]
pub struct Display {
    pub mode: DisplayMode,
}

impl Default for Display {
    fn default() -> (r: Self)
        ensures
            r.mode == DisplayMode::Overlay,
    {
        Display { mode: DisplayMode::Overlay }
    }
}

/// `[animation]`: how a switch to a neighbouring desktop is animated.
#[derive(Debug, Clone)]
pub struct Animation {
    /// "touch" (native slide through an injected four-finger swipe),
    /// "slide-push" (film strip of both desktops) or "instant".
    pub mode: String,
    pub duration_ms: u32,
    /// CSS easing: "linear", "ease-in", "ease-out", "ease-in-out" or "cubic-bezier(x1,y1,x2,y2)".
    pub easing: String,
}

impl Default for Animation {
    fn default() -> (r: Self)
        ensures
            r.mode@ == "slide-push"@,
            r.duration_ms == 320,
            r.easing@ == "cubic-bezier(0.4, 0.0, 0.2, 1)"@,
    {
        Animation {
            mode: String::from_str("slide-push"),
            duration_ms: 320,
            easing: String::from_str("cubic-bezier(0.4, 0.0, 0.2, 1)"),
        }
    }
}

/// `[touch]`: the injected four-finger swipe.
#[derive(Debug, Clone)]
pub struct Touch {
    /// Use touch injection; false falls back to a plain switch.
    pub enabled: bool,
    /// Total finger travel of a swipe (px).
    pub swipe_distance_px: i32,
    /// Number of intermediate frames.
    pub swipe_steps: u32,
    /// Pause between frames (ms).
    pub step_delay_ms: u64,
    /// "linear", "ease-in", "ease-out" or "ease-in-out".
    pub easing: String,
    /// Pause after the fingers touch down, before they move (ms).
    pub hold_before_ms: u64,
    /// Pause after the last move, before the fingers lift (ms).
    pub hold_after_ms: u64,
}

impl Default for Touch {
    fn default() -> (r: Self)
        ensures
            r.enabled,
            r.swipe_distance_px == 650,
            r.swipe_steps == 28,
            r.step_delay_ms == 11,
            r.easing@ == "ease-in"@,
            r.hold_before_ms == 15,
            r.hold_after_ms == 35,
    {
        Touch {
            enabled: true,
            swipe_distance_px: 650,
            swipe_steps: 28,
            step_delay_ms: 11,
            easing: String::from_str("ease-in"),
            hold_before_ms: 15,
            hold_after_ms: 35,
        }
    }
}

/// `[wheel]`.
#[derive(Debug, Clone, Copy, PartialEq, Eq, Structural)]
pub struct Wheel {
    /// Scrolling (wheel units, 120 per notch) that switches a desktop.
    pub threshold: i32,
    pub cooldown_ms: u32,
    /// Threshold growth per event of a fast burst, in thousandths (0.4 is 400).
    pub velocity_damping_milli: u32,
    /// Height of the zone at the bottom of the screen where the wheel switches
    /// without Win held (px); 0 turns it off.
    pub hot_zone_height_px: i32,
}

impl Default for Wheel {
    fn default() -> (r: Self)
        ensures
            r == (Wheel {
                threshold: 120,
                cooldown_ms: 150,
                velocity_damping_milli: 400,
                hot_zone_height_px: 60,
            }),
    {
        Wheel { threshold: 120, cooldown_ms: 150, velocity_damping_milli: 400, hot_zone_height_px: 60 }
    }
}

/// `[navigation]`.
#[derive(Debug, Clone, Copy, PartialEq, Eq, Structural)]
pub struct Navigation {
    /// Go round from the last desktop to the first and back.
    pub wrap: bool,
}

impl Default for Navigation {
    fn default() -> (r: Self)
        ensures
            r.wrap,
    {
        Navigation { wrap: true }
    }
}

/// The whole configuration; every section falls back to its defaults.
#[derive(Debug, Clone)]
pub struct Config {
    pub display: Display,
    pub animation: Animation,
    pub overlay: Overlay,
    pub wheel: Wheel,
    pub touch: Touch,
    pub navigation: Navigation,
}

/// The configuration as it is when no file sets anything.
pub open spec fn is_default_config(c: Config) -> bool {
    &&& c.display.mode == DisplayMode::Overlay
    &&& c.animation.mode@ == "slide-push"@
    &&& c.animation.duration_ms == 320
    &&& c.animation.easing@ == "cubic-bezier(0.4, 0.0, 0.2, 1)"@
    &&& c.overlay.enabled
    &&& c.wheel == Wheel {
        threshold: 120,
        cooldown_ms: 150,
        velocity_damping_milli: 400,
        hot_zone_height_px: 60,
    }
    &&& c.touch.enabled
    &&& c.touch.swipe_distance_px == 650
    &&& c.touch.swipe_steps == 28
    &&& c.touch.step_delay_ms == 11
    &&& c.touch.easing@ == "ease-in"@
    &&& c.touch.hold_before_ms == 15
    &&& c.touch.hold_after_ms == 35
    &&& c.navigation.wrap
}

impl Default for Config {
    fn default() -> (r: Self)
        ensures
            is_default_config(r),
    {
        Config {
            display: Display::default(),
            animation: Animation::default(),
            overlay: Overlay::default(),
            wheel: Wheel::default(),
            touch: Touch::default(),
            navigation: Navigation::default(),
        }
    }
}

/// A place where `config.toml` may be: the path, and whether a file is there.
#[derive(Debug, Clone)]
pub struct ConfigCandidate {
    pub path: String,
    pub is_file: bool,
}

/// The file that is read: `config.toml` in the working directory if it is a
/// file there, else the one beside the executable if it is a file there.
pub open spec fn found_config(cwd: Option<ConfigCandidate>, exe_dir: Option<ConfigCandidate>) -> Option<
    Seq<char>,
> {
    if cwd is Some && cwd->0.is_file {
        Some(cwd->0.path@)
    } else if exe_dir is Some && exe_dir->0.is_file {
        Some(exe_dir->0.path@)
    } else {
        None
    }
}

/// Finds the configuration file among the candidates: `cwd` is `config.toml`
/// in the working directory, `exe_dir` the one beside the executable (`None`
/// where that directory could not be determined).
pub fn find_config_path(cwd: Option<ConfigCandidate>, exe_dir: Option<ConfigCandidate>) -> (r:
    Option<String>)
    ensures
        r is Some == found_config(cwd, exe_dir) is Some,
        r is Some ==> r->0@ == found_config(cwd, exe_dir)->0,
{
    if let Some(c) = cwd {
        if c.is_file {
            return Some(c.path);
        }
    }
    if let Some(e) = exe_dir {
        if e.is_file {
            return Some(e.path);
        }
    }
    None
}

/// The path that [`config_path`] gives: the file that is read, else the place
/// beside the executable, else the bare `config.toml` (which resolves in the
/// working directory).
pub open spec fn chosen_config_path(cwd: Option<ConfigCandidate>, exe_dir: Option<ConfigCandidate>) -> Seq<
    char,
> {
    if found_config(cwd, exe_dir) is Some {
        found_config(cwd, exe_dir)->0
    } else if exe_dir is Some {
        exe_dir->0.path@
    } else {
        "config.toml"@
    }
}

/// The path of the configuration file: the existing one, else the place
/// beside the executable where a new one is created, else `config.toml`.
pub fn config_path(cwd: Option<ConfigCandidate>, exe_dir: Option<ConfigCandidate>) -> (r: String)
    ensures
        r@ == chosen_config_path(cwd, exe_dir),
{
    let exe_path: Option<String> = match &exe_dir {
        Some(e) => Some(e.path.clone()),
        None => None,
    };
    match find_config_path(cwd, exe_dir) {
        Some(p) => p,
        None => match exe_path {
            Some(p) => p,
            None => String::from_str("config.toml"),
        },
    }
}

/// The path of the configuration file names the file that is loaded when
/// there is one. When none is found it names no existing file, only the place
/// where a new one is created: the candidate beside the executable, which is
/// not a file, or, when that directory is unknown, the bare `config.toml`,
/// which resolves to the working-directory candidate, which is not a file either.
pub proof fn config_path_is_loaded_file_or_new(
    cwd: Option<ConfigCandidate>,
    exe_dir: Option<ConfigCandidate>,
)
    ensures
        found_config(cwd, exe_dir) is Some ==> chosen_config_path(cwd, exe_dir) == found_config(
            cwd,
            exe_dir,
        )->0,
        found_config(cwd, exe_dir) is None && exe_dir is Some ==> chosen_config_path(cwd, exe_dir)
            == exe_dir->0.path@ && !exe_dir->0.is_file,
        found_config(cwd, exe_dir) is None && exe_dir is None ==> chosen_config_path(cwd, exe_dir)
            == "config.toml"@ && (cwd is Some ==> !cwd->0.is_file),
{
}

} // verus!
