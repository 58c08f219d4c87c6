//! The tray icon: which mouse events open its menu, what the menu holds, what
//! each entry does, and how a configuration reload reaches the hooks.
use vstd::prelude::*;
use crate::config::Config;
use crate::hotkey::{HotkeyState, set_cooldown};
use crate::wheel::WheelState;
use crate::touch::{TouchParams, params_from};
use crate::worker::{WorkerSettings, worker_settings_from};

verus! {

/// First message number free for applications.
pub const WM_USER: u32 = 0x0400;
/// The message the tray icon sends to its window.
pub const WM_TRAY: u32 = WM_USER + 100;
/// Identifier of the icon.
pub const TRAY_ICON_ID: u32 = 1;
/// Right button released.
pub const WM_RBUTTONUP: u32 = 0x0205;
/// Left button double-clicked.
pub const WM_LBUTTONDBLCLK: u32 = 0x0203;
/// Menu entry identifiers.
pub const ID_RELOAD: u32 = 1001;
pub const ID_OPEN_CONFIG: u32 = 1002;
pub const ID_AUTOSTART: u32 = 1003;
pub const ID_QUIT: u32 = 1010;

/// What a menu entry asks for.
#[derive(Debug, Clone, Copy, PartialEq, Eq, Structural)]
pub enum TrayCommand {
    /// Read the configuration again and hand it to the hooks.
    ReloadConfig,
    /// Open `config.toml`, creating it with the defaults if it is missing.
    OpenConfig,
    /// Turn running at startup on or off.
    ToggleAutostart,
    /// Leave the message loop.
    Quit,
}

/// One line of the tray menu.
#[derive(Debug, Clone, Copy)]
pub struct MenuEntry {
    /// Command identifier (0 for the separator).
    pub id: u32,
    pub label: &'static str,
    pub checked: bool,
    pub separator: bool,
}

/// The mouse event that an icon message carries.
pub open spec fn tray_event(lparam: isize) -> int {
    (lparam as u32) as int % 65536
}

/// The command of a menu identifier.
pub open spec fn command_of(id: u32) -> Option<TrayCommand> {
    if id == ID_RELOAD {
        Some(TrayCommand::ReloadConfig)
    } else if id == ID_OPEN_CONFIG {
        Some(TrayCommand::OpenConfig)
    } else if id == ID_AUTOSTART {
        Some(TrayCommand::ToggleAutostart)
    } else if id == ID_QUIT {
        Some(TrayCommand::Quit)
    } else {
        None
    }
}

/// Whether an icon message opens the menu: a right click or a left double click.
pub fn tray_event_shows_menu(lparam: isize) -> (r: bool)
    ensures
        r == (tray_event(lparam) == WM_RBUTTONUP || tray_event(lparam) == WM_LBUTTONDBLCLK),
{
    let raw = lparam as u32;
    let event = raw & 0xFFFF;
    assert(event == raw % 65536) by (bit_vector)
        requires
            event == raw & 0xFFFF,
    ;
    event == WM_RBUTTONUP || event == WM_LBUTTONDBLCLK
}

/// The menu identifier that a `WM_COMMAND` carries in the low word of its `wparam`.
pub fn command_id(wparam: usize) -> (id: u32)
    ensures
        id == wparam % 65536,
{
    let lo = wparam & 0xFFFF;
    assert(lo == wparam % 65536) by (bit_vector)
        requires
            lo == wparam & 0xFFFF,
    ;
    lo as u32
}

/// The command that a menu identifier stands for.
pub fn handle_command(id: u32) -> (r: Option<TrayCommand>)
    ensures
        r == command_of(id),
{
    if id == ID_RELOAD {
        Some(TrayCommand::ReloadConfig)
    } else if id == ID_OPEN_CONFIG {
        Some(TrayCommand::OpenConfig)
    } else if id == ID_AUTOSTART {
        Some(TrayCommand::ToggleAutostart)
    } else if id == ID_QUIT {
        Some(TrayCommand::Quit)
    } else {
        None
    }
}

/// The tray menu: reload, open the file, the startup switch (checked when
/// on), a separator and quit.
pub fn show_menu(autostart_enabled: bool) -> (m: Vec<MenuEntry>)
    ensures
        m@.len() == 5,
        m@[0].id == ID_RELOAD && m@[0].label@ == "Reload config"@ && !m@[0].checked
            && !m@[0].separator,
        m@[1].id == ID_OPEN_CONFIG && m@[1].label@ == "Open config.toml"@ && !m@[1].checked
            && !m@[1].separator,
        m@[2].id == ID_AUTOSTART && m@[2].label@ == "Run at startup"@ && m@[2].checked
            == autostart_enabled && !m@[2].separator,
        m@[3].id == 0 && m@[3].separator && !m@[3].checked,
        m@[4].id == ID_QUIT && m@[4].label@ == "Quit"@ && !m@[4].checked && !m@[4].separator,
        forall|i: int| 0 <= i < 5 && !m@[i].separator ==> command_of(#[trigger] m@[i].id) is Some,
{
    let mut m: Vec<MenuEntry> = Vec::new();
    m.push(MenuEntry { id: ID_RELOAD, label: "Reload config", checked: false, separator: false });
    m.push(
        MenuEntry { id: ID_OPEN_CONFIG, label: "Open config.toml", checked: false, separator: false },
    );
    m.push(
        MenuEntry {
            id: ID_AUTOSTART,
            label: "Run at startup",
            checked: autostart_enabled,
            separator: false,
        },
    );
    m.push(MenuEntry { id: 0, label: "", checked: false, separator: true });
    m.push(MenuEntry { id: ID_QUIT, label: "Quit", checked: false, separator: false });
    m
}

/// Hands a freshly read configuration to the running parts: the keyboard
/// cooldown, the wheel parameters and the touch parameters to the hooks, and
/// the animation, indicator and navigation settings to the desktop worker.
/// Nothing else of the hooks' state changes.
pub fn reload_config(
    cfg: &Config,
    hotkeys: &mut HotkeyState,
    wheel: &mut WheelState,
    touch: &mut TouchParams,
    worker: &mut WorkerSettings,
)
    ensures
        *final(worker) == worker_settings_from(*cfg),
        *final(hotkeys) == (HotkeyState { cooldown_ms: cfg.wheel.cooldown_ms, ..*old(hotkeys) }),
        final(wheel).threshold == cfg.wheel.threshold,
        final(wheel).cooldown_ms == cfg.wheel.cooldown_ms,
        final(wheel).damping_milli == if cfg.wheel.velocity_damping_milli > 5000 {
            5000
        } else {
            cfg.wheel.velocity_damping_milli
        },
        final(wheel).hot_zone_px == if cfg.wheel.hot_zone_height_px < 0 {
            0
        } else {
            cfg.wheel.hot_zone_height_px
        },
        final(wheel).accumulator == old(wheel).accumulator,
        final(wheel).last_event_ms == old(wheel).last_event_ms,
        final(wheel).last_switch_ms == old(wheel).last_switch_ms,
        final(wheel).burst_count == old(wheel).burst_count,
        *final(touch) == params_from(cfg.touch),
{
    set_cooldown(hotkeys, cfg.wheel.cooldown_ms);
    crate::wheel::set_params(
        wheel,
        cfg.wheel.threshold,
        cfg.wheel.cooldown_ms,
        cfg.wheel.velocity_damping_milli,
        cfg.wheel.hot_zone_height_px,
    );
    crate::touch::set_params(touch, &cfg.touch);
    *worker = WorkerSettings::from_config(cfg);
}

} // verus!
