//! Decision logic behind the tray: which menu entries are checked, what each
//! menu command does to the mode state, what each global hotkey does, and
//! which icon reflects the master switch. Rendering the menu, the balloon
//! tips and the icon is the shell's business.

use vstd::prelude::*;

use crate::config::{
    opposite_mode, spec_opposite_mode, switch_ime_mode, toggle_autostart, toggle_master_switch,
    toggle_notifications, Config, ImeMode,
};
use crate::constants::{
    HOT_KEY_SWITCH_MODE_ID, HOT_KEY_TOGGLE_ID, IDI_ICON1, IDI_ICON_ACTIVE, IDM_AUTOSTART,
    IDM_CONFIGURE_HOTKEYS, IDM_EXIT, IDM_IME_CHINESE, IDM_IME_ENGLISH, IDM_MASTER_SWITCH,
    IDM_OPEN_CONFIG_DIR, IDM_RELOAD_CONFIG, IDM_TOGGLE_NOTIFICATIONS,
};

verus! {

/// Which tray menu entries are shown checked for a given state.
#[derive(Clone, Copy, Debug, PartialEq, Eq, Structural)]
pub struct TrayMenuModel {
    /// The master-switch entry's check mark.
    pub master_checked: bool,
    /// The run-at-startup entry's check mark.
    pub autostart_checked: bool,
    /// The notifications entry's check mark.
    pub notifications_checked: bool,
    /// The forced-Chinese mode entry's check mark.
    pub chinese_checked: bool,
    /// The forced-English mode entry's check mark.
    pub english_checked: bool,
}

/// The check marks the tray menu shows for `config`. Exactly one of the two
/// mode entries is checked.
pub fn tray_menu_model(config: &Config) -> (m: TrayMenuModel)
    ensures
        m.master_checked == config.master_switch,
        m.autostart_checked == config.autostart,
        m.notifications_checked == config.show_notifications,
        m.chinese_checked == (config.ime_mode == ImeMode::ChineseOnly),
        m.english_checked == (config.ime_mode == ImeMode::EnglishOnly),
        m.chinese_checked != m.english_checked,
{
    TrayMenuModel {
        master_checked: config.master_switch,
        autostart_checked: config.autostart,
        notifications_checked: config.show_notifications,
        chinese_checked: matches!(config.ime_mode, ImeMode::ChineseOnly),
        english_checked: matches!(config.ime_mode, ImeMode::EnglishOnly),
    }
}

/// The icon resource that reflects the master switch.
pub fn tray_icon_id(enabled: bool) -> (r: u16)
    ensures
        r == if enabled {
            IDI_ICON_ACTIVE
        } else {
            IDI_ICON1
        },
{
    if enabled {
        IDI_ICON_ACTIVE
    } else {
        IDI_ICON1
    }
}

/// What the shell must still do after a menu command was applied to the
/// state.
#[derive(Clone, Copy, Debug, PartialEq, Eq, Structural)]
pub enum MenuAction {
    /// Quit the message loop.
    Quit,
    /// Mirror the new autostart flag into the registry, persist, notify.
    UpdatedAutostart {
        /// The new autostart flag.
        now_on: bool,
    },
    /// Persist and, if notifications are on, announce the new switch state.
    UpdatedMasterSwitch {
        /// The new master-switch position.
        now_on: bool,
    },
    /// Persist the new notification preference.
    UpdatedNotifications {
        /// The new notification preference.
        now_on: bool,
    },
    /// Persist and apply the new mode to the focused window.
    AppliedMode {
        /// The mode that is now desired.
        mode: ImeMode,
    },
    /// Show the hotkey configuration help.
    ShowHotkeyInfo,
    /// Open the configuration directory.
    OpenConfigDirectory,
    /// Reload the configuration and re-register the hotkeys.
    ReloadConfig,
    /// The command id is not one of the menu's.
    Ignored,
}

/// Apply one tray menu command to the state and say what the shell must do
/// next. Commands that carry no state change leave the state untouched.
pub fn handle_menu_command(config: &mut Config, command: u32) -> (r: MenuAction)
    ensures
        command == IDM_EXIT ==> *final(config) == *old(config) && r == MenuAction::Quit,
        command == IDM_AUTOSTART ==> final(config).autostart == !old(config).autostart && old(
            config,
        ).same_but_autostart(*final(config)) && r == (MenuAction::UpdatedAutostart {
            now_on: final(config).autostart,
        }),
        command == IDM_MASTER_SWITCH ==> final(config).master_switch == !old(config).master_switch
            && old(config).same_but_master_switch(*final(config)) && r
            == (MenuAction::UpdatedMasterSwitch { now_on: final(config).master_switch }),
        command == IDM_TOGGLE_NOTIFICATIONS ==> final(config).show_notifications == !old(
            config,
        ).show_notifications && old(config).same_but_notifications(*final(config)) && r
            == (MenuAction::UpdatedNotifications { now_on: final(config).show_notifications }),
        command == IDM_IME_CHINESE ==> final(config).ime_mode == ImeMode::ChineseOnly && old(
            config,
        ).same_but_ime_mode(*final(config)) && r == (MenuAction::AppliedMode {
            mode: ImeMode::ChineseOnly,
        }),
        command == IDM_IME_ENGLISH ==> final(config).ime_mode == ImeMode::EnglishOnly && old(
            config,
        ).same_but_ime_mode(*final(config)) && r == (MenuAction::AppliedMode {
            mode: ImeMode::EnglishOnly,
        }),
        command == IDM_CONFIGURE_HOTKEYS ==> *final(config) == *old(config) && r
            == MenuAction::ShowHotkeyInfo,
        command == IDM_OPEN_CONFIG_DIR ==> *final(config) == *old(config) && r
            == MenuAction::OpenConfigDirectory,
        command == IDM_RELOAD_CONFIG ==> *final(config) == *old(config) && r
            == MenuAction::ReloadConfig,
        command != IDM_EXIT && command != IDM_AUTOSTART && command != IDM_MASTER_SWITCH && command
            != IDM_TOGGLE_NOTIFICATIONS && command != IDM_IME_CHINESE && command != IDM_IME_ENGLISH
            && command != IDM_CONFIGURE_HOTKEYS && command != IDM_OPEN_CONFIG_DIR && command
            != IDM_RELOAD_CONFIG ==> *final(config) == *old(config) && r == MenuAction::Ignored,
{
    if command == IDM_EXIT {
        MenuAction::Quit
    } else if command == IDM_AUTOSTART {
        let now_on = toggle_autostart(config);
        MenuAction::UpdatedAutostart { now_on }
    } else if command == IDM_MASTER_SWITCH {
        let now_on = toggle_master_switch(config);
        MenuAction::UpdatedMasterSwitch { now_on }
    } else if command == IDM_TOGGLE_NOTIFICATIONS {
        let now_on = toggle_notifications(config);
        MenuAction::UpdatedNotifications { now_on }
    } else if command == IDM_IME_CHINESE {
        switch_ime_mode(config, ImeMode::ChineseOnly);
        MenuAction::AppliedMode { mode: ImeMode::ChineseOnly }
    } else if command == IDM_IME_ENGLISH {
        switch_ime_mode(config, ImeMode::EnglishOnly);
        MenuAction::AppliedMode { mode: ImeMode::EnglishOnly }
    } else if command == IDM_CONFIGURE_HOTKEYS {
        MenuAction::ShowHotkeyInfo
    } else if command == IDM_OPEN_CONFIG_DIR {
        MenuAction::OpenConfigDirectory
    } else if command == IDM_RELOAD_CONFIG {
        MenuAction::ReloadConfig
    } else {
        MenuAction::Ignored
    }
}

/// What the shell must still do after a global hotkey was applied to the
/// state.
#[derive(Clone, Copy, Debug, PartialEq, Eq, Structural)]
pub enum HotkeyCommand {
    /// Persist, refresh the icon and, if notifications are on, announce.
    ToggledMasterSwitch {
        /// The new master-switch position.
        now_on: bool,
    },
    /// Persist and apply the new mode to the focused window.
    SwitchedMode {
        /// The mode that is now desired.
        mode: ImeMode,
    },
    /// The id is not one of the two registered hotkeys.
    Ignored,
}

/// Apply one global hotkey press to the state: the toggle hotkey flips the
/// master switch, the mode hotkey flips the desired mode, anything else is
/// ignored and changes nothing.
pub fn handle_hotkey(config: &mut Config, hotkey_id: i32) -> (r: HotkeyCommand)
    ensures
        hotkey_id == HOT_KEY_TOGGLE_ID ==> final(config).master_switch == !old(
            config,
        ).master_switch && old(config).same_but_master_switch(*final(config)) && r
            == (HotkeyCommand::ToggledMasterSwitch { now_on: final(config).master_switch }),
        hotkey_id == HOT_KEY_SWITCH_MODE_ID ==> final(config).ime_mode == spec_opposite_mode(
            old(config).ime_mode,
        ) && old(config).same_but_ime_mode(*final(config)) && r == (HotkeyCommand::SwitchedMode {
            mode: final(config).ime_mode,
        }),
        hotkey_id != HOT_KEY_TOGGLE_ID && hotkey_id != HOT_KEY_SWITCH_MODE_ID ==> *final(config)
            == *old(config) && r == HotkeyCommand::Ignored,
{
    if hotkey_id == HOT_KEY_TOGGLE_ID {
        let now_on = toggle_master_switch(config);
        HotkeyCommand::ToggledMasterSwitch { now_on }
    } else if hotkey_id == HOT_KEY_SWITCH_MODE_ID {
        let mode = opposite_mode(config.ime_mode);
        switch_ime_mode(config, mode);
        HotkeyCommand::SwitchedMode { mode }
    } else {
        HotkeyCommand::Ignored
    }
}

} // verus!
