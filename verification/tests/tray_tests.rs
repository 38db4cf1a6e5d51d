//! The tray decision logic: menu model, menu commands and hotkey commands.

use ime_controller::config::{Config, ImeMode};
use ime_controller::constants::{
    HOT_KEY_SWITCH_MODE_ID, HOT_KEY_TOGGLE_ID, IDI_ICON1, IDI_ICON_ACTIVE, IDM_AUTOSTART,
    IDM_CONFIGURE_HOTKEYS, IDM_EXIT, IDM_IME_CHINESE, IDM_IME_ENGLISH, IDM_MASTER_SWITCH,
    IDM_OPEN_CONFIG_DIR, IDM_RELOAD_CONFIG, IDM_TOGGLE_NOTIFICATIONS,
};
use ime_controller::tray::{
    handle_hotkey, handle_menu_command, tray_icon_id, tray_menu_model, HotkeyCommand, MenuAction,
};

#[test]
fn menu_model_mirrors_the_state() {
    let mut config = Config::default();
    let model = tray_menu_model(&config);
    assert!(model.master_checked);
    assert!(!model.autostart_checked);
    assert!(!model.notifications_checked);
    assert!(model.chinese_checked);
    assert!(!model.english_checked);

    config.ime_mode = ImeMode::EnglishOnly;
    config.master_switch = false;
    config.autostart = true;
    let model = tray_menu_model(&config);
    assert!(!model.master_checked);
    assert!(model.autostart_checked);
    assert!(!model.chinese_checked);
    assert!(model.english_checked);
}

#[test]
fn icon_reflects_the_master_switch() {
    assert_eq!(tray_icon_id(true), IDI_ICON_ACTIVE);
    assert_eq!(tray_icon_id(false), IDI_ICON1);
}

#[test]
fn menu_commands_mutate_and_report() {
    let mut config = Config::default();
    assert_eq!(
        handle_menu_command(&mut config, IDM_MASTER_SWITCH),
        MenuAction::UpdatedMasterSwitch { now_on: false }
    );
    assert!(!config.master_switch);
    assert_eq!(
        handle_menu_command(&mut config, IDM_AUTOSTART),
        MenuAction::UpdatedAutostart { now_on: true }
    );
    assert!(config.autostart);
    assert_eq!(
        handle_menu_command(&mut config, IDM_TOGGLE_NOTIFICATIONS),
        MenuAction::UpdatedNotifications { now_on: true }
    );
    assert!(config.show_notifications);
    assert_eq!(
        handle_menu_command(&mut config, IDM_IME_ENGLISH),
        MenuAction::AppliedMode { mode: ImeMode::EnglishOnly }
    );
    assert_eq!(config.ime_mode, ImeMode::EnglishOnly);
    assert_eq!(
        handle_menu_command(&mut config, IDM_IME_CHINESE),
        MenuAction::AppliedMode { mode: ImeMode::ChineseOnly }
    );
    assert_eq!(config.ime_mode, ImeMode::ChineseOnly);
}

#[test]
fn stateless_menu_commands_leave_the_state_alone() {
    let mut config = Config::default();
    assert_eq!(handle_menu_command(&mut config, IDM_EXIT), MenuAction::Quit);
    assert_eq!(
        handle_menu_command(&mut config, IDM_CONFIGURE_HOTKEYS),
        MenuAction::ShowHotkeyInfo
    );
    assert_eq!(
        handle_menu_command(&mut config, IDM_OPEN_CONFIG_DIR),
        MenuAction::OpenConfigDirectory
    );
    assert_eq!(
        handle_menu_command(&mut config, IDM_RELOAD_CONFIG),
        MenuAction::ReloadConfig
    );
    assert_eq!(handle_menu_command(&mut config, 9999), MenuAction::Ignored);
    assert!(config.master_switch);
    assert_eq!(config.ime_mode, ImeMode::ChineseOnly);
    assert!(!config.autostart);
}

#[test]
fn toggle_hotkey_flips_the_master_switch() {
    let mut config = Config::default();
    assert_eq!(
        handle_hotkey(&mut config, HOT_KEY_TOGGLE_ID),
        HotkeyCommand::ToggledMasterSwitch { now_on: false }
    );
    assert!(!config.master_switch);
    assert_eq!(
        handle_hotkey(&mut config, HOT_KEY_TOGGLE_ID),
        HotkeyCommand::ToggledMasterSwitch { now_on: true }
    );
    assert!(config.master_switch);
}

#[test]
fn switch_hotkey_flips_the_mode() {
    let mut config = Config::default();
    assert_eq!(
        handle_hotkey(&mut config, HOT_KEY_SWITCH_MODE_ID),
        HotkeyCommand::SwitchedMode { mode: ImeMode::EnglishOnly }
    );
    assert_eq!(config.ime_mode, ImeMode::EnglishOnly);
    assert_eq!(
        handle_hotkey(&mut config, HOT_KEY_SWITCH_MODE_ID),
        HotkeyCommand::SwitchedMode { mode: ImeMode::ChineseOnly }
    );
    assert_eq!(config.ime_mode, ImeMode::ChineseOnly);
}

#[test]
fn unknown_hotkey_is_ignored() {
    let mut config = Config::default();
    assert_eq!(handle_hotkey(&mut config, 42), HotkeyCommand::Ignored);
    assert!(config.master_switch);
    assert_eq!(config.ime_mode, ImeMode::ChineseOnly);
}
