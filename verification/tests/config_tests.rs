//! The mode state: built-in defaults and the verified state transitions.

use ime_controller::config::{
    opposite_mode, switch_ime_mode, sync_autostart_config, toggle_autostart,
    toggle_master_switch, toggle_notifications, Config, ImeMode,
};

fn sample_config() -> Config {
    Config {
        autostart: false,
        excluded_apps: vec!["game.exe".to_string()],
        hotkey_toggle: Some("Alt+M".to_string()),
        hotkey_switch_mode: Some("CAPSLOCK".to_string()),
        ime_mode: ImeMode::ChineseOnly,
        master_switch: true,
        show_notifications: false,
    }
}

#[test]
fn default_config_values() {
    let config = Config::default();
    assert!(!config.autostart);
    assert_eq!(config.excluded_apps, vec!["ime-controller.exe".to_string()]);
    assert_eq!(config.hotkey_toggle, Some("Alt+M".to_string()));
    assert_eq!(config.hotkey_switch_mode, Some("CAPSLOCK".to_string()));
    assert_eq!(config.ime_mode, ImeMode::ChineseOnly);
    assert!(config.master_switch);
    assert!(!config.show_notifications);
}

#[test]
fn default_mode_is_chinese() {
    assert_eq!(ImeMode::default(), ImeMode::ChineseOnly);
}

#[test]
fn master_switch_toggles_back_and_forth() {
    let mut config = sample_config();
    assert!(!toggle_master_switch(&mut config));
    assert!(!config.master_switch);
    assert!(toggle_master_switch(&mut config));
    assert!(config.master_switch);
    assert_eq!(config.ime_mode, ImeMode::ChineseOnly);
    assert_eq!(config.excluded_apps, vec!["game.exe".to_string()]);
}

#[test]
fn autostart_toggles() {
    let mut config = sample_config();
    assert!(toggle_autostart(&mut config));
    assert!(config.autostart);
    assert!(!toggle_autostart(&mut config));
    assert!(!config.autostart);
}

#[test]
fn notifications_toggle() {
    let mut config = sample_config();
    assert!(toggle_notifications(&mut config));
    assert!(config.show_notifications);
    assert!(config.master_switch);
}

#[test]
fn switch_mode_sets_mode_only() {
    let mut config = sample_config();
    switch_ime_mode(&mut config, ImeMode::EnglishOnly);
    assert_eq!(config.ime_mode, ImeMode::EnglishOnly);
    assert!(config.master_switch);
    switch_ime_mode(&mut config, ImeMode::ChineseOnly);
    assert_eq!(config.ime_mode, ImeMode::ChineseOnly);
}

#[test]
fn opposite_mode_flips() {
    assert_eq!(opposite_mode(ImeMode::ChineseOnly), ImeMode::EnglishOnly);
    assert_eq!(opposite_mode(ImeMode::EnglishOnly), ImeMode::ChineseOnly);
}

#[test]
fn sync_autostart_adopts_registry_state() {
    let mut config = sample_config();
    assert!(sync_autostart_config(&mut config, true));
    assert!(config.autostart);
    assert!(!sync_autostart_config(&mut config, true));
    assert!(config.autostart);
    assert!(sync_autostart_config(&mut config, false));
    assert!(!config.autostart);
}
