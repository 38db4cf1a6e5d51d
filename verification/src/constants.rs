//! Identifiers shared between the library and the shell around it: tray menu
//! command ids, hotkey ids, tray icon resource ids, and tuning values.

use vstd::prelude::*;

verus! {

/// Tray menu command: quit the application.
pub const IDM_EXIT: u32 = 1001;
/// Tray menu command: toggle run-at-startup.
pub const IDM_AUTOSTART: u32 = 1003;
/// Tray menu command: manage the exclusion list.
pub const IDM_MANAGE_EXCLUDES: u32 = 1004;
/// Tray menu command: force the primary-language (Chinese) mode.
pub const IDM_IME_CHINESE: u32 = 1005;
/// Tray menu command: force the alternate (English) mode.
pub const IDM_IME_ENGLISH: u32 = 1006;
/// Tray menu command: toggle the enforcement master switch.
pub const IDM_MASTER_SWITCH: u32 = 1007;
/// Tray menu command: toggle balloon notifications.
pub const IDM_TOGGLE_NOTIFICATIONS: u32 = 1008;
/// Tray menu command: show the hotkey configuration help.
pub const IDM_CONFIGURE_HOTKEYS: u32 = 1009;
/// Tray menu command: open the configuration directory.
pub const IDM_OPEN_CONFIG_DIR: u32 = 1010;
/// Tray menu command: reload the configuration and re-register hotkeys.
pub const IDM_RELOAD_CONFIG: u32 = 1011;

/// Logical id of the "toggle master switch" global hotkey.
pub const HOT_KEY_TOGGLE_ID: i32 = 1;
/// Logical id of the "switch input mode" global hotkey.
pub const HOT_KEY_SWITCH_MODE_ID: i32 = 2;

/// Tray icon resource for the disabled state.
pub const IDI_ICON1: u16 = 101;
/// Tray icon resource for the enabled state.
pub const IDI_ICON_ACTIVE: u16 = 102;

/// How many times a failed hotkey registration batch is retried.
pub const DEFAULT_MAX_RETRIES: u32 = 3;
/// Backoff between hotkey registration batches, in milliseconds.
pub const RETRY_BACKOFF_MS: u64 = 2000;
/// Settle delay before the post-activation verification read, in milliseconds.
pub const SETTLE_DELAY_MS: u64 = 100;

} // verus!
