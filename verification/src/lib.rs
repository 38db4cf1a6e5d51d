//! Input-mode enforcement engine: keeps the active keyboard layout of the
//! focused window on one of two managed input modes, with a layered chain of
//! activation strategies, a retrying global-hotkey manager, and the tray-menu
//! decision logic. All operating-system work sits behind small traits; the
//! decision logic here is verified.

pub mod autostart;
pub mod config;
pub mod constants;
pub mod enforce;
pub mod fake_os;
pub mod hot_key;
pub mod locale;
pub mod parse_hotkey;
pub mod tray;
