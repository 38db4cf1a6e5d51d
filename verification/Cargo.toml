[package]
name = "ime_controller"
version = "0.1.0"
edition = "2021"
publish = false

[dependencies]
lazy_static = "=1.5.1"
log = "=0.4.34"
log4rs = "=1.4.0"
open = "=5.4.4"
serde = { version = "=1.0.229", features = ["derive"] }
serde_json = "=1.0.151"
winreg = "=0.56.0"
windows = { version = "=0.62.2", features = ["Win32_Foundation", "Win32_Graphics_Gdi", "Win32_System_LibraryLoader", "Win32_System_Threading", "Win32_UI_Accessibility", "Win32_UI_Input_KeyboardAndMouse", "Win32_UI_Shell", "Win32_UI_WindowsAndMessaging"] }
