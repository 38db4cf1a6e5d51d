//! Hotkey string parsing: recognized forms, case and whitespace handling,
//! and the ways a binding can be invalid.

use ime_controller::parse_hotkey::parse_hotkey;
use ime_controller::parse_hotkey::{MOD_ALT, MOD_CONTROL, MOD_SHIFT, MOD_WIN};

#[test]
fn parses_alt_ctrl_m() {
    let parsed = parse_hotkey("Alt+Ctrl+M").expect("binding expected");
    assert_eq!(parsed.0 & MOD_ALT, MOD_ALT);
    assert_eq!(parsed.0 & MOD_CONTROL, MOD_CONTROL);
    assert_eq!(parsed.0, MOD_ALT | MOD_CONTROL);
    assert_eq!(parsed.1, 77);
}

#[test]
fn parses_capslock_without_modifier() {
    assert_eq!(parse_hotkey("CAPSLOCK"), Some((0, 0x14)));
}

#[test]
fn rejects_trailing_empty_key_token() {
    assert_eq!(parse_hotkey("Alt+"), None);
}

#[test]
fn rejects_unrecognized_modifier() {
    assert_eq!(parse_hotkey("Meta+Q"), None);
}

#[test]
fn parses_default_toggle_binding() {
    assert_eq!(parse_hotkey("Alt+M"), Some((MOD_ALT, 77)));
}

#[test]
fn parses_each_modifier_name() {
    assert_eq!(parse_hotkey("Ctrl+A"), Some((MOD_CONTROL, 65)));
    assert_eq!(parse_hotkey("Control+A"), Some((MOD_CONTROL, 65)));
    assert_eq!(parse_hotkey("Shift+F1"), Some((MOD_SHIFT, 0x70)));
    assert_eq!(parse_hotkey("Win+Space"), Some((MOD_WIN, 0x20)));
    assert_eq!(parse_hotkey("Windows+Z"), Some((MOD_WIN, 90)));
}

#[test]
fn parses_case_insensitively() {
    assert_eq!(parse_hotkey("ctrl+shift+a"), Some((MOD_CONTROL | MOD_SHIFT, 65)));
    assert_eq!(parse_hotkey("capslock"), Some((0, 0x14)));
}

#[test]
fn trims_whitespace_around_tokens() {
    assert_eq!(parse_hotkey(" Alt + M "), Some((MOD_ALT, 77)));
}

#[test]
fn parses_function_keys() {
    assert_eq!(parse_hotkey("F1"), Some((0, 0x70)));
    assert_eq!(parse_hotkey("F9"), Some((0, 0x78)));
    assert_eq!(parse_hotkey("F10"), Some((0, 0x79)));
    assert_eq!(parse_hotkey("F12"), Some((0, 0x7B)));
    assert_eq!(parse_hotkey("F13"), None);
    assert_eq!(parse_hotkey("F0"), None);
}

#[test]
fn parses_named_keys() {
    assert_eq!(parse_hotkey("Enter"), Some((0, 0x0D)));
    assert_eq!(parse_hotkey("Esc"), Some((0, 0x1B)));
    assert_eq!(parse_hotkey("Tab"), Some((0, 0x09)));
    assert_eq!(parse_hotkey("Backspace"), Some((0, 0x08)));
    assert_eq!(parse_hotkey("Space"), Some((0, 0x20)));
}

#[test]
fn rejects_empty_and_bare_separator() {
    assert_eq!(parse_hotkey(""), None);
    assert_eq!(parse_hotkey("+"), None);
}

#[test]
fn rejects_key_in_modifier_position() {
    assert_eq!(parse_hotkey("M+Alt"), None);
}

#[test]
fn rejects_unknown_key_name() {
    assert_eq!(parse_hotkey("Alt+Escape"), None);
    assert_eq!(parse_hotkey("Alt+AB"), None);
}

#[test]
fn repeated_modifier_keeps_mask() {
    assert_eq!(parse_hotkey("Alt+Alt+M"), Some((MOD_ALT, 77)));
}
