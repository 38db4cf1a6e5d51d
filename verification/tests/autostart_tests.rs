//! Recognizing the autostart registry entry.

use ime_controller::autostart::{autostart_entry_matches, registry_entry_present};

#[test]
fn entry_presence_is_non_emptiness() {
    assert!(registry_entry_present("C:\\tools\\ime-controller.exe"));
    assert!(!registry_entry_present(""));
}

#[test]
fn equal_paths_match() {
    assert!(autostart_entry_matches(
        "C:\\tools\\ime-controller.exe",
        "C:\\tools\\ime-controller.exe"
    ));
}

#[test]
fn quoted_entry_contains_the_path() {
    assert!(autostart_entry_matches(
        "\"C:\\tools\\ime-controller.exe\" --autostart",
        "C:\\tools\\ime-controller.exe"
    ));
}

#[test]
fn longer_current_path_contains_the_entry() {
    assert!(autostart_entry_matches(
        "ime-controller.exe",
        "C:\\tools\\ime-controller.exe"
    ));
}

#[test]
fn unrelated_paths_do_not_match() {
    assert!(!autostart_entry_matches(
        "C:\\other\\something.exe",
        "C:\\tools\\ime-controller.exe"
    ));
}

#[test]
fn non_ascii_paths_match_by_characters() {
    assert!(autostart_entry_matches(
        "C:\\\u{5DE5}\u{5177}\\ime-controller.exe",
        "\u{5DE5}\u{5177}"
    ));
}

#[test]
fn empty_entry_is_contained_everywhere() {
    assert!(autostart_entry_matches("", "C:\\tools\\ime-controller.exe"));
}
