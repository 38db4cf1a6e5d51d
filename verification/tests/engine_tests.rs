//! The enforcement engine driven against the scripted locale layer: the
//! skip short-circuits, the no-op case, the strategy fallback order and the
//! verification read.

use ime_controller::config::{Config, ImeMode};
use ime_controller::enforce::{
    enforce_global_ime_mode, ApplyReport, EnforcementOutcome, SkipReason, StrategyId,
};
use ime_controller::fake_os::{LocaleCallCounts, ScriptedLocaleOps};

fn test_config(mode: ImeMode, master_switch: bool) -> Config {
    Config {
        autostart: false,
        excluded_apps: vec!["game.exe".to_string()],
        hotkey_toggle: Some("Alt+M".to_string()),
        hotkey_switch_mode: Some("CAPSLOCK".to_string()),
        ime_mode: mode,
        master_switch,
        show_notifications: false,
    }
}

fn scripted(
    activate: Vec<bool>,
    broadcast: Vec<bool>,
    load: Vec<bool>,
    setting: Vec<bool>,
    names: Vec<Option<String>>,
    langs: Vec<u16>,
) -> ScriptedLocaleOps {
    ScriptedLocaleOps {
        activate_results: activate,
        broadcast_results: broadcast,
        load_activate_results: load,
        setting_results: setting,
        process_names: names,
        lang_reads: langs,
        calls: LocaleCallCounts::default(),
    }
}

#[test]
fn session_wide_success_is_applied_and_verified() {
    let config = test_config(ImeMode::ChineseOnly, true);
    let mut os = scripted(
        vec![true],
        vec![],
        vec![],
        vec![true],
        vec![Some("notepad.exe".to_string())],
        vec![0x0409, 0x0804],
    );
    let attempt = enforce_global_ime_mode(&mut os, &config);
    assert_eq!(
        attempt.outcome,
        EnforcementOutcome::Applied(ApplyReport {
            applied: true,
            strategy_used: Some(StrategyId::SessionWide),
            verified: true,
        })
    );
    assert_eq!(os.calls.activate_session_wide, 1);
    assert_eq!(os.calls.broadcast_lang_change_request, 0);
    assert_eq!(os.calls.load_then_activate, 0);
    assert_eq!(os.calls.broadcast_setting_change, 1);
    assert_eq!(os.calls.read_active_lang_id, 2);
    assert_eq!(os.calls.settle_delay, 1);
}

#[test]
fn load_then_activate_fallback_is_reported() {
    let config = test_config(ImeMode::ChineseOnly, true);
    let mut os = scripted(
        vec![false],
        vec![false],
        vec![true],
        vec![true],
        vec![Some("notepad.exe".to_string())],
        vec![0x0409, 0x0804],
    );
    let attempt = enforce_global_ime_mode(&mut os, &config);
    assert_eq!(
        attempt.outcome,
        EnforcementOutcome::Applied(ApplyReport {
            applied: true,
            strategy_used: Some(StrategyId::LoadThenActivate),
            verified: true,
        })
    );
    assert_eq!(os.calls.activate_session_wide, 1);
    assert_eq!(os.calls.broadcast_lang_change_request, 1);
    assert_eq!(os.calls.load_then_activate, 1);
}

#[test]
fn broadcast_fallback_stops_the_chain() {
    let config = test_config(ImeMode::EnglishOnly, true);
    let mut os = scripted(
        vec![false],
        vec![true],
        vec![],
        vec![true],
        vec![Some("notepad.exe".to_string())],
        vec![0x0804, 0x0409],
    );
    let attempt = enforce_global_ime_mode(&mut os, &config);
    assert_eq!(
        attempt.outcome,
        EnforcementOutcome::Applied(ApplyReport {
            applied: true,
            strategy_used: Some(StrategyId::BroadcastRequest),
            verified: true,
        })
    );
    assert_eq!(os.calls.load_then_activate, 0);
}

#[test]
fn all_strategies_declining_is_reported_unapplied() {
    let config = test_config(ImeMode::ChineseOnly, true);
    let mut os = scripted(
        vec![false],
        vec![false],
        vec![false],
        vec![false],
        vec![Some("notepad.exe".to_string())],
        vec![0x0409, 0x0409],
    );
    let attempt = enforce_global_ime_mode(&mut os, &config);
    assert_eq!(
        attempt.outcome,
        EnforcementOutcome::Applied(ApplyReport {
            applied: false,
            strategy_used: None,
            verified: false,
        })
    );
}

#[test]
fn success_is_never_reported_without_matching_read() {
    let config = test_config(ImeMode::ChineseOnly, true);
    let mut os = scripted(
        vec![true],
        vec![],
        vec![],
        vec![true],
        vec![Some("notepad.exe".to_string())],
        vec![0x0409, 0x0409],
    );
    let attempt = enforce_global_ime_mode(&mut os, &config);
    assert_eq!(
        attempt.outcome,
        EnforcementOutcome::Applied(ApplyReport {
            applied: true,
            strategy_used: Some(StrategyId::SessionWide),
            verified: false,
        })
    );
    assert_eq!(attempt.verify_read, Some(0x0409));
}

#[test]
fn correct_locale_is_a_noop_with_zero_strategy_calls() {
    let config = test_config(ImeMode::ChineseOnly, true);
    let mut os = scripted(
        vec![],
        vec![],
        vec![],
        vec![],
        vec![
            Some("notepad.exe".to_string()),
            Some("notepad.exe".to_string()),
            Some("notepad.exe".to_string()),
        ],
        vec![0x0804, 0x0804, 0x0804],
    );
    for _ in 0..3 {
        let attempt = enforce_global_ime_mode(&mut os, &config);
        assert_eq!(attempt.outcome, EnforcementOutcome::Noop);
        assert!(attempt.chain.is_none());
    }
    assert_eq!(os.calls.activate_session_wide, 0);
    assert_eq!(os.calls.broadcast_lang_change_request, 0);
    assert_eq!(os.calls.load_then_activate, 0);
    assert_eq!(os.calls.broadcast_setting_change, 0);
    assert_eq!(os.calls.settle_delay, 0);
}

#[test]
fn master_switch_off_makes_no_os_calls() {
    let config = test_config(ImeMode::ChineseOnly, false);
    let mut os = scripted(vec![], vec![], vec![], vec![], vec![], vec![]);
    for _ in 0..5 {
        let attempt = enforce_global_ime_mode(&mut os, &config);
        assert_eq!(
            attempt.outcome,
            EnforcementOutcome::Skipped(SkipReason::MasterSwitchOff)
        );
    }
    assert_eq!(os.calls, LocaleCallCounts::default());
}

#[test]
fn excluded_process_is_skipped_whatever_the_mode() {
    for mode in [ImeMode::ChineseOnly, ImeMode::EnglishOnly] {
        let config = test_config(mode, true);
        let mut os = scripted(
            vec![],
            vec![],
            vec![],
            vec![],
            vec![Some("game.exe".to_string())],
            vec![],
        );
        let attempt = enforce_global_ime_mode(&mut os, &config);
        assert_eq!(attempt.outcome, EnforcementOutcome::Skipped(SkipReason::Excluded));
        assert_eq!(os.calls.read_active_lang_id, 0);
        assert_eq!(os.calls.activate_session_wide, 0);
    }
}

#[test]
fn unresolved_process_is_not_excluded() {
    let config = test_config(ImeMode::ChineseOnly, true);
    let mut os = scripted(
        vec![],
        vec![],
        vec![],
        vec![],
        vec![None],
        vec![0x0804],
    );
    let attempt = enforce_global_ime_mode(&mut os, &config);
    assert_eq!(attempt.outcome, EnforcementOutcome::Noop);
}

#[test]
fn unmanaged_locale_is_left_untouched() {
    let config = test_config(ImeMode::ChineseOnly, true);
    let mut os = scripted(
        vec![],
        vec![],
        vec![],
        vec![],
        vec![Some("notepad.exe".to_string())],
        vec![0x040C],
    );
    let attempt = enforce_global_ime_mode(&mut os, &config);
    assert_eq!(
        attempt.outcome,
        EnforcementOutcome::Skipped(SkipReason::NotManagedLocale)
    );
    assert_eq!(os.calls.activate_session_wide, 0);
    assert_eq!(os.calls.broadcast_setting_change, 0);
}

#[test]
fn managed_regional_variant_is_enforced() {
    let config = test_config(ImeMode::ChineseOnly, true);
    let mut os = scripted(
        vec![true],
        vec![],
        vec![],
        vec![true],
        vec![Some("notepad.exe".to_string())],
        vec![0x1404, 0x0804],
    );
    let attempt = enforce_global_ime_mode(&mut os, &config);
    assert_eq!(
        attempt.outcome,
        EnforcementOutcome::Applied(ApplyReport {
            applied: true,
            strategy_used: Some(StrategyId::SessionWide),
            verified: true,
        })
    );
}
