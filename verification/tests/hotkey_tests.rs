use clicker::hotkey::{is_valid_hotkey, parse_hotkey, HotkeyManager};

#[test]
fn recognized_combinations_parse() {
    assert!(is_valid_hotkey("F6"));
    assert!(is_valid_hotkey("\\"));
    assert!(is_valid_hotkey("Ctrl+Shift+A"));
}

#[test]
fn unrecognized_combinations_fail() {
    assert!(!is_valid_hotkey("NotAKey"));
    assert!(!is_valid_hotkey(""));
    assert!(!is_valid_hotkey("Ctrl+"));
}

#[test]
fn parse_hotkey_names_the_error() {
    assert!(parse_hotkey("F6").is_ok());
    assert_eq!(
        parse_hotkey("NotAKey").err(),
        Some("Invalid hotkey format".to_string())
    );
}

#[test]
fn new_manager_is_disabled_with_default_combination() {
    let m = HotkeyManager::new(true);
    assert!(!m.is_enabled());
    assert_eq!(m.get_combination(), "\\");
    assert!(m.get_current_hotkey().is_none());
}

#[test]
fn with_config_parses_the_stored_combination() {
    let m = HotkeyManager::with_config("F6".to_string(), true, true);
    assert!(m.is_enabled());
    assert_eq!(m.get_combination(), "F6");
    assert!(m.get_current_hotkey().is_some());
    assert!(m.wants_registration());

    let bad = HotkeyManager::with_config("NotAKey".to_string(), true, true);
    assert!(bad.get_current_hotkey().is_none());
    assert!(!bad.wants_registration());
}

#[test]
fn enabling_registers_and_reports() {
    let mut m = HotkeyManager::with_config("F6".to_string(), false, true);
    let r = m.set_enabled(true, true);
    assert_eq!(r, Ok("Hotkey registered".to_string()));
    assert!(m.is_enabled());
}

#[test]
fn enabling_without_registration_fails_but_stays_enabled() {
    let mut m = HotkeyManager::with_config("F6".to_string(), false, true);
    let r = m.set_enabled(true, false);
    assert_eq!(r, Err("Failed to register hotkey".to_string()));
    assert!(m.is_enabled());
}

#[test]
fn disabling_always_succeeds() {
    let mut m = HotkeyManager::with_config("F6".to_string(), true, true);
    let r = m.set_enabled(false, false);
    assert_eq!(r, Ok("Hotkeys disabled".to_string()));
    assert!(!m.is_enabled());
}

#[test]
fn unchanged_enabled_state_reports_status() {
    let mut m = HotkeyManager::with_config("F6".to_string(), true, true);
    let r = m.set_enabled(true, false);
    assert_eq!(r, Ok("Hotkey registered".to_string()));
}

#[test]
fn updating_combination_while_disabled() {
    let mut m = HotkeyManager::with_config("F6".to_string(), false, true);
    let r = m.update_combination("F7".to_string(), false);
    assert_eq!(r, Ok("Hotkey updated (disabled)".to_string()));
    assert_eq!(m.get_combination(), "F7");
}

#[test]
fn updating_combination_while_enabled_registers() {
    let mut m = HotkeyManager::with_config("F6".to_string(), true, true);
    let ok = m.update_combination("F7".to_string(), true);
    assert_eq!(ok, Ok("Hotkey registered".to_string()));
    let failed = m.update_combination("F8".to_string(), false);
    assert_eq!(failed, Err("Failed to register hotkey".to_string()));
    assert_eq!(m.get_combination(), "F8");
}

#[test]
fn bad_combination_changes_nothing() {
    let mut m = HotkeyManager::with_config("F6".to_string(), true, true);
    let r = m.update_combination("NotAKey".to_string(), true);
    assert_eq!(r, Err("Invalid hotkey format".to_string()));
    assert_eq!(m.get_combination(), "F6");
}

#[test]
fn status_message_follows_state() {
    let enabled = HotkeyManager::with_config("F6".to_string(), true, true);
    assert_eq!(enabled.get_status_message(), "Hotkey registered");
    let unparsed = HotkeyManager::with_config("NotAKey".to_string(), true, true);
    assert_eq!(unparsed.get_status_message(), "Failed to register hotkey");
    let disabled = HotkeyManager::with_config("F6".to_string(), false, true);
    assert_eq!(
        disabled.get_status_message(),
        "Ready to start - Set interval and click Start"
    );
}
