use clicker::config::{ClickButton, ClickType, ClickerConfig, DelayMode};
use clicker::clicker::ClickerMessage;
use clicker::hotkey::HotkeyEvent;
use clicker::icons::{button_text_with_icon, get_icon, Icon};
use clicker::ui::{
    contains_bytes, is_config_valid, status_type_of, AppModel, Message, StatusType, UpdateAction,
};

#[test]
fn substring_search() {
    assert!(contains_bytes(b"hello world", b"world"));
    assert!(contains_bytes(b"hello world", b"hello"));
    assert!(contains_bytes(b"hello world", b"o w"));
    assert!(contains_bytes(b"hello world", b""));
    assert!(!contains_bytes(b"hello world", b"worlds"));
    assert!(!contains_bytes(b"abc", b"abcd"));
    assert!(!contains_bytes(b"", b"a"));
    assert!(!contains_bytes(b"aab", b"ab c"));
}

#[test]
fn status_wording_is_classified() {
    assert_eq!(
        status_type_of("Error: Invalid interval format", true),
        StatusType::Error
    );
    assert_eq!(
        status_type_of("Failed to register hotkey", true),
        StatusType::Error
    );
    assert_eq!(status_type_of("Invalid", true), StatusType::Warning);
    assert_eq!(status_type_of("Reset complete", false), StatusType::Warning);
    assert_eq!(
        status_type_of("Autoclicker is running... - 11.0 CPS", true),
        StatusType::Info
    );
    assert_eq!(status_type_of("Reset complete", true), StatusType::Success);
    assert_eq!(status_type_of("Hotkey registered", true), StatusType::Success);
}

#[test]
fn status_type_icons() {
    assert_eq!(StatusType::Success.icon(), Icon::Success);
    assert_eq!(StatusType::Error.icon(), Icon::Error);
    assert_eq!(StatusType::Warning.icon(), Icon::Warning);
    assert_eq!(StatusType::Info.icon(), Icon::Info);
}

#[test]
fn icon_glyphs() {
    assert_eq!(get_icon(Icon::Stop), "\u{F102}");
    assert_eq!(get_icon(Icon::Play), "\u{F103}");
    assert_eq!(get_icon(Icon::Valid), "\u{F10A}");
    assert_eq!(get_icon(Icon::Warning), get_icon(Icon::Invalid));
}

#[test]
fn button_caption_joins_icon_and_label() {
    assert_eq!(button_text_with_icon(Icon::Play, "Start"), "\u{F103} Start");
}

#[test]
fn config_validity_follows_inputs() {
    let cfg = ClickerConfig::default();
    assert!(is_config_valid(&cfg, "11.0", "60", "110"));
    assert!(!is_config_valid(&cfg, "0", "60", "110"));
    assert!(!is_config_valid(&cfg, "abc", "60", "110"));

    let mut jcfg = ClickerConfig::default();
    jcfg.delay_mode = DelayMode::Jitter;
    assert!(is_config_valid(&jcfg, "x", "60", "110"));
    assert!(!is_config_valid(&jcfg, "x", "110", "60"));
    assert!(!is_config_valid(&jcfg, "x", "0", "110"));
    assert!(!is_config_valid(&jcfg, "x", "abc", "110"));
}

#[test]
fn init_shows_defaults() {
    let m = AppModel::init(true);
    assert_eq!(m.click_interval, "1000");
    assert_eq!(m.cps_input, "11");
    assert_eq!(m.min_delay_input, "60");
    assert_eq!(m.max_delay_input, "110");
    assert_eq!(m.clicker.config.cps_milli, 11000);
    assert!(!m.clicker.is_running());
    // the default hotkey parses and starts enabled
    assert_eq!(m.status_message, "Hotkey registered");
}

#[test]
fn cps_change_updates_config_and_status() {
    let mut m = AppModel::init(true);
    let a = m.update(Message::CpsChanged("5".to_string()), 0, false);
    assert!(matches!(a, UpdateAction::Nothing));
    assert_eq!(m.cps_input, "5");
    assert_eq!(m.clicker.config.cps_milli, 5000);
    assert_eq!(
        m.status_message,
        "Ready to start - Set interval and click Start"
    );

    let _ = m.update(Message::CpsChanged("junk".to_string()), 0, false);
    assert_eq!(m.cps_input, "junk");
    assert_eq!(m.clicker.config.cps_milli, 5000);
    assert_eq!(m.status_message, "Error: Invalid interval format");
}

#[test]
fn start_then_stop_round_trip() {
    let mut m = AppModel::init(true);
    let a = m.update(Message::StartStop, 1_000, false);
    match a {
        UpdateAction::SpawnRun(session) => {
            assert_eq!(session.next_fire_ns, 1_000);
            assert_eq!(session.config.cps_milli, 11000);
        }
        _ => panic!("expected a run to spawn"),
    }
    assert!(m.clicker.is_running());
    assert_eq!(m.status_message, "Autoclicker is running... - 11.0 CPS");

    let a = m.update(Message::StartStop, 2_000, false);
    assert!(matches!(a, UpdateAction::Nothing));
    assert!(!m.clicker.is_running());
    assert_eq!(m.status_message, "Autoclicker stopped");
}

#[test]
fn start_refuses_invalid_inputs() {
    let mut m = AppModel::init(true);
    let _ = m.update(Message::CpsChanged("junk".to_string()), 0, false);
    let a = m.update(Message::StartStop, 0, false);
    assert!(matches!(a, UpdateAction::Nothing));
    assert!(!m.clicker.is_running());
    assert_eq!(m.status_message, "Error: Invalid interval format");
}

#[test]
fn jitter_inputs_flow_into_the_config() {
    let mut m = AppModel::init(true);
    let _ = m.update(Message::DelayModeChanged(DelayMode::Jitter), 0, false);
    let _ = m.update(Message::MinDelayChanged("80".to_string()), 0, false);
    assert_eq!(m.clicker.config.min_delay_ms, 80);
    assert_eq!(m.clicker.config.max_delay_ms, 110);
    let _ = m.update(Message::MaxDelayChanged("90".to_string()), 0, false);
    assert_eq!(m.clicker.config.max_delay_ms, 90);

    let _ = m.update(Message::MinDelayChanged("200".to_string()), 0, false);
    assert_eq!(m.status_message, "Error: Invalid jitter range");
    assert_eq!(m.clicker.config.min_delay_ms, 80);
}

#[test]
fn reset_stops_and_reports() {
    let mut m = AppModel::init(true);
    let _ = m.update(Message::StartStop, 0, false);
    assert!(m.clicker.is_running());
    let a = m.update(Message::Reset, 0, false);
    assert!(matches!(a, UpdateAction::Nothing));
    assert!(!m.clicker.is_running());
    assert_eq!(m.status_message, "Reset complete");
}

#[test]
fn click_error_message_stops_the_run() {
    let mut m = AppModel::init(true);
    let _ = m.update(Message::StartStop, 0, false);
    let a = m.update(
        Message::ClickerMessage(ClickerMessage::ClickError("device gone".to_string())),
        0,
        false,
    );
    assert!(matches!(a, UpdateAction::Nothing));
    assert!(!m.clicker.is_running());
    assert_eq!(m.status_message, "Error: device gone");
}

#[test]
fn no_error_keeps_polling_while_running() {
    let mut m = AppModel::init(true);
    let a = m.update(Message::ClickerMessage(ClickerMessage::NoError), 0, false);
    assert!(matches!(a, UpdateAction::Nothing));
    let _ = m.update(Message::StartStop, 0, false);
    let a = m.update(Message::ClickerMessage(ClickerMessage::NoError), 0, false);
    assert!(matches!(a, UpdateAction::CheckErrors));
}

#[test]
fn hotkey_press_requests_start_stop() {
    let mut m = AppModel::init(true);
    let a = m.update(Message::HotkeyEvent(HotkeyEvent::Pressed), 0, false);
    assert!(matches!(a, UpdateAction::StartStopRequested));
    let a = m.update(Message::HotkeyEvent(HotkeyEvent::Released), 0, false);
    assert!(matches!(a, UpdateAction::Nothing));
}

#[test]
fn hotkey_change_flows_into_config() {
    let mut m = AppModel::init(true);
    let _ = m.update(Message::HotkeyChanged("F6".to_string()), 0, true);
    assert_eq!(m.status_message, "Hotkey registered");
    assert_eq!(m.clicker.config.hotkey_combination, "F6");
    assert_eq!(m.hotkey_manager.get_combination(), "F6");

    let _ = m.update(Message::HotkeyChanged("NotAKey".to_string()), 0, true);
    assert_eq!(m.status_message, "Invalid hotkey format");
    assert_eq!(m.clicker.config.hotkey_combination, "F6");
}

#[test]
fn hotkey_toggle_flows_into_config() {
    let mut m = AppModel::init(true);
    let _ = m.update(Message::HotkeyEnabledChanged(false), 0, false);
    assert_eq!(m.status_message, "Hotkeys disabled");
    assert!(!m.clicker.config.hotkeys_enabled);
    assert!(!m.hotkey_manager.is_enabled());

    let _ = m.update(Message::HotkeyEnabledChanged(true), 0, true);
    assert_eq!(m.status_message, "Hotkey registered");
    assert!(m.clicker.config.hotkeys_enabled);
}

#[test]
fn button_and_type_changes_flow_into_config() {
    let mut m = AppModel::init(true);
    let _ = m.update(Message::ClickButtonChanged(ClickButton::Right), 0, false);
    assert_eq!(m.clicker.config.click_button, ClickButton::Right);
    let _ = m.update(Message::ClickTypeChanged(ClickType::Hold), 0, false);
    assert_eq!(m.clicker.config.click_type, ClickType::Hold);
}

#[test]
fn website_click_is_delegated() {
    let mut m = AppModel::init(true);
    let a = m.update(Message::WebsiteClick, 0, false);
    assert!(matches!(a, UpdateAction::OpenWebsite));
}

#[test]
fn interval_input_flows_into_config() {
    let mut m = AppModel::init(true);
    let _ = m.update(Message::IntervalChanged("250".to_string()), 0, false);
    assert_eq!(m.click_interval, "250");
    assert_eq!(m.clicker.config.interval_ms, 250);
    let _ = m.update(Message::IntervalChanged("0".to_string()), 0, false);
    assert_eq!(m.status_message, "Error: Interval must be at least 10ms");
    assert_eq!(m.clicker.config.interval_ms, 250);
}
