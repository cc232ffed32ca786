use clicker::config::{ClickButton, ClickType, ClickerConfig, DelayMode};

#[test]
fn default_config_values() {
    let c = ClickerConfig::default();
    assert_eq!(c.interval_ms, 1000);
    assert_eq!(c.min_interval_ms, 1);
    assert_eq!(c.delay_mode, DelayMode::Cps);
    assert_eq!(c.cps_milli, 11000);
    assert_eq!(c.min_delay_ms, 60);
    assert_eq!(c.max_delay_ms, 110);
    assert!(!c.auto_start);
    assert_eq!(c.click_type, ClickType::Single);
    assert_eq!(c.click_button, ClickButton::Left);
    assert!(c.hotkeys_enabled);
    assert_eq!(c.hotkey_combination, "\\");
}

#[test]
fn interval_validation_respects_floor() {
    let c = ClickerConfig::default();
    assert!(!c.is_valid_interval(0));
    assert!(c.is_valid_interval(1));
    assert!(c.is_valid_interval(1000));
}

#[test]
fn parse_interval_accepts_valid() {
    let mut c = ClickerConfig::default();
    assert!(c.parse_interval_string("500").is_ok());
    assert_eq!(c.interval_ms, 500);
}

#[test]
fn parse_interval_rejects_below_floor() {
    let mut c = ClickerConfig::default();
    let r = c.parse_interval_string("0");
    assert_eq!(r, Err("Error: Interval must be at least 10ms".to_string()));
    assert_eq!(c.interval_ms, 1000);
}

#[test]
fn parse_interval_rejects_bad_text() {
    let mut c = ClickerConfig::default();
    assert_eq!(
        c.parse_interval_string("abc"),
        Err("Error: Invalid interval format".to_string())
    );
    assert_eq!(
        c.parse_interval_string(""),
        Err("Error: Invalid interval format".to_string())
    );
    assert_eq!(
        c.parse_interval_string("99999999999999999999999"),
        Err("Error: Invalid interval format".to_string())
    );
    assert_eq!(c.interval_ms, 1000);
}

#[test]
fn cps_validation() {
    let c = ClickerConfig::default();
    assert!(!c.is_valid_cps(0));
    assert!(c.is_valid_cps(11000));
    assert!(c.is_valid_cps(1_000_000)); // 1000 cps gives a 1 ms interval
    assert!(!c.is_valid_cps(1_000_001)); // shorter than the 1 ms floor
}

#[test]
fn jitter_range_validation() {
    let c = ClickerConfig::default();
    assert!(c.is_valid_jitter_range(60, 110));
    assert!(c.is_valid_jitter_range(100, 100));
    assert!(!c.is_valid_jitter_range(0, 10)); // below floor
    assert!(!c.is_valid_jitter_range(50, 40)); // inverted
}

#[test]
fn parse_cps_accepts_whole_and_fractional() {
    let mut c = ClickerConfig::default();
    assert!(c.parse_cps_string("5").is_ok());
    assert_eq!(c.cps_milli, 5000);
    assert!(c.parse_cps_string("11.5").is_ok());
    assert_eq!(c.cps_milli, 11500);
    assert!(c.parse_cps_string("0.5").is_ok());
    assert_eq!(c.cps_milli, 500);
}

#[test]
fn parse_cps_rejects_zero_rate() {
    let mut c = ClickerConfig::default();
    let r = c.parse_cps_string("0");
    assert_eq!(
        r,
        Err("Error: CPS value would result in interval too small".to_string())
    );
    assert_eq!(c.cps_milli, 11000);
}

#[test]
fn parse_cps_rejects_bad_text() {
    let mut c = ClickerConfig::default();
    assert_eq!(
        c.parse_cps_string("abc"),
        Err("Error: Invalid interval format".to_string())
    );
    assert_eq!(
        c.parse_cps_string("1."),
        Err("Error: Invalid interval format".to_string())
    );
    assert_eq!(
        c.parse_cps_string(".5"),
        Err("Error: Invalid interval format".to_string())
    );
    assert_eq!(c.cps_milli, 11000);
}

#[test]
fn set_jitter_range_stores_valid() {
    let mut c = ClickerConfig::default();
    assert!(c.set_jitter_range(100, 200).is_ok());
    assert_eq!(c.min_delay_ms, 100);
    assert_eq!(c.max_delay_ms, 200);
}

#[test]
fn set_jitter_range_rejects_invalid() {
    let mut c = ClickerConfig::default();
    assert_eq!(
        c.set_jitter_range(200, 100),
        Err("Error: Invalid jitter range".to_string())
    );
    assert_eq!(c.min_delay_ms, 60);
    assert_eq!(c.max_delay_ms, 110);
}

#[test]
fn enum_lists_and_labels() {
    assert_eq!(DelayMode::all(), vec![DelayMode::Cps, DelayMode::Jitter]);
    assert_eq!(
        ClickType::all(),
        vec![ClickType::Single, ClickType::Double, ClickType::Hold]
    );
    assert_eq!(
        ClickButton::all(),
        vec![ClickButton::Left, ClickButton::Right, ClickButton::Middle]
    );
    assert_eq!(DelayMode::Cps.label(), "CPS (Clicks Per Second)");
    assert_eq!(DelayMode::Jitter.label(), "Jitter (Random Delay)");
    assert_eq!(ClickType::Single.label(), "Single Click");
    assert_eq!(ClickType::Double.label(), "Double Click");
    assert_eq!(ClickType::Hold.label(), "Hold");
    assert_eq!(ClickButton::Left.label(), "Left");
    assert_eq!(ClickButton::Right.label(), "Right");
    assert_eq!(ClickButton::Middle.label(), "Middle");
}
