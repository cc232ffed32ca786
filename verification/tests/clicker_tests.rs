use clicker::clicker::{error_update, Clicker, ClickerMessage};
use clicker::config::{ClickerConfig, DelayMode};
use clicker::timer::{StatusEvent, StatusUpdate};

#[test]
fn new_clicker_is_idle() {
    let c = Clicker::new(ClickerConfig::default());
    assert!(!c.is_running());
    assert!(!c.receiver_attached);
}

#[test]
fn start_and_stop_toggle_running() {
    let mut c = Clicker::new(ClickerConfig::default());
    let session = c.start(0);
    assert!(c.is_running());
    assert!(c.receiver_attached);
    assert_eq!(session.next_fire_ns, 0);
    assert_eq!(session.config.cps_milli, 11000);
    c.stop();
    assert!(!c.is_running());
    assert!(!c.receiver_attached);
}

#[test]
fn config_mut_edits_in_place() {
    let mut c = Clicker::new(ClickerConfig::default());
    c.config_mut().cps_milli = 4000;
    assert_eq!(c.config().cps_milli, 4000);
}

#[test]
fn delay_info_for_fixed_rate() {
    let c = Clicker::new(ClickerConfig::default());
    assert_eq!(c.get_delay_info(), "11.0 CPS");

    let mut cfg = ClickerConfig::default();
    cfg.cps_milli = 2500;
    let c = Clicker::new(cfg);
    assert_eq!(c.get_delay_info(), "2.5 CPS");
}

#[test]
fn delay_info_for_jitter() {
    let mut cfg = ClickerConfig::default();
    cfg.delay_mode = DelayMode::Jitter;
    let c = Clicker::new(cfg);
    assert_eq!(c.get_delay_info(), "Jitter: 60ms - 110ms");
}

#[test]
fn reported_error_turns_the_handle_off() {
    let mut c = Clicker::new(ClickerConfig::default());
    c.start(0);
    let msg = c.check_for_errors(Some(StatusUpdate::Error("device gone".to_string())));
    assert_eq!(
        msg,
        Some(ClickerMessage::ClickError("device gone".to_string()))
    );
    assert!(!c.is_running());
}

#[test]
fn no_receiver_means_no_message() {
    let mut c = Clicker::new(ClickerConfig::default());
    let msg = c.check_for_errors(Some(StatusUpdate::Error("ignored".to_string())));
    assert_eq!(msg, None);
    assert!(!c.is_running());
}

#[test]
fn nothing_received_means_no_message() {
    let mut c = Clicker::new(ClickerConfig::default());
    c.start(0);
    assert_eq!(c.check_for_errors(None), None);
    assert!(c.is_running());
}

#[test]
fn poll_status_surfaces_failure_and_stops() {
    let mut c = Clicker::new(ClickerConfig::default());
    c.start(0);
    let ev = c.poll_status(Some(StatusEvent::ActuationFailed("oops".to_string())));
    assert_eq!(ev, Some(StatusEvent::ActuationFailed("oops".to_string())));
    assert!(!c.is_running());
}

#[test]
fn poll_status_passes_success_through() {
    let mut c = Clicker::new(ClickerConfig::default());
    c.start(0);
    let ev = c.poll_status(Some(StatusEvent::ClickSucceeded));
    assert_eq!(ev, Some(StatusEvent::ClickSucceeded));
    assert!(c.is_running());
    assert_eq!(c.poll_status(None), None);
    assert!(c.is_running());
}

#[test]
fn only_failures_go_on_the_wire() {
    assert_eq!(error_update(StatusEvent::ClickSucceeded), None);
    assert_eq!(
        error_update(StatusEvent::ActuationFailed("e".to_string())),
        Some(StatusUpdate::Error("e".to_string()))
    );
}
