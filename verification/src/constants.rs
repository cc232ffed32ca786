//! Fixed texts and numeric floors shared by the scheduler and its callers.

use vstd::prelude::*;

verus! {

pub const STATUS_READY: &'static str = "Ready to start - Set interval and click Start";

pub const STATUS_RUNNING: &'static str = "Autoclicker is running...";

pub const STATUS_STOPPED: &'static str = "Autoclicker stopped";

pub const STATUS_RESET: &'static str = "Reset complete";

pub const STATUS_HOTKEY_REGISTERED: &'static str = "Hotkey registered";

pub const STATUS_HOTKEY_FAILED: &'static str = "Failed to register hotkey";

pub const ERROR_INTERVAL_TOO_SMALL: &'static str = "Error: Interval must be at least 10ms";

pub const ERROR_INVALID_FORMAT: &'static str = "Error: Invalid interval format";

pub const ERROR_CLICK_FAILED: &'static str = "Failed to click";

pub const ERROR_ENIGO_INIT: &'static str = "Failed to initialize Enigo";

pub const ERROR_HOTKEY_PARSE: &'static str = "Invalid hotkey format";

pub const ERROR_HOTKEY_REGISTER: &'static str = "Failed to register hotkey";

pub const DEFAULT_INTERVAL: &'static str = "1000";

/// Default click rate, in thousandths of clicks per second.
pub const DEFAULT_CPS_MILLI: u64 = 11000;

pub const DEFAULT_MIN_DELAY: u64 = 60;

pub const DEFAULT_MAX_DELAY: u64 = 110;

pub const DEFAULT_HOTKEY: &'static str = "\\";

pub const HOTKEY_ENABLED_DEFAULT: bool = true;

/// Floor below which no schedule is permitted, in milliseconds.
pub const MIN_INTERVAL: u64 = 1;

/// Pause between the two clicks of a double click, in milliseconds.
pub const DOUBLE_CLICK_PAUSE_MS: u64 = 50;

/// Pause between press and release of a held click, in milliseconds.
pub const HOLD_PAUSE_MS: u64 = 100;

} // verus!
