//! Scheduling configuration and its validation rules.
//!
//! A `ClickerConfig` is a per-run snapshot of the scheduling parameters.
//! The click rate is carried as an integer count of thousandths of clicks
//! per second (`cps_milli`), so every validation rule and interval
//! computation is exact integer arithmetic.

use vstd::prelude::*;
use vstd::string::StringSliceAdditionalSpecFns;
use crate::constants::{
    DEFAULT_CPS_MILLI, DEFAULT_HOTKEY, DEFAULT_MAX_DELAY, DEFAULT_MIN_DELAY,
    ERROR_INTERVAL_TOO_SMALL, ERROR_INVALID_FORMAT, HOTKEY_ENABLED_DEFAULT, MIN_INTERVAL,
};
use crate::decimal::{parse_rate_milli, parse_rate_milli_spec, parse_u64, parse_u64_spec};

verus! {

#[derive(Debug, Clone, Copy, PartialEq, Eq, Structural)]
pub enum DelayMode {
    Cps,
    Jitter,
}

#[derive(Debug, Clone, Copy, PartialEq, Eq, Structural)]
pub enum ClickType {
    Single,
    Double,
    Hold,
}

#[derive(Debug, Clone, Copy, PartialEq, Eq, Structural)]
pub enum ClickButton {
    Left,
    Right,
    Middle,
}

#[derive(Debug, Clone, Copy, PartialEq, Eq, Structural)]
pub enum RepeatMode {
    Continuous,
    Count(u64),
    Duration(u64),
}

impl DelayMode {
    pub fn all() -> (v: Vec<DelayMode>)
        ensures
            v@ == seq![DelayMode::Cps, DelayMode::Jitter],
    {
        let v = vec![DelayMode::Cps, DelayMode::Jitter];
        proof {
            assert(v@ =~= seq![DelayMode::Cps, DelayMode::Jitter]);
        }
        v
    }

    /// The fixed text that names this mode.
    pub fn label(&self) -> (r: &'static str)
        ensures
            *self is Cps ==> r@ == "CPS (Clicks Per Second)"@,
            *self is Jitter ==> r@ == "Jitter (Random Delay)"@,
    {
        match self {
            DelayMode::Cps => "CPS (Clicks Per Second)",
            DelayMode::Jitter => "Jitter (Random Delay)",
        }
    }
}

impl ClickType {
    pub fn all() -> (v: Vec<ClickType>)
        ensures
            v@ == seq![ClickType::Single, ClickType::Double, ClickType::Hold],
    {
        let v = vec![ClickType::Single, ClickType::Double, ClickType::Hold];
        proof {
            assert(v@ =~= seq![ClickType::Single, ClickType::Double, ClickType::Hold]);
        }
        v
    }

    /// The fixed text that names this click type.
    pub fn label(&self) -> (r: &'static str)
        ensures
            *self is Single ==> r@ == "Single Click"@,
            *self is Double ==> r@ == "Double Click"@,
            *self is Hold ==> r@ == "Hold"@,
    {
        match self {
            ClickType::Single => "Single Click",
            ClickType::Double => "Double Click",
            ClickType::Hold => "Hold",
        }
    }
}

impl ClickButton {
    pub fn all() -> (v: Vec<ClickButton>)
        ensures
            v@ == seq![ClickButton::Left, ClickButton::Right, ClickButton::Middle],
    {
        let v = vec![ClickButton::Left, ClickButton::Right, ClickButton::Middle];
        proof {
            assert(v@ =~= seq![ClickButton::Left, ClickButton::Right, ClickButton::Middle]);
        }
        v
    }

    /// The fixed text that names this button.
    pub fn label(&self) -> (r: &'static str)
        ensures
            *self is Left ==> r@ == "Left"@,
            *self is Right ==> r@ == "Right"@,
            *self is Middle ==> r@ == "Middle"@,
    {
        match self {
            ClickButton::Left => "Left",
            ClickButton::Right => "Right",
            ClickButton::Middle => "Middle",
        }
    }
}

#[derive(Debug)]
pub struct ClickerConfig {
    pub interval_ms: u64,
    /// Floor below which no schedule is permitted, in milliseconds.
    pub min_interval_ms: u64,
    pub delay_mode: DelayMode,
    /// Click rate in thousandths of clicks per second.
    pub cps_milli: u64,
    pub min_delay_ms: u64,
    pub max_delay_ms: u64,
    pub auto_start: bool,
    pub click_type: ClickType,
    pub click_button: ClickButton,
    pub repeat_mode: RepeatMode,
    pub hotkeys_enabled: bool,
    pub hotkey_combination: String,
}

impl ClickerConfig {
    /// A rate is acceptable when it is positive and the interval it implies,
    /// `1000 / cps` milliseconds, is no shorter than the configured floor.
    pub open spec fn spec_valid_cps(&self, cps_milli: u64) -> bool {
        cps_milli > 0 && 1_000_000 as int / cps_milli as int >= self.min_interval_ms
    }

    /// A jitter range is acceptable when its lower end respects the floor
    /// and does not exceed its upper end.
    pub open spec fn spec_valid_jitter_range(&self, min_delay: u64, max_delay: u64) -> bool {
        min_delay >= self.min_interval_ms && min_delay <= max_delay
    }

    /// The constraint the scheduler relies on, for the active delay mode.
    pub open spec fn valid_for_run(&self) -> bool {
        match self.delay_mode {
            DelayMode::Cps => self.spec_valid_cps(self.cps_milli),
            DelayMode::Jitter => self.spec_valid_jitter_range(self.min_delay_ms, self.max_delay_ms),
        }
    }

    pub fn is_valid_interval(&self, interval: u64) -> (r: bool)
        ensures
            r == (interval >= self.min_interval_ms),
    {
        interval >= self.min_interval_ms
    }

    pub fn is_valid_cps(&self, cps_milli: u64) -> (r: bool)
        ensures
            r == self.spec_valid_cps(cps_milli),
    {
        cps_milli > 0 && 1_000_000u64 / cps_milli >= self.min_interval_ms
    }

    pub fn is_valid_jitter_range(&self, min_delay: u64, max_delay: u64) -> (r: bool)
        ensures
            r == self.spec_valid_jitter_range(min_delay, max_delay),
    {
        min_delay >= self.min_interval_ms && min_delay <= max_delay
    }

    /// Reads an interval from text and stores it when it respects the floor.
    pub fn parse_interval_string(&mut self, interval_str: &str) -> (r: Result<(), String>)
        ensures
            parse_u64_spec(interval_str.spec_bytes()) matches Some(v) ==> {
                &&& v >= old(self).min_interval_ms ==> r is Ok && *final(self) == (ClickerConfig {
                    interval_ms: v,
                    ..*old(self)
                })
                &&& v < old(self).min_interval_ms ==> (r matches Err(e) && e@
                    == ERROR_INTERVAL_TOO_SMALL@) && *final(self) == *old(self)
            },
            parse_u64_spec(interval_str.spec_bytes()) is None ==> {
                &&& r matches Err(e) && e@ == ERROR_INVALID_FORMAT@
                &&& *final(self) == *old(self)
            },
    {
        match parse_u64(interval_str) {
            Some(interval) => {
                if self.is_valid_interval(interval) {
                    self.interval_ms = interval;
                    Ok(())
                } else {
                    Err(ERROR_INTERVAL_TOO_SMALL.to_owned())
                }
            }
            None => Err(ERROR_INVALID_FORMAT.to_owned()),
        }
    }

    /// Reads a rate from text and stores it when the interval it implies
    /// respects the floor.
    pub fn parse_cps_string(&mut self, cps_str: &str) -> (r: Result<(), String>)
        ensures
            parse_rate_milli_spec(cps_str.spec_bytes()) matches Some(v) ==> {
                &&& old(self).spec_valid_cps(v) ==> r is Ok && *final(self) == (ClickerConfig {
                    cps_milli: v,
                    ..*old(self)
                })
                &&& !old(self).spec_valid_cps(v) ==> (r matches Err(e) && e@
                    == "Error: CPS value would result in interval too small"@) && *final(self)
                    == *old(self)
            },
            parse_rate_milli_spec(cps_str.spec_bytes()) is None ==> {
                &&& r matches Err(e) && e@ == ERROR_INVALID_FORMAT@
                &&& *final(self) == *old(self)
            },
    {
        match parse_rate_milli(cps_str) {
            Some(cps_milli) => {
                if self.is_valid_cps(cps_milli) {
                    self.cps_milli = cps_milli;
                    Ok(())
                } else {
                    Err("Error: CPS value would result in interval too small".to_owned())
                }
            }
            None => Err(ERROR_INVALID_FORMAT.to_owned()),
        }
    }

    pub fn set_jitter_range(&mut self, min_delay: u64, max_delay: u64) -> (r: Result<(), String>)
        ensures
            old(self).spec_valid_jitter_range(min_delay, max_delay) ==> {
                &&& r is Ok
                &&& *final(self) == (ClickerConfig {
                    min_delay_ms: min_delay,
                    max_delay_ms: max_delay,
                    ..*old(self)
                })
            },
            !old(self).spec_valid_jitter_range(min_delay, max_delay) ==> {
                &&& r matches Err(e) && e@ == "Error: Invalid jitter range"@
                &&& *final(self) == *old(self)
            },
    {
        if self.is_valid_jitter_range(min_delay, max_delay) {
            self.min_delay_ms = min_delay;
            self.max_delay_ms = max_delay;
            Ok(())
        } else {
            Err("Error: Invalid jitter range".to_owned())
        }
    }
}

impl Clone for ClickerConfig {
    fn clone(&self) -> (r: Self)
        ensures
            r == *self,
    {
        ClickerConfig {
            interval_ms: self.interval_ms,
            min_interval_ms: self.min_interval_ms,
            delay_mode: self.delay_mode,
            cps_milli: self.cps_milli,
            min_delay_ms: self.min_delay_ms,
            max_delay_ms: self.max_delay_ms,
            auto_start: self.auto_start,
            click_type: self.click_type,
            click_button: self.click_button,
            repeat_mode: self.repeat_mode,
            hotkeys_enabled: self.hotkeys_enabled,
            hotkey_combination: self.hotkey_combination.clone(),
        }
    }
}

impl Default for ClickerConfig {
    fn default() -> (r: Self)
        ensures
            r.interval_ms == 1000,
            r.min_interval_ms == MIN_INTERVAL,
            r.delay_mode is Cps,
            r.cps_milli == DEFAULT_CPS_MILLI,
            r.min_delay_ms == DEFAULT_MIN_DELAY,
            r.max_delay_ms == DEFAULT_MAX_DELAY,
            !r.auto_start,
            r.click_type is Single,
            r.click_button is Left,
            r.repeat_mode is Continuous,
            r.hotkeys_enabled == HOTKEY_ENABLED_DEFAULT,
            r.hotkey_combination@ == DEFAULT_HOTKEY@,
    {
        ClickerConfig {
            interval_ms: 1000,
            min_interval_ms: MIN_INTERVAL,
            delay_mode: DelayMode::Cps,
            cps_milli: DEFAULT_CPS_MILLI,
            min_delay_ms: DEFAULT_MIN_DELAY,
            max_delay_ms: DEFAULT_MAX_DELAY,
            auto_start: false,
            click_type: ClickType::Single,
            click_button: ClickButton::Left,
            repeat_mode: RepeatMode::Continuous,
            hotkeys_enabled: HOTKEY_ENABLED_DEFAULT,
            hotkey_combination: DEFAULT_HOTKEY.to_owned(),
        }
    }
}

} // verus!
