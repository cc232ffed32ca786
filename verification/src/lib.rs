//! A verified core for a desktop auto-clicker.
//!
//! The heart of the crate is a precision click scheduler: a state machine
//! that turns a validated [`config::ClickerConfig`] into a schedule of
//! simulated mouse clicks, either at a fixed rate or with randomized
//! jitter.  The scheduler's decisions (when to fire, what to actuate, when
//! to stop, what to report) are verified here; the surrounding process
//! (threads, channels, the platform input call) drives these decisions from
//! an ordinary event loop.

pub mod clicker;
pub mod config;
pub mod constants;
pub mod decimal;
pub mod hotkey;
pub mod icons;
pub mod timer;
pub mod ui;
