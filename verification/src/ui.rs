//! The decisions behind the window: messages, status kinds, and when the
//! form's inputs amount to a startable configuration.
//!
//! Rendering itself — widgets, layout, colors — belongs to the window
//! code around the library; what is decided here is only which icon a
//! status kind shows and whether the Start button may act.

use vstd::prelude::*;
use vstd::string::StringSliceAdditionalSpecFns;
use vstd::string::StringExecFns;
use crate::clicker::{delay_info_chars, spec_clicker_start, spec_clicker_stop, Clicker,
    ClickerMessage};
use crate::config::{ClickButton, ClickType, ClickerConfig, DelayMode};
use crate::constants::{
    DEFAULT_CPS_MILLI, DEFAULT_HOTKEY, DEFAULT_INTERVAL, DEFAULT_MAX_DELAY, DEFAULT_MIN_DELAY,
    ERROR_HOTKEY_PARSE, ERROR_HOTKEY_REGISTER, ERROR_INTERVAL_TOO_SMALL, ERROR_INVALID_FORMAT,
    HOTKEY_ENABLED_DEFAULT, MIN_INTERVAL, STATUS_HOTKEY_FAILED, STATUS_HOTKEY_REGISTERED,
    STATUS_READY, STATUS_RESET, STATUS_RUNNING,
    STATUS_STOPPED,
};
use crate::decimal::{bytes_of, parse_rate_milli, parse_rate_milli_spec, parse_u64, parse_u64_spec};
use crate::hotkey::{hotkey_parse_ok, status_message_chars, HotkeyEvent, HotkeyManager};
use crate::icons::Icon;
use crate::timer::TimerSession;

verus! {

#[derive(Debug, Clone, Copy, PartialEq, Eq, Structural)]
pub enum StatusType {
    Success,
    Error,
    Warning,
    Info,
}

impl StatusType {
    pub fn icon(self) -> (r: Icon)
        ensures
            self is Success ==> r is Success,
            self is Error ==> r is Error,
            self is Warning ==> r is Warning,
            self is Info ==> r is Info,
    {
        match self {
            StatusType::Success => Icon::Success,
            StatusType::Error => Icon::Error,
            StatusType::Warning => Icon::Warning,
            StatusType::Info => Icon::Info,
        }
    }
}

/// Everything the window can ask of the application.
#[derive(Debug, Clone)]
pub enum Message {
    IntervalChanged(String),
    DelayModeChanged(DelayMode),
    CpsChanged(String),
    MinDelayChanged(String),
    MaxDelayChanged(String),
    StartStop,
    Reset,
    ClickerMessage(ClickerMessage),
    HotkeyChanged(String),
    HotkeyEnabledChanged(bool),
    HotkeyEvent(HotkeyEvent),
    ClickButtonChanged(ClickButton),
    ClickTypeChanged(ClickType),
    WebsiteClick,
}

impl From<HotkeyEvent> for Message {
    fn from(event: HotkeyEvent) -> (r: Message) {
        Message::HotkeyEvent(event)
    }
}

impl vstd::std_specs::convert::FromSpecImpl<HotkeyEvent> for Message {
    open spec fn obeys_from_spec() -> bool {
        true
    }

    open spec fn from_spec(event: HotkeyEvent) -> Message {
        Message::HotkeyEvent(event)
    }
}

/// Whether `n` occurs contiguously inside `h`.
pub open spec fn has_substring(h: Seq<u8>, n: Seq<u8>) -> bool {
    exists|i: int| 0 <= i <= h.len() - n.len() && #[trigger] h.subrange(i, i + n.len()) == n
}

/// Finds whether the needle occurs anywhere in the haystack.
pub fn contains_bytes(h: &[u8], n: &[u8]) -> (r: bool)
    ensures
        r == has_substring(h@, n@),
{
    let hl = h.len();
    let nl = n.len();
    if nl > hl {
        return false;
    }
    if nl == 0 {
        proof {
            assert(h@.subrange(0, 0 + n@.len() as int) =~= n@);
        }
        return true;
    }
    let mut i: usize = 0;
    while i <= hl - nl
        invariant
            1 <= nl <= hl,
            hl == h@.len(),
            nl == n@.len(),
            i <= hl - nl + 1,
            forall|k: int| 0 <= k < i ==> #[trigger] h@.subrange(k, k + nl) != n@,
        decreases hl - i,
    {
        let mut j: usize = 0;
        let mut matches_here = true;
        while j < nl && matches_here
            invariant
                nl == n@.len(),
                hl == h@.len(),
                i + nl <= hl,
                j <= nl,
                matches_here ==> forall|t: int| 0 <= t < j ==> h@[i + t] == #[trigger] n@[t],
                !matches_here ==> h@.subrange(i as int, i + nl) != n@,
            decreases nl - j + (if matches_here {
                1int
            } else {
                0int
            }),
        {
            if h[i + j] != n[j] {
                proof {
                    assert(h@.subrange(i as int, i + nl)[j as int] == h@[i + j]);
                }
                matches_here = false;
            } else {
                j += 1;
            }
        }
        if matches_here {
            proof {
                assert(h@.subrange(i as int, i + nl) =~= n@);
            }
            return true;
        }
        i += 1;
    }
    proof {
        assert forall|k: int| 0 <= k <= hl - nl implies #[trigger] h@.subrange(k, k + nl) != n@ by {
            assert(k < i);
        }
    }
    false
}

/// The kind of news the status line carries, read off its wording: error
/// talk is an error, doubt about an input or disabled hotkeys a warning, a
/// running announcement information, anything else success.
pub open spec fn status_type_spec(message: Seq<char>, hotkey_enabled: bool) -> StatusType {
    if has_substring(bytes_of(message), bytes_of("Error:"@)) || has_substring(
        bytes_of(message),
        bytes_of("Failed"@),
    ) {
        StatusType::Error
    } else if has_substring(bytes_of(message), bytes_of("Invalid"@)) || !hotkey_enabled {
        StatusType::Warning
    } else if has_substring(bytes_of(message), bytes_of("running"@)) {
        StatusType::Info
    } else {
        StatusType::Success
    }
}

/// Classifies the status line for presentation.
pub fn status_type_of(message: &str, hotkey_enabled: bool) -> (r: StatusType)
    ensures
        r == status_type_spec(message@, hotkey_enabled),
{
    let bytes = message.as_bytes();
    if contains_bytes(bytes, "Error:".as_bytes()) || contains_bytes(bytes, "Failed".as_bytes()) {
        StatusType::Error
    } else if contains_bytes(bytes, "Invalid".as_bytes()) || !hotkey_enabled {
        StatusType::Warning
    } else if contains_bytes(bytes, "running".as_bytes()) {
        StatusType::Info
    } else {
        StatusType::Success
    }
}

/// The value a numeric input stands for: what it parses to, or zero.
pub open spec fn parsed_or_zero(s: Seq<u8>) -> u64 {
    match parse_u64_spec(s) {
        Some(v) => v,
        None => 0,
    }
}

/// Whether the form's inputs amount to a configuration the scheduler may
/// be started on, for the active delay mode.
pub open spec fn config_inputs_valid(
    config: ClickerConfig,
    cps_input: Seq<u8>,
    min_delay_input: Seq<u8>,
    max_delay_input: Seq<u8>,
) -> bool {
    match config.delay_mode {
        DelayMode::Cps => match parse_rate_milli_spec(cps_input) {
            Some(v) => config.spec_valid_cps(v),
            None => false,
        },
        DelayMode::Jitter => {
            let min_delay = parsed_or_zero(min_delay_input);
            let max_delay = parsed_or_zero(max_delay_input);
            &&& config.spec_valid_jitter_range(min_delay, max_delay)
            &&& min_delay > 0
            &&& max_delay > 0
        }
    }
}

/// Decides whether the Start button may act on the current inputs.
pub fn is_config_valid(
    config: &ClickerConfig,
    cps_input: &str,
    min_delay_input: &str,
    max_delay_input: &str,
) -> (r: bool)
    ensures
        r == config_inputs_valid(
            *config,
            cps_input.spec_bytes(),
            min_delay_input.spec_bytes(),
            max_delay_input.spec_bytes(),
        ),
{
    match config.delay_mode {
        DelayMode::Cps => {
            match parse_rate_milli(cps_input) {
                Some(v) => config.is_valid_cps(v),
                None => false,
            }
        }
        DelayMode::Jitter => {
            let min_delay = match parse_u64(min_delay_input) {
                Some(v) => v,
                None => 0,
            };
            let max_delay = match parse_u64(max_delay_input) {
                Some(v) => v,
                None => 0,
            };
            config.is_valid_jitter_range(min_delay, max_delay) && min_delay > 0 && max_delay > 0
        }
    }
}

/// The value a numeric input stands for, with a fallback for bad text.
pub open spec fn parsed_or(s: Seq<u8>, fallback: u64) -> u64 {
    match parse_u64_spec(s) {
        Some(v) => v,
        None => fallback,
    }
}

/// Everything the window keeps between messages: the raw input texts, the
/// status line, the clicker handle, and the hotkey manager.
pub struct AppModel {
    pub click_interval: String,
    pub cps_input: String,
    pub min_delay_input: String,
    pub max_delay_input: String,
    pub status_message: String,
    pub clicker: Clicker,
    pub hotkey_manager: HotkeyManager,
}

/// What the window must do after a message is applied, beyond redrawing.
pub enum UpdateAction {
    Nothing,
    /// A run was started: drive this session on the background unit and
    /// begin polling the status channel.
    SpawnRun(TimerSession),
    /// Keep polling the status channel.
    CheckErrors,
    /// Behave as if the start/stop control was pressed.
    StartStopRequested,
    OpenWebsite,
}

/// The four raw input texts are kept as they were.
pub open spec fn texts_unchanged(pre: AppModel, post: AppModel) -> bool {
    &&& post.click_interval == pre.click_interval
    &&& post.cps_input == pre.cps_input
    &&& post.min_delay_input == pre.min_delay_input
    &&& post.max_delay_input == pre.max_delay_input
}

/// The status line turns to ready when nothing runs, else stays.
pub open spec fn ready_or_kept(pre: AppModel, post: AppModel) -> bool {
    if pre.clicker.running {
        post.status_message == pre.status_message
    } else {
        post.status_message@ == STATUS_READY@
    }
}

impl AppModel {
    /// The window's state at start: default configuration, input texts
    /// that show the defaults, and the hotkey manager's own status.
    /// `hotkey_manager_ok` is the outcome of acquiring the platform
    /// hotkey facility.
    pub fn init(hotkey_manager_ok: bool) -> (m: AppModel)
        ensures
            m.click_interval@ == DEFAULT_INTERVAL@,
            m.cps_input@ == "11"@,
            m.min_delay_input@ == "60"@,
            m.max_delay_input@ == "110"@,
            m.clicker.config.interval_ms == 1000,
            m.clicker.config.min_interval_ms == MIN_INTERVAL,
            m.clicker.config.delay_mode is Cps,
            m.clicker.config.cps_milli == DEFAULT_CPS_MILLI,
            m.clicker.config.min_delay_ms == DEFAULT_MIN_DELAY,
            m.clicker.config.max_delay_ms == DEFAULT_MAX_DELAY,
            !m.clicker.config.auto_start,
            m.clicker.config.click_type is Single,
            m.clicker.config.click_button is Left,
            m.clicker.config.repeat_mode is Continuous,
            m.clicker.config.hotkeys_enabled == HOTKEY_ENABLED_DEFAULT,
            m.clicker.config.hotkey_combination@ == DEFAULT_HOTKEY@,
            !m.clicker.running,
            !m.clicker.receiver_attached,
            m.hotkey_manager.has_manager == hotkey_manager_ok,
            m.hotkey_manager.enabled == HOTKEY_ENABLED_DEFAULT,
            m.hotkey_manager.combination@ == DEFAULT_HOTKEY@,
            m.hotkey_manager.current_hotkey is Some <==> hotkey_parse_ok(DEFAULT_HOTKEY@),
            m.status_message@ == status_message_chars(m.hotkey_manager),
    {
        let clicker_config = ClickerConfig::default();
        let hotkey_manager = HotkeyManager::with_config(
            clicker_config.hotkey_combination.clone(),
            clicker_config.hotkeys_enabled,
            hotkey_manager_ok,
        );
        let status_message = hotkey_manager.get_status_message();
        AppModel {
            click_interval: DEFAULT_INTERVAL.to_owned(),
            cps_input: "11".to_owned(),
            min_delay_input: "60".to_owned(),
            max_delay_input: "110".to_owned(),
            status_message,
            clicker: Clicker::new(clicker_config),
            hotkey_manager,
        }
    }

    /// Applies one window message to the state and answers with what the
    /// window must do next.  `now_ns` is the clock reading, should a run
    /// start; `hotkey_register_ok` is the outcome of the platform hotkey
    /// registration the caller attempted for a hotkey change.
    #[verifier::rlimit(100)]
    pub fn update(&mut self, msg: Message, now_ns: u64, hotkey_register_ok: bool) -> (r:
        UpdateAction)
        ensures
            msg matches Message::IntervalChanged(v) ==> {
                &&& final(self).click_interval == v
                &&& final(self).cps_input == old(self).cps_input
                &&& final(self).min_delay_input == old(self).min_delay_input
                &&& final(self).max_delay_input == old(self).max_delay_input
                &&& final(self).hotkey_manager == old(self).hotkey_manager
                &&& r is Nothing
                &&& match parse_u64_spec(bytes_of(v@)) {
                    Some(iv) => if iv >= old(self).clicker.config.min_interval_ms {
                        final(self).clicker == (Clicker {
                            config: ClickerConfig {
                                interval_ms: iv,
                                ..old(self).clicker.config
                            },
                            ..old(self).clicker
                        }) && ready_or_kept(*old(self), *final(self))
                    } else {
                        final(self).clicker == old(self).clicker && final(self).status_message@
                            == ERROR_INTERVAL_TOO_SMALL@
                    },
                    None => final(self).clicker == old(self).clicker && final(self).status_message@ == ERROR_INVALID_FORMAT@,
                }
            },
            msg matches Message::DelayModeChanged(mode) ==> {
                &&& texts_unchanged(*old(self), *final(self))
                &&& final(self).hotkey_manager == old(self).hotkey_manager
                &&& final(self).clicker == (Clicker {
                    config: ClickerConfig { delay_mode: mode, ..old(self).clicker.config },
                    ..old(self).clicker
                })
                &&& ready_or_kept(*old(self), *final(self))
                &&& r is Nothing
            },
            msg matches Message::CpsChanged(v) ==> {
                &&& final(self).cps_input == v
                &&& final(self).click_interval == old(self).click_interval
                &&& final(self).min_delay_input == old(self).min_delay_input
                &&& final(self).max_delay_input == old(self).max_delay_input
                &&& final(self).hotkey_manager == old(self).hotkey_manager
                &&& r is Nothing
                &&& match parse_rate_milli_spec(bytes_of(v@)) {
                    Some(cm) => if old(self).clicker.config.spec_valid_cps(cm) {
                        final(self).clicker == (Clicker {
                            config: ClickerConfig { cps_milli: cm, ..old(self).clicker.config },
                            ..old(self).clicker
                        }) && ready_or_kept(*old(self), *final(self))
                    } else {
                        final(self).clicker == old(self).clicker && final(self).status_message@
                            == "Error: CPS value would result in interval too small"@
                    },
                    None => final(self).clicker == old(self).clicker && final(self).status_message@ == ERROR_INVALID_FORMAT@,
                }
            },
            msg matches Message::MinDelayChanged(v) ==> {
                &&& final(self).min_delay_input == v
                &&& final(self).click_interval == old(self).click_interval
                &&& final(self).cps_input == old(self).cps_input
                &&& final(self).max_delay_input == old(self).max_delay_input
                &&& final(self).hotkey_manager == old(self).hotkey_manager
                &&& r is Nothing
                &&& match parse_u64_spec(bytes_of(v@)) {
                    Some(mn) => {
                        let mx = parsed_or(
                            bytes_of(old(self).max_delay_input@),
                            DEFAULT_MAX_DELAY,
                        );
                        if old(self).clicker.config.spec_valid_jitter_range(mn, mx) {
                            final(self).clicker == (Clicker {
                                config: ClickerConfig {
                                    min_delay_ms: mn,
                                    max_delay_ms: mx,
                                    ..old(self).clicker.config
                                },
                                ..old(self).clicker
                            }) && ready_or_kept(*old(self), *final(self))
                        } else {
                            final(self).clicker == old(self).clicker && final(self).status_message@ == "Error: Invalid jitter range"@
                        }
                    },
                    None => final(self).clicker == old(self).clicker && final(self).status_message@ == ERROR_INVALID_FORMAT@,
                }
            },
            msg matches Message::MaxDelayChanged(v) ==> {
                &&& final(self).max_delay_input == v
                &&& final(self).click_interval == old(self).click_interval
                &&& final(self).cps_input == old(self).cps_input
                &&& final(self).min_delay_input == old(self).min_delay_input
                &&& final(self).hotkey_manager == old(self).hotkey_manager
                &&& r is Nothing
                &&& match parse_u64_spec(bytes_of(v@)) {
                    Some(mx) => {
                        let mn = parsed_or(
                            bytes_of(old(self).min_delay_input@),
                            DEFAULT_MIN_DELAY,
                        );
                        if old(self).clicker.config.spec_valid_jitter_range(mn, mx) {
                            final(self).clicker == (Clicker {
                                config: ClickerConfig {
                                    min_delay_ms: mn,
                                    max_delay_ms: mx,
                                    ..old(self).clicker.config
                                },
                                ..old(self).clicker
                            }) && ready_or_kept(*old(self), *final(self))
                        } else {
                            final(self).clicker == old(self).clicker && final(self).status_message@ == "Error: Invalid jitter range"@
                        }
                    },
                    None => final(self).clicker == old(self).clicker && final(self).status_message@ == ERROR_INVALID_FORMAT@,
                }
            },
            msg is StartStop ==> {
                &&& texts_unchanged(*old(self), *final(self))
                &&& final(self).hotkey_manager == old(self).hotkey_manager
                &&& old(self).clicker.running ==> {
                    &&& final(self).clicker == spec_clicker_stop(old(self).clicker)
                    &&& final(self).status_message@ == STATUS_STOPPED@
                    &&& r is Nothing
                }
                &&& !old(self).clicker.running ==> match old(self).clicker.config.delay_mode {
                    DelayMode::Cps => match parse_rate_milli_spec(
                        bytes_of(old(self).cps_input@),
                    ) {
                        Some(cm) => if old(self).clicker.config.spec_valid_cps(cm) {
                            started_with_config(
                                *old(self),
                                *final(self),
                                ClickerConfig { cps_milli: cm, ..old(self).clicker.config },
                                r,
                                now_ns,
                            )
                        } else {
                            final(self).clicker == old(self).clicker && final(self).status_message@
                                == "Error: CPS value would result in interval too small"@ && r
                                is Nothing
                        },
                        None => final(self).clicker == old(self).clicker && final(self).status_message@ == ERROR_INVALID_FORMAT@ && r is Nothing,
                    },
                    DelayMode::Jitter => {
                        let mn = parsed_or(bytes_of(old(self).min_delay_input@), 0);
                        let mx = parsed_or(bytes_of(old(self).max_delay_input@), 0);
                        if old(self).clicker.config.spec_valid_jitter_range(mn, mx) {
                            started_with_config(
                                *old(self),
                                *final(self),
                                ClickerConfig {
                                    min_delay_ms: mn,
                                    max_delay_ms: mx,
                                    ..old(self).clicker.config
                                },
                                r,
                                now_ns,
                            )
                        } else {
                            final(self).clicker == old(self).clicker && final(self).status_message@ == "Error: Invalid jitter range"@ && r is Nothing
                        }
                    },
                }
            },
            msg is Reset ==> {
                &&& texts_unchanged(*old(self), *final(self))
                &&& final(self).hotkey_manager == old(self).hotkey_manager
                &&& final(self).clicker == spec_clicker_stop(old(self).clicker)
                &&& final(self).status_message@ == STATUS_RESET@
                &&& r is Nothing
            },
            msg matches Message::ClickerMessage(ClickerMessage::ClickError(e)) ==> {
                &&& texts_unchanged(*old(self), *final(self))
                &&& final(self).hotkey_manager == old(self).hotkey_manager
                &&& final(self).clicker == spec_clicker_stop(old(self).clicker)
                &&& final(self).status_message@ == "Error: "@ + e@
                &&& r is Nothing
            },
            msg matches Message::ClickerMessage(ClickerMessage::NoError) ==> {
                &&& *final(self) == *old(self)
                &&& old(self).clicker.running ==> r is CheckErrors
                &&& !old(self).clicker.running ==> r is Nothing
            },
            msg matches Message::HotkeyChanged(v) ==> {
                &&& texts_unchanged(*old(self), *final(self))
                &&& r is Nothing
                &&& !hotkey_parse_ok(v@) ==> {
                    &&& final(self).hotkey_manager == old(self).hotkey_manager
                    &&& final(self).clicker == old(self).clicker
                    &&& final(self).status_message@ == ERROR_HOTKEY_PARSE@
                }
                &&& hotkey_parse_ok(v@) ==> {
                    &&& final(self).hotkey_manager.combination@ == v@
                    &&& final(self).hotkey_manager.current_hotkey is Some
                    &&& final(self).hotkey_manager.enabled == old(self).hotkey_manager.enabled
                    &&& final(self).hotkey_manager.has_manager == old(self).hotkey_manager.has_manager
                    &&& old(self).hotkey_manager.enabled ==> {
                        &&& (old(self).hotkey_manager.has_manager && hotkey_register_ok) ==> {
                            &&& final(self).status_message@ == STATUS_HOTKEY_REGISTERED@
                            &&& final(self).clicker == (Clicker {
                                config: ClickerConfig {
                                    hotkey_combination: v,
                                    ..old(self).clicker.config
                                },
                                ..old(self).clicker
                            })
                        }
                        &&& !(old(self).hotkey_manager.has_manager && hotkey_register_ok) ==> {
                            &&& final(self).status_message@ == ERROR_HOTKEY_REGISTER@
                            &&& final(self).clicker == old(self).clicker
                        }
                    }
                    &&& !old(self).hotkey_manager.enabled ==> {
                        &&& final(self).status_message@ == "Hotkey updated (disabled)"@
                        &&& final(self).clicker == (Clicker {
                            config: ClickerConfig {
                                hotkey_combination: v,
                                ..old(self).clicker.config
                            },
                            ..old(self).clicker
                        })
                    }
                }
            },
            msg matches Message::HotkeyEnabledChanged(enabled) ==> {
                &&& texts_unchanged(*old(self), *final(self))
                &&& r is Nothing
                &&& enabled == old(self).hotkey_manager.enabled ==> {
                    &&& final(self).hotkey_manager == old(self).hotkey_manager
                    &&& final(self).status_message@ == status_message_chars(
                        old(self).hotkey_manager,
                    )
                    &&& final(self).clicker == (Clicker {
                        config: ClickerConfig {
                            hotkeys_enabled: enabled,
                            ..old(self).clicker.config
                        },
                        ..old(self).clicker
                    })
                }
                &&& (enabled && !old(self).hotkey_manager.enabled) ==> {
                    &&& final(self).hotkey_manager == (HotkeyManager {
                        enabled: true,
                        ..old(self).hotkey_manager
                    })
                    &&& (old(self).hotkey_manager.spec_can_register() && hotkey_register_ok)
                        ==> {
                        &&& final(self).status_message@ == STATUS_HOTKEY_REGISTERED@
                        &&& final(self).clicker == (Clicker {
                            config: ClickerConfig {
                                hotkeys_enabled: enabled,
                                ..old(self).clicker.config
                            },
                            ..old(self).clicker
                        })
                    }
                    &&& !(old(self).hotkey_manager.spec_can_register() && hotkey_register_ok)
                        ==> {
                        &&& final(self).status_message@ == STATUS_HOTKEY_FAILED@
                        &&& final(self).clicker == old(self).clicker
                    }
                }
                &&& (!enabled && old(self).hotkey_manager.enabled) ==> {
                    &&& final(self).hotkey_manager == (HotkeyManager {
                        enabled: false,
                        ..old(self).hotkey_manager
                    })
                    &&& final(self).status_message@ == "Hotkeys disabled"@
                    &&& final(self).clicker == (Clicker {
                        config: ClickerConfig {
                            hotkeys_enabled: enabled,
                            ..old(self).clicker.config
                        },
                        ..old(self).clicker
                    })
                }
            },
            msg matches Message::HotkeyEvent(ev) ==> {
                &&& *final(self) == *old(self)
                &&& ev is Pressed ==> r is StartStopRequested
                &&& ev is Released ==> r is Nothing
            },
            msg matches Message::ClickButtonChanged(button) ==> {
                &&& texts_unchanged(*old(self), *final(self))
                &&& final(self).hotkey_manager == old(self).hotkey_manager
                &&& final(self).clicker == (Clicker {
                    config: ClickerConfig { click_button: button, ..old(self).clicker.config },
                    ..old(self).clicker
                })
                &&& ready_or_kept(*old(self), *final(self))
                &&& r is Nothing
            },
            msg matches Message::ClickTypeChanged(click_type) ==> {
                &&& texts_unchanged(*old(self), *final(self))
                &&& final(self).hotkey_manager == old(self).hotkey_manager
                &&& final(self).clicker == (Clicker {
                    config: ClickerConfig { click_type: click_type, ..old(self).clicker.config },
                    ..old(self).clicker
                })
                &&& ready_or_kept(*old(self), *final(self))
                &&& r is Nothing
            },
            msg is WebsiteClick ==> {
                &&& *final(self) == *old(self)
                &&& r is OpenWebsite
            },
    {
        match msg {
            Message::IntervalChanged(value) => {
                match self.clicker.config.parse_interval_string(value.as_str()) {
                    Err(e) => {
                        self.status_message = e;
                    }
                    Ok(_) => {
                        if !self.clicker.is_running() {
                            self.status_message = STATUS_READY.to_owned();
                        }
                    }
                }
                self.click_interval = value;
                UpdateAction::Nothing
            }
            Message::DelayModeChanged(mode) => {
                self.clicker.config.delay_mode = mode;
                if !self.clicker.is_running() {
                    self.status_message = STATUS_READY.to_owned();
                }
                UpdateAction::Nothing
            }
            Message::CpsChanged(value) => {
                match self.clicker.config.parse_cps_string(value.as_str()) {
                    Err(e) => {
                        self.status_message = e;
                    }
                    Ok(_) => {
                        if !self.clicker.is_running() {
                            self.status_message = STATUS_READY.to_owned();
                        }
                    }
                }
                self.cps_input = value;
                UpdateAction::Nothing
            }
            Message::MinDelayChanged(value) => {
                match parse_u64(value.as_str()) {
                    Some(min_delay) => {
                        let max_delay = match parse_u64(self.max_delay_input.as_str()) {
                            Some(v) => v,
                            None => DEFAULT_MAX_DELAY,
                        };
                        match self.clicker.config.set_jitter_range(min_delay, max_delay) {
                            Err(e) => {
                                self.status_message = e;
                            }
                            Ok(_) => {
                                if !self.clicker.is_running() {
                                    self.status_message = STATUS_READY.to_owned();
                                }
                            }
                        }
                    }
                    None => {
                        self.status_message = ERROR_INVALID_FORMAT.to_owned();
                    }
                }
                self.min_delay_input = value;
                UpdateAction::Nothing
            }
            Message::MaxDelayChanged(value) => {
                match parse_u64(value.as_str()) {
                    Some(max_delay) => {
                        let min_delay = match parse_u64(self.min_delay_input.as_str()) {
                            Some(v) => v,
                            None => DEFAULT_MIN_DELAY,
                        };
                        match self.clicker.config.set_jitter_range(min_delay, max_delay) {
                            Err(e) => {
                                self.status_message = e;
                            }
                            Ok(_) => {
                                if !self.clicker.is_running() {
                                    self.status_message = STATUS_READY.to_owned();
                                }
                            }
                        }
                    }
                    None => {
                        self.status_message = ERROR_INVALID_FORMAT.to_owned();
                    }
                }
                self.max_delay_input = value;
                UpdateAction::Nothing
            }
            Message::StartStop => {
                if self.clicker.is_running() {
                    self.clicker.stop();
                    self.status_message = STATUS_STOPPED.to_owned();
                    UpdateAction::Nothing
                } else {
                    let config_valid = match self.clicker.config.delay_mode {
                        DelayMode::Cps => {
                            match self.clicker.config.parse_cps_string(self.cps_input.as_str()) {
                                Ok(_) => true,
                                Err(e) => {
                                    self.status_message = e;
                                    false
                                }
                            }
                        }
                        DelayMode::Jitter => {
                            let min_delay = match parse_u64(self.min_delay_input.as_str()) {
                                Some(v) => v,
                                None => 0,
                            };
                            let max_delay = match parse_u64(self.max_delay_input.as_str()) {
                                Some(v) => v,
                                None => 0,
                            };
                            match self.clicker.config.set_jitter_range(min_delay, max_delay) {
                                Ok(_) => true,
                                Err(e) => {
                                    self.status_message = e;
                                    false
                                }
                            }
                        }
                    };
                    if config_valid {
                        let session = self.clicker.start(now_ns);
                        let mut status = STATUS_RUNNING.to_owned();
                        status.append(" - ");
                        status.append(self.clicker.get_delay_info().as_str());
                        self.status_message = status;
                        proof {
                            reveal_strlit(" - ");
                        }
                        UpdateAction::SpawnRun(session)
                    } else {
                        UpdateAction::Nothing
                    }
                }
            }
            Message::Reset => {
                self.clicker.stop();
                self.status_message = STATUS_RESET.to_owned();
                UpdateAction::Nothing
            }
            Message::ClickerMessage(ClickerMessage::ClickError(error)) => {
                let mut status = "Error: ".to_owned();
                status.append(error.as_str());
                self.status_message = status;
                self.clicker.stop();
                UpdateAction::Nothing
            }
            Message::ClickerMessage(ClickerMessage::NoError) => {
                if self.clicker.is_running() {
                    UpdateAction::CheckErrors
                } else {
                    UpdateAction::Nothing
                }
            }
            Message::HotkeyChanged(value) => {
                let stored = value.clone();
                match self.hotkey_manager.update_combination(value, hotkey_register_ok) {
                    Ok(msg_text) => {
                        self.status_message = msg_text;
                        self.clicker.config.hotkey_combination = stored;
                    }
                    Err(err) => {
                        self.status_message = err;
                    }
                }
                UpdateAction::Nothing
            }
            Message::HotkeyEnabledChanged(enabled) => {
                match self.hotkey_manager.set_enabled(enabled, hotkey_register_ok) {
                    Ok(msg_text) => {
                        self.status_message = msg_text;
                        self.clicker.config.hotkeys_enabled = enabled;
                    }
                    Err(err) => {
                        self.status_message = err;
                    }
                }
                UpdateAction::Nothing
            }
            Message::HotkeyEvent(HotkeyEvent::Pressed) => UpdateAction::StartStopRequested,
            Message::HotkeyEvent(HotkeyEvent::Released) => UpdateAction::Nothing,
            Message::ClickButtonChanged(button) => {
                self.clicker.config.click_button = button;
                if !self.clicker.is_running() {
                    self.status_message = STATUS_READY.to_owned();
                }
                UpdateAction::Nothing
            }
            Message::ClickTypeChanged(click_type) => {
                self.clicker.config.click_type = click_type;
                if !self.clicker.is_running() {
                    self.status_message = STATUS_READY.to_owned();
                }
                UpdateAction::Nothing
            }
            Message::WebsiteClick => UpdateAction::OpenWebsite,
        }
    }
}

/// A run was started on `config`: the clicker holds it and runs, the
/// status line announces it with the delay text, and the action carries a
/// fresh session on it, due at once.
pub open spec fn started_with_config(
    pre: AppModel,
    post: AppModel,
    config: ClickerConfig,
    r: UpdateAction,
    now_ns: u64,
) -> bool {
    &&& post.clicker == spec_clicker_start(Clicker { config: config, ..pre.clicker })
    &&& post.status_message@ == STATUS_RUNNING@ + " - "@ + delay_info_chars(config)
    &&& r matches UpdateAction::SpawnRun(s) && s.wf() && s.config == config && s.next_fire_ns
        == now_ns && s.started_ns@ == now_ns && s.fires@ == 0
}

} // verus!
