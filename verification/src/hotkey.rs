//! The start/stop hotkey and its lifecycle.
//!
//! A `HotkeyManager` decides when a combination is accepted, what gets
//! registered with the platform, and which status text each step earns.
//! The platform facility itself — acquiring the OS manager, registering
//! and unregistering, listening for presses — is an outside capability:
//! the caller performs those calls and hands their outcomes in.

use vstd::prelude::*;
use vstd::string::StringExecFns;
use global_hotkey::hotkey::HotKey;
use crate::constants::{
    DEFAULT_HOTKEY, ERROR_HOTKEY_PARSE, ERROR_HOTKEY_REGISTER, STATUS_HOTKEY_FAILED,
    STATUS_HOTKEY_REGISTERED, STATUS_READY,
};

verus! {

#[derive(Debug, Clone, Copy, PartialEq, Eq, Structural)]
pub enum HotkeyEvent {
    Pressed,
    Released,
}

#[verifier::external_type_specification]
#[verifier::external_body]
pub struct ExHotKey(HotKey);

/// Whether the hotkey grammar accepts a combination; what
/// `HotKey::try_from` decides for a given string.
pub uninterp spec fn hotkey_parse_ok(s: Seq<char>) -> bool;

/// Relies on global_hotkey's `HotKey::try_from` for `&str`: whether a
/// combination parses is a pure function of the string.
#[verifier::external_body]
fn try_parse_hotkey(combination: &str) -> (r: Option<HotKey>)
    ensures
        r is Some <==> hotkey_parse_ok(combination@),
{
    HotKey::try_from(combination).ok()
}

pub struct HotkeyManager {
    /// Whether the platform hotkey facility was acquired.
    pub has_manager: bool,
    /// The parsed current hotkey, if one is held.
    pub current_hotkey: Option<HotKey>,
    pub enabled: bool,
    pub combination: String,
}

/// The status text the manager's state earns.
pub open spec fn status_message_chars(m: HotkeyManager) -> Seq<char> {
    if m.enabled {
        if m.current_hotkey is Some {
            STATUS_HOTKEY_REGISTERED@
        } else {
            STATUS_HOTKEY_FAILED@
        }
    } else {
        STATUS_READY@
    }
}

impl HotkeyManager {
    /// Whether a registration attempt can be made at all: the platform
    /// facility is held and a hotkey is parsed.
    pub open spec fn spec_can_register(&self) -> bool {
        self.has_manager && self.current_hotkey is Some
    }

    /// `manager_ok` is the outcome of acquiring the platform facility.
    pub fn new(manager_ok: bool) -> (m: HotkeyManager)
        ensures
            m.has_manager == manager_ok,
            m.current_hotkey is None,
            !m.enabled,
            m.combination@ == DEFAULT_HOTKEY@,
    {
        HotkeyManager {
            has_manager: manager_ok,
            current_hotkey: None,
            enabled: false,
            combination: DEFAULT_HOTKEY.to_owned(),
        }
    }

    /// Builds a manager around a stored combination.  The combination is
    /// parsed and held when the grammar accepts it; the caller registers
    /// it afterward when `enabled` asks for that.
    pub fn with_config(combination: String, enabled: bool, manager_ok: bool) -> (m: HotkeyManager)
        ensures
            m.has_manager == manager_ok,
            m.enabled == enabled,
            m.combination@ == combination@,
            m.current_hotkey is Some <==> hotkey_parse_ok(combination@),
    {
        let current_hotkey = try_parse_hotkey(combination.as_str());
        HotkeyManager { has_manager: manager_ok, current_hotkey, enabled, combination }
    }

    pub fn is_enabled(&self) -> (r: bool)
        ensures
            r == self.enabled,
    {
        self.enabled
    }

    pub fn get_combination(&self) -> (r: &str)
        ensures
            r@ == self.combination@,
    {
        self.combination.as_str()
    }

    pub fn get_current_hotkey(&self) -> (r: Option<&HotKey>)
        ensures
            r is Some <==> self.current_hotkey is Some,
    {
        self.current_hotkey.as_ref()
    }

    /// Whether the caller should attempt a platform registration now.
    pub fn wants_registration(&self) -> (r: bool)
        ensures
            r == (self.enabled && self.spec_can_register()),
    {
        self.enabled && self.has_manager && self.current_hotkey.is_some()
    }

    /// Turns the hotkey on or off.  `register_ok` is the outcome of the
    /// platform registration the caller attempted for this change; it is
    /// ignored when no registration could be attempted or the state does
    /// not change.
    pub fn set_enabled(&mut self, enabled: bool, register_ok: bool) -> (r: Result<String, String>)
        ensures
            enabled == old(self).enabled ==> *final(self) == *old(self) && (r matches Ok(s) && s@
                == status_message_chars(*old(self))),
            enabled && !old(self).enabled ==> {
                &&& *final(self) == (HotkeyManager { enabled: true, ..*old(self) })
                &&& old(self).spec_can_register() && register_ok ==> (r matches Ok(s) && s@
                    == STATUS_HOTKEY_REGISTERED@)
                &&& !(old(self).spec_can_register() && register_ok) ==> (r matches Err(e) && e@
                    == STATUS_HOTKEY_FAILED@)
            },
            !enabled && old(self).enabled ==> {
                &&& *final(self) == (HotkeyManager { enabled: false, ..*old(self) })
                &&& r matches Ok(s) && s@ == "Hotkeys disabled"@
            },
    {
        if enabled == self.enabled {
            return Ok(self.get_status_message());
        }
        if enabled {
            self.enabled = true;
            if self.has_manager && self.current_hotkey.is_some() && register_ok {
                Ok(STATUS_HOTKEY_REGISTERED.to_owned())
            } else {
                Err(STATUS_HOTKEY_FAILED.to_owned())
            }
        } else {
            self.enabled = false;
            Ok("Hotkeys disabled".to_owned())
        }
    }

    /// Replaces the combination.  A combination the grammar rejects
    /// changes nothing; an accepted one is held, and when the hotkey is
    /// enabled, `register_ok` — the outcome of the platform registration
    /// the caller attempted for it — decides the answer.
    pub fn update_combination(&mut self, new_combination: String, register_ok: bool) -> (r: Result<
        String,
        String,
    >)
        ensures
            !hotkey_parse_ok(new_combination@) ==> {
                &&& *final(self) == *old(self)
                &&& r matches Err(e) && e@ == ERROR_HOTKEY_PARSE@
            },
            hotkey_parse_ok(new_combination@) ==> {
                &&& final(self).combination@ == new_combination@
                &&& final(self).current_hotkey is Some
                &&& final(self).enabled == old(self).enabled
                &&& final(self).has_manager == old(self).has_manager
                &&& old(self).enabled ==> {
                    &&& old(self).has_manager && register_ok ==> (r matches Ok(s) && s@
                        == STATUS_HOTKEY_REGISTERED@)
                    &&& !(old(self).has_manager && register_ok) ==> (r matches Err(e) && e@
                        == ERROR_HOTKEY_REGISTER@)
                }
                &&& !old(self).enabled ==> (r matches Ok(s) && s@ == "Hotkey updated (disabled)"@)
            },
    {
        let parsed = match try_parse_hotkey(new_combination.as_str()) {
            Some(h) => h,
            None => {
                return Err(ERROR_HOTKEY_PARSE.to_owned());
            }
        };
        self.combination = new_combination;
        self.current_hotkey = Some(parsed);
        if self.enabled {
            if self.has_manager && register_ok {
                Ok(STATUS_HOTKEY_REGISTERED.to_owned())
            } else {
                Err(ERROR_HOTKEY_REGISTER.to_owned())
            }
        } else {
            Ok("Hotkey updated (disabled)".to_owned())
        }
    }

    pub fn get_status_message(&self) -> (r: String)
        ensures
            r@ == status_message_chars(*self),
    {
        if self.enabled {
            if self.current_hotkey.is_some() {
                STATUS_HOTKEY_REGISTERED.to_owned()
            } else {
                STATUS_HOTKEY_FAILED.to_owned()
            }
        } else {
            STATUS_READY.to_owned()
        }
    }
}

/// Checks a combination against the hotkey grammar.
pub fn is_valid_hotkey(combination: &str) -> (r: bool)
    ensures
        r == hotkey_parse_ok(combination@),
{
    try_parse_hotkey(combination).is_some()
}

/// Parses a combination, or names the grammar error.
pub fn parse_hotkey(combination: &str) -> (r: Result<HotKey, String>)
    ensures
        r is Ok <==> hotkey_parse_ok(combination@),
        r matches Err(e) ==> e@ == ERROR_HOTKEY_PARSE@,
{
    match try_parse_hotkey(combination) {
        Some(h) => Ok(h),
        None => Err(ERROR_HOTKEY_PARSE.to_owned()),
    }
}

} // verus!
