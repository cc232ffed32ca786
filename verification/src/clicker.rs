//! The front-facing handle around the scheduler.
//!
//! A `Clicker` pairs a configuration with a `PrecisionTimer` and its own
//! view of the run: whether a status receiver is held and whether a run is
//! live.  The caller's event loop starts and stops it, polls it with
//! whatever the status channel yielded, and reads back the message to
//! show.  A reported actuation failure is the one place a background
//! failure turns the handle off.

use vstd::prelude::*;
use crate::config::{ClickerConfig, DelayMode};
use crate::decimal::{char_of_digit, dec_chars, digit_str, u64_to_string};
use crate::timer::{spec_start, spec_stop, PrecisionTimer, StatusEvent, StatusUpdate, TimerSession};
use vstd::string::StringExecFns;

verus! {

#[derive(Debug, Clone, PartialEq, Eq)]
pub enum ClickerMessage {
    ClickError(String),
    NoError,
}

pub struct Clicker {
    pub config: ClickerConfig,
    pub timer: PrecisionTimer,
    /// Whether the receiving end of the current run's status channel is held.
    pub receiver_attached: bool,
    pub running: bool,
}

/// What stopping the handle does: the timer is stopped and the receiver
/// is dropped.
pub open spec fn spec_clicker_stop(c: Clicker) -> Clicker {
    Clicker {
        config: c.config,
        timer: spec_stop(c.timer),
        receiver_attached: false,
        running: false,
    }
}

/// What starting the handle does: the timer starts a fresh run and the
/// new receiver is held.
pub open spec fn spec_clicker_start(c: Clicker) -> Clicker {
    Clicker { config: c.config, timer: spec_start(c.timer), receiver_attached: true, running: true }
}

/// Law: starting the handle while it already runs equals stopping it
/// first: one run is live afterward either way.
pub proof fn lemma_handle_restart_is_stop_then_start(c: Clicker)
    ensures
        spec_clicker_start(spec_clicker_stop(c)) == spec_clicker_start(c),
{
}

/// The one-decimal rate text, such as `"11.0 CPS"`, or the jitter range
/// text, such as `"Jitter: 60ms - 110ms"`.
pub open spec fn delay_info_chars(c: ClickerConfig) -> Seq<char> {
    match c.delay_mode {
        DelayMode::Cps => dec_chars((c.cps_milli / 1000) as nat) + seq!['.'] + seq![
            char_of_digit(((c.cps_milli / 100) % 10) as nat),
        ] + " CPS"@,
        DelayMode::Jitter => "Jitter: "@ + dec_chars(c.min_delay_ms as nat) + "ms - "@ + dec_chars(
            c.max_delay_ms as nat,
        ) + "ms"@,
    }
}

impl Clicker {
    pub fn new(config: ClickerConfig) -> (c: Clicker)
        ensures
            c.config == config,
            !c.timer.running,
            !c.timer.channels_open,
            c.timer.generation == 0,
            !c.receiver_attached,
            !c.running,
    {
        Clicker {
            config,
            timer: PrecisionTimer::new(),
            receiver_attached: false,
            running: false,
        }
    }

    /// Starts a run of the current configuration, due at once, and hands
    /// back the session for the background unit to drive.
    pub fn start(&mut self, now_ns: u64) -> (s: TimerSession)
        requires
            old(self).config.valid_for_run(),
        ensures
            *final(self) == spec_clicker_start(*old(self)),
            s.wf(),
            s.config == old(self).config,
            s.next_fire_ns == now_ns,
            s.started_ns@ == now_ns,
            s.fires@ == 0,
    {
        let session = self.timer.start(self.config.clone(), now_ns);
        self.receiver_attached = true;
        self.running = true;
        proof {
            assert(self.config == old(self).config);
        }
        session
    }

    /// Stops the run and drops the receiver; idempotent and non-blocking.
    pub fn stop(&mut self)
        ensures
            *final(self) == spec_clicker_stop(*old(self)),
    {
        self.running = false;
        self.timer.stop();
        self.receiver_attached = false;
    }

    pub fn is_running(&self) -> (r: bool)
        ensures
            r == self.running,
    {
        self.running
    }

    pub fn config(&self) -> (r: &ClickerConfig)
        ensures
            *r == self.config,
    {
        &self.config
    }

    pub fn config_mut(&mut self) -> (r: &mut ClickerConfig)
        ensures
            *r == old(self).config,
            *final(self) == (Clicker { config: *final(r), ..*old(self) }),
    {
        &mut self.config
    }

    /// The text that names the active delay settings.
    pub fn get_delay_info(&self) -> (r: String)
        ensures
            r@ == delay_info_chars(self.config),
    {
        match self.config.delay_mode {
            DelayMode::Cps => {
                let mut s = u64_to_string(self.config.cps_milli / 1000);
                s.append(".");
                s.append(digit_str((self.config.cps_milli / 100) % 10));
                s.append(" CPS");
                proof {
                    reveal_strlit(".");
                    assert("."@ =~= seq!['.']);
                    assert(s@ =~= delay_info_chars(self.config));
                }
                s
            }
            DelayMode::Jitter => {
                let mut s = "Jitter: ".to_owned();
                s.append(u64_to_string(self.config.min_delay_ms).as_str());
                s.append("ms - ");
                s.append(u64_to_string(self.config.max_delay_ms).as_str());
                s.append("ms");
                proof {
                    assert(s@ =~= delay_info_chars(self.config));
                }
                s
            }
        }
    }

    /// Takes what the status channel yielded and surfaces an error to the
    /// caller; a reported failure turns the handle's running flag off.
    pub fn check_for_errors(&mut self, received: Option<StatusUpdate>) -> (r: Option<
        ClickerMessage,
    >)
        ensures
            received matches Some(StatusUpdate::Error(e)) ==> {
                &&& old(self).receiver_attached ==> r == Some(ClickerMessage::ClickError(e))
                    && *final(self) == (Clicker { running: false, ..*old(self) })
                &&& !old(self).receiver_attached ==> r is None && *final(self) == *old(self)
            },
            received is None ==> r is None && *final(self) == *old(self),
    {
        if self.receiver_attached {
            match received {
                Some(StatusUpdate::Error(e)) => {
                    self.running = false;
                    Some(ClickerMessage::ClickError(e))
                }
                None => None,
            }
        } else {
            None
        }
    }

    /// Takes what the status channel yielded and hands the event onward;
    /// a reported failure turns the handle's running flag off.
    pub fn poll_status(&mut self, received: Option<StatusEvent>) -> (r: Option<StatusEvent>)
        ensures
            received matches Some(StatusEvent::ActuationFailed(_)) ==> *final(self) == (Clicker {
                running: false,
                ..*old(self)
            }),
            !(received matches Some(StatusEvent::ActuationFailed(_))) ==> *final(self) == *old(
                self,
            ),
            r == received,
    {
        match &received {
            Some(StatusEvent::ActuationFailed(_)) => {
                self.running = false;
            }
            _ => {}
        }
        received
    }
}

/// What of an event goes on the status channel wire: failures are
/// reported; successes pass silently.
pub fn error_update(ev: StatusEvent) -> (r: Option<StatusUpdate>)
    ensures
        ev is ClickSucceeded ==> r is None,
        ev matches StatusEvent::ActuationFailed(m) ==> r == Some(StatusUpdate::Error(m)),
{
    match ev {
        StatusEvent::ClickSucceeded => None,
        StatusEvent::ActuationFailed(m) => Some(StatusUpdate::Error(m)),
    }
}

} // verus!
