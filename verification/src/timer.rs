//! The precision click scheduler.
//!
//! A `TimerSession` is the state one background run carries: the config
//! snapshot, the precomputed fixed-rate interval, and the accumulator
//! `next_fire_ns` that names the next fire time on a monotonic
//! nanosecond clock.  The driving loop asks, in order: should it exit
//! (`should_exit`), how long to sleep (`sleep_needed_ns`), what to actuate
//! (`click_plan`), and what one actuation outcome means
//! (`on_click_result`): the event to report, whether the run is over, and
//! the next fire time.
//!
//! `session_events` gives the stream of events a whole run emits as a
//! function of what each loop turn observed; the lemmas below pin down the
//! stop and failure behaviour of that stream.  `PrecisionTimer` models the
//! owner of a run: its running flag and the freshness of its channels.

use vstd::prelude::*;
use crate::config::{ClickButton, ClickType, ClickerConfig, DelayMode};
use crate::constants::{DOUBLE_CLICK_PAUSE_MS, HOLD_PAUSE_MS};

verus! {

#[derive(Debug, Clone, Copy, PartialEq, Eq, Structural)]
pub enum TimerCommand {
    Stop,
}

/// What the run reports through its status channel.
#[derive(Debug, Clone, PartialEq, Eq)]
pub enum StatusUpdate {
    Error(String),
}

/// What one loop turn of a run observably did.
#[derive(Debug, Clone, PartialEq, Eq)]
pub enum StatusEvent {
    ClickSucceeded,
    ActuationFailed(String),
}

/// One step of a click gesture, for the actuation capability to perform.
#[derive(Debug, Clone, Copy, PartialEq, Eq, Structural)]
pub enum ClickAction {
    Press(ClickButton),
    Release(ClickButton),
    Click(ClickButton),
    /// Wait the given number of milliseconds between two steps.
    Pause(u64),
}

/// The steps that actuate one click of the given kind.
pub open spec fn click_plan_spec(t: ClickType, b: ClickButton) -> Seq<ClickAction> {
    match t {
        ClickType::Single => seq![ClickAction::Click(b)],
        ClickType::Double => seq![
            ClickAction::Click(b),
            ClickAction::Pause(DOUBLE_CLICK_PAUSE_MS),
            ClickAction::Click(b),
        ],
        ClickType::Hold => seq![
            ClickAction::Press(b),
            ClickAction::Pause(HOLD_PAUSE_MS),
            ClickAction::Release(b),
        ],
    }
}

/// A single click is one press-and-release; a double click pauses briefly
/// between its two clicks; a held click pauses between press and release.
pub fn click_plan(t: ClickType, b: ClickButton) -> (v: Vec<ClickAction>)
    ensures
        v@ == click_plan_spec(t, b),
{
    let v = match t {
        ClickType::Single => vec![ClickAction::Click(b)],
        ClickType::Double => vec![
            ClickAction::Click(b),
            ClickAction::Pause(DOUBLE_CLICK_PAUSE_MS),
            ClickAction::Click(b),
        ],
        ClickType::Hold => vec![
            ClickAction::Press(b),
            ClickAction::Pause(HOLD_PAUSE_MS),
            ClickAction::Release(b),
        ],
    };
    proof {
        assert(v@ =~= click_plan_spec(t, b));
    }
    v
}

/// Relies on rand::random_range: a draw from a nonempty inclusive range is
/// uniform over the range, so in particular it lies within it.
#[verifier::external_body]
fn draw_delay_ms(min_delay: u64, max_delay: u64) -> (r: u64)
    requires
        min_delay <= max_delay,
    ensures
        min_delay <= r <= max_delay,
{
    rand::random_range(min_delay..=max_delay)
}

/// The fixed inter-click duration a rate implies, in nanoseconds.
pub open spec fn cps_interval_ns_spec(cps_milli: u64) -> int {
    if cps_milli > 0 {
        1_000_000_000_000 as int / cps_milli as int
    } else {
        0
    }
}

/// The state one background run carries between loop turns.
pub struct TimerSession {
    pub config: ClickerConfig,
    /// Precomputed once per run, used in fixed-rate mode.
    pub cps_interval_ns: u64,
    /// When the next click is due, on a monotonic nanosecond clock.
    pub next_fire_ns: u64,
    /// When the run began, on the same clock.
    pub started_ns: Ghost<u64>,
    /// How many clicks have succeeded so far in this run.
    pub fires: Ghost<nat>,
}

impl TimerSession {
    pub open spec fn wf(&self) -> bool {
        &&& self.config.valid_for_run()
        &&& self.cps_interval_ns == cps_interval_ns_spec(self.config.cps_milli)
        &&& self.config.delay_mode is Cps ==> self.next_fire_ns == self.started_ns@ + self.fires@
            * self.cps_interval_ns
        &&& self.config.delay_mode is Jitter ==> self.next_fire_ns >= self.started_ns@
    }

    /// Whether one more schedule step stays on the clock.
    pub open spec fn can_advance(&self) -> bool {
        match self.config.delay_mode {
            DelayMode::Cps => self.next_fire_ns + self.cps_interval_ns <= u64::MAX,
            DelayMode::Jitter => self.next_fire_ns + self.config.max_delay_ms * 1_000_000
                <= u64::MAX,
        }
    }

    /// Opens a run: the first click is due at once.
    pub fn new(config: ClickerConfig, now_ns: u64) -> (s: TimerSession)
        requires
            config.valid_for_run(),
        ensures
            s.wf(),
            s.config == config,
            s.next_fire_ns == now_ns,
            s.started_ns@ == now_ns,
            s.fires@ == 0,
    {
        let cps_interval_ns = if config.cps_milli > 0 {
            1_000_000_000_000u64 / config.cps_milli
        } else {
            0
        };
        TimerSession {
            config,
            cps_interval_ns,
            next_fire_ns: now_ns,
            started_ns: Ghost(now_ns),
            fires: Ghost(0nat),
        }
    }

    /// How long the loop must sleep before the next click is due.
    pub fn sleep_needed_ns(&self, now_ns: u64) -> (r: u64)
        ensures
            r == if now_ns < self.next_fire_ns {
                self.next_fire_ns - now_ns
            } else {
                0int
            },
    {
        if now_ns < self.next_fire_ns {
            self.next_fire_ns - now_ns
        } else {
            0
        }
    }
}

/// Whether a loop turn must exit: a stop command is pending or the shared
/// running flag has been cleared.
pub fn should_exit(stop_command: Option<TimerCommand>, running: bool) -> (r: bool)
    ensures
        r == (stop_command is Some || !running),
{
    match stop_command {
        Some(TimerCommand::Stop) => true,
        None => !running,
    }
}

/// How one schedule step moves a session forward: the fixed-rate schedule
/// accumulates exactly one interval; a jitter schedule accumulates a drawn
/// delay within the configured range.
pub open spec fn advanced(pre: TimerSession, post: TimerSession) -> bool {
    &&& post.config == pre.config
    &&& post.cps_interval_ns == pre.cps_interval_ns
    &&& post.started_ns == pre.started_ns
    &&& post.fires@ == pre.fires@ + 1
    &&& pre.config.delay_mode is Cps ==> post.next_fire_ns == pre.next_fire_ns
        + pre.cps_interval_ns
    &&& pre.config.delay_mode is Jitter ==> pre.next_fire_ns + pre.config.min_delay_ms * 1_000_000
        <= post.next_fire_ns <= pre.next_fire_ns + pre.config.max_delay_ms * 1_000_000
}

impl TimerSession {
    /// Takes the outcome of one actuation and answers with the event to
    /// report and whether the run is over.  A success schedules the next
    /// click; a failure is session-fatal and leaves the schedule untouched.
    pub fn on_click_result(&mut self, outcome: Result<(), String>) -> (r: (
        Option<StatusEvent>,
        bool,
    ))
        requires
            old(self).wf(),
            old(self).can_advance(),
        ensures
            final(self).wf(),
            outcome is Ok ==> {
                &&& r.0 == Some(StatusEvent::ClickSucceeded)
                &&& r.1 == false
                &&& advanced(*old(self), *final(self))
            },
            outcome matches Err(m) ==> {
                &&& r.0 == Some(StatusEvent::ActuationFailed(m))
                &&& r.1 == true
                &&& *final(self) == *old(self)
            },
    {
        match outcome {
            Ok(_) => {
                match self.config.delay_mode {
                    DelayMode::Cps => {
                        self.next_fire_ns = self.next_fire_ns + self.cps_interval_ns;
                    }
                    DelayMode::Jitter => {
                        let d = draw_delay_ms(self.config.min_delay_ms, self.config.max_delay_ms);
                        self.next_fire_ns = self.next_fire_ns + d * 1_000_000;
                    }
                }
                proof {
                    self.fires@ = self.fires@ + 1;
                    if self.config.delay_mode is Cps {
                        assert(self.fires@ * self.cps_interval_ns == (self.fires@ - 1)
                            * self.cps_interval_ns + self.cps_interval_ns) by (nonlinear_arith);
                    }
                }
                (Some(StatusEvent::ClickSucceeded), false)
            }
            Err(m) => (Some(StatusEvent::ActuationFailed(m)), true),
        }
    }
}

/// What one loop turn observes from outside the session: the pending stop
/// command, the shared running flag, and how the actuation went.
pub struct IterationInput {
    pub stop_command: bool,
    pub running: bool,
    pub outcome: Result<(), String>,
}

/// Whether a loop turn observes a stop: a command is pending or the flag
/// has been cleared.
pub open spec fn observed_stop(i: IterationInput) -> bool {
    i.stop_command || !i.running
}

/// The stream of events a whole run emits, as a function of what each loop
/// turn observes.  A turn that observes a stop emits nothing and ends the
/// run; a successful actuation emits `ClickSucceeded` and the run goes on;
/// a failed actuation emits `ActuationFailed` once and ends the run.
pub open spec fn session_events(inputs: Seq<IterationInput>) -> Seq<StatusEvent>
    decreases inputs.len(),
{
    if inputs.len() == 0 {
        Seq::<StatusEvent>::empty()
    } else if observed_stop(inputs[0]) {
        Seq::<StatusEvent>::empty()
    } else {
        match inputs[0].outcome {
            Ok(_) => seq![StatusEvent::ClickSucceeded] + session_events(inputs.drop_first()),
            Err(m) => seq![StatusEvent::ActuationFailed(m)],
        }
    }
}

/// Law: once every loop turn from some point on observes a stop, the run
/// emits nothing beyond what the earlier turns emitted.  Together with
/// `PrecisionTimer::stop`, which clears the flag at once, this bounds the
/// events after a stop to the one turn already in flight.
pub proof fn lemma_stop_silences(inputs: Seq<IterationInput>, k: int)
    requires
        0 <= k <= inputs.len(),
        forall|j: int| k <= j < inputs.len() ==> observed_stop(#[trigger] inputs[j]),
    ensures
        session_events(inputs) == session_events(inputs.take(k)),
    decreases k,
{
    if inputs.len() == 0 {
        assert(inputs.take(k) =~= inputs);
    } else if k == 0 {
        assert(observed_stop(inputs[0]));
        assert(inputs.take(0) =~= Seq::<IterationInput>::empty());
    } else {
        assert(inputs.take(k)[0] == inputs[0]);
        if !observed_stop(inputs[0]) {
            let rest = inputs.drop_first();
            assert forall|j: int| k - 1 <= j < rest.len() implies observed_stop(
                #[trigger] rest[j],
            ) by {
                assert(rest[j] == inputs[j + 1]);
            }
            lemma_stop_silences(rest, k - 1);
            assert(inputs.take(k).drop_first() =~= rest.take(k - 1));
        }
    }
}

/// Law: a failed actuation on a live turn, after any number of successful
/// live turns, makes the run's whole event stream exactly those successes
/// followed by a single `ActuationFailed` with the failure's message — and
/// nothing after it.
pub proof fn lemma_failure_reported_once(inputs: Seq<IterationInput>, k: int)
    requires
        0 <= k < inputs.len(),
        forall|j: int| 0 <= j < k ==> !observed_stop(#[trigger] inputs[j]) && inputs[j].outcome
            is Ok,
        !observed_stop(inputs[k]),
        inputs[k].outcome matches Err(m),
    ensures
        inputs[k].outcome matches Err(m) ==> session_events(inputs) == Seq::new(
            k as nat,
            |i: int| StatusEvent::ClickSucceeded,
        ).push(StatusEvent::ActuationFailed(m)),
    decreases k,
{
    if k == 0 {
        if let Err(m) = inputs[0].outcome {
            assert(session_events(inputs) =~= Seq::new(
                0nat,
                |i: int| StatusEvent::ClickSucceeded,
            ).push(StatusEvent::ActuationFailed(m)));
        }
    } else {
        let rest = inputs.drop_first();
        assert(!observed_stop(inputs[0]) && inputs[0].outcome is Ok);
        assert forall|j: int| 0 <= j < k - 1 implies !observed_stop(#[trigger] rest[j])
            && rest[j].outcome is Ok by {
            assert(rest[j] == inputs[j + 1]);
        }
        assert(rest[k - 1] == inputs[k]);
        lemma_failure_reported_once(rest, k - 1);
        if let Err(m) = inputs[k].outcome {
            assert(seq![StatusEvent::ClickSucceeded] + Seq::new(
                (k - 1) as nat,
                |i: int| StatusEvent::ClickSucceeded,
            ).push(StatusEvent::ActuationFailed(m)) =~= Seq::new(
                k as nat,
                |i: int| StatusEvent::ClickSucceeded,
            ).push(StatusEvent::ActuationFailed(m)));
        }
    }
}

/// Law: the fixed-rate schedule is an accumulator, not "now plus
/// interval": after any number of clicks, the next fire time is exactly
/// the start plus that many intervals, so the time a run of N clicks spans
/// is exactly (N - 1) intervals, with no drift from loop overhead.
pub proof fn lemma_fixed_rate_no_drift(s: TimerSession)
    requires
        s.wf(),
        s.config.delay_mode is Cps,
    ensures
        s.next_fire_ns - s.started_ns@ == s.fires@ * s.cps_interval_ns,
{
}

/// Law: a degenerate jitter range, whose two ends are one value, schedules
/// exactly like a fixed rate whose interval is that value: every schedule
/// step moves both by the same amount.
pub proof fn lemma_degenerate_jitter_matches_fixed(
    j0: TimerSession,
    j1: TimerSession,
    c0: TimerSession,
    c1: TimerSession,
)
    requires
        j0.config.delay_mode is Jitter,
        j0.config.min_delay_ms == j0.config.max_delay_ms,
        c0.config.delay_mode is Cps,
        c0.cps_interval_ns == j0.config.min_delay_ms * 1_000_000,
        j0.next_fire_ns == c0.next_fire_ns,
        advanced(j0, j1),
        advanced(c0, c1),
    ensures
        j1.next_fire_ns == c1.next_fire_ns,
{
}

/// The saturating count of runs a timer has started.
pub open spec fn next_generation(g: u64) -> u64 {
    if g == u64::MAX {
        g
    } else {
        (g + 1) as u64
    }
}

/// The owner of at most one live run: the running flag shared with the
/// background unit, whether the channel handles of the current run are
/// still held, and which run is current.  The threads, channels and clock
/// themselves live with the driving loop; this state decides them.
pub struct PrecisionTimer {
    pub running: bool,
    /// Whether the status and command channels of the current run are held.
    pub channels_open: bool,
    /// How many runs have been started; names the current run, so that a
    /// retired run's channels are never the current ones.
    pub generation: u64,
}

/// What stopping does: the flag is cleared and the channel handles are
/// dropped, at once and unconditionally; the current run keeps its name.
pub open spec fn spec_stop(t: PrecisionTimer) -> PrecisionTimer {
    PrecisionTimer { running: false, channels_open: false, generation: t.generation }
}

/// What starting does: any previous run is stopped first, then a fresh run
/// is named and the flag is raised.
pub open spec fn spec_start(t: PrecisionTimer) -> PrecisionTimer {
    PrecisionTimer { running: true, channels_open: true, generation: next_generation(t.generation) }
}

/// Law: starting while a run is live is the same as stopping and then
/// starting — one run is live afterward either way, under the same fresh
/// name, with the old run's channels retired.
pub proof fn lemma_restart_is_stop_then_start(t: PrecisionTimer)
    ensures
        spec_start(spec_stop(t)) == spec_start(t),
{
}

impl PrecisionTimer {
    pub fn new() -> (t: PrecisionTimer)
        ensures
            !t.running,
            !t.channels_open,
            t.generation == 0,
    {
        PrecisionTimer { running: false, channels_open: false, generation: 0 }
    }

    /// Retires any previous run and opens a new session, due at once.
    pub fn start(&mut self, config: ClickerConfig, now_ns: u64) -> (s: TimerSession)
        requires
            config.valid_for_run(),
        ensures
            *final(self) == spec_start(*old(self)),
            s.wf(),
            s.config == config,
            s.next_fire_ns == now_ns,
            s.started_ns@ == now_ns,
            s.fires@ == 0,
    {
        self.stop();
        self.running = true;
        self.channels_open = true;
        self.generation = if self.generation == u64::MAX {
            self.generation
        } else {
            self.generation + 1
        };
        TimerSession::new(config, now_ns)
    }

    /// Clears the flag and drops the channel handles; never blocks on the
    /// background unit, which observes the flag or the command on its own.
    pub fn stop(&mut self)
        ensures
            *final(self) == spec_stop(*old(self)),
    {
        self.running = false;
        self.channels_open = false;
    }

    pub fn is_running(&self) -> (r: bool)
        ensures
            r == self.running,
    {
        self.running
    }
}

} // verus!
