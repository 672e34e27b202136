use vstd::prelude::*;

use crate::config::{COAST_MAX_S, HEATER_TIMEOUT_S, PREHEAT_MAX_S};
use crate::heater::{determine_heater_state, spec_heater_state, HeaterState, TempBand};

verus! {

/// The phase of the heater control: open-loop warm-up (preheat, then
/// coast) or closed-loop regulation.
#[derive(Clone, Copy, Debug, PartialEq, Eq, Structural)]
pub enum ControlPhase {
    /// Fixed open-loop power, until the measured temperature comes within the
    /// preheat lead of the setpoint (or the preheat safety cap expires).
    Preheat,
    /// Power off (plus pump feedforward), waiting for the thermal lag to
    /// carry temp near setpoint before closed-loop trim engages.
    Coast,
    /// Normal Smith predictor + PID closed-loop control.
    Closed,
}

/// Which identified plant model the Smith predictor should run with.
#[derive(Clone, Copy, Debug, PartialEq, Eq, Structural)]
pub enum PlantModel {
    /// The heat-up model, used open-loop in preheat and coast.
    Transient,
    /// The near-setpoint model, used in closed-loop regulation.
    Setpoint,
}

/// What one control tick does with the heater power.
#[derive(Clone, Copy, Debug, PartialEq, Eq, Structural)]
pub enum PhaseAction {
    /// Apply the fixed preheat power and advance the model open-loop.
    /// `safety_cap` is set when the preheat time cap (not the measured
    /// lead) ended the preheat on this tick.
    Preheat { safety_cap: bool },
    /// Apply only the pump feedforward and advance the model open-loop.
    /// `handoff` is set when the coast ends on this tick: after advancing,
    /// load the setpoint model and continue closed-loop from the next tick.
    /// `safety_cap` is set when the coast time cap forced that handoff while
    /// the temperature was still outside the exit margin.
    Coast { handoff: bool, safety_cap: bool },
    /// Run the Smith predictor + PID step with the pump feedforward.
    Closed,
}

/// The preheat/coast phase state of the heater control.
#[derive(Clone, Copy, Debug, PartialEq, Eq, Structural)]
pub struct PreheatController {
    pub phase: ControlPhase,
    /// When the current phase began, in milliseconds of the monotonic clock.
    pub phase_start_ms: u64,
}

pub open spec fn preheat_max_ms() -> int {
    PREHEAT_MAX_S as int * 1000
}

pub open spec fn coast_max_ms() -> int {
    COAST_MAX_S as int * 1000
}

pub open spec fn heater_timeout_ms() -> int {
    HEATER_TIMEOUT_S as int * 1000
}

pub open spec fn is_preheating_phase(phase: ControlPhase) -> bool {
    phase == ControlPhase::Preheat || phase == ControlPhase::Coast
}

/// The controller after an enable toggle, and the model to load before
/// reseeding: a large setpoint error starts a preheat, a small one goes
/// straight to closed-loop regulation.
pub open spec fn spec_start_preheat(c: PreheatController, now_ms: u64, large_error: bool) -> (
    PreheatController,
    PlantModel,
) {
    if large_error {
        (PreheatController { phase: ControlPhase::Preheat, phase_start_ms: now_ms }, PlantModel::Transient)
    } else {
        (PreheatController { phase: ControlPhase::Closed, ..c }, PlantModel::Setpoint)
    }
}

/// The controller after a disable toggle or a fault trip: back to closed
/// loop, so an interrupted warm-up never resumes by itself.
pub open spec fn spec_stop(c: PreheatController) -> PreheatController {
    PreheatController { phase: ControlPhase::Closed, ..c }
}

/// The clock reading `now_ms` is no earlier than the phase start where the
/// tick measures the phase's elapsed time.
pub open spec fn phase_tick_defined(c: PreheatController, now_ms: u64) -> bool {
    is_preheating_phase(c.phase) ==> c.phase_start_ms <= now_ms
}

/// One control tick of the phase logic. `reached_lead` tells whether the
/// measured temperature is within the preheat lead of the setpoint,
/// `within_margin` whether it is within the coast exit margin.
pub open spec fn spec_phase_tick(
    c: PreheatController,
    now_ms: u64,
    reached_lead: bool,
    within_margin: bool,
) -> (PreheatController, PhaseAction) {
    let elapsed = now_ms - c.phase_start_ms;
    match c.phase {
        ControlPhase::Preheat => {
            if reached_lead {
                (
                    PreheatController { phase: ControlPhase::Coast, phase_start_ms: now_ms },
                    PhaseAction::Preheat { safety_cap: false },
                )
            } else if elapsed >= preheat_max_ms() {
                (
                    PreheatController { phase: ControlPhase::Coast, phase_start_ms: now_ms },
                    PhaseAction::Preheat { safety_cap: true },
                )
            } else {
                (c, PhaseAction::Preheat { safety_cap: false })
            }
        },
        ControlPhase::Coast => {
            let timed_out = elapsed >= coast_max_ms();
            if within_margin || timed_out {
                (
                    PreheatController { phase: ControlPhase::Closed, ..c },
                    PhaseAction::Coast { handoff: true, safety_cap: timed_out && !within_margin },
                )
            } else {
                (c, PhaseAction::Coast { handoff: false, safety_cap: false })
            }
        },
        ControlPhase::Closed => (c, PhaseAction::Closed),
    }
}

impl PreheatController {
    /// A controller in closed-loop regulation since `now_ms`.
    pub fn new(now_ms: u64) -> (c: Self)
        ensures
            c == (PreheatController { phase: ControlPhase::Closed, phase_start_ms: now_ms }),
    {
        PreheatController { phase: ControlPhase::Closed, phase_start_ms: now_ms }
    }

    /// Called on enable-toggle. Starts an open-loop preheat if the error is
    /// large enough to be worth it; otherwise goes straight to closed-loop
    /// control. Returns the plant model to load; the caller then reseeds the
    /// model state from the measured temperature in either case.
    pub fn start_preheat(&mut self, now_ms: u64, large_error: bool) -> (model: PlantModel)
        ensures
            (*final(self), model) == spec_start_preheat(*old(self), now_ms, large_error),
    {
        if large_error {
            self.phase = ControlPhase::Preheat;
            self.phase_start_ms = now_ms;
            PlantModel::Transient
        } else {
            self.phase = ControlPhase::Closed;
            PlantModel::Setpoint
        }
    }

    /// Called on disable-toggle. A disable mid-preheat/coast must not
    /// silently resume afterward -- require a fresh enable-toggle.
    pub fn on_disable(&mut self)
        ensures
            *final(self) == spec_stop(*old(self)),
    {
        self.phase = ControlPhase::Closed;
    }

    /// Called on fault-trip. Same reasoning as on_disable.
    pub fn on_fault(&mut self)
        ensures
            *final(self) == spec_stop(*old(self)),
    {
        self.phase = ControlPhase::Closed;
    }

    pub fn is_preheating(&self) -> (b: bool)
        ensures
            b == is_preheating_phase(self.phase),
    {
        match self.phase {
            ControlPhase::Preheat | ControlPhase::Coast => true,
            ControlPhase::Closed => false,
        }
    }

    /// Primary per-tick step of the phase logic; the returned action says
    /// what the caller does with the heater power on this tick.
    pub fn tick(&mut self, now_ms: u64, reached_lead: bool, within_margin: bool) -> (action:
        PhaseAction)
        requires
            phase_tick_defined(*old(self), now_ms),
        ensures
            (*final(self), action) == spec_phase_tick(*old(self), now_ms, reached_lead, within_margin),
    {
        match self.phase {
            ControlPhase::Preheat => {
                let elapsed_ms = now_ms - self.phase_start_ms;
                if reached_lead {
                    self.phase = ControlPhase::Coast;
                    self.phase_start_ms = now_ms;
                    PhaseAction::Preheat { safety_cap: false }
                } else if elapsed_ms >= (PREHEAT_MAX_S as u64) * 1000 {
                    self.phase = ControlPhase::Coast;
                    self.phase_start_ms = now_ms;
                    PhaseAction::Preheat { safety_cap: true }
                } else {
                    PhaseAction::Preheat { safety_cap: false }
                }
            },
            ControlPhase::Coast => {
                let elapsed_ms = now_ms - self.phase_start_ms;
                let timed_out = elapsed_ms >= (COAST_MAX_S as u64) * 1000;
                if within_margin || timed_out {
                    self.phase = ControlPhase::Closed;
                    PhaseAction::Coast { handoff: true, safety_cap: timed_out && !within_margin }
                } else {
                    PhaseAction::Coast { handoff: false, safety_cap: false }
                }
            },
            ControlPhase::Closed => PhaseAction::Closed,
        }
    }
}

/// The state the control loop keeps between events: whether the heater is
/// enabled, when the machine was last used, whether the pump ran on the
/// last closed-loop tick, and the preheat/coast phase.
#[derive(Clone, Copy, Debug, PartialEq, Eq, Structural)]
pub struct ControlState {
    pub enabled: bool,
    /// Last heater enable or pump use, in milliseconds of the monotonic clock.
    pub last_activity_ms: u64,
    /// Pump state seen on the last tick that drove the heater; a rising edge
    /// marks the start of a brew.
    pub prev_pump: bool,
    pub controller: PreheatController,
}

/// What the control loop learns on one tick of its fixed-period ticker.
#[derive(Clone, Copy, Debug, PartialEq, Eq, Structural)]
pub struct TickInput {
    /// The tick's time, in milliseconds of the monotonic clock.
    pub now_ms: u64,
    /// Whether the pump is running.
    pub pump_on: bool,
    /// Where the latest temperature reading stands.
    pub band: TempBand,
    /// Whether the heater power last applied is below 5%.
    pub heater_idle: bool,
    /// Whether the latest temperature is within the preheat lead of the
    /// setpoint (`measured >= setpoint - PREHEAT_LEAD_C`).
    pub reached_preheat_lead: bool,
    /// Whether the latest temperature is within the coast exit margin of the
    /// setpoint (`measured >= setpoint - COAST_EXIT_MARGIN_C`).
    pub within_coast_margin: bool,
}

/// How the heater is driven on a tick where it stays enabled.
#[derive(Clone, Copy, Debug, PartialEq, Eq, Structural)]
pub struct Drive {
    /// The pump just started: kick the brew feedforward to its maximum.
    pub brew_started: bool,
    /// The pump runs: apply the brew feedforward and the water disturbance.
    pub pump_on: bool,
    /// What the phase logic does with the power.
    pub action: PhaseAction,
}

/// The decisions of one tick.
#[derive(Clone, Copy, Debug, PartialEq, Eq, Structural)]
pub struct TickOutput {
    /// The idle timer expired: the heater was disabled like a switch-off
    /// (send `SetEnabled(false)`).
    pub idle_timeout: bool,
    /// The temperature is out of the safe range: the heater was disabled
    /// (send `SetEnabled(false)` and `Power(0)`).
    pub fault_trip: bool,
    /// Present when the heater stays enabled and is driven on this tick.
    pub drive: Option<Drive>,
    /// The state shown on the LEDs.
    pub led_state: HeaterState,
}

/// The decisions of a heater-switch toggle.
#[derive(Clone, Copy, Debug, PartialEq, Eq, Structural)]
pub struct ToggleOutput {
    /// On enable: the plant model to load before reseeding the predictor
    /// from the measured temperature. `None` on disable.
    pub reseed_with: Option<PlantModel>,
    /// The state shown on the LEDs.
    pub led_state: HeaterState,
}

/// The idle time is measured only when the heater is enabled, and the phase
/// time only when the heater is still driven; there the clock must not run
/// backwards.
pub open spec fn tick_defined(s: ControlState, inp: TickInput) -> bool {
    let last = if inp.pump_on { inp.now_ms } else { s.last_activity_ms };
    &&& s.enabled ==> last <= inp.now_ms
    &&& (s.enabled && inp.now_ms - last < heater_timeout_ms() && inp.band != TempBand::OutOfRange)
        ==> phase_tick_defined(s.controller, inp.now_ms)
}

/// One tick of the control loop: pump use counts as activity; an enabled
/// heater idle for `HEATER_TIMEOUT_S` is switched off; an out-of-range
/// temperature trips a fault; otherwise an enabled heater is driven by the
/// phase logic.
pub open spec fn spec_on_tick(s: ControlState, inp: TickInput) -> (ControlState, TickOutput) {
    let now = inp.now_ms;
    let last = if inp.pump_on { now } else { s.last_activity_ms };
    let idle_timeout = s.enabled && now - last >= heater_timeout_ms();
    let enabled = s.enabled && !idle_timeout;
    let c1 = if idle_timeout { spec_stop(s.controller) } else { s.controller };
    let state = spec_heater_state(enabled, inp.band, inp.heater_idle);
    if state == HeaterState::Fault && enabled {
        (
            ControlState { enabled: false, last_activity_ms: last, prev_pump: s.prev_pump, controller: spec_stop(c1) },
            TickOutput { idle_timeout, fault_trip: true, drive: None, led_state: state },
        )
    } else if enabled {
        let (c2, action) = spec_phase_tick(c1, now, inp.reached_preheat_lead, inp.within_coast_margin);
        let led_state = if is_preheating_phase(c2.phase) { HeaterState::Preheating } else { state };
        (
            ControlState { enabled: true, last_activity_ms: last, prev_pump: inp.pump_on, controller: c2 },
            TickOutput {
                idle_timeout,
                fault_trip: false,
                drive: Some(Drive { brew_started: inp.pump_on && !s.prev_pump, pump_on: inp.pump_on, action }),
                led_state,
            },
        )
    } else {
        (
            ControlState { enabled: false, last_activity_ms: last, prev_pump: s.prev_pump, controller: c1 },
            TickOutput { idle_timeout, fault_trip: false, drive: None, led_state: state },
        )
    }
}

/// A heater-switch toggle: enabling restarts the idle window and starts a
/// preheat or closed-loop regulation; disabling stops any warm-up.
pub open spec fn spec_on_toggle(
    s: ControlState,
    now_ms: u64,
    enable: bool,
    large_error: bool,
    band: TempBand,
    heater_idle: bool,
) -> (ControlState, ToggleOutput) {
    if enable {
        let (c, model) = spec_start_preheat(s.controller, now_ms, large_error);
        (
            ControlState { enabled: true, last_activity_ms: now_ms, controller: c, ..s },
            ToggleOutput { reseed_with: Some(model), led_state: spec_heater_state(true, band, heater_idle) },
        )
    } else {
        (
            ControlState { enabled: false, controller: spec_stop(s.controller), ..s },
            ToggleOutput { reseed_with: None, led_state: HeaterState::Disabled },
        )
    }
}

/// An event the control loop reacts to: a tick of its fixed-period ticker,
/// or a heater-switch toggle.
#[derive(Clone, Copy, Debug, PartialEq, Eq, Structural)]
pub enum LoopEvent {
    Tick(TickInput),
    Toggle { now_ms: u64, enable: bool, large_error: bool, band: TempBand, heater_idle: bool },
}

/// When the event happens, in milliseconds of the monotonic clock.
pub open spec fn event_time(e: LoopEvent) -> u64 {
    match e {
        LoopEvent::Tick(inp) => inp.now_ms,
        LoopEvent::Toggle { now_ms, .. } => now_ms,
    }
}

/// The state after the control loop reacts to `e`.
pub open spec fn spec_step(s: ControlState, e: LoopEvent) -> ControlState {
    match e {
        LoopEvent::Tick(inp) => spec_on_tick(s, inp).0,
        LoopEvent::Toggle { now_ms, enable, large_error, band, heater_idle } => spec_on_toggle(
            s,
            now_ms,
            enable,
            large_error,
            band,
            heater_idle,
        ).0,
    }
}

/// The precondition of the reaction to `e` holds in state `s`.
pub open spec fn step_defined(s: ControlState, e: LoopEvent) -> bool {
    match e {
        LoopEvent::Tick(inp) => tick_defined(s, inp),
        LoopEvent::Toggle { .. } => true,
    }
}

/// The state after the control loop reacts to every event of `events`,
/// first to last.
pub open spec fn spec_run(s: ControlState, events: Seq<LoopEvent>) -> ControlState
    decreases events.len(),
{
    if events.len() == 0 {
        s
    } else {
        spec_step(spec_run(s, events.drop_last()), events.last())
    }
}

/// The state after each tick of `inputs`, first to last.
pub open spec fn spec_run_ticks(s: ControlState, inputs: Seq<TickInput>) -> ControlState
    decreases inputs.len(),
{
    if inputs.len() == 0 {
        s
    } else {
        spec_on_tick(spec_run_ticks(s, inputs.drop_last()), inputs.last()).0
    }
}

/// The heater is switched on: the last toggle of `events` switched it on
/// (or, with no toggle, it was on in `s`) and no tick since then timed it
/// out or tripped a fault.
pub open spec fn switched_on(s: ControlState, events: Seq<LoopEvent>) -> bool
    decreases events.len(),
{
    if events.len() == 0 {
        s.enabled
    } else {
        let prev = events.drop_last();
        match events.last() {
            LoopEvent::Toggle { enable, .. } => enable,
            LoopEvent::Tick(inp) => {
                let out = spec_on_tick(spec_run(s, prev), inp).1;
                switched_on(s, prev) && !out.idle_timeout && !out.fault_trip
            },
        }
    }
}

/// No recorded time lies after `now_ms`.
pub open spec fn clock_consistent(s: ControlState, now_ms: u64) -> bool {
    s.last_activity_ms <= now_ms && s.controller.phase_start_ms <= now_ms
}

/// The events come at times no earlier than `t0`, in clock order.
pub open spec fn monotone_from(t0: u64, events: Seq<LoopEvent>) -> bool {
    &&& forall|i: int| 0 <= i < events.len() ==> t0 <= #[trigger] event_time(events[i])
    &&& forall|i: int, j: int|
        0 <= i <= j < events.len() ==> event_time(events[i]) <= event_time(events[j])
}

/// The time of the last event, or `t0` when there is none.
pub open spec fn last_time(t0: u64, events: Seq<LoopEvent>) -> u64 {
    if events.len() == 0 {
        t0
    } else {
        event_time(events.last())
    }
}

/// With a monotonic clock every tick is defined: a state whose recorded
/// times are no later than the tick's time meets the tick's precondition,
/// and after the tick (or a toggle at that time) the recorded times are
/// still no later than any later reading of the clock.
pub proof fn lemma_monotone_clock(s: ControlState, inp: TickInput, later_ms: u64)
    requires
        clock_consistent(s, inp.now_ms),
        inp.now_ms <= later_ms,
    ensures
        tick_defined(s, inp),
        clock_consistent(spec_on_tick(s, inp).0, later_ms),
        forall|enable: bool, large_error: bool, band: TempBand, heater_idle: bool|
            clock_consistent(
                #[trigger] spec_on_toggle(s, inp.now_ms, enable, large_error, band, heater_idle).0,
                later_ms,
            ),
{
}

/// Under a clock that does not run backwards, the control loop can react to
/// every event of a run: each reaction's precondition holds in the state the
/// earlier events left, from any start state whose recorded times are no
/// later than the first event.
pub proof fn lemma_monotone_run(s: ControlState, t0: u64, events: Seq<LoopEvent>)
    requires
        clock_consistent(s, t0),
        monotone_from(t0, events),
    ensures
        forall|k: int|
            0 <= k < events.len() ==> step_defined(
                spec_run(s, #[trigger] events.take(k)),
                events[k],
            ),
        clock_consistent(spec_run(s, events), last_time(t0, events)),
    decreases events.len(),
{
    if events.len() > 0 {
        let prev = events.drop_last();
        let e = events.last();
        assert(monotone_from(t0, prev)) by {
            assert forall|i: int| 0 <= i < prev.len() implies t0 <= #[trigger] event_time(prev[i]) by {
                assert(prev[i] == events[i]);
            }
            assert forall|i: int, j: int| 0 <= i <= j < prev.len() implies event_time(prev[i])
                <= event_time(prev[j]) by {
                assert(prev[i] == events[i] && prev[j] == events[j]);
            }
        }
        lemma_monotone_run(s, t0, prev);
        let r = spec_run(s, prev);
        let te = event_time(e);
        assert(last_time(t0, prev) <= te) by {
            if prev.len() > 0 {
                assert(prev.last() == events[prev.len() - 1]);
            }
        }
        assert(clock_consistent(r, te));
        match e {
            LoopEvent::Tick(inp) => {
                lemma_monotone_clock(r, inp, te);
            },
            LoopEvent::Toggle { now_ms, enable, large_error, band, heater_idle } => {},
        }
        assert(step_defined(r, e));
        assert forall|k: int| 0 <= k < events.len() implies step_defined(
            spec_run(s, #[trigger] events.take(k)),
            events[k],
        ) by {
            if k < prev.len() {
                assert(events.take(k) =~= prev.take(k));
                assert(events[k] == prev[k]);
            } else {
                assert(events.take(k) =~= prev);
            }
        }
    }
}

/// The heater is enabled after a run of events exactly when it is switched
/// on: the last toggle switched it on (or it was on to begin with) and no
/// tick since then timed it out or tripped a fault. Each toggle `Toggle(e)`
/// leaves it enabled exactly when `e`.
pub proof fn lemma_run_tracks_switch(s: ControlState, events: Seq<LoopEvent>)
    ensures
        spec_run(s, events).enabled == switched_on(s, events),
    decreases events.len(),
{
    if events.len() > 0 {
        lemma_run_tracks_switch(s, events.drop_last());
    }
}

/// Power is applied only while the heater is switched on: a tick that
/// drives the heater comes after a toggle that switched it on, with no
/// disabling toggle, fault trip or idle timeout in between, and leaves it
/// switched on.
pub proof fn lemma_power_only_while_switched_on(
    s: ControlState,
    events: Seq<LoopEvent>,
    inp: TickInput,
)
    ensures
        spec_on_tick(spec_run(s, events), inp).1.drive is Some ==> {
            &&& switched_on(s, events)
            &&& switched_on(s, events.push(LoopEvent::Tick(inp)))
        },
{
    lemma_run_tracks_switch(s, events);
    let after = events.push(LoopEvent::Tick(inp));
    assert(after.drop_last() =~= events);
    lemma_run_tracks_switch(s, after);
}

/// A disabled heater stays disabled through any ticks: none drives it,
/// none reports a timeout or fault, the LEDs show it disabled, and its
/// phase stays what it was. Only a toggle enables it again.
pub proof fn lemma_off_until_toggle(s: ControlState, inputs: Seq<TickInput>)
    requires
        !s.enabled,
    ensures
        !spec_run_ticks(s, inputs).enabled,
        spec_run_ticks(s, inputs).controller == s.controller,
        forall|k: int|
            0 <= k < inputs.len() ==> {
                let out = spec_on_tick(spec_run_ticks(s, #[trigger] inputs.take(k)), inputs[k]).1;
                &&& out.drive is None
                &&& out.led_state == HeaterState::Disabled
                &&& !out.idle_timeout
                &&& !out.fault_trip
            },
    decreases inputs.len(),
{
    if inputs.len() > 0 {
        let prev = inputs.drop_last();
        lemma_off_until_toggle(s, prev);
        assert forall|k: int| 0 <= k < inputs.len() implies {
            let out = spec_on_tick(spec_run_ticks(s, #[trigger] inputs.take(k)), inputs[k]).1;
            &&& out.drive is None
            &&& out.led_state == HeaterState::Disabled
            &&& !out.idle_timeout
            &&& !out.fault_trip
        } by {
            if k < prev.len() {
                assert(inputs.take(k) =~= prev.take(k));
                assert(inputs[k] == prev[k]);
            } else {
                assert(inputs.take(k) =~= prev);
            }
        }
    }
}

/// Idle auto-off: an enabled heater whose last activity lies
/// `HEATER_TIMEOUT_S` or more back, on a tick without pump use, is switched
/// off exactly like a manual switch-off: the tick reports the timeout, does
/// not drive it, shows it disabled and ends any warm-up. Whatever ticks
/// follow, pump use included, it stays off until the next toggle.
pub proof fn lemma_idle_auto_off(s: ControlState, inp: TickInput, later: Seq<TickInput>)
    requires
        s.enabled,
        !inp.pump_on,
        inp.now_ms - s.last_activity_ms >= heater_timeout_ms(),
    ensures
        !spec_on_tick(s, inp).0.enabled,
        spec_on_tick(s, inp).0.controller.phase == ControlPhase::Closed,
        spec_on_tick(s, inp).1.idle_timeout,
        !spec_on_tick(s, inp).1.fault_trip,
        spec_on_tick(s, inp).1.drive is None,
        spec_on_tick(s, inp).1.led_state == HeaterState::Disabled,
        !spec_run_ticks(spec_on_tick(s, inp).0, later).enabled,
        forall|k: int|
            0 <= k < later.len() ==> spec_on_tick(
                spec_run_ticks(spec_on_tick(s, inp).0, #[trigger] later.take(k)),
                later[k],
            ).1.drive is None,
{
    lemma_off_until_toggle(spec_on_tick(s, inp).0, later);
}

/// Pump use resets the idle timer, so a tick with the pump running never
/// times the heater out.
pub proof fn lemma_pump_use_keeps_heater_on(s: ControlState, inp: TickInput)
    requires
        inp.pump_on,
    ensures
        spec_on_tick(s, inp).0.last_activity_ms == inp.now_ms,
        !spec_on_tick(s, inp).1.idle_timeout,
{
}

/// Re-enabling is heater-switch only: a tick never enables a disabled
/// heater, never drives it, and shows it as disabled.
pub proof fn lemma_tick_never_enables(s: ControlState, inp: TickInput)
    requires
        !s.enabled,
    ensures
        !spec_on_tick(s, inp).0.enabled,
        spec_on_tick(s, inp).1.drive is None,
        spec_on_tick(s, inp).1.led_state == HeaterState::Disabled,
        !spec_on_tick(s, inp).1.idle_timeout,
        !spec_on_tick(s, inp).1.fault_trip,
{
}

/// An out-of-range temperature trips a fault on an enabled heater that has
/// not just timed out: the heater is disabled (and the power cut), it is not
/// driven, any warm-up is abandoned and the LEDs show the fault. Whatever
/// ticks follow, it stays off until the next toggle.
pub proof fn lemma_fault_trips(s: ControlState, inp: TickInput, later: Seq<TickInput>)
    requires
        s.enabled,
        inp.band == TempBand::OutOfRange,
        inp.pump_on || inp.now_ms - s.last_activity_ms < heater_timeout_ms(),
    ensures
        !spec_on_tick(s, inp).0.enabled,
        spec_on_tick(s, inp).0.controller.phase == ControlPhase::Closed,
        spec_on_tick(s, inp).1.fault_trip,
        !spec_on_tick(s, inp).1.idle_timeout,
        spec_on_tick(s, inp).1.drive is None,
        spec_on_tick(s, inp).1.led_state == HeaterState::Fault,
        !spec_run_ticks(spec_on_tick(s, inp).0, later).enabled,
        forall|k: int|
            0 <= k < later.len() ==> spec_on_tick(
                spec_run_ticks(spec_on_tick(s, inp).0, #[trigger] later.take(k)),
                later[k],
            ).1.drive is None,
{
    lemma_off_until_toggle(spec_on_tick(s, inp).0, later);
}

/// The heater is driven on a tick exactly when it is enabled both before
/// and after it, and the LEDs show `Preheating` exactly when it is enabled
/// and warming up open-loop.
pub proof fn lemma_drive_and_leds_follow_state(s: ControlState, inp: TickInput)
    ensures
        spec_on_tick(s, inp).1.drive is Some <==> (s.enabled && spec_on_tick(s, inp).0.enabled),
        (spec_on_tick(s, inp).1.led_state == HeaterState::Preheating) <==> (spec_on_tick(
            s,
            inp,
        ).0.enabled && is_preheating_phase(spec_on_tick(s, inp).0.controller.phase)),
{
}

/// A disable mid-preheat/coast does not silently resume: after a disable
/// toggle, whatever ticks follow, the heater stays disabled in closed-loop
/// phase until the next enable toggle.
pub proof fn lemma_no_resume_after_disable(
    s: ControlState,
    now_ms: u64,
    large_error: bool,
    band: TempBand,
    heater_idle: bool,
    inputs: Seq<TickInput>,
)
    ensures
        !spec_run_ticks(
            spec_on_toggle(s, now_ms, false, large_error, band, heater_idle).0,
            inputs,
        ).enabled,
        spec_run_ticks(
            spec_on_toggle(s, now_ms, false, large_error, band, heater_idle).0,
            inputs,
        ).controller.phase == ControlPhase::Closed,
{
    lemma_off_until_toggle(spec_on_toggle(s, now_ms, false, large_error, band, heater_idle).0, inputs);
}

/// The preheat is capped in time: an enabled heater that has been preheating
/// for `PREHEAT_MAX_S` or more moves on to coasting, whatever the
/// temperature, unless the tick disables it.
pub proof fn lemma_preheat_capped(s: ControlState, inp: TickInput)
    requires
        s.enabled,
        s.controller.phase == ControlPhase::Preheat,
        inp.now_ms - s.controller.phase_start_ms >= preheat_max_ms(),
    ensures
        spec_on_tick(s, inp).0.enabled ==> spec_on_tick(s, inp).0.controller.phase
            == ControlPhase::Coast,
        spec_on_tick(s, inp).0.enabled ==> spec_on_tick(s, inp).1.drive == Some(
            Drive {
                brew_started: inp.pump_on && !s.prev_pump,
                pump_on: inp.pump_on,
                action: PhaseAction::Preheat { safety_cap: !inp.reached_preheat_lead },
            },
        ),
{
}

/// The coast is capped in time: an enabled heater that has been coasting
/// for `COAST_MAX_S` or more hands off to closed-loop regulation on the next
/// tick that drives it.
pub proof fn lemma_coast_capped(s: ControlState, inp: TickInput)
    requires
        s.enabled,
        s.controller.phase == ControlPhase::Coast,
        inp.now_ms - s.controller.phase_start_ms >= coast_max_ms(),
    ensures
        spec_on_tick(s, inp).0.controller.phase == ControlPhase::Closed,
{
}

/// The heater shows `AtSetpoint` only while it idles: near the setpoint
/// under power it shows `Heating`.
pub proof fn lemma_at_setpoint_only_when_idle(s: ControlState, inp: TickInput)
    ensures
        spec_on_tick(s, inp).1.led_state == HeaterState::AtSetpoint ==> inp.heater_idle
            && inp.band == TempBand::NearSetpoint,
        (s.enabled && spec_on_tick(s, inp).0.enabled && !is_preheating_phase(
            spec_on_tick(s, inp).0.controller.phase,
        ) && inp.band == TempBand::NearSetpoint && !inp.heater_idle) ==> spec_on_tick(
            s,
            inp,
        ).1.led_state == HeaterState::Heating,
{
}

/// A fault is exactly an out-of-range temperature: an enabled heater that
/// has not idled out trips on a tick exactly when the reading is out of
/// range; with any other reading (an overshoot above the setpoint included)
/// it stays enabled and is driven.
pub proof fn lemma_fault_only_out_of_range(s: ControlState, inp: TickInput)
    requires
        s.enabled,
        inp.pump_on || inp.now_ms - s.last_activity_ms < HEATER_TIMEOUT_S as int * 1000,
    ensures
        spec_on_tick(s, inp).1.fault_trip <==> inp.band == TempBand::OutOfRange,
        !spec_on_tick(s, inp).1.idle_timeout,
        inp.band != TempBand::OutOfRange ==> spec_on_tick(s, inp).0.enabled,
        inp.band != TempBand::OutOfRange ==> spec_on_tick(s, inp).1.drive is Some,
{
}

/// Every brew is detected: a tick that drives the heater reports a brew
/// start exactly on a rising edge of the pump since the last driven tick,
/// and remembers this tick's pump state for the next one.
pub proof fn lemma_brew_start_is_pump_rising_edge(s: ControlState, inp: TickInput)
    ensures
        spec_on_tick(s, inp).1.drive is Some ==> {
            &&& spec_on_tick(s, inp).1.drive->0.brew_started == (inp.pump_on && !s.prev_pump)
            &&& spec_on_tick(s, inp).1.drive->0.pump_on == inp.pump_on
            &&& spec_on_tick(s, inp).0.prev_pump == inp.pump_on
        },
        spec_on_tick(s, inp).1.drive is None ==> spec_on_tick(s, inp).0.prev_pump == s.prev_pump,
{
}

/// Switching the heater on starts the idle window over, whatever the
/// temperature: the last activity is the toggle's time, so no tick earlier
/// than `HEATER_TIMEOUT_S` after the toggle times the heater out.
pub proof fn lemma_enable_restarts_idle_window(
    s: ControlState,
    now_ms: u64,
    large_error: bool,
    band: TempBand,
    heater_idle: bool,
    inp: TickInput,
)
    requires
        now_ms <= inp.now_ms < now_ms + HEATER_TIMEOUT_S as int * 1000,
    ensures
        spec_on_toggle(s, now_ms, true, large_error, band, heater_idle).0.enabled,
        spec_on_toggle(s, now_ms, true, large_error, band, heater_idle).0.last_activity_ms
            == now_ms,
        !spec_on_tick(spec_on_toggle(s, now_ms, true, large_error, band, heater_idle).0, inp).1.idle_timeout,
{
}

/// On a tick that drives the heater in closed-loop regulation, the LEDs
/// show where the temperature stands: above the setpoint as
/// `AboveSetpoint`, near it as `AtSetpoint` when the heater idles and
/// `Heating` under power, below it as `Heating`.
pub proof fn lemma_closed_loop_led_shows_temperature(s: ControlState, inp: TickInput)
    requires
        spec_on_tick(s, inp).1.drive is Some,
        spec_on_tick(s, inp).0.controller.phase == ControlPhase::Closed,
    ensures
        inp.band == TempBand::AboveSetpoint ==> spec_on_tick(s, inp).1.led_state
            == HeaterState::AboveSetpoint,
        inp.band == TempBand::BelowSetpoint ==> spec_on_tick(s, inp).1.led_state
            == HeaterState::Heating,
        (inp.band == TempBand::NearSetpoint && inp.heater_idle) ==> spec_on_tick(s, inp).1.led_state
            == HeaterState::AtSetpoint,
        (inp.band == TempBand::NearSetpoint && !inp.heater_idle) ==> spec_on_tick(
            s,
            inp,
        ).1.led_state == HeaterState::Heating,
        inp.band != TempBand::OutOfRange,
        (spec_on_tick(s, inp).1.led_state == HeaterState::AboveSetpoint) <==> (inp.band
            == TempBand::AboveSetpoint),
{
}

/// A preheat ends exactly when the temperature reaches the lead or the
/// preheat has lasted `PREHEAT_MAX_S`; the coast then starts at the tick's
/// time, so it may last its own `COAST_MAX_S`. A coast ends exactly when the
/// temperature is within the exit margin or the coast has lasted
/// `COAST_MAX_S`. Closed-loop regulation never changes by itself.
pub proof fn lemma_phase_transitions(
    c: PreheatController,
    now_ms: u64,
    reached_lead: bool,
    within_margin: bool,
)
    ensures
        c.phase == ControlPhase::Preheat ==> {
            let (c2, a) = spec_phase_tick(c, now_ms, reached_lead, within_margin);
            &&& (c2.phase == ControlPhase::Coast) <==> (reached_lead || now_ms - c.phase_start_ms
                >= PREHEAT_MAX_S as int * 1000)
            &&& c2.phase != ControlPhase::Closed
            &&& c2.phase == ControlPhase::Coast ==> c2.phase_start_ms == now_ms
            &&& c2.phase == ControlPhase::Preheat ==> c2.phase_start_ms == c.phase_start_ms
            &&& a is Preheat
        },
        c.phase == ControlPhase::Coast ==> {
            let (c2, a) = spec_phase_tick(c, now_ms, reached_lead, within_margin);
            &&& (c2.phase == ControlPhase::Closed) <==> (within_margin || now_ms - c.phase_start_ms
                >= COAST_MAX_S as int * 1000)
            &&& c2.phase != ControlPhase::Preheat
            &&& c2.phase == ControlPhase::Coast ==> c2.phase_start_ms == c.phase_start_ms
            &&& a == (PhaseAction::Coast {
                handoff: c2.phase == ControlPhase::Closed,
                safety_cap: !within_margin && now_ms - c.phase_start_ms >= COAST_MAX_S as int
                    * 1000,
            })
        },
        c.phase == ControlPhase::Closed ==> spec_phase_tick(c, now_ms, reached_lead, within_margin)
            == (c, PhaseAction::Closed),
{
}

/// A capped preheat is followed by a full coast: after the preheat time cap
/// moves the heater to coasting at `t`, a tick at any time before
/// `t + COAST_MAX_S` with the temperature still outside the exit margin keeps
/// coasting.
pub proof fn lemma_coast_after_capped_preheat(
    c: PreheatController,
    t: u64,
    later_ms: u64,
    reached_lead: bool,
)
    requires
        c.phase == ControlPhase::Preheat,
        t - c.phase_start_ms >= PREHEAT_MAX_S as int * 1000,
        t <= later_ms < t + COAST_MAX_S as int * 1000,
    ensures
        spec_phase_tick(c, t, reached_lead, false).0.phase == ControlPhase::Coast,
        spec_phase_tick(spec_phase_tick(c, t, reached_lead, false).0, later_ms, reached_lead, false).0.phase
            == ControlPhase::Coast,
        spec_phase_tick(spec_phase_tick(c, t, reached_lead, false).0, later_ms, reached_lead, false).1
            == (PhaseAction::Coast { handoff: false, safety_cap: false }),
{
}

/// Pump use is the only thing a tick counts as activity: the idle timer is
/// reset to the tick's time when the pump runs and left alone otherwise,
/// and a tick times the heater out exactly when it is enabled, the pump is
/// off and `HEATER_TIMEOUT_S` have passed since the last activity.
pub proof fn lemma_idle_timer(s: ControlState, inp: TickInput)
    ensures
        inp.pump_on ==> spec_on_tick(s, inp).0.last_activity_ms == inp.now_ms,
        !inp.pump_on ==> spec_on_tick(s, inp).0.last_activity_ms == s.last_activity_ms,
        spec_on_tick(s, inp).1.idle_timeout <==> (s.enabled && !inp.pump_on && inp.now_ms
            - s.last_activity_ms >= HEATER_TIMEOUT_S as int * 1000),
{
}

/// A tick that drives the heater runs the preheat/coast phase logic once,
/// at the tick's time and with the tick's lead and margin readings; a tick
/// that does not drive it leaves the phase start alone and the phase either
/// unchanged or closed.
pub proof fn lemma_tick_runs_phase_logic(s: ControlState, inp: TickInput)
    ensures
        spec_on_tick(s, inp).1.drive is Some ==> {
            let (c2, action) = spec_phase_tick(
                s.controller,
                inp.now_ms,
                inp.reached_preheat_lead,
                inp.within_coast_margin,
            );
            &&& spec_on_tick(s, inp).0.controller == c2
            &&& spec_on_tick(s, inp).1.drive->0.action == action
        },
        spec_on_tick(s, inp).1.drive is None ==> {
            &&& spec_on_tick(s, inp).0.controller.phase_start_ms == s.controller.phase_start_ms
            &&& (spec_on_tick(s, inp).0.controller.phase == s.controller.phase || spec_on_tick(
                s,
                inp,
            ).0.controller.phase == ControlPhase::Closed)
        },
{
}

/// A toggle sets the heater to what the switch says. Switching on restarts
/// the idle window and, with a large setpoint error, starts a preheat at the
/// toggle's time with the transient model, or else goes straight to closed
/// loop with the setpoint model; either way the predictor is reseeded.
/// Switching off closes the phase, reseeds nothing and shows the heater
/// disabled. A toggle never touches the remembered pump state, and switching
/// off leaves the idle timer alone.
pub proof fn lemma_toggle(
    s: ControlState,
    now_ms: u64,
    enable: bool,
    large_error: bool,
    band: TempBand,
    heater_idle: bool,
)
    ensures
        ({
            let (s2, out) = spec_on_toggle(s, now_ms, enable, large_error, band, heater_idle);
            &&& s2.enabled == enable
            &&& s2.prev_pump == s.prev_pump
            &&& enable ==> s2.last_activity_ms == now_ms
            &&& !enable ==> s2.last_activity_ms == s.last_activity_ms
            &&& (enable && large_error) ==> s2.controller == (PreheatController {
                phase: ControlPhase::Preheat,
                phase_start_ms: now_ms,
            }) && out.reseed_with == Some(PlantModel::Transient)
            &&& (enable && !large_error) ==> s2.controller.phase == ControlPhase::Closed
                && s2.controller.phase_start_ms == s.controller.phase_start_ms && out.reseed_with
                == Some(PlantModel::Setpoint)
            &&& !enable ==> s2.controller.phase == ControlPhase::Closed && s2.controller.phase_start_ms
                == s.controller.phase_start_ms && out.reseed_with is None && out.led_state
                == HeaterState::Disabled
            &&& enable ==> out.led_state != HeaterState::Disabled && out.led_state
                != HeaterState::Preheating
            &&& enable ==> ((out.led_state == HeaterState::Fault) <==> band == TempBand::OutOfRange)
        }),
{
}

impl ControlState {
    /// The state at boot: heater disabled, idle window and closed-loop
    /// phase starting at `now_ms`.
    pub fn new(now_ms: u64) -> (s: Self)
        ensures
            s == (ControlState {
                enabled: false,
                last_activity_ms: now_ms,
                prev_pump: false,
                controller: PreheatController { phase: ControlPhase::Closed, phase_start_ms: now_ms },
            }),
    {
        ControlState {
            enabled: false,
            last_activity_ms: now_ms,
            prev_pump: false,
            controller: PreheatController::new(now_ms),
        }
    }

    /// The decisions of one tick of the fixed-period control ticker.
    pub fn on_tick(&mut self, inp: TickInput) -> (out: TickOutput)
        requires
            tick_defined(*old(self), inp),
        ensures
            (*final(self), out) == spec_on_tick(*old(self), inp),
    {
        let now = inp.now_ms;
        // Pump use = activity -> reset the idle timer.
        if inp.pump_on {
            self.last_activity_ms = now;
        }
        let mut idle_timeout = false;
        if self.enabled && now - self.last_activity_ms >= (HEATER_TIMEOUT_S as u64) * 1000 {
            self.enabled = false;
            self.controller.on_disable();
            idle_timeout = true;
        }
        let state = determine_heater_state(self.enabled, inp.band, inp.heater_idle);
        if state == HeaterState::Fault && self.enabled {
            self.enabled = false;
            self.controller.on_fault();
            TickOutput { idle_timeout, fault_trip: true, drive: None, led_state: state }
        } else if self.enabled {
            let brew_started = inp.pump_on && !self.prev_pump;
            self.prev_pump = inp.pump_on;
            let action = self.controller.tick(now, inp.reached_preheat_lead, inp.within_coast_margin);
            let led_state = if self.controller.is_preheating() {
                HeaterState::Preheating
            } else {
                state
            };
            TickOutput {
                idle_timeout,
                fault_trip: false,
                drive: Some(Drive { brew_started, pump_on: inp.pump_on, action }),
                led_state,
            }
        } else {
            TickOutput { idle_timeout, fault_trip: false, drive: None, led_state: state }
        }
    }

    /// The decisions of a heater-switch toggle to `enable`. `large_error`
    /// tells whether the setpoint is more than `PREHEAT_MIN_ERROR_C` above
    /// the measured temperature; `band` is where that temperature stands and
    /// `heater_idle` whether the heater power last applied is below 5%.
    pub fn on_toggle(
        &mut self,
        now_ms: u64,
        enable: bool,
        large_error: bool,
        band: TempBand,
        heater_idle: bool,
    ) -> (out: ToggleOutput)
        ensures
            (*final(self), out) == spec_on_toggle(
                *old(self),
                now_ms,
                enable,
                large_error,
                band,
                heater_idle,
            ),
    {
        self.enabled = enable;
        if enable {
            // Fresh heater-on: start the idle window over.
            self.last_activity_ms = now_ms;
            let model = self.controller.start_preheat(now_ms, large_error);
            ToggleOutput {
                reseed_with: Some(model),
                led_state: determine_heater_state(true, band, heater_idle),
            }
        } else {
            self.controller.on_disable();
            ToggleOutput {
                reseed_with: None,
                led_state: determine_heater_state(false, band, heater_idle),
            }
        }
    }
}

} // verus!
