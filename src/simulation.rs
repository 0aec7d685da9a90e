use vstd::prelude::*;

use crate::clock::{
    advance_spec, pause_spec, reset_spec, resume_spec, start_spec, stop_spec, ClockState,
    ClockView, SimulationClock,
};
use crate::time::SimulationConfig;

verus! {

/// The lifecycle label of an engine.
#[derive(Debug, Clone, Copy, PartialEq, Eq, Structural)]
pub enum EngineState {
    Stopped,
    Running,
    Paused,
    Error,
}

impl EngineState {
    pub open spec fn spec_name(self) -> Seq<char> {
        match self {
            EngineState::Stopped => "Stopped"@,
            EngineState::Running => "Running"@,
            EngineState::Paused => "Paused"@,
            EngineState::Error => "Error"@,
        }
    }

    /// The label's name as reported to peers.
    pub fn name(&self) -> (r: String)
        ensures
            r@ == self.spec_name(),
    {
        match self {
            EngineState::Stopped => "Stopped".to_owned(),
            EngineState::Running => "Running".to_owned(),
            EngineState::Paused => "Paused".to_owned(),
            EngineState::Error => "Error".to_owned(),
        }
    }
}

/// The abstract state of a `SimulationEngine`.
pub struct EngineView {
    pub state: EngineState,
    pub clock: ClockView,
    pub config: SimulationConfig,
}

impl EngineView {
    pub open spec fn wf(self) -> bool {
        &&& self.clock.wf()
        &&& self.clock.config == self.config
    }
}

/// The engine after `start` at instant `now`.
pub open spec fn start_engine(e: EngineView, now: u64) -> EngineView {
    EngineView { state: EngineState::Running, clock: start_spec(e.clock, now), ..e }
}

/// The engine after `stop`.
pub open spec fn stop_engine(e: EngineView) -> EngineView {
    EngineView { state: EngineState::Stopped, clock: stop_spec(e.clock), ..e }
}

/// The engine after `pause`.
pub open spec fn pause_engine(e: EngineView) -> EngineView {
    EngineView { state: EngineState::Paused, clock: pause_spec(e.clock), ..e }
}

/// The engine after `resume` at instant `now`.
pub open spec fn resume_engine(e: EngineView, now: u64) -> EngineView {
    EngineView { state: EngineState::Running, clock: resume_spec(e.clock, now), ..e }
}

/// The engine after `reset` at instant `now`.
pub open spec fn reset_engine(e: EngineView, now: u64) -> EngineView {
    EngineView { state: EngineState::Stopped, clock: reset_spec(e.clock, now), ..e }
}

/// The engine after `step` at instant `now`: the clock advances only while
/// the engine is running.
pub open spec fn step_engine(e: EngineView, now: u64) -> EngineView {
    if e.state != EngineState::Running {
        e
    } else {
        EngineView { clock: advance_spec(e.clock, now).0, ..e }
    }
}

/// A clock and its lifecycle label, driven together by the lifecycle
/// operations. Each operation takes the engine by `&mut`, so the label and
/// the clock always change as one.
pub struct SimulationEngine {
    clock: SimulationClock,
    state: EngineState,
    config: SimulationConfig,
}

impl View for SimulationEngine {
    type V = EngineView;

    closed spec fn view(&self) -> EngineView {
        EngineView { state: self.state, clock: self.clock@, config: self.config }
    }
}

impl SimulationEngine {
    /// A stopped engine over a fresh clock.
    pub fn new(config: SimulationConfig) -> (r: Self)
        requires
            config.wf(),
        ensures
            r@.wf(),
            r@.state == EngineState::Stopped,
            r@.config == config,
            r@.clock.state == ClockState::Stopped,
            r@.clock.sim_time_ns == 0,
            r@.clock.total_steps == 0,
            r@.clock.accumulator_ns == 0,
    {
        SimulationEngine {
            clock: SimulationClock::new(config),
            state: EngineState::Stopped,
            config,
        }
    }

    pub fn start(&mut self, now_ns: u64)
        requires
            old(self)@.wf(),
        ensures
            final(self)@ == start_engine(old(self)@, now_ns),
            final(self)@.wf(),
    {
        self.clock.start(now_ns);
        self.state = EngineState::Running;
    }

    pub fn stop(&mut self)
        requires
            old(self)@.wf(),
        ensures
            final(self)@ == stop_engine(old(self)@),
            final(self)@.wf(),
    {
        self.clock.stop();
        self.state = EngineState::Stopped;
    }

    pub fn pause(&mut self)
        requires
            old(self)@.wf(),
        ensures
            final(self)@ == pause_engine(old(self)@),
            final(self)@.wf(),
    {
        self.clock.pause();
        self.state = EngineState::Paused;
    }

    pub fn resume(&mut self, now_ns: u64)
        requires
            old(self)@.wf(),
        ensures
            final(self)@ == resume_engine(old(self)@, now_ns),
            final(self)@.wf(),
    {
        self.clock.resume(now_ns);
        self.state = EngineState::Running;
    }

    /// Clears the clock's time and labels the engine stopped; the clock's
    /// own run state is left as it was.
    pub fn reset(&mut self, now_ns: u64)
        requires
            old(self)@.wf(),
        ensures
            final(self)@ == reset_engine(old(self)@, now_ns),
            final(self)@.wf(),
    {
        self.clock.reset(now_ns);
        self.state = EngineState::Stopped;
    }

    /// Advances the clock once while the engine is running; otherwise a
    /// no-op.
    pub fn step(&mut self, now_ns: u64)
        requires
            old(self)@.wf(),
        ensures
            final(self)@ == step_engine(old(self)@, now_ns),
            final(self)@.wf(),
    {
        if self.state == EngineState::Running {
            self.clock.advance(now_ns);
        }
    }

    pub fn simulation_time_ns(&self) -> (r: u64)
        ensures
            r == self@.clock.sim_time_ns,
    {
        self.clock.simulation_time_ns()
    }

    pub fn state(&self) -> (r: EngineState)
        ensures
            r == self@.state,
    {
        self.state
    }

    pub fn config(&self) -> (r: &SimulationConfig)
        ensures
            *r == self@.config,
    {
        &self.config
    }
}

/// After a reset the engine reports simulated time zero, whatever came
/// before.
pub proof fn lemma_engine_reset_zeroes_time(e: EngineView, now: u64)
    ensures
        reset_engine(e, now).clock.sim_time_ns == 0,
        reset_engine(e, now).state == EngineState::Stopped,
{
}

/// A step while the engine or its clock is not running changes nothing.
pub proof fn lemma_engine_step_when_not_running(e: EngineView, now: u64)
    requires
        e.state != EngineState::Running || e.clock.state != ClockState::Running,
    ensures
        step_engine(e, now) == e,
{
}

/// Pausing twice is pausing once: the engine and its clock are paused and
/// simulated time is untouched.
pub proof fn lemma_engine_pause_idempotent(e: EngineView)
    ensures
        pause_engine(pause_engine(e)) == pause_engine(e),
        pause_engine(pause_engine(e)).state == EngineState::Paused,
        pause_engine(pause_engine(e)).clock.state == ClockState::Paused,
        pause_engine(pause_engine(e)).clock.sim_time_ns == e.clock.sim_time_ns,
{
}

/// A pause followed by a resume, from any state, leaves the engine running
/// with simulated time unchanged.
pub proof fn lemma_pause_resume_keeps_time(e: EngineView, now: u64)
    ensures
        resume_engine(pause_engine(e), now).state == EngineState::Running,
        resume_engine(pause_engine(e), now).clock.state == ClockState::Running,
        resume_engine(pause_engine(e), now).clock.sim_time_ns == e.clock.sim_time_ns,
{
}

} // verus!
