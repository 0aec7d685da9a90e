pub mod clock;
pub mod network;
pub mod server;
pub mod simulation;
pub mod time;

pub use clock::{ClockState, ClockView, SimulationClock};
pub use network::{NetworkRole, Packet};
pub use server::{ServerCommand, ServerResponse, ServerState, SimulationConfigResponse};
pub use simulation::{EngineState, EngineView, SimulationEngine};
pub use time::{FidelityLevel, SimulationConfig};

use vstd::prelude::*;

verus! {

/// A single-owner engine: a clock, its lifecycle label and the
/// configuration, where a step advances the clock only while the label says
/// running.
#[derive(Debug, Clone)]
pub struct SimEngine {
    clock: SimulationClock,
    state: EngineState,
    config: SimulationConfig,
}

impl View for SimEngine {
    type V = EngineView;

    closed spec fn view(&self) -> EngineView {
        EngineView { state: self.state, clock: self.clock@, config: self.config }
    }
}

/// The engine after `set_state(s)` at instant `now`: the clock follows the
/// new label (started, paused or stopped); `Error` leaves the clock alone.
pub open spec fn set_state_spec(e: EngineView, s: EngineState, now: u64) -> EngineView {
    EngineView {
        state: s,
        clock: match s {
            EngineState::Running => clock::start_spec(e.clock, now),
            EngineState::Paused => clock::pause_spec(e.clock),
            EngineState::Stopped => clock::stop_spec(e.clock),
            EngineState::Error => e.clock,
        },
        ..e
    }
}

impl SimEngine {
    pub fn new(config: SimulationConfig) -> (r: Self)
        requires
            config.wf(),
        ensures
            r@.wf(),
            r@.state == EngineState::Stopped,
            r@.config == config,
            r@.clock.state == ClockState::Stopped,
            r@.clock.sim_time_ns == 0,
            r@.clock.total_steps == 0,
            r@.clock.accumulator_ns == 0,
    {
        SimEngine { clock: SimulationClock::new(config), state: EngineState::Stopped, config }
    }

    /// Advances the clock once when the engine is running; returns the step
    /// size in nanoseconds when a step was taken.
    pub fn step(&mut self, now_ns: u64) -> (r: Option<u64>)
        requires
            old(self)@.wf(),
        ensures
            old(self)@.state != EngineState::Running ==> r == None::<u64> && final(self)@ == old(
                self,
            )@,
            old(self)@.state == EngineState::Running ==> (final(self)@.clock, r)
                == clock::advance_spec(old(self)@.clock, now_ns) && final(self)@.state
                == old(self)@.state && final(self)@.config == old(self)@.config,
            final(self)@.wf(),
    {
        if self.state != EngineState::Running {
            return None;
        }
        self.clock.advance(now_ns)
    }

    pub fn simulation_time(&self) -> (r: u64)
        ensures
            r == self@.clock.sim_time_ns,
    {
        self.clock.simulation_time_ns()
    }

    pub fn state(&self) -> (r: EngineState)
        ensures
            r == self@.state,
    {
        self.state
    }

    pub fn set_state(&mut self, new_state: EngineState, now_ns: u64)
        requires
            old(self)@.wf(),
        ensures
            final(self)@ == set_state_spec(old(self)@, new_state, now_ns),
            final(self)@.wf(),
    {
        match new_state {
            EngineState::Running => self.clock.start(now_ns),
            EngineState::Paused => self.clock.pause(),
            EngineState::Stopped => self.clock.stop(),
            EngineState::Error => {},
        }
        self.state = new_state;
    }

    pub fn config(&self) -> (r: &SimulationConfig)
        ensures
            *r == self@.config,
    {
        &self.config
    }
}

} // verus!
