use vstd::prelude::*;

verus! {

/// Nanoseconds in one second.
pub const NANOS_PER_SECOND: u64 = 1_000_000_000;

/// The multiplier 1.0 in thousandths: simulated time runs at wall-clock rate.
pub const REAL_TIME_MULTIPLIER_MILLI: u64 = 1000;

/// A named preset of the step rate and of a declared entity ceiling.
#[derive(Debug, Clone, Copy, PartialEq, Eq, Structural)]
pub enum FidelityLevel {
    Low,
    Medium,
    High,
    Ultra,
}

impl FidelityLevel {
    pub open spec fn spec_steps_per_second(self) -> u32 {
        match self {
            FidelityLevel::Low => 10,
            FidelityLevel::Medium => 30,
            FidelityLevel::High => 60,
            FidelityLevel::Ultra => 120,
        }
    }

    pub open spec fn spec_max_entities(self) -> usize {
        match self {
            FidelityLevel::Low => 100,
            FidelityLevel::Medium => 1000,
            FidelityLevel::High => 10000,
            FidelityLevel::Ultra => 50000,
        }
    }

    /// The level's name as reported to peers.
    pub open spec fn spec_name(self) -> Seq<char> {
        match self {
            FidelityLevel::Low => "Low"@,
            FidelityLevel::Medium => "Medium"@,
            FidelityLevel::High => "High"@,
            FidelityLevel::Ultra => "Ultra"@,
        }
    }

    /// The level's name in lower case, as accepted on the command line.
    pub open spec fn spec_lower_name(self) -> Seq<char> {
        match self {
            FidelityLevel::Low => "low"@,
            FidelityLevel::Medium => "medium"@,
            FidelityLevel::High => "high"@,
            FidelityLevel::Ultra => "ultra"@,
        }
    }

    pub fn name(&self) -> (r: String)
        ensures
            r@ == self.spec_name(),
    {
        match self {
            FidelityLevel::Low => "Low".to_owned(),
            FidelityLevel::Medium => "Medium".to_owned(),
            FidelityLevel::High => "High".to_owned(),
            FidelityLevel::Ultra => "Ultra".to_owned(),
        }
    }

    /// The canonical step rate of this level.
    pub fn steps_per_second(&self) -> (r: u32)
        ensures
            r == self.spec_steps_per_second(),
            r > 0,
    {
        match self {
            FidelityLevel::Low => 10,
            FidelityLevel::Medium => 30,
            FidelityLevel::High => 60,
            FidelityLevel::Ultra => 120,
        }
    }

    /// The declared (informational) entity ceiling of this level.
    pub fn max_entities(&self) -> (r: usize)
        ensures
            r == self.spec_max_entities(),
    {
        match self {
            FidelityLevel::Low => 100,
            FidelityLevel::Medium => 1000,
            FidelityLevel::High => 10000,
            FidelityLevel::Ultra => 50000,
        }
    }
}

/// Immutable parameters of a simulation.
///
/// The time multiplier is held in thousandths (`1000` is real time), the
/// fixed-point form in which the clock applies it.
#[derive(Debug, Clone, Copy, PartialEq, Eq, Structural)]
pub struct SimulationConfig {
    pub target_steps_per_second: u32,
    pub simulation_time_multiplier_milli: u64,
    pub fidelity: FidelityLevel,
    pub real_time_mode: bool,
}

impl SimulationConfig {
    /// A configuration is usable when the step rate is positive: the step
    /// size divides by it.
    pub open spec fn wf(self) -> bool {
        self.target_steps_per_second > 0
    }

    /// Nanoseconds of simulated time in one discrete step.
    pub open spec fn spec_time_step_ns(self) -> u64 {
        (NANOS_PER_SECOND / (self.target_steps_per_second as u64)) as u64
    }

    /// Replaces the fidelity and takes over its canonical step rate.
    pub fn with_fidelity(self, fidelity: FidelityLevel) -> (r: Self)
        ensures
            r.fidelity == fidelity,
            r.target_steps_per_second == fidelity.spec_steps_per_second(),
            r.simulation_time_multiplier_milli == self.simulation_time_multiplier_milli,
            r.real_time_mode == self.real_time_mode,
            r.wf(),
    {
        let mut c = self;
        c.target_steps_per_second = fidelity.steps_per_second();
        c.fidelity = fidelity;
        c
    }

    /// The step size in nanoseconds: one second divided by the step rate.
    pub fn time_step(&self) -> (r: u64)
        requires
            self.wf(),
        ensures
            r == self.spec_time_step_ns(),
    {
        NANOS_PER_SECOND / (self.target_steps_per_second as u64)
    }
}

impl Default for SimulationConfig {
    fn default() -> (r: Self)
        ensures
            r.target_steps_per_second == 60,
            r.simulation_time_multiplier_milli == REAL_TIME_MULTIPLIER_MILLI,
            r.fidelity == FidelityLevel::Medium,
            r.real_time_mode,
    {
        SimulationConfig {
            target_steps_per_second: 60,
            simulation_time_multiplier_milli: REAL_TIME_MULTIPLIER_MILLI,
            fidelity: FidelityLevel::Medium,
            real_time_mode: true,
        }
    }
}

} // verus!
