use vstd::prelude::*;
use vstd::string::StringExecFns;

use crate::simulation::{
    pause_engine, reset_engine, resume_engine, start_engine, step_engine, stop_engine,
    EngineView, SimulationEngine,
};
use crate::time::{FidelityLevel, SimulationConfig, REAL_TIME_MULTIPLIER_MILLI};

verus! {

/// A lifecycle command sent by a peer.
#[derive(Debug, Clone, Copy, PartialEq, Eq, Structural)]
pub enum ServerCommand {
    Start,
    Stop,
    Pause,
    Resume,
    Step,
    Status,
    Reset,
}

/// The configuration as reported in a status reply.
#[derive(Debug, Clone)]
pub struct SimulationConfigResponse {
    pub target_steps_per_second: u32,
    pub simulation_time_multiplier_milli: u64,
    pub fidelity: String,
    pub real_time_mode: bool,
}

/// A reply to a peer.
#[derive(Debug, Clone)]
pub enum ServerResponse {
    Status { state: String, simulation_time_ns: u64, config: SimulationConfigResponse },
    Ack { message: String },
    Error { message: String },
}

/// The decimal digit for `d < 10`.
pub open spec fn digit_char(d: nat) -> char {
    seq!['0', '1', '2', '3', '4', '5', '6', '7', '8', '9'][d as int]
}

/// The decimal representation of `n`, without sign or leading zeros.
pub open spec fn decimal(n: nat) -> Seq<char>
    decreases n,
{
    if n < 10 {
        seq![digit_char(n)]
    } else {
        decimal(n / 10) + seq![digit_char(n % 10)]
    }
}

/// The name of what `str::to_lowercase` returns.
pub uninterp spec fn lower_of(s: Seq<char>) -> Seq<char>;

/// Relies on `u64`'s `Display` (through `to_string`): the decimal digits of
/// the number, without sign or leading zeros.
#[verifier::external_body]
fn decimal_string(n: u64) -> (r: String)
    ensures
        r@ == decimal(n as nat),
{
    n.to_string()
}

/// Relies on `str::to_lowercase`: the result depends on the characters alone.
#[verifier::external_body]
fn lowercase(s: &str) -> (r: String)
    ensures
        r@ == lower_of(s@),
{
    s.to_lowercase()
}

/// The engine after carrying out `cmd` at instant `now`.
pub open spec fn apply_command(e: EngineView, cmd: ServerCommand, now: u64) -> EngineView {
    match cmd {
        ServerCommand::Start => start_engine(e, now),
        ServerCommand::Stop => stop_engine(e),
        ServerCommand::Pause => pause_engine(e),
        ServerCommand::Resume => resume_engine(e, now),
        ServerCommand::Step => step_engine(e, now),
        ServerCommand::Status => e,
        ServerCommand::Reset => reset_engine(e, now),
    }
}

/// The acknowledgement text of a command other than `Step` and `Status`.
pub open spec fn ack_message(cmd: ServerCommand) -> Seq<char> {
    match cmd {
        ServerCommand::Start => "Simulation started"@,
        ServerCommand::Stop => "Simulation stopped"@,
        ServerCommand::Pause => "Simulation paused"@,
        ServerCommand::Resume => "Simulation resumed"@,
        ServerCommand::Reset => "Simulation reset"@,
        _ => Seq::empty(),
    }
}

/// The acknowledgement text of a step that reached simulated time `t`.
pub open spec fn stepped_message(t: u64) -> Seq<char> {
    "Stepped to "@ + decimal(t as nat)
}

/// The text of a reply to bytes that are no command.
pub open spec fn invalid_command_message(error: Seq<char>) -> Seq<char> {
    "Invalid command: "@ + error
}

/// The text of an error for an unknown fidelity name.
pub open spec fn invalid_fidelity_message(s: Seq<char>) -> Seq<char> {
    "Invalid fidelity: "@ + s + ". Valid: low, medium, high, ultra"@
}

/// Whether `r` is an `Ok` reply with text `m`.
pub open spec fn is_ok_reply(r: ServerResponse, m: Seq<char>) -> bool {
    match r {
        ServerResponse::Ack { message } => message@ == m,
        _ => false,
    }
}

/// Whether `r` is an `Error` reply with text `m`.
pub open spec fn is_error_reply(r: ServerResponse, m: Seq<char>) -> bool {
    match r {
        ServerResponse::Error { message } => message@ == m,
        _ => false,
    }
}

/// Whether `r` is the status reply of engine `e`.
pub open spec fn is_status_of(r: ServerResponse, e: EngineView) -> bool {
    match r {
        ServerResponse::Status { state, simulation_time_ns, config } => {
            &&& state@ == e.state.spec_name()
            &&& simulation_time_ns == e.clock.sim_time_ns
            &&& config.target_steps_per_second == e.config.target_steps_per_second
            &&& config.simulation_time_multiplier_milli
                == e.config.simulation_time_multiplier_milli
            &&& config.fidelity@ == e.config.fidelity.spec_name()
            &&& config.real_time_mode == e.config.real_time_mode
        },
        _ => false,
    }
}

/// The reply owed for `cmd` by an engine that was `before` and is `after`.
pub open spec fn is_reply_to(
    r: ServerResponse,
    cmd: ServerCommand,
    before: EngineView,
    after: EngineView,
) -> bool {
    match cmd {
        ServerCommand::Status => is_status_of(r, before),
        ServerCommand::Step => is_ok_reply(r, stepped_message(after.clock.sim_time_ns)),
        _ => is_ok_reply(r, ack_message(cmd)),
    }
}

impl SimulationConfigResponse {
    /// The report of a configuration.
    pub fn from_config(config: &SimulationConfig) -> (r: Self)
        ensures
            r.target_steps_per_second == config.target_steps_per_second,
            r.simulation_time_multiplier_milli == config.simulation_time_multiplier_milli,
            r.fidelity@ == config.fidelity.spec_name(),
            r.real_time_mode == config.real_time_mode,
    {
        SimulationConfigResponse {
            target_steps_per_second: config.target_steps_per_second,
            simulation_time_multiplier_milli: config.simulation_time_multiplier_milli,
            fidelity: config.fidelity.name(),
            real_time_mode: config.real_time_mode,
        }
    }
}

/// What the command loop serves: one engine.
pub struct ServerState {
    pub engine: SimulationEngine,
}

impl ServerState {
    pub open spec fn wf(&self) -> bool {
        self.engine@.wf()
    }

    pub fn new(config: SimulationConfig) -> (r: Self)
        requires
            config.wf(),
        ensures
            r.wf(),
            r.engine@.state == crate::simulation::EngineState::Stopped,
            r.engine@.config == config,
            r.engine@.clock.sim_time_ns == 0,
            r.engine@.clock.state == crate::clock::ClockState::Stopped,
            r.engine@.clock.accumulator_ns == 0,
            r.engine@.clock.total_steps == 0,
    {
        ServerState { engine: SimulationEngine::new(config) }
    }

    /// Carries out `cmd` at instant `now_ns` and builds its reply: a status
    /// snapshot for `Status`, the simulated time reached for `Step`, and an
    /// acknowledgement otherwise.
    pub fn handle_command(&mut self, cmd: ServerCommand, now_ns: u64) -> (r: ServerResponse)
        requires
            old(self).wf(),
        ensures
            final(self).wf(),
            final(self).engine@ == apply_command(old(self).engine@, cmd, now_ns),
            is_reply_to(r, cmd, old(self).engine@, final(self).engine@),
    {
        match cmd {
            ServerCommand::Start => {
                self.engine.start(now_ns);
                ServerResponse::Ack { message: "Simulation started".to_owned() }
            },
            ServerCommand::Stop => {
                self.engine.stop();
                ServerResponse::Ack { message: "Simulation stopped".to_owned() }
            },
            ServerCommand::Pause => {
                self.engine.pause();
                ServerResponse::Ack { message: "Simulation paused".to_owned() }
            },
            ServerCommand::Resume => {
                self.engine.resume(now_ns);
                ServerResponse::Ack { message: "Simulation resumed".to_owned() }
            },
            ServerCommand::Step => {
                self.engine.step(now_ns);
                let time = self.engine.simulation_time_ns();
                let mut message = "Stepped to ".to_owned();
                let digits = decimal_string(time);
                message.append(digits.as_str());
                ServerResponse::Ack { message }
            },
            ServerCommand::Status => {
                let state = self.engine.state();
                let time = self.engine.simulation_time_ns();
                let config = self.engine.config();
                ServerResponse::Status {
                    state: state.name(),
                    simulation_time_ns: time,
                    config: SimulationConfigResponse::from_config(config),
                }
            },
            ServerCommand::Reset => {
                self.engine.reset(now_ns);
                ServerResponse::Ack { message: "Simulation reset".to_owned() }
            },
        }
    }

    /// Serves one received datagram, given as the outcome of decoding it:
    /// a decode failure is answered with an `Error` reply and leaves the
    /// engine untouched; a command is carried out.
    pub fn handle_datagram(
        &mut self,
        decoded: Result<ServerCommand, String>,
        now_ns: u64,
    ) -> (r: ServerResponse)
        requires
            old(self).wf(),
        ensures
            final(self).wf(),
            match decoded {
                Ok(cmd) => {
                    &&& final(self).engine@ == apply_command(old(self).engine@, cmd, now_ns)
                    &&& is_reply_to(r, cmd, old(self).engine@, final(self).engine@)
                },
                Err(e) => {
                    &&& final(self).engine@ == old(self).engine@
                    &&& is_error_reply(r, invalid_command_message(e@))
                },
            },
    {
        match decoded {
            Ok(cmd) => self.handle_command(cmd, now_ns),
            Err(e) => {
                let mut message = "Invalid command: ".to_owned();
                message.append(e.as_str());
                ServerResponse::Error { message }
            },
        }
    }
}

/// The fidelity level whose lower-case name is `s`.
pub open spec fn fidelity_of_lower(s: Seq<char>) -> Option<FidelityLevel> {
    if s == "low"@ {
        Some(FidelityLevel::Low)
    } else if s == "medium"@ {
        Some(FidelityLevel::Medium)
    } else if s == "high"@ {
        Some(FidelityLevel::High)
    } else if s == "ultra"@ {
        Some(FidelityLevel::Ultra)
    } else {
        None
    }
}

/// The fidelity level named by an already lower-cased name.
pub fn fidelity_from_lowercase(lowered: &String) -> (r: Option<FidelityLevel>)
    ensures
        r == fidelity_of_lower(lowered@),
{
    if *lowered == "low".to_owned() {
        Some(FidelityLevel::Low)
    } else if *lowered == "medium".to_owned() {
        Some(FidelityLevel::Medium)
    } else if *lowered == "high".to_owned() {
        Some(FidelityLevel::High)
    } else if *lowered == "ultra".to_owned() {
        Some(FidelityLevel::Ultra)
    } else {
        None
    }
}

/// Reads a fidelity name in any letter case.
pub fn parse_fidelity(s: &str) -> (r: Result<FidelityLevel, String>)
    ensures
        match fidelity_of_lower(lower_of(s@)) {
            Some(f) => r == Ok::<FidelityLevel, String>(f),
            None => r.is_err() && r->Err_0@ == invalid_fidelity_message(s@),
        },
{
    let lowered = lowercase(s);
    match fidelity_from_lowercase(&lowered) {
        Some(f) => Ok(f),
        None => {
            let mut message = "Invalid fidelity: ".to_owned();
            message.append(s);
            message.append(". Valid: low, medium, high, ultra");
            Err(message)
        },
    }
}

/// The configuration that the command-line options select, over the
/// defaults: a known fidelity name sets the level and its step rate; an
/// explicit step rate and multiplier (in thousandths) override.
pub open spec fn configured(
    fidelity: Option<Seq<char>>,
    steps_per_second: Option<u32>,
    multiplier_milli: Option<u64>,
    real_time_mode: bool,
) -> SimulationConfig {
    let level = match fidelity {
        Some(s) => fidelity_of_lower(lower_of(s)),
        None => None,
    };
    let base_level = match level {
        Some(f) => f,
        None => FidelityLevel::Medium,
    };
    let base_steps: u32 = match level {
        Some(f) => f.spec_steps_per_second(),
        None => 60,
    };
    SimulationConfig {
        target_steps_per_second: match steps_per_second {
            Some(n) => n,
            None => base_steps,
        },
        simulation_time_multiplier_milli: match multiplier_milli {
            Some(m) => m,
            None => REAL_TIME_MULTIPLIER_MILLI,
        },
        fidelity: base_level,
        real_time_mode,
    }
}

/// Builds the configuration from command-line options; see `configured`.
/// An unknown fidelity name is ignored.
pub fn build_config(
    fidelity: &Option<String>,
    steps_per_second: Option<u32>,
    multiplier_milli: Option<u64>,
    real_time_mode: bool,
) -> (r: SimulationConfig)
    ensures
        r == configured(
            match fidelity {
                Some(s) => Some(s@),
                None => None,
            },
            steps_per_second,
            multiplier_milli,
            real_time_mode,
        ),
{
    let mut config = SimulationConfig::default();
    config.real_time_mode = real_time_mode;
    match fidelity {
        Some(name) => {
            match parse_fidelity(name.as_str()) {
                Ok(level) => {
                    config.fidelity = level;
                    config.target_steps_per_second = level.steps_per_second();
                },
                Err(_) => {},
            }
        },
        None => {},
    }
    match steps_per_second {
        Some(n) => {
            config.target_steps_per_second = n;
        },
        None => {},
    }
    match multiplier_milli {
        Some(m) => {
            config.simulation_time_multiplier_milli = m;
        },
        None => {},
    }
    config
}

} // verus!
