use simengine::server::{build_config, fidelity_from_lowercase, parse_fidelity};
use simengine::{FidelityLevel, ServerCommand, ServerResponse, ServerState, SimulationConfig};

fn config_60() -> SimulationConfig {
    SimulationConfig::default()
}

fn ack(r: &ServerResponse) -> String {
    match r {
        ServerResponse::Ack { message } => message.clone(),
        other => panic!("expected an acknowledgement, got {:?}", other),
    }
}

fn status(r: &ServerResponse) -> (String, u64) {
    match r {
        ServerResponse::Status { state, simulation_time_ns, .. } => (state.clone(), *simulation_time_ns),
        other => panic!("expected a status, got {:?}", other),
    }
}

#[test]
fn start_then_step_after_one_step_of_time() {
    let mut s = ServerState::new(config_60());
    assert_eq!(ack(&s.handle_command(ServerCommand::Start, 1_000)), "Simulation started");
    let r = s.handle_command(ServerCommand::Step, 1_000 + 1_000_000_000 / 60);
    assert_eq!(ack(&r), "Stepped to 16666666");
}

#[test]
fn status_before_start() {
    let mut s = ServerState::new(config_60());
    let r = s.handle_command(ServerCommand::Status, 0);
    assert_eq!(status(&r), ("Stopped".to_string(), 0));
    match r {
        ServerResponse::Status { config, .. } => {
            assert_eq!(config.target_steps_per_second, 60);
            assert_eq!(config.simulation_time_multiplier_milli, 1000);
            assert_eq!(config.fidelity, "Medium");
            assert!(config.real_time_mode);
        }
        _ => unreachable!(),
    }
}

#[test]
fn malformed_datagram_is_answered_with_error() {
    let mut s = ServerState::new(config_60());
    s.handle_command(ServerCommand::Start, 0);
    s.handle_command(ServerCommand::Step, 20_000_000);
    let r = s.handle_datagram(Err("expected value at line 1 column 1".to_string()), 30_000_000);
    match r {
        ServerResponse::Error { message } => {
            assert_eq!(message, "Invalid command: expected value at line 1 column 1")
        }
        other => panic!("expected an error, got {:?}", other),
    }
    let r = s.handle_datagram(Ok(ServerCommand::Status), 30_000_000);
    assert_eq!(status(&r), ("Running".to_string(), 16_666_666));
}

#[test]
fn pause_then_resume_via_commands() {
    let mut s = ServerState::new(config_60());
    assert_eq!(ack(&s.handle_command(ServerCommand::Pause, 0)), "Simulation paused");
    assert_eq!(ack(&s.handle_command(ServerCommand::Resume, 0)), "Simulation resumed");
    assert_eq!(status(&s.handle_command(ServerCommand::Status, 0)), ("Running".to_string(), 0));
}

#[test]
fn acknowledgements_of_each_command() {
    let mut s = ServerState::new(config_60());
    assert_eq!(ack(&s.handle_command(ServerCommand::Start, 0)), "Simulation started");
    assert_eq!(ack(&s.handle_command(ServerCommand::Step, 40_000_000)), "Stepped to 16666666");
    assert_eq!(ack(&s.handle_command(ServerCommand::Step, 40_000_000)), "Stepped to 33333332");
    assert_eq!(ack(&s.handle_command(ServerCommand::Step, 40_000_000)), "Stepped to 33333332");
    assert_eq!(ack(&s.handle_command(ServerCommand::Stop, 0)), "Simulation stopped");
    assert_eq!(status(&s.handle_command(ServerCommand::Status, 0)), ("Stopped".to_string(), 33_333_332));
    assert_eq!(ack(&s.handle_command(ServerCommand::Reset, 0)), "Simulation reset");
    assert_eq!(status(&s.handle_command(ServerCommand::Status, 0)), ("Stopped".to_string(), 0));
    assert_eq!(ack(&s.handle_command(ServerCommand::Step, 0)), "Stepped to 0");
}

#[test]
fn fidelity_names_in_any_case() {
    assert_eq!(parse_fidelity("low"), Ok(FidelityLevel::Low));
    assert_eq!(parse_fidelity("Medium"), Ok(FidelityLevel::Medium));
    assert_eq!(parse_fidelity("HIGH"), Ok(FidelityLevel::High));
    assert_eq!(parse_fidelity("uLtRa"), Ok(FidelityLevel::Ultra));
    assert_eq!(
        parse_fidelity("Extreme"),
        Err("Invalid fidelity: Extreme. Valid: low, medium, high, ultra".to_string())
    );
    assert_eq!(fidelity_from_lowercase(&"high".to_string()), Some(FidelityLevel::High));
    assert_eq!(fidelity_from_lowercase(&"HIGH".to_string()), None);
}

#[test]
fn config_from_options() {
    let c = build_config(&Some("ultra".to_string()), None, None, false);
    assert_eq!(c.fidelity, FidelityLevel::Ultra);
    assert_eq!(c.target_steps_per_second, 120);
    assert_eq!(c.simulation_time_multiplier_milli, 1000);
    assert!(!c.real_time_mode);
    let c = build_config(&Some("Low".to_string()), Some(25), Some(1500), true);
    assert_eq!(c.fidelity, FidelityLevel::Low);
    assert_eq!(c.target_steps_per_second, 25);
    assert_eq!(c.simulation_time_multiplier_milli, 1500);
    let c = build_config(&Some("bogus".to_string()), None, None, true);
    assert_eq!(c.fidelity, FidelityLevel::Medium);
    assert_eq!(c.target_steps_per_second, 60);
    let c = build_config(&None, Some(90), None, false);
    assert_eq!(c.target_steps_per_second, 90);
}

#[test]
fn step_after_reset_reports_stopped_and_zero() {
    let mut s = ServerState::new(config_60());
    s.handle_command(ServerCommand::Start, 0);
    assert_eq!(ack(&s.handle_command(ServerCommand::Step, 20_000_000)), "Stepped to 16666666");
    s.handle_command(ServerCommand::Reset, 20_000_000);
    assert_eq!(ack(&s.handle_command(ServerCommand::Step, 120_000_000)), "Stepped to 0");
    assert_eq!(status(&s.handle_command(ServerCommand::Status, 120_000_000)), ("Stopped".to_string(), 0));
}
