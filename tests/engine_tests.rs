use simengine::{EngineState, FidelityLevel, SimEngine, SimulationConfig, SimulationEngine};

fn config(steps: u32) -> SimulationConfig {
    SimulationConfig {
        target_steps_per_second: steps,
        simulation_time_multiplier_milli: 1000,
        fidelity: FidelityLevel::Low,
        real_time_mode: false,
    }
}

#[test]
fn engine_lifecycle() {
    let mut e = SimulationEngine::new(config(10));
    assert_eq!(e.state(), EngineState::Stopped);
    assert_eq!(e.simulation_time_ns(), 0);
    e.start(0);
    assert_eq!(e.state(), EngineState::Running);
    e.step(100_000_000);
    assert_eq!(e.simulation_time_ns(), 100_000_000);
    e.pause();
    assert_eq!(e.state(), EngineState::Paused);
    e.step(500_000_000);
    assert_eq!(e.simulation_time_ns(), 100_000_000);
    e.resume(500_000_000);
    e.step(600_000_000);
    assert_eq!(e.simulation_time_ns(), 200_000_000);
    e.stop();
    assert_eq!(e.state(), EngineState::Stopped);
    assert_eq!(e.simulation_time_ns(), 200_000_000);
    assert_eq!(e.config().target_steps_per_second, 10);
}

#[test]
fn engine_reset_zeroes_time() {
    let mut e = SimulationEngine::new(config(10));
    e.start(0);
    e.step(100_000_000);
    e.reset(100_000_000);
    assert_eq!(e.simulation_time_ns(), 0);
    assert_eq!(e.state(), EngineState::Stopped);
}

#[test]
fn engine_pause_twice() {
    let mut e = SimulationEngine::new(config(10));
    e.start(0);
    e.step(100_000_000);
    e.pause();
    e.pause();
    assert_eq!(e.state(), EngineState::Paused);
    assert_eq!(e.simulation_time_ns(), 100_000_000);
}

#[test]
fn pause_then_resume_without_start() {
    let mut e = SimulationEngine::new(config(10));
    e.pause();
    assert_eq!(e.state(), EngineState::Paused);
    e.resume(0);
    assert_eq!(e.state(), EngineState::Running);
    assert_eq!(e.simulation_time_ns(), 0);
    e.step(100_000_000);
    assert_eq!(e.simulation_time_ns(), 100_000_000);
}

#[test]
fn sim_engine_steps_only_when_running() {
    let mut e = SimEngine::new(config(10));
    assert_eq!(e.step(1_000_000_000), None);
    e.set_state(EngineState::Running, 0);
    assert_eq!(e.state(), EngineState::Running);
    assert_eq!(e.step(100_000_000), Some(100_000_000));
    assert_eq!(e.simulation_time(), 100_000_000);
    e.set_state(EngineState::Paused, 100_000_000);
    assert_eq!(e.step(900_000_000), None);
    e.set_state(EngineState::Error, 900_000_000);
    assert_eq!(e.state(), EngineState::Error);
    assert_eq!(e.step(900_000_000), None);
    e.set_state(EngineState::Stopped, 900_000_000);
    assert_eq!(e.simulation_time(), 100_000_000);
    assert_eq!(e.config().fidelity, FidelityLevel::Low);
}

#[test]
fn engine_state_names() {
    assert_eq!(EngineState::Stopped.name(), "Stopped");
    assert_eq!(EngineState::Running.name(), "Running");
    assert_eq!(EngineState::Paused.name(), "Paused");
    assert_eq!(EngineState::Error.name(), "Error");
}

#[test]
fn step_after_reset_does_not_advance() {
    let mut e = SimulationEngine::new(config(10));
    e.start(0);
    e.reset(0);
    assert_eq!(e.state(), EngineState::Stopped);
    e.step(100_000_000);
    assert_eq!(e.simulation_time_ns(), 0);
    assert_eq!(e.state(), EngineState::Stopped);
    e.start(100_000_000);
    e.step(200_000_000);
    assert_eq!(e.simulation_time_ns(), 100_000_000);
}
