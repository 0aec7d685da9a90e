use simengine::{FidelityLevel, NetworkRole, Packet, SimulationConfig};

#[test]
fn fidelity_rates_and_ceilings() {
    assert_eq!(FidelityLevel::Low.steps_per_second(), 10);
    assert_eq!(FidelityLevel::Medium.steps_per_second(), 30);
    assert_eq!(FidelityLevel::High.steps_per_second(), 60);
    assert_eq!(FidelityLevel::Ultra.steps_per_second(), 120);
    assert_eq!(FidelityLevel::Low.max_entities(), 100);
    assert_eq!(FidelityLevel::Medium.max_entities(), 1000);
    assert_eq!(FidelityLevel::High.max_entities(), 10000);
    assert_eq!(FidelityLevel::Ultra.max_entities(), 50000);
    assert_eq!(FidelityLevel::Ultra.name(), "Ultra");
}

#[test]
fn default_config() {
    let c = SimulationConfig::default();
    assert_eq!(c.target_steps_per_second, 60);
    assert_eq!(c.simulation_time_multiplier_milli, 1000);
    assert_eq!(c.fidelity, FidelityLevel::Medium);
    assert!(c.real_time_mode);
    assert_eq!(c.time_step(), 16_666_666);
}

#[test]
fn with_fidelity_takes_its_rate() {
    let c = SimulationConfig::default().with_fidelity(FidelityLevel::Low);
    assert_eq!(c.fidelity, FidelityLevel::Low);
    assert_eq!(c.target_steps_per_second, 10);
    assert_eq!(c.time_step(), 100_000_000);
    assert_eq!(c.simulation_time_multiplier_milli, 1000);
}

#[test]
fn time_step_of_rates() {
    let mut c = SimulationConfig::default();
    c.target_steps_per_second = 120;
    assert_eq!(c.time_step(), 8_333_333);
    c.target_steps_per_second = 1;
    assert_eq!(c.time_step(), 1_000_000_000);
    c.target_steps_per_second = u32::MAX;
    assert_eq!(c.time_step(), 0);
}

#[test]
fn packet_holds_its_fields() {
    let p = Packet::new(42, 7, vec![1, 2, 3]);
    assert_eq!(p.simulation_time, 42);
    assert_eq!(p.sequence, 7);
    assert_eq!(p.payload, vec![1, 2, 3]);
    assert_ne!(NetworkRole::Server, NetworkRole::Peer);
}
