use delta_pico_sim::clock::{next_reading, Clock};
use delta_pico_sim::simulator::{Simulator, SimulatorConfig};

#[test]
fn millis_never_decrease() {
    let mut s = Simulator::new(SimulatorConfig { run_tests: false, fuzz: false });
    let mut last_ms = 0u64;
    let mut last_us = 0u64;
    for _ in 0..1000 {
        let ms = s.millis();
        assert!(ms >= last_ms);
        last_ms = ms;
        let us = s.micros();
        assert!(us >= last_us);
        assert!(us / 1000 >= ms);
        last_us = us;
    }
}

#[test]
fn millis_is_micros_over_thousand() {
    let mut c = Clock::new();
    let us = c.micros();
    let ms = c.millis();
    assert!(ms >= us / 1000);
    let us2 = c.micros();
    assert!(us2 / 1000 >= ms);
}

#[test]
fn next_reading_keeps_monotone_and_caps() {
    assert_eq!(next_reading(0, 1500), 1500);
    assert_eq!(next_reading(2000, 1500), 2000);
    assert_eq!(next_reading(5, u128::MAX), u64::MAX);
    assert_eq!(next_reading(7, u64::MAX as u128 + 1), u64::MAX);
    assert_eq!(next_reading(7, u64::MAX as u128), u64::MAX);
}

#[test]
fn hardware_revision_names_simulator() {
    let s = Simulator::new(SimulatorConfig { run_tests: false, fuzz: false });
    assert_eq!(s.hardware_revision(), "Simulator");
}

#[test]
fn memory_usage_is_placeholder() {
    let s = Simulator::new(SimulatorConfig { run_tests: false, fuzz: false });
    assert_eq!(s.memory_usage(), (0, 0));
}

#[test]
fn should_run_tests_follows_config() {
    let mut on = Simulator::new(SimulatorConfig { run_tests: true, fuzz: false });
    assert!(on.should_run_tests());
    assert!(!on.is_fuzzing());
    let mut off = Simulator::new(SimulatorConfig { run_tests: false, fuzz: true });
    assert!(!off.should_run_tests());
    assert!(off.is_fuzzing());
}
