use qec_simulator::config::{ConfigError, Fraction};
use qec_simulator::correction_codes::{BitFlipCode, CorrectionCode, PhaseFlipCode};
use qec_simulator::error_models::{BitFlipNoise, PhaseFlipNoise};
use qec_simulator::simulation::{Simulation, TrialDraws};

fn fraction(numer: u64, denom: u64) -> Fraction {
    Fraction::new(numer, denom).unwrap()
}

fn draws(noise: u64, encode: (u64, u64), syndrome: (u64, u64, u64)) -> TrialDraws {
    TrialDraws { noise, encode, syndrome, decode: (12345, 67890) }
}

#[test]
fn a_simulation_of_zero_runs_is_rejected() {
    let made = Simulation::new(BitFlipNoise::new(fraction(1, 10)), BitFlipCode::new(), 0);
    assert!(matches!(made, Err(ConfigError::NoRuns)));
    let other = Simulation::new(PhaseFlipNoise::new(fraction(1, 10)), PhaseFlipCode::new(), 0);
    assert!(matches!(other, Err(ConfigError::NoRuns)));
}

#[test]
fn a_simulation_keeps_its_number_of_runs() {
    let sim = Simulation::new(BitFlipNoise::new(fraction(1, 10)), BitFlipCode::new(), 17).unwrap();
    assert_eq!(sim.num_runs(), 17);
    assert_eq!(sim.correction_code().get_average_correction_time().samples, 0);
}

#[test]
fn bit_flip_code_without_noise_succeeds_in_all_of_100_runs() {
    let mut sim =
        Simulation::new(BitFlipNoise::new(fraction(0, 1)), BitFlipCode::new(), 100).unwrap();
    let result = sim.run();
    assert_eq!(result.success_rate.numer(), 100);
    assert_eq!(result.success_rate.denom(), 100);
    assert_eq!(result.error_rate.numer(), 0);
    assert_eq!(result.error_rate.denom(), 100);
    assert_eq!(result.average_correction_time.samples, 100);
}

#[test]
fn bit_flip_code_with_certain_noise_succeeds_in_all_of_100_runs() {
    let mut sim =
        Simulation::new(BitFlipNoise::new(fraction(1, 1)), BitFlipCode::new(), 100).unwrap();
    let result = sim.run();
    assert_eq!(result.success_rate.numer(), 100);
    assert_eq!(result.success_rate.denom(), 100);
    assert_eq!(result.error_rate.numer(), 0);
}

#[test]
fn bit_flip_code_without_noise_succeeds_for_any_number_of_runs() {
    for runs in [1usize, 2, 3, 10, 57, 500] {
        let mut sim =
            Simulation::new(BitFlipNoise::new(fraction(0, 7)), BitFlipCode::new(), runs).unwrap();
        let result = sim.run();
        assert_eq!(result.success_rate.numer(), runs as u64);
        assert_eq!(result.success_rate.denom(), runs as u64);
        assert_eq!(result.error_rate.numer(), 0);
    }
}

#[test]
fn bit_flip_code_succeeds_under_any_bit_flip_noise() {
    for numer in [1u64, 3, 5, 9] {
        let mut sim =
            Simulation::new(BitFlipNoise::new(fraction(numer, 10)), BitFlipCode::new(), 300)
                .unwrap();
        let result = sim.run();
        assert_eq!(result.success_rate.numer(), 300);
        assert_eq!(result.error_rate.numer(), 0);
    }
}

#[test]
fn bit_flip_code_succeeds_under_phase_flip_noise() {
    let mut sim =
        Simulation::new(PhaseFlipNoise::new(fraction(1, 2)), BitFlipCode::new(), 200).unwrap();
    let result = sim.run();
    assert_eq!(result.success_rate.numer(), 200);
    assert_eq!(result.error_rate.numer(), 0);
}

#[test]
fn phase_flip_code_without_noise_returns_the_qubit_in_the_hadamard_basis() {
    let mut sim =
        Simulation::new(PhaseFlipNoise::new(fraction(0, 1)), PhaseFlipCode::new(), 50).unwrap();
    let result = sim.run();
    assert_eq!(result.success_rate.numer(), 0);
    assert_eq!(result.success_rate.denom(), 50);
    assert_eq!(result.error_rate.numer(), 50);
    assert_eq!(result.error_rate.denom(), 50);
    assert_eq!(result.average_correction_time.samples, 50);
}

#[test]
fn phase_flip_code_fails_under_any_noise() {
    let mut phase =
        Simulation::new(PhaseFlipNoise::new(fraction(1, 1)), PhaseFlipCode::new(), 100).unwrap();
    assert_eq!(phase.run().success_rate.numer(), 0);
    let mut bit =
        Simulation::new(BitFlipNoise::new(fraction(1, 2)), PhaseFlipCode::new(), 100).unwrap();
    assert_eq!(bit.run().success_rate.numer(), 0);
}

#[test]
fn the_rates_add_up_to_one() {
    let mut sim =
        Simulation::new(BitFlipNoise::new(fraction(1, 3)), PhaseFlipCode::new(), 64).unwrap();
    let result = sim.run();
    assert_eq!(result.success_rate.denom(), 64);
    assert_eq!(result.error_rate.denom(), 64);
    assert_eq!(result.success_rate.numer() + result.error_rate.numer(), 64);
}

#[test]
fn the_code_keeps_its_log_across_runs() {
    let mut sim =
        Simulation::new(BitFlipNoise::new(fraction(1, 2)), BitFlipCode::new(), 40).unwrap();
    let first = sim.run();
    assert_eq!(first.average_correction_time.samples, 40);
    let second = sim.run();
    assert_eq!(second.average_correction_time.samples, 80);
    assert_eq!(sim.correction_code().get_average_correction_time(), second.average_correction_time);
    assert!(sim.run_trial_with(&draws(u64::MAX, (0, 0), (0, 0, 0))));
    assert_eq!(sim.correction_code().get_average_correction_time().samples, 81);
    assert_eq!(sim.num_runs(), 40);
}

#[test]
fn a_trial_without_a_flip_succeeds_on_any_draws() {
    let mut sim =
        Simulation::new(BitFlipNoise::new(fraction(1, 2)), BitFlipCode::new(), 1).unwrap();
    let no_flip = 1u64 << 63;
    assert!(sim.run_trial_with(&draws(no_flip, (0, 0), (0, 0, 0))));
    assert!(sim.run_trial_with(&draws(no_flip, (u64::MAX, 0), (u64::MAX, 0, u64::MAX))));
    assert!(sim.run_trial_with(&draws(u64::MAX, (2048, 2048), (2048, 2048, 2048))));
}

#[test]
fn a_trial_with_a_flip_succeeds_when_the_measurements_find_it() {
    let mut sim =
        Simulation::new(BitFlipNoise::new(fraction(1, 1)), BitFlipCode::new(), 1).unwrap();
    assert!(sim.run_trial_with(&draws(0, (2048, 2048), (2048, 0, 0))));
    assert!(sim.run_trial_with(&draws(u64::MAX, (u64::MAX, 2048), (u64::MAX, u64::MAX, 5))));
    assert!(sim.run_trial_with(&draws(7, (0, 0), (0, 2048, 2048))));
}

#[test]
fn a_trial_with_a_flip_fails_when_a_measurement_of_one_draws_zero() {
    let mut sim =
        Simulation::new(BitFlipNoise::new(fraction(1, 1)), BitFlipCode::new(), 1).unwrap();
    assert!(!sim.run_trial_with(&draws(0, (0, 0), (0, 0, 0))));
    assert!(!sim.run_trial_with(&draws(0, (2048, 2048), (0, 2048, 2048))));
    assert!(!sim.run_trial_with(&draws(0, (0, 2048), (2048, 2048, 2048))));
    assert!(!sim.run_trial_with(&draws(0, (2048, 0), (2048, 2048, 2048))));
    assert!(!sim.run_trial_with(&draws(0, (0, 0), (2047, 2048, 0))));
}

#[test]
fn a_trial_of_the_phase_flip_code_fails_on_any_draws() {
    let mut sim =
        Simulation::new(PhaseFlipNoise::new(fraction(1, 2)), PhaseFlipCode::new(), 1).unwrap();
    let half = 1u64 << 63;
    for noise in [0, half] {
        for encode in [(half, half), (half + 2048, half), (u64::MAX, u64::MAX)] {
            for syndrome in [(0, 0, 0), (2048, 2048, 2048), (0, u64::MAX, 0)] {
                assert!(!sim.run_trial_with(&draws(noise, encode, syndrome)));
            }
        }
    }
}
