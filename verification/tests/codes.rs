use qec_simulator::correction_codes::{BitFlipCode, CorrectionCode, PhaseFlipCode};
use qec_simulator::gates::{Gate, Hadamard};
use qec_simulator::qubit::{Amplitude, Qubit};
use qec_simulator::timing::AverageTime;

const HALF: u64 = 1 << 63;
const ABOVE_HALF: u64 = (1 << 63) + 2048;

fn amp(re: i8, im: i8) -> Amplitude {
    Amplitude { re, im }
}

fn state(scale: u8, zero: (i8, i8), one: (i8, i8)) -> Qubit {
    Qubit::from_parts(scale, amp(zero.0, zero.1), amp(one.0, one.1)).unwrap()
}

fn zero() -> Qubit {
    Qubit::new()
}

fn one() -> Qubit {
    state(0, (0, 0), (1, 0))
}

fn minus_one() -> Qubit {
    state(0, (0, 0), (-1, 0))
}

fn plus() -> Qubit {
    state(1, (1, 0), (1, 0))
}

fn minus() -> Qubit {
    state(1, (1, 0), (-1, 0))
}

#[test]
fn a_new_code_has_average_correction_time_zero() {
    let zero_time = AverageTime { whole_nanos: 0, remainder: 0, samples: 0 };
    assert_eq!(BitFlipCode::new().get_average_correction_time(), zero_time);
    assert_eq!(PhaseFlipCode::new().get_average_correction_time(), zero_time);
}

#[test]
fn bit_flip_code_encodes_zero_as_three_zeros() {
    let code = BitFlipCode::new();
    assert_eq!(code.encode_with(&zero(), u64::MAX, u64::MAX), vec![zero(), zero(), zero()]);
    for _ in 0..200 {
        assert_eq!(code.encode(&zero()), vec![zero(), zero(), zero()]);
    }
}

#[test]
fn bit_flip_code_encodes_one_with_a_measurement_for_each_copy() {
    let code = BitFlipCode::new();
    assert_eq!(code.encode_with(&one(), 2048, 2048), vec![one(), zero(), zero()]);
    assert_eq!(code.encode_with(&one(), 0, 2048), vec![one(), one(), zero()]);
    assert_eq!(code.encode_with(&one(), 2048, 0), vec![one(), zero(), one()]);
    assert_eq!(code.encode_with(&one(), 0, 0), vec![one(), one(), one()]);
}

#[test]
fn bit_flip_code_encodes_a_superposition_by_two_independent_draws() {
    let code = BitFlipCode::new();
    let flipped = plus();
    assert_eq!(code.encode_with(&plus(), HALF, ABOVE_HALF), vec![plus(), plus(), flipped]);
    assert_eq!(
        code.encode_with(&minus(), ABOVE_HALF, HALF),
        vec![minus(), state(1, (-1, 0), (1, 0)), minus()]
    );
}

#[test]
fn bit_flip_code_syndromes_are_the_two_parities() {
    let code = BitFlipCode::new();
    let cases = [
        ([zero(), zero(), zero()], [false, false]),
        ([one(), zero(), zero()], [true, true]),
        ([zero(), one(), zero()], [true, false]),
        ([zero(), zero(), one()], [false, true]),
        ([one(), one(), zero()], [false, true]),
        ([one(), zero(), one()], [true, false]),
        ([zero(), one(), one()], [true, true]),
        ([one(), one(), one()], [false, false]),
    ];
    for (qubits, expected) in cases {
        let mut block = qubits.to_vec();
        let syndromes = code.syndrome_measurement_with(&mut block, 2048, 4096, u64::MAX);
        assert_eq!(syndromes, expected.to_vec());
        assert_eq!(block, qubits.to_vec());
    }
}

#[test]
fn bit_flip_code_syndromes_follow_the_draws() {
    let code = BitFlipCode::new();
    let mut block = vec![one(), one(), one()];
    assert_eq!(code.syndrome_measurement_with(&mut block, 0, 2048, 2048), vec![true, true]);
    assert_eq!(code.syndrome_measurement_with(&mut block, 2048, 0, 2048), vec![true, false]);
    assert_eq!(code.syndrome_measurement_with(&mut block, 2048, 2048, 0), vec![false, true]);
    assert_eq!(code.syndrome_measurement_with(&mut block, 0, 0, 0), vec![false, false]);
    let mut mixed = vec![plus(), minus(), zero()];
    assert_eq!(
        code.syndrome_measurement_with(&mut mixed, ABOVE_HALF, HALF, u64::MAX),
        vec![true, true]
    );
    assert_eq!(mixed, vec![plus(), minus(), zero()]);
}

#[test]
fn bit_flip_code_measures_syndromes_of_basis_states_without_chance() {
    let code = BitFlipCode::new();
    for _ in 0..200 {
        let mut block = vec![zero(), zero(), zero()];
        assert_eq!(code.syndrome_measurement(&mut block), vec![false, false]);
        assert_eq!(block, vec![zero(), zero(), zero()]);
    }
}

#[test]
fn bit_flip_code_corrects_by_the_decision_table() {
    let start = vec![one(), zero(), plus()];
    let cases = [
        (vec![true, true], vec![zero(), zero(), plus()]),
        (vec![true, false], vec![one(), one(), plus()]),
        (vec![false, true], vec![one(), zero(), plus()]),
        (vec![false, false], vec![one(), zero(), plus()]),
    ];
    for (syndromes, expected) in cases {
        let mut code = BitFlipCode::new();
        let mut block = start.clone();
        code.correct(&mut block, syndromes);
        assert_eq!(block, expected);
        assert_eq!(code.get_average_correction_time().samples, 1);
    }
    let mut code = BitFlipCode::new();
    let mut block = vec![zero(), zero(), minus()];
    code.correct(&mut block, vec![false, true]);
    assert_eq!(block, vec![zero(), zero(), state(1, (-1, 0), (1, 0))]);
}

#[test]
fn phase_flip_code_corrects_by_the_decision_table() {
    let start = vec![one(), plus(), minus()];
    let cases = [
        (vec![true, true], vec![minus_one(), plus(), minus()]),
        (vec![true, false], vec![one(), minus(), minus()]),
        (vec![false, true], vec![one(), plus(), plus()]),
        (vec![false, false], vec![one(), plus(), minus()]),
    ];
    for (syndromes, expected) in cases {
        let mut code = PhaseFlipCode::new();
        let mut block = start.clone();
        code.correct(&mut block, syndromes);
        assert_eq!(block, expected);
        assert_eq!(code.get_average_correction_time().samples, 1);
    }
}

#[test]
fn correction_with_fewer_than_two_syndromes_changes_nothing() {
    for syndromes in [vec![], vec![true], vec![false]] {
        let mut bit = BitFlipCode::new();
        let mut block = vec![one(), zero(), plus()];
        bit.correct(&mut block, syndromes.clone());
        assert_eq!(block, vec![one(), zero(), plus()]);
        assert_eq!(bit.get_average_correction_time().samples, 1);
        let mut phase = PhaseFlipCode::new();
        phase.correct(&mut block, syndromes);
        assert_eq!(block, vec![one(), zero(), plus()]);
        assert_eq!(phase.get_average_correction_time().samples, 1);
    }
}

#[test]
fn correction_reads_the_first_two_syndromes() {
    let mut code = BitFlipCode::new();
    let mut block = vec![one(), zero(), zero()];
    code.correct(&mut block, vec![true, true, false]);
    assert_eq!(block, vec![zero(), zero(), zero()]);
    code.correct(&mut block, vec![false, true, true, true]);
    assert_eq!(block, vec![zero(), zero(), one()]);
}

#[test]
fn every_correction_is_timed() {
    let mut code = BitFlipCode::new();
    let mut block = vec![zero(), zero(), zero()];
    for round in 1..=25usize {
        code.correct(&mut block, vec![true, false]);
        let average = code.get_average_correction_time();
        assert_eq!(average.samples, round);
        assert!(average.remainder < round);
    }
    assert_eq!(block, vec![zero(), one(), zero()]);
}

#[test]
fn bit_flip_code_decodes_the_first_qubit() {
    let code = BitFlipCode::new();
    let mut block = vec![zero(), one(), one()];
    assert_eq!(code.decode_with(&mut block, u64::MAX, u64::MAX), zero());
    assert_eq!(block, vec![zero(), one(), one()]);
    let mut flipped = vec![one(), one(), zero()];
    assert_eq!(code.decode_with(&mut flipped, 2048, 0), one());
    assert_eq!(flipped, vec![one(), zero(), zero()]);
    let mut spread = vec![plus(), zero(), one()];
    assert_eq!(code.decode_with(&mut spread, HALF, ABOVE_HALF), plus());
    assert_eq!(spread, vec![plus(), zero(), zero()]);
}

#[test]
fn bit_flip_code_decodes_the_first_qubit_whatever_is_drawn() {
    let code = BitFlipCode::new();
    for _ in 0..200 {
        let mut block = vec![minus(), one(), zero()];
        assert_eq!(code.decode(&mut block), minus());
        assert_eq!(block[0], minus());
    }
}

#[test]
fn phase_flip_code_encodes_in_the_hadamard_basis() {
    let code = PhaseFlipCode::new();
    assert_eq!(code.encode_with(&zero(), HALF, HALF), vec![plus(), plus(), plus()]);
    assert_eq!(code.encode_with(&zero(), ABOVE_HALF, HALF), vec![plus(), minus(), plus()]);
    assert_eq!(code.encode_with(&zero(), HALF, ABOVE_HALF), vec![plus(), plus(), minus()]);
    assert_eq!(
        code.encode_with(&one(), ABOVE_HALF, ABOVE_HALF),
        vec![minus(), plus(), plus()]
    );
    assert_eq!(code.encode_with(&one(), 0, 0), vec![minus(), minus(), minus()]);
}

#[test]
fn phase_flip_code_measures_syndromes_in_the_hadamard_basis() {
    let code = PhaseFlipCode::new();
    let cases = [
        ([plus(), plus(), plus()], [false, false]),
        ([minus(), plus(), plus()], [true, true]),
        ([plus(), minus(), plus()], [true, false]),
        ([plus(), plus(), minus()], [false, true]),
        ([minus(), minus(), minus()], [false, false]),
    ];
    for (qubits, expected) in cases {
        let mut block = qubits.to_vec();
        let syndromes = code.syndrome_measurement_with(&mut block, 2048, 4096, u64::MAX);
        assert_eq!(syndromes, expected.to_vec());
        assert_eq!(block, qubits.to_vec());
    }
    let mut basis = vec![zero(), one(), zero()];
    assert_eq!(
        code.syndrome_measurement_with(&mut basis, ABOVE_HALF, HALF, HALF),
        vec![true, true]
    );
    assert_eq!(basis, vec![zero(), one(), zero()]);
}

#[test]
fn phase_flip_code_leaves_the_block_as_it_was_after_measuring() {
    let code = PhaseFlipCode::new();
    for _ in 0..200 {
        let mut block = vec![plus(), state(2, (1, 1), (1, -1)), one()];
        let syndromes = code.syndrome_measurement(&mut block);
        assert_eq!(syndromes.len(), 2);
        assert_eq!(block, vec![plus(), state(2, (1, 1), (1, -1)), one()]);
    }
}

#[test]
fn phase_flip_code_decodes_the_first_qubit_through_two_hadamard_gates() {
    let code = PhaseFlipCode::new();
    let mut block = vec![plus(), minus(), plus()];
    assert_eq!(code.decode_with(&mut block, 2048, 0), plus());
    assert_eq!(block, vec![zero(), one(), zero()]);
    let mut other = vec![minus(), minus(), plus()];
    assert_eq!(code.decode_with(&mut other, 2048, 0), minus());
    assert_eq!(other, vec![one(), zero(), zero()]);
    for _ in 0..200 {
        let mut again = vec![minus(), plus(), plus()];
        assert_eq!(code.decode(&mut again), minus());
        assert_eq!(again[0], one());
    }
}

#[test]
fn phase_flip_code_returns_what_came_in_turned_by_a_hadamard_gate() {
    let mut code = PhaseFlipCode::new();
    for data in [zero(), one()] {
        for (first, second) in [(HALF, HALF), (ABOVE_HALF, HALF), (ABOVE_HALF, ABOVE_HALF)] {
            let mut block = code.encode_with(&data, first, second);
            let syndromes = code.syndrome_measurement_with(&mut block, 2048, 2048, 2048);
            let both = syndromes == vec![true, true];
            code.correct(&mut block, syndromes);
            let decoded = code.decode_with(&mut block, 7, 9);
            let mut turned = data;
            Hadamard.apply(&mut turned);
            if both {
                turned.apply_phase_flip();
            }
            assert_eq!(decoded, turned);
            assert_ne!(decoded, data);
        }
    }
}

#[test]
fn bit_flip_code_repairs_one_flipped_qubit() {
    for position in 0..3 {
        let mut code = BitFlipCode::new();
        let mut block = vec![zero(), zero(), zero()];
        block[position] = one();
        let syndromes = code.syndrome_measurement_with(&mut block, 2048, u64::MAX, 4096);
        assert_eq!(syndromes, vec![position < 2, position != 1]);
        code.correct(&mut block, syndromes);
        assert_eq!(block, vec![zero(), zero(), zero()]);
    }
}

#[test]
fn bit_flip_code_misses_a_flip_whose_measurement_draws_zero() {
    for position in 0..3 {
        let mut code = BitFlipCode::new();
        let mut block = vec![zero(), zero(), zero()];
        block[position] = one();
        let struck = block.clone();
        let syndromes = code.syndrome_measurement_with(&mut block, 0, 2047, 1);
        assert_eq!(syndromes, vec![false, false]);
        code.correct(&mut block, syndromes);
        assert_eq!(block, struck);
    }
}

#[test]
fn phase_flip_code_repairs_one_flipped_phase() {
    for position in 0..3 {
        let mut code = PhaseFlipCode::new();
        let mut block = vec![plus(), plus(), plus()];
        block[position] = minus();
        let syndromes = code.syndrome_measurement_with(&mut block, 2048, u64::MAX, 4096);
        assert_eq!(syndromes, vec![position < 2, position != 1]);
        code.correct(&mut block, syndromes);
        assert_eq!(block, vec![plus(), plus(), plus()]);
    }
}
