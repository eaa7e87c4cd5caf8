//! The three-qubit repetition codes: encode, measure the syndromes, correct,
//! decode.

use std::time::Instant;
use vstd::prelude::*;
use crate::gates::{
    hadamard_is_involution, hadamard_of_basis_states, minus, plus, Gate, Hadamard, PauliX, PauliZ,
    CNOT,
};
use crate::qubit::{measuring_basis_states, Qubit};
use crate::random::{draw_of, random_word};
use crate::timing::{average, mean_of, nanos_since, AverageTime};

verus! {

/// A code that protects one logical qubit in a block of three.
///
/// A trial goes through `encode`, `syndrome_measurement`, `correct` and `decode`,
/// in this order. The steps that measure come in two forms: one that draws its
/// random numbers itself, and one, named `.._with`, that is given the random
/// words and is a function of them.
pub trait CorrectionCode {
    /// The times that `correct` has taken so far, in nanoseconds, oldest first.
    spec fn log(&self) -> Seq<u128>;

    /// The block that encodes `data`, when the two controlled gates draw `first`
    /// and `second`.
    spec fn encoded(data: Qubit, first: u64, second: u64) -> Seq<Qubit>;

    /// The two parity checks of `block`, when the measurements of its three
    /// qubits draw `w0`, `w1` and `w2`.
    spec fn syndromes(block: Seq<Qubit>, w0: u64, w1: u64, w2: u64) -> Seq<bool>;

    /// The block after the correction that the syndromes call for.
    spec fn corrected(block: Seq<Qubit>, syndromes: Seq<bool>) -> Seq<Qubit>;

    /// The logical qubit that `block` decodes to.
    spec fn decoded(block: Seq<Qubit>) -> Qubit;

    /// The block that decoding leaves behind, when its two controlled gates draw
    /// `first` and `second`.
    spec fn released(block: Seq<Qubit>, first: u64, second: u64) -> Seq<Qubit>;

    /// Encodes `data` into a block of three qubits, with the given random words.
    fn encode_with(&self, data: &Qubit, first: u64, second: u64) -> (block: Vec<Qubit>)
        ensures
            block@.len() == 3,
            block@ == Self::encoded(*data, first, second),
    ;

    /// Encodes `data` into a block of three qubits.
    fn encode(&self, data: &Qubit) -> (block: Vec<Qubit>)
        ensures
            block@.len() == 3,
            exists|first: u64, second: u64|
                block@ == #[trigger] Self::encoded(*data, first, second),
    ;

    /// Measures each qubit of the block once, with the given random words, and
    /// returns the two parity checks. The block is left as it was.
    fn syndrome_measurement_with(
        &self,
        block: &mut Vec<Qubit>,
        w0: u64,
        w1: u64,
        w2: u64,
    ) -> (syndromes: Vec<bool>)
        requires
            old(block)@.len() == 3,
        ensures
            final(block)@ == old(block)@,
            syndromes@.len() == 2,
            syndromes@ == Self::syndromes(old(block)@, w0, w1, w2),
    ;

    /// Measures each qubit of the block once and returns the two parity checks.
    /// The block is left as it was.
    fn syndrome_measurement(&self, block: &mut Vec<Qubit>) -> (syndromes: Vec<bool>)
        requires
            old(block)@.len() == 3,
        ensures
            final(block)@ == old(block)@,
            syndromes@.len() == 2,
            exists|w0: u64, w1: u64, w2: u64|
                syndromes@ == #[trigger] Self::syndromes(old(block)@, w0, w1, w2),
    ;

    /// Applies the correction that the syndromes call for and records how long
    /// that took. With fewer than two syndromes the block is left as it is; the
    /// time is recorded all the same.
    fn correct(&mut self, block: &mut Vec<Qubit>, syndromes: Vec<bool>)
        requires
            old(block)@.len() == 3,
        ensures
            final(block)@.len() == 3,
            final(block)@ == Self::corrected(old(block)@, syndromes@),
            final(self).log().len() == old(self).log().len() + 1,
            final(self).log().drop_last() == old(self).log(),
    ;

    /// Decodes the block to the logical qubit, with the given random words.
    fn decode_with(&self, block: &mut Vec<Qubit>, first: u64, second: u64) -> (logical: Qubit)
        requires
            old(block)@.len() == 3,
        ensures
            logical == Self::decoded(old(block)@),
            final(block)@ == Self::released(old(block)@, first, second),
    ;

    /// Decodes the block to the logical qubit. What is drawn changes only what
    /// is left of the block.
    fn decode(&self, block: &mut Vec<Qubit>) -> (logical: Qubit)
        requires
            old(block)@.len() == 3,
        ensures
            logical == Self::decoded(old(block)@),
            exists|first: u64, second: u64|
                final(block)@ == #[trigger] Self::released(old(block)@, first, second),
    ;

    /// The arithmetic mean of the recorded correction times, and zero if none
    /// was recorded.
    fn get_average_correction_time(&self) -> (average: AverageTime)
        ensures
            average == mean_of(self.log()),
    ;
}

/// The two parity checks of three measurement outcomes: the first against the
/// second, and the first against the third.
pub open spec fn parities(r0: bool, r1: bool, r2: bool) -> Seq<bool> {
    seq![r0 != r1, r0 != r2]
}

/// The block with the qubit that the syndromes point at replaced by its image
/// under `flip`: both set, qubit 0; the first alone, qubit 1; the second alone,
/// qubit 2; none, or fewer than two syndromes, no qubit.
pub open spec fn repaired<G: Gate>(flip: G, block: Seq<Qubit>, syndromes: Seq<bool>) -> Seq<Qubit> {
    if syndromes.len() < 2 {
        block
    } else if syndromes[0] && syndromes[1] {
        block.update(0, flip.image(block[0]))
    } else if syndromes[0] {
        block.update(1, flip.image(block[1]))
    } else if syndromes[1] {
        block.update(2, flip.image(block[2]))
    } else {
        block
    }
}

/// Applies `flip` to the qubit that the syndromes point at.
fn repair<G: Gate>(flip: &G, block: &mut Vec<Qubit>, syndromes: &Vec<bool>)
    requires
        old(block)@.len() == 3,
    ensures
        final(block)@ == repaired(*flip, old(block)@, syndromes@),
{
    if syndromes.len() >= 2 {
        if syndromes[0] && syndromes[1] {
            flip.apply(&mut block[0]);
        } else if syndromes[0] {
            flip.apply(&mut block[1]);
        } else if syndromes[1] {
            flip.apply(&mut block[2]);
        }
    }
}

/// The three-qubit bit-flip code: protects against one `PauliX` error.
pub struct BitFlipCode {
    correction_time: Vec<u128>,
}

/// The three-qubit phase-flip code: the bit-flip code in the Hadamard basis,
/// with `PauliZ` as its correction.
pub struct PhaseFlipCode {
    correction_time: Vec<u128>,
}

impl BitFlipCode {
    /// A code that has recorded no correction yet.
    pub fn new() -> (code: Self)
        ensures
            code.log() == Seq::<u128>::empty(),
    {
        Self { correction_time: Vec::new() }
    }
}

impl PhaseFlipCode {
    /// A code that has recorded no correction yet.
    pub fn new() -> (code: Self)
        ensures
            code.log() == Seq::<u128>::empty(),
    {
        Self { correction_time: Vec::new() }
    }
}

impl CorrectionCode for BitFlipCode {
    closed spec fn log(&self) -> Seq<u128> {
        self.correction_time@
    }

    /// Three copies of `data`; the second and the third are flipped when a
    /// measurement of the first gives `|1>`, each on a measurement of its own.
    open spec fn encoded(data: Qubit, first: u64, second: u64) -> Seq<Qubit> {
        seq![data, CNOT::image(data, data, first), CNOT::image(data, data, second)]
    }

    open spec fn syndromes(block: Seq<Qubit>, w0: u64, w1: u64, w2: u64) -> Seq<bool> {
        parities(
            block[0].measures_one(w0),
            block[1].measures_one(w1),
            block[2].measures_one(w2),
        )
    }

    open spec fn corrected(block: Seq<Qubit>, syndromes: Seq<bool>) -> Seq<Qubit> {
        repaired(PauliX, block, syndromes)
    }

    open spec fn decoded(block: Seq<Qubit>) -> Qubit {
        block[0]
    }

    open spec fn released(block: Seq<Qubit>, first: u64, second: u64) -> Seq<Qubit> {
        seq![
            block[0],
            CNOT::image(block[0], block[1], first),
            CNOT::image(block[0], block[2], second),
        ]
    }

    fn encode_with(&self, data: &Qubit, first: u64, second: u64) -> (block: Vec<Qubit>) {
        let mut block = vec![*data, *data, *data];
        let mut control = block[0];
        CNOT::apply_with(&mut control, &mut block[1], first);
        CNOT::apply_with(&mut control, &mut block[2], second);
        block
    }

    fn encode(&self, data: &Qubit) -> (block: Vec<Qubit>) {
        let first: u64 = random_word();
        let second: u64 = random_word();
        self.encode_with(data, first, second)
    }

    fn syndrome_measurement_with(
        &self,
        block: &mut Vec<Qubit>,
        w0: u64,
        w1: u64,
        w2: u64,
    ) -> (syndromes: Vec<bool>) {
        let r0 = block[0].measure_with(w0);
        let r1 = block[1].measure_with(w1);
        let r2 = block[2].measure_with(w2);
        vec![r0 ^ r1, r0 ^ r2]
    }

    fn syndrome_measurement(&self, block: &mut Vec<Qubit>) -> (syndromes: Vec<bool>) {
        let w0: u64 = random_word();
        let w1: u64 = random_word();
        let w2: u64 = random_word();
        self.syndrome_measurement_with(block, w0, w1, w2)
    }

    fn correct(&mut self, block: &mut Vec<Qubit>, syndromes: Vec<bool>) {
        let start = Instant::now();
        repair(&PauliX, block, &syndromes);
        let nanos: u128 = nanos_since(&start);
        self.correction_time.push(nanos);
        assert(self.correction_time@.drop_last() == old(self).correction_time@);
    }

    fn decode_with(&self, block: &mut Vec<Qubit>, first: u64, second: u64) -> (logical: Qubit) {
        let mut logical = block[0];
        CNOT::apply_with(&mut logical, &mut block[1], first);
        CNOT::apply_with(&mut logical, &mut block[2], second);
        logical
    }

    fn decode(&self, block: &mut Vec<Qubit>) -> (logical: Qubit) {
        let first: u64 = random_word();
        let second: u64 = random_word();
        self.decode_with(block, first, second)
    }

    fn get_average_correction_time(&self) -> (average: AverageTime) {
        average(&self.correction_time)
    }
}

/// The block with the Hadamard gate applied to each of its three qubits.
pub open spec fn rotated(block: Seq<Qubit>) -> Seq<Qubit> {
    seq![Hadamard.image(block[0]), Hadamard.image(block[1]), Hadamard.image(block[2])]
}

/// Applies the Hadamard gate to each of the three qubits of the block.
fn rotate(block: &mut Vec<Qubit>)
    requires
        old(block)@.len() == 3,
    ensures
        final(block)@ == rotated(old(block)@),
{
    Hadamard.apply(&mut block[0]);
    Hadamard.apply(&mut block[1]);
    Hadamard.apply(&mut block[2]);
}

/// The target of a controlled phase flip, built from the controlled bit flip
/// between two Hadamard gates.
pub open spec fn controlled_phase(control: Qubit, target: Qubit, word: u64) -> Qubit {
    Hadamard.image(CNOT::image(control, Hadamard.image(target), word))
}

impl CorrectionCode for PhaseFlipCode {
    closed spec fn log(&self) -> Seq<u128> {
        self.correction_time@
    }

    /// Three copies of `data` in the Hadamard basis; the second and the third
    /// then go through a controlled phase flip with the first as control.
    open spec fn encoded(data: Qubit, first: u64, second: u64) -> Seq<Qubit> {
        let plus = Hadamard.image(data);
        seq![plus, controlled_phase(plus, plus, first), controlled_phase(plus, plus, second)]
    }

    /// The parity checks of the block as measured in the Hadamard basis.
    open spec fn syndromes(block: Seq<Qubit>, w0: u64, w1: u64, w2: u64) -> Seq<bool> {
        parities(
            Hadamard.image(block[0]).measures_one(w0),
            Hadamard.image(block[1]).measures_one(w1),
            Hadamard.image(block[2]).measures_one(w2),
        )
    }

    open spec fn corrected(block: Seq<Qubit>, syndromes: Seq<bool>) -> Seq<Qubit> {
        repaired(PauliZ, block, syndromes)
    }

    /// The first qubit of the block after two Hadamard gates: one with the whole
    /// block, one of its own.
    open spec fn decoded(block: Seq<Qubit>) -> Qubit {
        Hadamard.image(Hadamard.image(block[0]))
    }

    open spec fn released(block: Seq<Qubit>, first: u64, second: u64) -> Seq<Qubit> {
        let turned = rotated(block);
        seq![
            turned[0],
            CNOT::image(turned[0], turned[1], first),
            CNOT::image(turned[0], turned[2], second),
        ]
    }

    fn encode_with(&self, data: &Qubit, first: u64, second: u64) -> (block: Vec<Qubit>) {
        let mut block = vec![*data, *data, *data];
        rotate(&mut block);
        let mut control = block[0];
        Hadamard.apply(&mut block[1]);
        CNOT::apply_with(&mut control, &mut block[1], first);
        Hadamard.apply(&mut block[1]);
        Hadamard.apply(&mut block[2]);
        CNOT::apply_with(&mut control, &mut block[2], second);
        Hadamard.apply(&mut block[2]);
        block
    }

    fn encode(&self, data: &Qubit) -> (block: Vec<Qubit>) {
        let first: u64 = random_word();
        let second: u64 = random_word();
        self.encode_with(data, first, second)
    }

    fn syndrome_measurement_with(
        &self,
        block: &mut Vec<Qubit>,
        w0: u64,
        w1: u64,
        w2: u64,
    ) -> (syndromes: Vec<bool>) {
        let q0 = block[0];
        let q1 = block[1];
        let q2 = block[2];
        proof {
            use_type_invariant(&q0);
            use_type_invariant(&q1);
            use_type_invariant(&q2);
            hadamard_is_involution(q0);
            hadamard_is_involution(q1);
            hadamard_is_involution(q2);
        }
        rotate(block);
        let r0 = block[0].measure_with(w0);
        let r1 = block[1].measure_with(w1);
        let r2 = block[2].measure_with(w2);
        rotate(block);
        vec![r0 ^ r1, r0 ^ r2]
    }

    fn syndrome_measurement(&self, block: &mut Vec<Qubit>) -> (syndromes: Vec<bool>) {
        let w0: u64 = random_word();
        let w1: u64 = random_word();
        let w2: u64 = random_word();
        self.syndrome_measurement_with(block, w0, w1, w2)
    }

    fn correct(&mut self, block: &mut Vec<Qubit>, syndromes: Vec<bool>) {
        let start = Instant::now();
        repair(&PauliZ, block, &syndromes);
        let nanos: u128 = nanos_since(&start);
        self.correction_time.push(nanos);
        assert(self.correction_time@.drop_last() == old(self).correction_time@);
    }

    fn decode_with(&self, block: &mut Vec<Qubit>, first: u64, second: u64) -> (logical: Qubit) {
        rotate(block);
        let mut logical = block[0];
        CNOT::apply_with(&mut logical, &mut block[1], first);
        CNOT::apply_with(&mut logical, &mut block[2], second);
        Hadamard.apply(&mut logical);
        logical
    }

    fn decode(&self, block: &mut Vec<Qubit>) -> (logical: Qubit) {
        let first: u64 = random_word();
        let second: u64 = random_word();
        self.decode_with(block, first, second)
    }

    fn get_average_correction_time(&self) -> (average: AverageTime) {
        average(&self.correction_time)
    }
}

/// The bit-flip code repairs one flipped qubit. In a block of three `|0>` of
/// which the qubit at `position` was flipped to `|1>`, the syndromes point at that
/// qubit and the correction restores the block, provided that the measurement of
/// the flipped qubit does not draw exactly zero.
pub proof fn bit_flip_code_repairs_one_flip(position: int, w0: u64, w1: u64, w2: u64)
    requires
        0 <= position < 3,
        draw_of(if position == 0 { w0 } else if position == 1 { w1 } else { w2 }) > 0,
    ensures
        ({
            let sound = seq![Qubit::ground(), Qubit::ground(), Qubit::ground()];
            let struck = sound.update(position, PauliX.image(Qubit::ground()));
            BitFlipCode::corrected(struck, BitFlipCode::syndromes(struck, w0, w1, w2)) == sound
        }),
{
    measuring_basis_states(w0);
    measuring_basis_states(w1);
    measuring_basis_states(w2);
    let sound = seq![Qubit::ground(), Qubit::ground(), Qubit::ground()];
    let struck = sound.update(position, PauliX.image(Qubit::ground()));
    let syndromes = BitFlipCode::syndromes(struck, w0, w1, w2);
    assert(syndromes[0] == (position == 0 || position == 1));
    assert(syndromes[1] == (position == 0 || position == 2));
    assert(PauliX.image(PauliX.image(Qubit::ground())) == Qubit::ground());
    assert(BitFlipCode::corrected(struck, syndromes) =~= sound);
}

/// The phase-flip code repairs one flipped phase. In a block of three `plus()`
/// of which the qubit at `position` had its phase flipped to `minus()`, the
/// syndromes point at that qubit and the correction restores the block, provided
/// that the measurement of the flipped qubit does not draw exactly zero.
pub proof fn phase_flip_code_repairs_one_flip(position: int, w0: u64, w1: u64, w2: u64)
    requires
        0 <= position < 3,
        draw_of(if position == 0 { w0 } else if position == 1 { w1 } else { w2 }) > 0,
    ensures
        ({
            let sound = seq![plus(), plus(), plus()];
            let struck = sound.update(position, PauliZ.image(plus()));
            PhaseFlipCode::corrected(struck, PhaseFlipCode::syndromes(struck, w0, w1, w2)) == sound
        }),
{
    measuring_basis_states(w0);
    measuring_basis_states(w1);
    measuring_basis_states(w2);
    hadamard_of_basis_states();
    let sound = seq![plus(), plus(), plus()];
    assert(PauliZ.image(plus()) == minus());
    assert(PauliZ.image(minus()) == plus());
    let struck = sound.update(position, PauliZ.image(plus()));
    let syndromes = PhaseFlipCode::syndromes(struck, w0, w1, w2);
    assert(syndromes[0] == (position == 0 || position == 1));
    assert(syndromes[1] == (position == 0 || position == 2));
    assert(PhaseFlipCode::corrected(struck, syndromes) =~= sound);
}

} // verus!
