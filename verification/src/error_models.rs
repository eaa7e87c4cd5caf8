//! Noise: a single error that strikes a qubit with a given probability.

use vstd::prelude::*;
use crate::config::{one_always_occurs, zero_never_occurs, Fraction};
use crate::gates::{Gate, PauliX, PauliZ};
use crate::qubit::Qubit;
use crate::random::random_word;

verus! {

/// A noise channel on one qubit: one Bernoulli trial per call.
pub trait ErrorModel {
    /// The state that the noise leaves `q` in when it draws `word`.
    spec fn perturbed(&self, q: Qubit, word: u64) -> Qubit;

    /// Applies the noise to `qubit` with the draw that `word` stands for.
    fn apply_error_with(&self, qubit: &mut Qubit, word: u64)
        ensures
            *final(qubit) == self.perturbed(*old(qubit), word),
    ;

    /// Draws one uniform random number in `[0, 1)` and applies the noise with it.
    fn apply_error(&self, qubit: &mut Qubit)
        ensures
            exists|word: u64| *final(qubit) == #[trigger] self.perturbed(*old(qubit), word),
    ;
}

/// Flips the bit with the given probability: applies `PauliX` when the draw is
/// below it.
pub struct BitFlipNoise {
    probability: Fraction,
}

/// Flips the phase with the given probability: applies `PauliZ` when the draw is
/// below it.
pub struct PhaseFlipNoise {
    probability: Fraction,
}

impl PhaseFlipNoise {
    /// The probability of a phase flip.
    pub closed spec fn spec_probability(&self) -> Fraction {
        self.probability
    }

    /// Noise that flips the phase with the given probability.
    pub fn new(probability: Fraction) -> (noise: Self)
        ensures
            noise.spec_probability() == probability,
    {
        Self { probability }
    }

    /// The probability of a phase flip.
    pub fn probability(&self) -> (probability: Fraction)
        ensures
            probability == self.spec_probability(),
    {
        self.probability
    }
}

impl BitFlipNoise {
    /// The probability of a bit flip.
    pub closed spec fn spec_probability(&self) -> Fraction {
        self.probability
    }

    /// Noise that flips the bit with the given probability.
    pub fn new(probability: Fraction) -> (noise: Self)
        ensures
            noise.spec_probability() == probability,
    {
        Self { probability }
    }

    /// The probability of a bit flip.
    pub fn probability(&self) -> (probability: Fraction)
        ensures
            probability == self.spec_probability(),
    {
        self.probability
    }
}

impl ErrorModel for BitFlipNoise {
    open spec fn perturbed(&self, q: Qubit, word: u64) -> Qubit {
        if self.spec_probability().occurs(word) {
            PauliX.image(q)
        } else {
            q
        }
    }

    fn apply_error_with(&self, qubit: &mut Qubit, word: u64) {
        if self.probability.occurs_on(word) {
            PauliX.apply(qubit);
        }
    }

    fn apply_error(&self, qubit: &mut Qubit) {
        let word: u64 = random_word();
        self.apply_error_with(qubit, word);
    }
}

impl ErrorModel for PhaseFlipNoise {
    open spec fn perturbed(&self, q: Qubit, word: u64) -> Qubit {
        if self.spec_probability().occurs(word) {
            PauliZ.image(q)
        } else {
            q
        }
    }

    fn apply_error_with(&self, qubit: &mut Qubit, word: u64) {
        if self.probability.occurs_on(word) {
            PauliZ.apply(qubit);
        }
    }

    fn apply_error(&self, qubit: &mut Qubit) {
        let word: u64 = random_word();
        self.apply_error_with(qubit, word);
    }
}

/// Bit-flip noise of probability zero changes no state, whatever is drawn.
pub proof fn zero_bit_flip_noise_changes_nothing(noise: BitFlipNoise, q: Qubit, word: u64)
    requires
        noise.spec_probability().wf(),
        noise.spec_probability().spec_numer() == 0,
    ensures
        noise.perturbed(q, word) == q,
{
    zero_never_occurs(noise.spec_probability(), word);
}

/// Phase-flip noise of probability zero changes no state, whatever is drawn.
pub proof fn zero_phase_flip_noise_changes_nothing(noise: PhaseFlipNoise, q: Qubit, word: u64)
    requires
        noise.spec_probability().wf(),
        noise.spec_probability().spec_numer() == 0,
    ensures
        noise.perturbed(q, word) == q,
{
    zero_never_occurs(noise.spec_probability(), word);
}

/// Bit-flip noise of probability one flips the bit on every draw.
pub proof fn certain_bit_flip_noise_flips(noise: BitFlipNoise, q: Qubit, word: u64)
    requires
        noise.spec_probability().wf(),
        noise.spec_probability().spec_numer() == noise.spec_probability().spec_denom(),
    ensures
        noise.perturbed(q, word) == PauliX.image(q),
{
    one_always_occurs(noise.spec_probability(), word);
}

/// Phase-flip noise of probability one flips the phase on every draw.
pub proof fn certain_phase_flip_noise_flips(noise: PhaseFlipNoise, q: Qubit, word: u64)
    requires
        noise.spec_probability().wf(),
        noise.spec_probability().spec_numer() == noise.spec_probability().spec_denom(),
    ensures
        noise.perturbed(q, word) == PauliZ.image(q),
{
    one_always_occurs(noise.spec_probability(), word);
}

/// Phase-flip noise of any probability leaves the state `|0>` as it is: the
/// amplitude that a phase flip negates is zero there.
pub proof fn phase_flip_noise_keeps_ground(noise: PhaseFlipNoise, word: u64)
    ensures
        noise.perturbed(Qubit::ground(), word) == Qubit::ground(),
{
}

} // verus!
