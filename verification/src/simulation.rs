//! The Monte-Carlo driver: runs independent trials and reports how many of them
//! gave the logical qubit back.

use vstd::prelude::*;
use crate::config::{ConfigError, Fraction, RunCount};
use crate::correction_codes::{BitFlipCode, CorrectionCode, PhaseFlipCode};
use crate::error_models::{
    certain_bit_flip_noise_flips, phase_flip_noise_keeps_ground,
    zero_bit_flip_noise_changes_nothing, BitFlipNoise, ErrorModel, PhaseFlipNoise,
};
use crate::gates::{
    flips_keep_normalised, hadamard_is_involution, hadamard_keeps_normalised,
    hadamard_moves_scale, Gate, Hadamard, PauliX, PauliZ,
};
use crate::qubit::{measuring_basis_states, Qubit};
use crate::random::{draw_of, random_word};
use crate::timing::{mean_of, AverageTime};

verus! {

/// The random words that one trial consumes, in the order in which it draws them.
#[derive(Clone, Copy, Debug)]
pub struct TrialDraws {
    /// For the noise.
    pub noise: u64,
    /// For the two controlled gates of the encoding.
    pub encode: (u64, u64),
    /// For the three measurements of the syndromes.
    pub syndrome: (u64, u64, u64),
    /// For the two controlled gates of the decoding.
    pub decode: (u64, u64),
}

/// What a run has found.
#[derive(Clone, Copy, Debug)]
pub struct SimulationResult {
    /// The trials that succeeded, over the trials that were run.
    pub success_rate: Fraction,
    /// The trials that failed, over the trials that were run: one minus the
    /// success rate.
    pub error_rate: Fraction,
    /// The mean of all correction times that the code has recorded.
    pub average_correction_time: AverageTime,
}

/// A noise model, a correction code and a number of trials.
pub struct Simulation<E: ErrorModel, C: CorrectionCode> {
    error_model: E,
    correction_code: C,
    num_runs: RunCount,
}

/// The logical qubit that a trial decodes: a qubit in state `|0>` goes through
/// the noise, is encoded, has its syndromes measured, is corrected and decoded.
pub open spec fn trial_outcome<E: ErrorModel, C: CorrectionCode>(
    model: E,
    draws: TrialDraws,
) -> Qubit {
    let noisy = model.perturbed(Qubit::ground(), draws.noise);
    let block = C::encoded(noisy, draws.encode.0, draws.encode.1);
    let syndromes = C::syndromes(block, draws.syndrome.0, draws.syndrome.1, draws.syndrome.2);
    C::decoded(C::corrected(block, syndromes))
}

/// A trial succeeds when it decodes the state that the qubit had before the
/// noise, `|0>`, with both amplitudes exactly equal.
pub open spec fn trial_succeeds<E: ErrorModel, C: CorrectionCode>(
    model: E,
    draws: TrialDraws,
) -> bool {
    trial_outcome::<E, C>(model, draws) == Qubit::ground()
}

/// The number of trials that succeed, when trial `i` draws `tape[i]`.
pub open spec fn successes<E: ErrorModel, C: CorrectionCode>(model: E, tape: Seq<TrialDraws>) -> nat
    decreases tape.len(),
{
    if tape.len() == 0 {
        0
    } else {
        successes::<E, C>(model, tape.drop_last()) + if trial_succeeds::<E, C>(
            model,
            tape.last(),
        ) {
            1nat
        } else {
            0nat
        }
    }
}

impl TrialDraws {
    /// Eight random words, drawn in the order of the fields.
    fn draw() -> (draws: TrialDraws) {
        let noise: u64 = random_word();
        let encode_first: u64 = random_word();
        let encode_second: u64 = random_word();
        let syndrome_0: u64 = random_word();
        let syndrome_1: u64 = random_word();
        let syndrome_2: u64 = random_word();
        let decode_first: u64 = random_word();
        let decode_second: u64 = random_word();
        TrialDraws {
            noise,
            encode: (encode_first, encode_second),
            syndrome: (syndrome_0, syndrome_1, syndrome_2),
            decode: (decode_first, decode_second),
        }
    }
}

impl<E: ErrorModel, C: CorrectionCode> Simulation<E, C> {
    /// The noise model.
    pub closed spec fn spec_error_model(self) -> E {
        self.error_model
    }

    /// The correction code, with the times it has recorded.
    pub closed spec fn spec_correction_code(self) -> C {
        self.correction_code
    }

    /// The number of trials of one run.
    pub closed spec fn spec_num_runs(self) -> usize {
        self.num_runs.spec_count()
    }

    /// The correction times that the code has recorded, oldest first.
    pub open spec fn spec_log(self) -> Seq<u128> {
        self.spec_correction_code().log()
    }

    /// A simulation of `num_runs` trials. It is rejected with `NoRuns` if
    /// `num_runs` is zero.
    pub fn new(error_model: E, correction_code: C, num_runs: usize) -> (made: Result<
        Self,
        ConfigError,
    >)
        ensures
            num_runs == 0 ==> made is Err && made->Err_0 == ConfigError::NoRuns,
            num_runs > 0 ==> made is Ok && made->Ok_0.spec_error_model() == error_model
                && made->Ok_0.spec_correction_code() == correction_code
                && made->Ok_0.spec_num_runs() == num_runs,
    {
        match RunCount::new(num_runs) {
            Ok(num_runs) => Ok(Simulation { error_model, correction_code, num_runs }),
            Err(error) => Err(error),
        }
    }

    /// The number of trials of one run, which is not zero.
    pub fn num_runs(&self) -> (num_runs: usize)
        ensures
            num_runs == self.spec_num_runs(),
            num_runs > 0,
    {
        self.num_runs.count()
    }

    /// The correction code, with the times it has recorded.
    pub fn correction_code(&self) -> (code: &C)
        ensures
            *code == self.spec_correction_code(),
    {
        &self.correction_code
    }

    /// Runs one trial with the given random words and says whether it succeeded.
    /// The code records one more correction time.
    pub fn run_trial_with(&mut self, draws: &TrialDraws) -> (success: bool)
        ensures
            success == trial_succeeds::<E, C>(old(self).spec_error_model(), *draws),
            final(self).spec_error_model() == old(self).spec_error_model(),
            final(self).spec_num_runs() == old(self).spec_num_runs(),
            final(self).spec_log().len() == old(self).spec_log().len() + 1,
            final(self).spec_log().drop_last() == old(self).spec_log(),
    {
        let reference = Qubit::new();
        let mut noisy = reference;
        self.error_model.apply_error_with(&mut noisy, draws.noise);
        let mut block = self.correction_code.encode_with(&noisy, draws.encode.0, draws.encode.1);
        let syndromes = self.correction_code.syndrome_measurement_with(
            &mut block,
            draws.syndrome.0,
            draws.syndrome.1,
            draws.syndrome.2,
        );
        self.correction_code.correct(&mut block, syndromes);
        let decoded = self.correction_code.decode_with(&mut block, draws.decode.0, draws.decode.1);
        decoded == reference
    }

    /// Runs `num_runs` independent trials, each on random words of its own, and
    /// reports the rates of success and of failure and the mean correction time.
    pub fn run(&mut self) -> (result: SimulationResult)
        ensures
            final(self).spec_error_model() == old(self).spec_error_model(),
            final(self).spec_num_runs() == old(self).spec_num_runs(),
            result.success_rate.spec_denom() == old(self).spec_num_runs(),
            result.error_rate.spec_denom() == old(self).spec_num_runs(),
            result.success_rate.spec_numer() + result.error_rate.spec_numer()
                == old(self).spec_num_runs(),
            exists|tape: Seq<TrialDraws>|
                tape.len() == old(self).spec_num_runs() && result.success_rate.spec_numer()
                    == #[trigger] successes::<E, C>(old(self).spec_error_model(), tape),
            final(self).spec_log().len() == old(self).spec_log().len() + old(self).spec_num_runs(),
            final(self).spec_log().take(old(self).spec_log().len() as int) == old(self).spec_log(),
            result.average_correction_time == mean_of(final(self).spec_log()),
    {
        let ghost before = *self;
        let ghost mut tape: Seq<TrialDraws> = Seq::empty();
        let num_runs: usize = self.num_runs.count();
        let mut success_count: usize = 0;
        let mut run: usize = 0;
        while run < num_runs
            invariant
                run <= num_runs,
                success_count <= run,
                num_runs == before.spec_num_runs(),
                self.spec_num_runs() == before.spec_num_runs(),
                self.error_model == before.error_model,
                tape.len() == run,
                success_count == successes::<E, C>(before.error_model, tape),
                self.correction_code.log().len() == before.correction_code.log().len() + run,
                self.correction_code.log().take(before.correction_code.log().len() as int)
                    == before.correction_code.log(),
            decreases num_runs - run,
        {
            let draws = TrialDraws::draw();
            let ghost log_before = self.correction_code.log();
            let success = self.run_trial_with(&draws);
            proof {
                assert(tape.push(draws).drop_last() =~= tape);
                tape = tape.push(draws);
                let log_after = self.correction_code.log();
                let kept = before.correction_code.log().len() as int;
                assert(log_after.take(kept) =~= log_after.drop_last().take(kept));
            }
            if success {
                success_count = success_count + 1;
            }
            run = run + 1;
        }
        let success_rate = Fraction::new(success_count as u64, num_runs as u64).unwrap();
        let error_rate = Fraction::new((num_runs - success_count) as u64, num_runs as u64).unwrap();
        let average_correction_time = self.correction_code.get_average_correction_time();
        let result = SimulationResult { success_rate, error_rate, average_correction_time };
        assert(tape.len() == before.spec_num_runs() && result.success_rate.spec_numer()
            == successes::<E, C>(before.spec_error_model(), tape));
        result
    }
}

/// If every trial of a tape succeeds, the number of successes is the number of
/// trials; if none does, it is zero.
pub proof fn unanimous_tapes<E: ErrorModel, C: CorrectionCode>(model: E, tape: Seq<TrialDraws>)
    ensures
        (forall|i: int| 0 <= i < tape.len() ==> trial_succeeds::<E, C>(model, #[trigger] tape[i]))
            ==> successes::<E, C>(model, tape) == tape.len(),
        (forall|i: int| 0 <= i < tape.len() ==> !trial_succeeds::<E, C>(model, #[trigger] tape[i]))
            ==> successes::<E, C>(model, tape) == 0,
    decreases tape.len(),
{
    if tape.len() > 0 {
        unanimous_tapes::<E, C>(model, tape.drop_last());
        assert(forall|i: int|
            0 <= i < tape.drop_last().len() ==> tape.drop_last()[i] == tape[i]);
    }
}

/// The bit-flip code gives a qubit that the noise has left alone back
/// unchanged, whatever is drawn: no measurement of `|0>` gives `|1>`, so both
/// syndromes are false and nothing is corrected.
pub proof fn bit_flip_code_returns_clean_qubit<E: ErrorModel>(model: E, draws: TrialDraws)
    requires
        model.perturbed(Qubit::ground(), draws.noise) == Qubit::ground(),
    ensures
        trial_succeeds::<E, BitFlipCode>(model, draws),
{
    measuring_basis_states(draws.encode.0);
    measuring_basis_states(draws.encode.1);
    measuring_basis_states(draws.syndrome.0);
    measuring_basis_states(draws.syndrome.1);
    measuring_basis_states(draws.syndrome.2);
}

/// Whether the measurements of a trial find a qubit that came into the bit-flip
/// code as `|1>`: the first syndrome measurement sees the first qubit as `|1>`,
/// and the other two qubits, flipped to `|0>` by the encoding, are seen as `|0>`.
/// This fails only where a measurement of a qubit in state `|1>` draws exactly
/// zero.
pub open spec fn flip_is_found(draws: TrialDraws) -> bool {
    let r0 = draw_of(draws.syndrome.0) > 0;
    let r1 = draw_of(draws.encode.0) == 0 && draw_of(draws.syndrome.1) > 0;
    let r2 = draw_of(draws.encode.1) == 0 && draw_of(draws.syndrome.2) > 0;
    r0 != r1 && r0 != r2
}

/// The bit-flip code corrects a single bit flip: a qubit that the noise has
/// flipped to `|1>` is decoded as `|0>` exactly when the measurements find the
/// flip.
pub proof fn bit_flip_code_corrects_one_flip<E: ErrorModel>(model: E, draws: TrialDraws)
    requires
        model.perturbed(Qubit::ground(), draws.noise) == PauliX.image(Qubit::ground()),
    ensures
        trial_succeeds::<E, BitFlipCode>(model, draws) == flip_is_found(draws),
{
    measuring_basis_states(draws.encode.0);
    measuring_basis_states(draws.encode.1);
    measuring_basis_states(draws.syndrome.0);
    measuring_basis_states(draws.syndrome.1);
    measuring_basis_states(draws.syndrome.2);
    let one = Qubit::ground().swapped();
    assert(one.swapped() == Qubit::ground());
    let block = BitFlipCode::encoded(one, draws.encode.0, draws.encode.1);
    let syndromes = BitFlipCode::syndromes(
        block,
        draws.syndrome.0,
        draws.syndrome.1,
        draws.syndrome.2,
    );
    assert(block[0] == one);
    assert(syndromes[0] == (draw_of(draws.syndrome.0) > 0) != (draw_of(draws.encode.0) == 0
        && draw_of(draws.syndrome.1) > 0));
    assert(syndromes[1] == (draw_of(draws.syndrome.0) > 0) != (draw_of(draws.encode.1) == 0
        && draw_of(draws.syndrome.2) > 0));
}

/// Without noise the bit-flip code succeeds in every trial: with a bit-flip
/// noise of probability zero, the number of successes is the number of trials,
/// whatever is drawn.
pub proof fn bit_flip_code_without_noise(noise: BitFlipNoise, tape: Seq<TrialDraws>)
    requires
        noise.spec_probability().wf(),
        noise.spec_probability().spec_numer() == 0,
    ensures
        successes::<BitFlipNoise, BitFlipCode>(noise, tape) == tape.len(),
{
    assert forall|i: int| 0 <= i < tape.len() implies trial_succeeds::<BitFlipNoise, BitFlipCode>(
        noise,
        #[trigger] tape[i],
    ) by {
        zero_bit_flip_noise_changes_nothing(noise, Qubit::ground(), tape[i].noise);
        bit_flip_code_returns_clean_qubit(noise, tape[i]);
    }
    unanimous_tapes::<BitFlipNoise, BitFlipCode>(noise, tape);
}

/// With a bit flip in every trial, the bit-flip code succeeds in every trial
/// whose measurements find the flip: with a bit-flip noise of probability one
/// and such draws, the number of successes is the number of trials.
pub proof fn bit_flip_code_with_certain_noise(noise: BitFlipNoise, tape: Seq<TrialDraws>)
    requires
        noise.spec_probability().wf(),
        noise.spec_probability().spec_numer() == noise.spec_probability().spec_denom(),
        forall|i: int| 0 <= i < tape.len() ==> flip_is_found(#[trigger] tape[i]),
    ensures
        successes::<BitFlipNoise, BitFlipCode>(noise, tape) == tape.len(),
{
    assert forall|i: int| 0 <= i < tape.len() implies trial_succeeds::<BitFlipNoise, BitFlipCode>(
        noise,
        #[trigger] tape[i],
    ) by {
        certain_bit_flip_noise_flips(noise, Qubit::ground(), tape[i].noise);
        bit_flip_code_corrects_one_flip(noise, tape[i]);
    }
    unanimous_tapes::<BitFlipNoise, BitFlipCode>(noise, tape);
}

/// Phase-flip noise does not disturb the bit-flip code: it leaves `|0>` as it
/// is, so every trial succeeds, whatever the probability and the draws.
pub proof fn bit_flip_code_under_phase_noise(noise: PhaseFlipNoise, tape: Seq<TrialDraws>)
    ensures
        successes::<PhaseFlipNoise, BitFlipCode>(noise, tape) == tape.len(),
{
    assert forall|i: int| 0 <= i < tape.len() implies trial_succeeds::<
        PhaseFlipNoise,
        BitFlipCode,
    >(noise, #[trigger] tape[i]) by {
        phase_flip_noise_keeps_ground(noise, tape[i].noise);
        bit_flip_code_returns_clean_qubit(noise, tape[i]);
    }
    unanimous_tapes::<PhaseFlipNoise, BitFlipCode>(noise, tape);
}

/// What the phase-flip code decodes. The first qubit of the block passes the
/// Hadamard gate once in the encoding and twice more in the decoding, so the
/// logical qubit comes back in the Hadamard basis: as the image of what came in,
/// with its phase flipped if both syndromes were set.
pub proof fn phase_flip_code_returns_rotated_qubit<E: ErrorModel>(model: E, draws: TrialDraws)
    requires
        model.perturbed(Qubit::ground(), draws.noise).wf(),
    ensures
        ({
            let turned = Hadamard.image(model.perturbed(Qubit::ground(), draws.noise));
            let outcome = trial_outcome::<E, PhaseFlipCode>(model, draws);
            outcome == turned || outcome == PauliZ.image(turned)
        }),
{
    let noisy = model.perturbed(Qubit::ground(), draws.noise);
    let turned = Hadamard.image(noisy);
    hadamard_keeps_normalised(noisy);
    flips_keep_normalised(turned);
    hadamard_is_involution(turned);
    hadamard_is_involution(PauliZ.image(turned));
    let block = PhaseFlipCode::encoded(noisy, draws.encode.0, draws.encode.1);
    assert(block[0] == turned);
}

/// The phase-flip code does not give a basis state back: where the qubit comes
/// in as `|0>` or `|1>`, or as either with a phase, the trial fails, whatever is
/// drawn.
pub proof fn phase_flip_code_loses_basis_states<E: ErrorModel>(model: E, draws: TrialDraws)
    requires
        model.perturbed(Qubit::ground(), draws.noise).wf(),
        model.perturbed(Qubit::ground(), draws.noise).spec_scale() == 0,
    ensures
        !trial_succeeds::<E, PhaseFlipCode>(model, draws),
{
    let noisy = model.perturbed(Qubit::ground(), draws.noise);
    phase_flip_code_returns_rotated_qubit(model, draws);
    hadamard_moves_scale(noisy);
}

/// With phase-flip noise, of any probability, the phase-flip code succeeds in no
/// trial.
pub proof fn phase_flip_code_under_phase_noise(noise: PhaseFlipNoise, tape: Seq<TrialDraws>)
    ensures
        successes::<PhaseFlipNoise, PhaseFlipCode>(noise, tape) == 0,
{
    assert forall|i: int| 0 <= i < tape.len() implies !trial_succeeds::<
        PhaseFlipNoise,
        PhaseFlipCode,
    >(noise, #[trigger] tape[i]) by {
        phase_flip_noise_keeps_ground(noise, tape[i].noise);
        phase_flip_code_loses_basis_states(noise, tape[i]);
    }
    unanimous_tapes::<PhaseFlipNoise, PhaseFlipCode>(noise, tape);
}

} // verus!
