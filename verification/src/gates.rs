//! Gates: the single-qubit operators `PauliX`, `PauliZ` and `Hadamard`, and the
//! measurement-controlled two-qubit operator `CNOT`.

use vstd::prelude::*;
use vstd::arithmetic::power2::{lemma2_to64, pow2};
use crate::qubit::{same_real, unit_square, Amplitude, Qubit};
use crate::random::random_word;

verus! {

/// A stateless operator on one qubit.
pub trait Gate {
    /// The state that this operator maps `q` to.
    spec fn image(&self, q: Qubit) -> Qubit;

    /// Replaces the state of `qubit` by its image.
    fn apply(&self, qubit: &mut Qubit)
        ensures
            *final(qubit) == self.image(*old(qubit)),
    ;
}

/// The bit flip: exchanges the amplitudes of `|0>` and `|1>`.
pub struct PauliX;

/// The phase flip, in the convention of [`Qubit::apply_phase_flip`]: negates the
/// real part of the amplitude of `|1>`.
pub struct PauliZ;

/// The basis change `(a0, a1) -> ((a0 + a1) / sqrt(2), (a0 - a1) / sqrt(2))`.
pub struct Hadamard;

/// The controlled bit flip. The control is measured, not read as an amplitude:
/// the target is flipped when the measurement of the control gives `|1>`.
pub struct CNOT;

/// The numerators `zero + one` and `zero - one`, in this order, before they are
/// brought to lowest terms.
pub open spec fn sum_and_difference(zero: Amplitude, one: Amplitude) -> (Amplitude, Amplitude) {
    (
        Amplitude { re: (zero.re + one.re) as i8, im: (zero.im + one.im) as i8 },
        Amplitude { re: (zero.re - one.re) as i8, im: (zero.im - one.im) as i8 },
    )
}

/// Half of an amplitude with even numerators.
pub open spec fn halved(a: Amplitude) -> Amplitude {
    Amplitude { re: (a.re / 2) as i8, im: (a.im / 2) as i8 }
}

/// The image of `q` under the Hadamard gate.
///
/// The sum and the difference of the numerators stand over `sqrt(2)^(scale + 1)`.
/// Where all four are even the fraction is reduced by two, which is
/// `sqrt(2)^2`; otherwise it is in lowest terms already. A difference is even
/// exactly when the sum is, so the sum decides.
#[verifier::opaque]
pub open spec fn hadamard(q: Qubit) -> Qubit {
    let (sum, difference) = sum_and_difference(q.zero_amplitude(), q.one_amplitude());
    if sum.re % 2 == 0 && sum.im % 2 == 0 {
        Qubit::state((q.spec_scale() - 1) as u8, halved(sum), halved(difference))
    } else {
        Qubit::state((q.spec_scale() + 1) as u8, sum, difference)
    }
}

impl Gate for PauliX {
    open spec fn image(&self, q: Qubit) -> Qubit {
        q.swapped()
    }

    fn apply(&self, qubit: &mut Qubit) {
        qubit.swap_state();
    }
}

impl Gate for PauliZ {
    open spec fn image(&self, q: Qubit) -> Qubit {
        q.phase_flipped()
    }

    fn apply(&self, qubit: &mut Qubit) {
        qubit.apply_phase_flip();
    }
}

impl Gate for Hadamard {
    open spec fn image(&self, q: Qubit) -> Qubit {
        hadamard(q)
    }

    /// Both new amplitudes are computed from the amplitudes before the call.
    fn apply(&self, qubit: &mut Qubit) {
        proof {
            reveal(hadamard);
            use_type_invariant(&*qubit);
            hadamard_keeps_normalised(*qubit);
            unit_square(qubit.zero.re);
            unit_square(qubit.zero.im);
            unit_square(qubit.one.re);
            unit_square(qubit.one.im);
        }
        let zero = qubit.zero;
        let one = qubit.one;
        let sum_re: i8 = zero.re + one.re;
        let sum_im: i8 = zero.im + one.im;
        let difference_re: i8 = zero.re - one.re;
        let difference_im: i8 = zero.im - one.im;
        if is_even(sum_re) && is_even(sum_im) {
            *qubit = Qubit {
                scale: qubit.scale - 1,
                zero: Amplitude { re: half(sum_re), im: half(sum_im) },
                one: Amplitude { re: half(difference_re), im: half(difference_im) },
            };
        } else {
            *qubit = Qubit {
                scale: qubit.scale + 1,
                zero: Amplitude { re: sum_re, im: sum_im },
                one: Amplitude { re: difference_re, im: difference_im },
            };
        }
    }
}

impl CNOT {
    /// The target afterwards, when the measurement of the control draws `word`.
    pub open spec fn image(control: Qubit, target: Qubit, word: u64) -> Qubit {
        if control.measures_one(word) {
            target.swapped()
        } else {
            target
        }
    }

    /// Measures `control` with the draw that `word` stands for and flips `target`
    /// if the outcome is `|1>`. The control keeps its state.
    pub fn apply_with(control: &mut Qubit, target: &mut Qubit, word: u64)
        ensures
            *final(control) == *old(control),
            *final(target) == CNOT::image(*old(control), *old(target), word),
    {
        if control.measure_with(word) {
            PauliX.apply(target);
        }
    }

    /// Measures `control` once and flips `target` if the outcome is `|1>`. The
    /// control keeps its state, so a second call measures again and may differ.
    pub fn apply(control: &mut Qubit, target: &mut Qubit)
        ensures
            *final(control) == *old(control),
            exists|word: u64|
                *final(target) == #[trigger] CNOT::image(*old(control), *old(target), word),
            old(control).zero_weight() == crate::qubit::unit_norm(old(control).spec_scale())
                ==> *final(target) == *old(target),
    {
        let word: u64 = random_word();
        CNOT::apply_with(control, target, word);
    }
}

/// Whether a sum or difference of two numerators is even.
fn is_even(x: i8) -> (even: bool)
    requires
        -2 <= x <= 2,
    ensures
        even == (x % 2 == 0),
{
    x == 0 || x == 2 || x == -2
}

/// Half of an even sum or difference of two numerators.
fn half(x: i8) -> (h: i8)
    requires
        -2 <= x <= 2,
        x % 2 == 0,
    ensures
        h == x / 2,
{
    if x == 2 {
        1
    } else if x == -2 {
        -1
    } else {
        0
    }
}

/// The Hadamard gate maps normalised states to normalised states.
pub proof fn hadamard_keeps_normalised(q: Qubit)
    requires
        q.wf(),
    ensures
        Hadamard.image(q).wf(),
{
    reveal(hadamard);
    unit_square(q.zero.re);
    unit_square(q.zero.im);
    unit_square(q.one.re);
    unit_square(q.one.im);
    let h = hadamard(q);
    unit_square(h.zero.re);
    unit_square(h.zero.im);
    unit_square(h.one.re);
    unit_square(h.one.im);
}

/// The Hadamard gate is its own inverse: applied twice to any state, it gives
/// the state back, exactly.
pub proof fn hadamard_is_involution(q: Qubit)
    requires
        q.wf(),
    ensures
        Hadamard.image(Hadamard.image(q)) == q,
{
    reveal(hadamard);
    unit_square(q.zero.re);
    unit_square(q.zero.im);
    unit_square(q.one.re);
    unit_square(q.one.im);
    hadamard_keeps_normalised(q);
}

/// The Hadamard gate moves the scale by one: up where the sum and the
/// difference are in lowest terms, down where they are reduced. Its image is
/// never in the basis that its argument is in.
pub proof fn hadamard_moves_scale(q: Qubit)
    requires
        q.wf(),
    ensures
        Hadamard.image(q).spec_scale() == q.spec_scale() + 1 || Hadamard.image(q).spec_scale()
            == q.spec_scale() - 1,
{
    reveal(hadamard);
    unit_square(q.zero.re);
    unit_square(q.zero.im);
    unit_square(q.one.re);
    unit_square(q.one.im);
}

/// The state `(|0> + |1>) / sqrt(2)`.
pub open spec fn plus() -> Qubit {
    Qubit::state(1, Amplitude { re: 1, im: 0 }, Amplitude { re: 1, im: 0 })
}

/// The state `(|0> - |1>) / sqrt(2)`.
pub open spec fn minus() -> Qubit {
    Qubit::state(1, Amplitude { re: 1, im: 0 }, Amplitude { re: -1i8, im: 0 })
}

/// The Hadamard gate exchanges `|0>` with `plus()` and `|1>` with `minus()`.
pub proof fn hadamard_of_basis_states()
    ensures
        Hadamard.image(Qubit::ground()) == plus(),
        Hadamard.image(Qubit::ground().swapped()) == minus(),
        Hadamard.image(plus()) == Qubit::ground(),
        Hadamard.image(minus()) == Qubit::ground().swapped(),
{
    reveal(hadamard);
}

/// The bit flip is its own inverse: applied twice, it gives the state back.
pub proof fn pauli_x_is_involution(q: Qubit)
    ensures
        PauliX.image(PauliX.image(q)) == q,
{
}

/// The phase flip is its own inverse.
pub proof fn pauli_z_is_involution(q: Qubit)
    requires
        q.wf(),
    ensures
        PauliZ.image(PauliZ.image(q)) == q,
{
}

/// The two flips map normalised states to normalised states.
pub proof fn flips_keep_normalised(q: Qubit)
    requires
        q.wf(),
    ensures
        PauliX.image(q).wf(),
        PauliZ.image(q).wf(),
{
    unit_square(q.one.re);
    unit_square((-q.one.re) as i8);
}

/// What the Hadamard gate computes: the amplitudes of the image are
/// `(a0 + a1) / sqrt(2)` and `(a0 - a1) / sqrt(2)`, part by part. With
/// [`hadamard_keeps_normalised`] and
/// [`crate::qubit::equal_amplitudes_are_equal_states`] this fixes the image.
pub proof fn hadamard_amplitudes(q: Qubit)
    requires
        q.wf(),
    ensures
        ({
            let a0 = q.zero_amplitude();
            let a1 = q.one_amplitude();
            let below = (q.spec_scale() + 1) as nat;
            let image = Hadamard.image(q);
            let b0 = image.zero_amplitude();
            let b1 = image.one_amplitude();
            let scale = image.spec_scale() as nat;
            &&& same_real(b0.re as int, scale, a0.re + a1.re, below)
            &&& same_real(b0.im as int, scale, a0.im + a1.im, below)
            &&& same_real(b1.re as int, scale, a0.re - a1.re, below)
            &&& same_real(b1.im as int, scale, a0.im - a1.im, below)
        }),
{
    reveal(hadamard);
    let h = hadamard(q);
    let reduced = (q.zero.re + q.one.re) % 2 == 0 && (q.zero.im + q.one.im) % 2 == 0;
    unit_square(q.zero.re);
    unit_square(q.zero.im);
    unit_square(q.one.re);
    unit_square(q.one.im);
    assert(reduced ==> q.scale >= 1);
    let below = (q.scale + 1) as nat;
    same_after_reduction(h.zero.re as int, h.scale as nat, q.zero.re + q.one.re, below);
    same_after_reduction(h.zero.im as int, h.scale as nat, q.zero.im + q.one.im, below);
    same_after_reduction(h.one.re as int, h.scale as nat, q.zero.re - q.one.re, below);
    same_after_reduction(h.one.im as int, h.scale as nat, q.zero.im - q.one.im, below);
}

/// A fraction over a power of `sqrt(2)` keeps its value when numerator and
/// divisor are both divided by two.
proof fn same_after_reduction(x: int, m: nat, y: int, n: nat)
    requires
        m <= 2,
        (y == x && n == m) || (y == 2 * x && n == m + 2),
    ensures
        same_real(x, m, y, n),
{
    lemma2_to64();
    if n == m {
    } else {
        let low = pow2(m);
        let high = pow2(n);
        assert(high == 4 * low);
        assert(x * x * high == y * y * low) by (nonlinear_arith)
            requires
                y == 2 * x,
                high == 4 * low,
        ;
    }
}

} // verus!
