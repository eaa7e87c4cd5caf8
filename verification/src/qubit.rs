//! A single qubit with exact amplitudes.
//!
//! A state is a pair of complex amplitudes `(a0, a1)` for the basis states
//! `|0>` and `|1>`. The amplitudes are kept exactly: each is a pair of small
//! integer numerators over a common divisor, a power of the square root of two.
//! Every state is normalised, `|a0|^2 + |a1|^2 = 1`, and every gate of this
//! crate maps normalised states to normalised states without rounding.

use vstd::prelude::*;
use vstd::arithmetic::power2::{lemma2_to64, pow2};
use crate::random::{draw_from, draw_of, random_word, DRAW_DENOMINATOR};

verus! {

/// The numerators of one complex amplitude.
///
/// Inside a [`Qubit`] with scale `s` the amplitude is `(re + im * i) / sqrt(2)^s`.
#[derive(Clone, Copy, Debug, PartialEq, Eq, Structural)]
pub struct Amplitude {
    pub re: i8,
    pub im: i8,
}

/// A two-level quantum state.
///
/// The amplitude of `|0>` is `zero / sqrt(2)^scale` and that of `|1>` is
/// `one / sqrt(2)^scale`. The fields are private to the crate, so that every
/// value satisfies [`Qubit::wf`]; two well-formed values are equal exactly when
/// their amplitudes are (see [`equal_amplitudes_are_equal_states`]).
#[derive(Clone, Copy, Debug, PartialEq, Eq, Structural)]
pub struct Qubit {
    pub(crate) scale: u8,
    pub(crate) zero: Amplitude,
    pub(crate) one: Amplitude,
}

/// A numerator of a normalised state: -1, 0 or 1.
pub open spec fn unit_part(x: i8) -> bool {
    -1 <= x <= 1
}

/// `|re + im * i|^2`.
pub open spec fn weight(a: Amplitude) -> int {
    a.re * a.re + a.im * a.im
}

/// Two to the power `scale`, for the scales that a normalised state can have:
/// four numerators of absolute value at most one have squares that sum to at
/// most four.
pub open spec fn unit_norm(scale: u8) -> int {
    if scale == 0 {
        1
    } else if scale == 1 {
        2
    } else {
        4
    }
}

/// Whether a scale and two amplitudes make up a normalised state.
pub open spec fn normalised(scale: u8, zero: Amplitude, one: Amplitude) -> bool {
    &&& scale <= 2
    &&& unit_part(zero.re)
    &&& unit_part(zero.im)
    &&& unit_part(one.re)
    &&& unit_part(one.im)
    &&& weight(zero) + weight(one) == unit_norm(scale)
}

/// `x / sqrt(2)^m` and `y / sqrt(2)^n` are the same real number: they have the
/// same sign, and their squares `x^2 / 2^m` and `y^2 / 2^n` are equal.
pub open spec fn same_real(x: int, m: nat, y: int, n: nat) -> bool {
    &&& (x > 0) == (y > 0)
    &&& (x < 0) == (y < 0)
    &&& x * x * pow2(n) == y * y * pow2(m)
}

/// `a / sqrt(2)^m` and `b / sqrt(2)^n` are the same complex number.
pub open spec fn same_complex(a: Amplitude, m: u8, b: Amplitude, n: u8) -> bool {
    &&& same_real(a.re as int, m as nat, b.re as int, n as nat)
    &&& same_real(a.im as int, m as nat, b.im as int, n as nat)
}

/// `unit_norm` is the power of two.
pub proof fn unit_norm_is_power_of_two(scale: u8)
    requires
        scale <= 2,
    ensures
        unit_norm(scale) == pow2(scale as nat),
{
    lemma2_to64();
}

/// The square of a numerator of a normalised state is 0 or 1.
pub proof fn unit_square(x: i8)
    requires
        unit_part(x),
    ensures
        x * x == (if x == 0 { 0int } else { 1int }),
{
    if x == -1 {
        assert((-1int) * (-1int) == 1int);
    } else if x == 0 {
        assert(0int * 0int == 0int);
    } else {
        assert(1int * 1int == 1int);
    }
}

impl Qubit {
    /// The state with the given scale and numerators.
    pub open(crate) spec fn state(scale: u8, zero: Amplitude, one: Amplitude) -> Qubit {
        Qubit { scale, zero, one }
    }

    /// The power of `sqrt(2)` that divides both amplitudes.
    pub open(crate) spec fn spec_scale(self) -> u8 {
        self.scale
    }

    /// The numerators of the amplitude of `|0>`.
    pub open(crate) spec fn zero_amplitude(self) -> Amplitude {
        self.zero
    }

    /// The numerators of the amplitude of `|1>`.
    pub open(crate) spec fn one_amplitude(self) -> Amplitude {
        self.one
    }

    /// A state is its scale and its two amplitudes, and nothing else.
    pub proof fn state_is_its_parts(self)
        ensures
            self == Qubit::state(self.spec_scale(), self.zero_amplitude(), self.one_amplitude()),
    {
    }

    /// The scale and the amplitudes of `state(scale, zero, one)` are `scale`,
    /// `zero` and `one`.
    pub proof fn parts_of_state(scale: u8, zero: Amplitude, one: Amplitude)
        ensures
            Qubit::state(scale, zero, one).spec_scale() == scale,
            Qubit::state(scale, zero, one).zero_amplitude() == zero,
            Qubit::state(scale, zero, one).one_amplitude() == one,
    {
    }

    /// Every value of the type is a normalised state.
    #[verifier::type_invariant]
    pub open spec fn wf(self) -> bool {
        normalised(self.spec_scale(), self.zero_amplitude(), self.one_amplitude())
    }

    /// The state `|0>`: `a0 = 1`, `a1 = 0`.
    pub open spec fn ground() -> Qubit {
        Qubit::state(0, Amplitude { re: 1, im: 0 }, Amplitude { re: 0, im: 0 })
    }

    /// The numerators of the amplitudes of `|0>` and of `|1>`, in this order.
    pub open spec fn spec_state(self) -> Seq<Amplitude> {
        seq![self.zero_amplitude(), self.one_amplitude()]
    }

    /// The probability of `|0>`, `|a0|^2`, as a numerator over `unit_norm(scale)`.
    pub open spec fn zero_weight(self) -> int {
        weight(self.zero_amplitude())
    }

    /// The outcome of a measurement that draws `word`: `true`, for `|1>`, when the
    /// draw `draw_of(word) / DRAW_DENOMINATOR` exceeds `|a0|^2`, which is
    /// `zero_weight / unit_norm(scale)`.
    pub open spec fn measures_one(self, word: u64) -> bool {
        draw_of(word) * unit_norm(self.spec_scale()) > self.zero_weight() * DRAW_DENOMINATOR
    }

    /// The state with `a0` and `a1` exchanged.
    pub open spec fn swapped(self) -> Qubit {
        Qubit::state(self.spec_scale(), self.one_amplitude(), self.zero_amplitude())
    }

    /// The state with the real part of `a1` negated; its imaginary part and `a0`
    /// are kept.
    pub open spec fn phase_flipped(self) -> Qubit {
        Qubit::state(
            self.spec_scale(),
            self.zero_amplitude(),
            Amplitude { re: (-self.one_amplitude().re) as i8, im: self.one_amplitude().im },
        )
    }

    /// A qubit in state `|0>`.
    pub fn new() -> (q: Qubit)
        ensures
            q == Qubit::ground(),
            q.spec_scale() == 0,
            q.spec_state() == seq![Amplitude { re: 1, im: 0 }, Amplitude { re: 0, im: 0 }],
    {
        Qubit { scale: 0, zero: Amplitude { re: 1, im: 0 }, one: Amplitude { re: 0, im: 0 } }
    }

    /// The state with the given scale and numerators, if they make up a normalised
    /// state, and `None` if they do not.
    pub fn from_parts(scale: u8, zero: Amplitude, one: Amplitude) -> (made: Option<Qubit>)
        ensures
            made.is_some() == normalised(scale, zero, one),
            made matches Some(q) ==> q.spec_scale() == scale && q.spec_state() == seq![zero, one],
    {
        if scale > 2 || !small(zero.re) || !small(zero.im) || !small(one.re) || !small(one.im) {
            return None;
        }
        let total: u8 = part_square(zero.re) + part_square(zero.im) + part_square(one.re)
            + part_square(one.im);
        if total == norm_of(scale) {
            Some(Qubit { scale, zero, one })
        } else {
            None
        }
    }

    /// The power of `sqrt(2)` that divides both amplitudes.
    pub fn scale(&self) -> (scale: u8)
        ensures
            scale == self.spec_scale(),
            scale <= 2,
    {
        proof {
            use_type_invariant(self);
        }
        self.scale
    }

    /// The numerators of the amplitudes of `|0>` and of `|1>`, in this order.
    pub fn get_state(&self) -> (state: [Amplitude; 2])
        ensures
            state@ == self.spec_state(),
            normalised(self.spec_scale(), state@[0], state@[1]),
    {
        proof {
            use_type_invariant(self);
        }
        [self.zero, self.one]
    }

    /// Measures in the computational basis with the draw that `word` stands for.
    /// The state is not changed: a measurement does not collapse it.
    pub fn measure_with(&self, word: u64) -> (one: bool)
        ensures
            one == self.measures_one(word),
    {
        proof {
            use_type_invariant(self);
        }
        let draw: u64 = draw_from(word);
        let zero_weight: u64 = (part_square(self.zero.re) + part_square(self.zero.im)) as u64;
        let threshold: u64 = if zero_weight == 0 {
            0
        } else if zero_weight == 1 {
            DRAW_DENOMINATOR
        } else {
            2 * DRAW_DENOMINATOR
        };
        assert(threshold == self.zero_weight() * DRAW_DENOMINATOR);
        if self.scale == 0 {
            assert(draw_of(word) * unit_norm(self.scale) == draw) by (nonlinear_arith)
                requires
                    unit_norm(self.scale) == 1,
                    draw == draw_of(word),
            ;
            draw > threshold
        } else if self.scale == 1 {
            assert(draw_of(word) * unit_norm(self.scale) == 2 * draw) by (nonlinear_arith)
                requires
                    unit_norm(self.scale) == 2,
                    draw == draw_of(word),
            ;
            2 * draw > threshold
        } else {
            assert(draw_of(word) * unit_norm(self.scale) == 4 * draw) by (nonlinear_arith)
                requires
                    unit_norm(self.scale) == 4,
                    draw == draw_of(word),
            ;
            4 * draw > threshold
        }
    }

    /// Measures in the computational basis: draws a uniform random number in
    /// `[0, 1)` and returns `true`, for `|1>`, when it exceeds `|a0|^2`. The state
    /// is not changed, so a second measurement draws again and may differ.
    pub fn measure(&self) -> (one: bool)
        ensures
            exists|word: u64| one == #[trigger] self.measures_one(word),
            self.zero_weight() == unit_norm(self.spec_scale()) ==> !one,
    {
        let word: u64 = random_word();
        self.measure_with(word)
    }

    /// Exchanges `a0` and `a1`: a bit flip.
    pub fn swap_state(&mut self)
        ensures
            *final(self) == old(self).swapped(),
    {
        proof {
            use_type_invariant(&*self);
        }
        *self = Qubit { scale: self.scale, zero: self.one, one: self.zero };
    }

    /// Negates the real part of `a1` and keeps its imaginary part and `a0`.
    pub fn apply_phase_flip(&mut self)
        ensures
            *final(self) == old(self).phase_flipped(),
    {
        proof {
            use_type_invariant(&*self);
            unit_square(self.one.re);
            unit_square((-self.one.re) as i8);
        }
        *self = Qubit {
            scale: self.scale,
            zero: self.zero,
            one: Amplitude { re: -self.one.re, im: self.one.im },
        };
    }
}

/// The residue of a square modulo eight: 1 for an odd number, 0 or 4 for an
/// even one.
proof fn square_residue(x: int)
    ensures
        x % 2 != 0 ==> (x * x) % 8 == 1,
        x % 2 == 0 ==> (x * x) % 8 == 0 || (x * x) % 8 == 4,
{
    let q = x / 8;
    let r = x % 8;
    assert(x * x == 8 * (8 * q * q + 2 * q * r) + r * r) by (nonlinear_arith)
        requires
            x == 8 * q + r,
    ;
    let rest = 8 * q * q + 2 * q * r;
    if r == 0 {
        assert(r * r == 0) by (nonlinear_arith)
            requires
                r == 0,
        ;
    } else if r == 1 {
        assert(r * r == 1) by (nonlinear_arith)
            requires
                r == 1,
        ;
    } else if r == 2 {
        assert(r * r == 4) by (nonlinear_arith)
            requires
                r == 2,
        ;
    } else if r == 3 {
        assert(r * r == 8 + 1) by (nonlinear_arith)
            requires
                r == 3,
        ;
    } else if r == 4 {
        assert(r * r == 16) by (nonlinear_arith)
            requires
                r == 4,
        ;
    } else if r == 5 {
        assert(r * r == 24 + 1) by (nonlinear_arith)
            requires
                r == 5,
        ;
    } else if r == 6 {
        assert(r * r == 32 + 4) by (nonlinear_arith)
            requires
                r == 6,
        ;
    } else {
        assert(r * r == 48 + 1) by (nonlinear_arith)
            requires
                r == 7,
        ;
    }
    assert(x * x == 8 * rest + r * r);
}

/// A number whose square is at most four lies between -2 and 2.
proof fn small_root(x: int)
    requires
        x * x <= 4,
    ensures
        -2 <= x <= 2,
{
    if x >= 3 {
        assert(x * x >= 9) by (nonlinear_arith)
            requires
                x >= 3,
        ;
    }
    if x <= -3 {
        assert(x * x >= 9) by (nonlinear_arith)
            requires
                x <= -3,
        ;
    }
}

/// The squares of the integers from -2 to 2.
proof fn small_square(x: int)
    requires
        -2 <= x <= 2,
    ensures
        x * x == (if x == 0 {
            0int
        } else if x == 1 || x == -1 {
            1int
        } else {
            4int
        }),
{
    if x == -2 {
        assert((-2int) * (-2int) == 4int);
    } else if x == -1 {
        assert((-1int) * (-1int) == 1int);
    } else if x == 0 {
        assert(0int * 0int == 0int);
    } else if x == 1 {
        assert(1int * 1int == 1int);
    } else {
        assert(2int * 2int == 4int);
    }
}

/// The type holds every normalised state in lowest terms. Whatever integers
/// the four numerators are and whatever power of `sqrt(2)` divides them: if the
/// state is normalised, so that their squares sum to two to the power `scale`,
/// and the fraction is in lowest terms, so that not all four are even, then
/// each numerator is -1, 0 or 1 and the scale is at most 2.
pub proof fn lowest_terms_are_small(a: int, b: int, c: int, d: int, scale: nat)
    requires
        a * a + b * b + c * c + d * d == pow2(scale),
        !(a % 2 == 0 && b % 2 == 0 && c % 2 == 0 && d % 2 == 0),
    ensures
        scale <= 2,
        -1 <= a <= 1,
        -1 <= b <= 1,
        -1 <= c <= 1,
        -1 <= d <= 1,
{
    lemma2_to64();
    square_residue(a);
    square_residue(b);
    square_residue(c);
    square_residue(d);
    assert(a * a >= 0 && b * b >= 0 && c * c >= 0 && d * d >= 0) by (nonlinear_arith);
    if scale >= 3 {
        // The sum of the squares would be a multiple of eight, and with an odd
        // numerator among the four it is not.
        vstd::arithmetic::power2::lemma_pow2_adds(3, (scale - 3) as nat);
        assert(pow2(scale) == 8 * pow2((scale - 3) as nat));
        assert((a * a + b * b + c * c + d * d) % 8 != 0);
    }
    small_root(a);
    small_root(b);
    small_root(c);
    small_root(d);
    small_square(a);
    small_square(b);
    small_square(c);
    small_square(d);
}

/// The representation is unique: two normalised states whose amplitudes are the
/// same complex numbers, part by part, are equal values. So `==` on qubits is
/// equality of both amplitudes, with no tolerance.
pub proof fn equal_amplitudes_are_equal_states(p: Qubit, q: Qubit)
    requires
        p.wf(),
        q.wf(),
        same_complex(p.zero_amplitude(), p.spec_scale(), q.zero_amplitude(), q.spec_scale()),
        same_complex(p.one_amplitude(), p.spec_scale(), q.one_amplitude(), q.spec_scale()),
    ensures
        p == q,
{
    same_numerators(p.zero.re, p.scale, q.zero.re, q.scale);
    same_numerators(p.zero.im, p.scale, q.zero.im, q.scale);
    same_numerators(p.one.re, p.scale, q.one.re, q.scale);
    same_numerators(p.one.im, p.scale, q.one.im, q.scale);
    unit_square(p.zero.re);
    unit_square(p.zero.im);
    unit_square(p.one.re);
    unit_square(p.one.im);
    assert(p.zero.re != 0 || p.zero.im != 0 || p.one.re != 0 || p.one.im != 0);
}

/// Two numerators of normalised states that stand for the same real number are
/// equal, and unless they are zero they stand over the same divisor.
proof fn same_numerators(x: i8, m: u8, y: i8, n: u8)
    requires
        unit_part(x),
        unit_part(y),
        m <= 2,
        n <= 2,
        same_real(x as int, m as nat, y as int, n as nat),
    ensures
        x == y,
        x != 0 ==> m == n,
{
    lemma2_to64();
    unit_square(x);
    unit_square(y);
    if x != 0 {
        let high = pow2(n as nat) as int;
        let low = pow2(m as nat) as int;
        assert(x * x * high == high) by (nonlinear_arith)
            requires
                x * x == 1,
        ;
        assert(y * y * low == low) by (nonlinear_arith)
            requires
                y * y == 1,
        ;
    }
}

/// A qubit in state `|0>` is never measured as `|1>`: no draw exceeds one. A
/// qubit in state `|1>` is measured as `|1>` unless the draw is exactly zero.
pub proof fn measuring_basis_states(word: u64)
    ensures
        !Qubit::ground().measures_one(word),
        Qubit::ground().swapped().measures_one(word) == (draw_of(word) > 0),
{
    let zero = Qubit::ground();
    let one = Qubit::ground().swapped();
    assert(zero.zero_weight() == 1) by {
        unit_square(1i8);
        unit_square(0i8);
    }
    assert(one.zero_weight() == 0) by {
        unit_square(0i8);
    }
    assert(draw_of(word) * unit_norm(0) == draw_of(word)) by (nonlinear_arith)
        requires
            unit_norm(0) == 1,
    ;
}

/// Whether a numerator is -1, 0 or 1.
fn small(x: i8) -> (b: bool)
    ensures
        b == unit_part(x),
{
    -1 <= x && x <= 1
}

/// The square of a numerator of a normalised state.
fn part_square(x: i8) -> (square: u8)
    requires
        unit_part(x),
    ensures
        square == x * x,
        square <= 1,
{
    proof {
        unit_square(x);
    }
    if x == 0 {
        0
    } else {
        1
    }
}

/// Two to the power `scale`.
fn norm_of(scale: u8) -> (norm: u8)
    requires
        scale <= 2,
    ensures
        norm == unit_norm(scale),
{
    if scale == 0 {
        1
    } else if scale == 1 {
        2
    } else {
        4
    }
}

} // verus!
