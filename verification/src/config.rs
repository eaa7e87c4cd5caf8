//! The numbers that configure a simulation and report on it: exact fractions
//! between zero and one, and the errors that reject a malformed configuration.

use vstd::prelude::*;
use crate::random::{draw_from, draw_of, DRAW_DENOMINATOR};

verus! {

/// Why a configuration was rejected.
#[derive(Clone, Copy, Debug, PartialEq, Eq, Structural)]
pub enum ConfigError {
    /// A fraction was given the denominator zero.
    ZeroDenominator,
    /// A fraction was given a numerator above its denominator: it would exceed one.
    AboveOne,
    /// A simulation was asked for zero trials: it would have no success rate.
    NoRuns,
}

/// The exact fraction `numer / denom`, between zero and one.
///
/// It is used for noise probabilities and for the rates that a simulation
/// reports. The fields are private, so that every value satisfies
/// [`Fraction::wf`].
#[derive(Clone, Copy, Debug)]
pub struct Fraction {
    numer: u64,
    denom: u64,
}

/// A number of trials: a count that is not zero.
#[derive(Clone, Copy, Debug)]
pub struct RunCount {
    count: usize,
}

impl RunCount {
    /// The count is positive.
    #[verifier::type_invariant]
    pub closed spec fn wf(self) -> bool {
        self.count > 0
    }

    /// The count.
    pub closed spec fn spec_count(self) -> usize {
        self.count
    }

    /// The count `count`. It is rejected with `NoRuns` if `count` is zero.
    pub fn new(count: usize) -> (made: Result<RunCount, ConfigError>)
        ensures
            count == 0 ==> made == Err::<RunCount, ConfigError>(ConfigError::NoRuns),
            count != 0 ==> made.is_ok() && made.unwrap().spec_count() == count,
    {
        if count == 0 {
            Err(ConfigError::NoRuns)
        } else {
            Ok(RunCount { count })
        }
    }

    /// The count, which is not zero.
    pub fn count(&self) -> (count: usize)
        ensures
            count == self.spec_count(),
            count > 0,
    {
        proof {
            use_type_invariant(self);
        }
        self.count
    }
}

impl Fraction {
    /// The denominator is positive and the numerator does not exceed it.
    #[verifier::type_invariant]
    pub closed spec fn wf(self) -> bool {
        0 < self.denom && self.numer <= self.denom
    }

    /// The numerator.
    pub closed spec fn spec_numer(self) -> u64 {
        self.numer
    }

    /// The denominator.
    pub closed spec fn spec_denom(self) -> u64 {
        self.denom
    }

    /// Whether an event of this probability happens on the draw that `word`
    /// stands for: the draw `draw_of(word) / DRAW_DENOMINATOR`, a number in
    /// `[0, 1)`, is strictly below `numer / denom`.
    pub open spec fn occurs(self, word: u64) -> bool {
        draw_of(word) * self.spec_denom() < self.spec_numer() * DRAW_DENOMINATOR
    }

    /// What `wf` says, over the numerator and the denominator.
    pub proof fn wf_bounds(self)
        ensures
            self.wf() <==> 0 < self.spec_denom() && self.spec_numer() <= self.spec_denom(),
    {
    }

    /// Two fractions with the same numerator and denominator are the same value.
    pub proof fn same_parts_are_equal(self, other: Fraction)
        requires
            self.spec_numer() == other.spec_numer(),
            self.spec_denom() == other.spec_denom(),
        ensures
            self == other,
    {
    }

    /// The fraction `numer / denom`. It is rejected with `ZeroDenominator` if
    /// `denom` is zero, and else with `AboveOne` if `numer` exceeds `denom`.
    pub fn new(numer: u64, denom: u64) -> (made: Result<Fraction, ConfigError>)
        ensures
            denom == 0 ==> made == Err::<Fraction, ConfigError>(ConfigError::ZeroDenominator),
            denom != 0 && numer > denom ==> made == Err::<Fraction, ConfigError>(
                ConfigError::AboveOne,
            ),
            denom != 0 && numer <= denom ==> made.is_ok() && made.unwrap().spec_numer() == numer
                && made.unwrap().spec_denom() == denom,
    {
        if denom == 0 {
            Err(ConfigError::ZeroDenominator)
        } else if numer > denom {
            Err(ConfigError::AboveOne)
        } else {
            Ok(Fraction { numer, denom })
        }
    }

    /// The numerator.
    pub fn numer(&self) -> (numer: u64)
        ensures
            numer == self.spec_numer(),
            numer <= self.spec_denom(),
    {
        proof {
            use_type_invariant(self);
        }
        self.numer
    }

    /// The denominator, which is not zero.
    pub fn denom(&self) -> (denom: u64)
        ensures
            denom == self.spec_denom(),
            denom > 0,
    {
        proof {
            use_type_invariant(self);
        }
        self.denom
    }

    /// Whether an event of this probability happens on the draw that `word`
    /// stands for.
    pub fn occurs_on(&self, word: u64) -> (happens: bool)
        ensures
            happens == self.occurs(word),
    {
        let draw: u64 = draw_from(word);
        let left: u128 = wide_product(draw, self.denom);
        let right: u128 = wide_product(self.numer, DRAW_DENOMINATOR);
        left < right
    }
}

/// The product of two 64-bit numbers, which fits in 128 bits.
fn wide_product(a: u64, b: u64) -> (product: u128)
    ensures
        product == a * b,
{
    assert(a * b <= 0xffff_ffff_ffff_ffff * 0xffff_ffff_ffff_ffff) by (nonlinear_arith)
        requires
            0 <= a <= 0xffff_ffff_ffff_ffff,
            0 <= b <= 0xffff_ffff_ffff_ffff,
    ;
    (a as u128) * (b as u128)
}

/// An event of probability zero happens on no draw.
pub proof fn zero_never_occurs(p: Fraction, word: u64)
    requires
        p.wf(),
        p.spec_numer() == 0,
    ensures
        !p.occurs(word),
{
    assert(draw_of(word) * p.spec_denom() >= 0) by (nonlinear_arith)
        requires
            draw_of(word) >= 0,
            p.spec_denom() >= 0,
    ;
}

/// An event of probability one happens on every draw: a draw is below one.
pub proof fn one_always_occurs(p: Fraction, word: u64)
    requires
        p.wf(),
        p.spec_numer() == p.spec_denom(),
    ensures
        p.occurs(word),
{
    assert(draw_of(word) * p.spec_denom() < p.spec_denom() * DRAW_DENOMINATOR)
        by (nonlinear_arith)
        requires
            0 <= draw_of(word) < DRAW_DENOMINATOR,
            p.spec_denom() > 0,
    ;
}

/// Of the `DRAW_DENOMINATOR` equally likely draws, an event of probability
/// `numer / denom` happens on those below `numer * DRAW_DENOMINATOR / denom`,
/// rounded up: on `numer / denom` of them, to within one draw.
pub proof fn occurs_below_threshold(p: Fraction, word: u64)
    requires
        p.wf(),
    ensures
        p.occurs(word) <==> draw_of(word) < (p.spec_numer() * DRAW_DENOMINATOR + p.spec_denom()
            - 1) / (p.spec_denom() as int),
{
    let d = p.spec_denom() as int;
    let n = p.spec_numer() * DRAW_DENOMINATOR;
    let x = draw_of(word);
    let t = (n + d - 1) / d;
    vstd::arithmetic::div_mod::lemma_fundamental_div_mod(n + d - 1, d);
    vstd::arithmetic::div_mod::lemma_mod_bound(n + d - 1, d);
    let r = (n + d - 1) % d;
    assert(n + d - 1 == d * t + r);
    if x < t {
        assert(x * d < n) by (nonlinear_arith)
            requires
                x + 1 <= t,
                n + d - 1 == d * t + r,
                0 <= r < d,
                d > 0,
        ;
    } else {
        assert(x * d >= n) by (nonlinear_arith)
            requires
                x >= t,
                n + d - 1 == d * t + r,
                0 <= r < d,
                d > 0,
        ;
    }
}

} // verus!
