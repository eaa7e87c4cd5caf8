//! Correction times: the clock that measures them and their exact mean.

use vstd::prelude::*;
use vstd::arithmetic::div_mod::lemma_fundamental_div_mod_converse;

verus! {

/// A point in time of the monotonic clock. Nothing is known of its contents.
#[verifier::external_type_specification]
#[verifier::external_body]
pub struct ExInstant(std::time::Instant);

/// `Instant::now`: the current point in time. Nothing is promised of it.
pub assume_specification[ std::time::Instant::now ]() -> (now: std::time::Instant);

/// `Instant::elapsed`: the time that has passed since `start`. Nothing is
/// promised of it.
pub assume_specification[ std::time::Instant::elapsed ](start: &std::time::Instant) -> (elapsed:
    std::time::Duration);

/// `Duration::as_nanos`: the whole duration in nanoseconds. Nothing is promised
/// of the number.
pub assume_specification[ std::time::Duration::as_nanos ](duration: &std::time::Duration) -> (nanos:
    u128);

/// The exact mean of a list of times: `whole_nanos + remainder / samples`
/// nanoseconds, where `remainder < samples`; all three are zero for an empty list.
#[derive(Clone, Copy, Debug, PartialEq, Eq, Structural)]
pub struct AverageTime {
    pub whole_nanos: u128,
    pub remainder: usize,
    pub samples: usize,
}

/// The sum of a list of times.
pub open spec fn total_nanos(log: Seq<u128>) -> nat
    decreases log.len(),
{
    if log.len() == 0 {
        0
    } else {
        total_nanos(log.drop_last()) + log.last() as nat
    }
}

/// The arithmetic mean of a list of times, and zero for an empty list.
pub open spec fn mean_of(log: Seq<u128>) -> AverageTime {
    if log.len() == 0 {
        AverageTime { whole_nanos: 0, remainder: 0, samples: 0 }
    } else {
        AverageTime {
            whole_nanos: (total_nanos(log) / log.len()) as u128,
            remainder: (total_nanos(log) % log.len()) as usize,
            samples: log.len() as usize,
        }
    }
}

/// A sum of times is at most as many times the largest 128-bit number.
pub proof fn total_nanos_bound(log: Seq<u128>)
    ensures
        total_nanos(log) <= log.len() * u128::MAX,
    decreases log.len(),
{
    if log.len() > 0 {
        total_nanos_bound(log.drop_last());
        assert(log.len() * u128::MAX == (log.len() - 1) * u128::MAX + u128::MAX)
            by (nonlinear_arith);
    }
}

/// The time that has passed since `start`, in nanoseconds.
pub(crate) fn nanos_since(start: &std::time::Instant) -> (nanos: u128) {
    let elapsed = start.elapsed();
    elapsed.as_nanos()
}

/// The arithmetic mean of `log`, and zero if `log` is empty. The sum is never
/// formed: the quotient and the remainder are carried along, so that no list
/// is too long or too large.
pub fn average(log: &Vec<u128>) -> (average: AverageTime)
    ensures
        average == mean_of(log@),
{
    let n: usize = log.len();
    if n == 0 {
        return AverageTime { whole_nanos: 0, remainder: 0, samples: 0 };
    }
    let mut whole: u128 = 0;
    let mut rest: usize = 0;
    let mut i: usize = 0;
    while i < n
        invariant
            n == log.len(),
            0 < n,
            i <= n,
            rest < n,
            whole * n + rest == total_nanos(log@.take(i as int)),
        decreases n - i,
    {
        let sample: u128 = log[i];
        let quotient: u128 = sample / (n as u128);
        let remainder: usize = (sample % (n as u128)) as usize;
        let carry: bool = remainder >= n - rest;
        proof {
            let before = log@.take(i as int);
            let after = log@.take(i + 1);
            assert(after.drop_last() =~= before);
            assert(after.last() == sample);
            total_nanos_bound(after);
            vstd::arithmetic::div_mod::lemma_fundamental_div_mod(sample as int, n as int);
            let step: int = if carry { 1 } else { 0 };
            let next_rest: int = rest + remainder - step * n;
            assert((whole + quotient + step) * n + next_rest == total_nanos(after))
                by (nonlinear_arith)
                requires
                    whole * n + rest == total_nanos(before),
                    total_nanos(after) == total_nanos(before) + sample,
                    sample == n * quotient + remainder,
                    next_rest == rest + remainder - step * n,
            ;
            assert(whole + quotient + step <= u128::MAX) by (nonlinear_arith)
                requires
                    (whole + quotient + step) * n + next_rest == total_nanos(after),
                    total_nanos(after) <= (i + 1) * u128::MAX,
                    i + 1 <= n,
                    0 < n,
                    0 <= next_rest,
            ;
        }
        if carry {
            whole = whole + quotient + 1;
            rest = remainder - (n - rest);
        } else {
            whole = whole + quotient;
            rest = rest + remainder;
        }
        i = i + 1;
    }
    proof {
        assert(log@.take(n as int) =~= log@);
        lemma_fundamental_div_mod_converse(
            total_nanos(log@) as int,
            n as int,
            whole as int,
            rest as int,
        );
    }
    AverageTime { whole_nanos: whole, remainder: rest, samples: n }
}

} // verus!
