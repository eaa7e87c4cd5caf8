//! The source of randomness and the reading of a random word as a number in `[0, 1)`.

use vstd::prelude::*;

verus! {

/// Number of random bits that make up one draw.
pub const DRAW_BITS: u32 = 53;

/// Number of equally likely draws: two to the power `DRAW_BITS`.
pub const DRAW_DENOMINATOR: u64 = 0x20_0000_0000_0000;

/// The draw that a random word stands for, as a multiple of
/// `1 / DRAW_DENOMINATOR`: the word without its low `64 - DRAW_BITS` bits.
pub open spec fn draw_of(word: u64) -> int {
    word as int / 2048
}

/// A draw is the top `DRAW_BITS` bits of its word, and so a number from zero up
/// to, and not including, `DRAW_DENOMINATOR`.
pub proof fn draw_is_top_bits(word: u64)
    ensures
        draw_of(word) == word >> 11,
        0 <= draw_of(word) < DRAW_DENOMINATOR,
{
    assert(word >> 11 == word / 2048) by (bit_vector);
}

/// Reads the top `DRAW_BITS` bits of a random word.
pub fn draw_from(word: u64) -> (draw: u64)
    ensures
        draw == draw_of(word),
        draw < DRAW_DENOMINATOR,
{
    word / 2048
}

/// `rand::random::<u64>`: one word from the thread-local generator, which is
/// meant to be uniform over all words. Nothing is promised of the word.
#[verifier::external_body]
pub(crate) fn random_word() -> (word: u64) {
    rand::random::<u64>()
}

} // verus!
