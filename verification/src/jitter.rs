//! The seeded generator behind the layout, and the small offsets made from
//! its 32-bit draws.
//!
//! The generator is `xorwowgen`'s 64-bit `WrapB`. Nothing is proved of the
//! numbers it yields; what is trusted is that they depend on the seed and on
//! the number of earlier draws alone.

use rand::RngCore;
use rand::SeedableRng;
use vstd::prelude::*;
use xorwowgen::xorwow64::WrapB;

verus! {

#[verifier::external_type_specification]
#[verifier::external_body]
pub struct ExWrapB(WrapB);

/// The generator that `WrapB::seed_from_u64` builds from `seed`.
pub uninterp spec fn seeded(seed: u64) -> WrapB;

/// What one call of `next_u32` does with a generator: the number it yields,
/// and the generator as the call leaves it.
pub uninterp spec fn drawn(generator: WrapB) -> (u32, WrapB);

/// Calls `WrapB::seed_from_u64`, which copies the seed into both words of
/// the state (with an all-ones first word for seed zero). Trusted: equal
/// seeds give equal generators.
#[verifier::external_body]
pub(crate) fn seed_generator(seed: u64) -> (generator: WrapB)
    ensures
        generator == seeded(seed),
{
    WrapB::seed_from_u64(seed)
}

/// Calls `next_u32` on the generator, which steps the state once and returns
/// the low half of the sum of its two words. Trusted: the number and the new
/// state depend on the old state alone.
#[verifier::external_body]
pub(crate) fn next_raw(generator: &mut WrapB) -> (raw: u32)
    ensures
        (raw, *final(generator)) == drawn(*old(generator)),
{
    generator.next_u32()
}

/// The generator after `count` draws.
pub open spec fn after(generator: WrapB, count: nat) -> WrapB
    decreases count,
{
    if count == 0 {
        generator
    } else {
        drawn(after(generator, (count - 1) as nat)).1
    }
}

/// The first `count` draws of a generator, in the order they are made.
pub open spec fn draws(generator: WrapB, count: nat) -> Seq<u32>
    decreases count,
{
    if count == 0 {
        Seq::empty()
    } else {
        draws(generator, (count - 1) as nat).push(drawn(after(generator, (count - 1) as nat)).0)
    }
}

/// `draws` has as many entries as were asked for.
pub proof fn lemma_draws_len(generator: WrapB, count: nat)
    ensures
        draws(generator, count).len() == count,
    decreases count,
{
    if count > 0 {
        lemma_draws_len(generator, (count - 1) as nat);
    }
}

/// Steps of the fraction that a draw is cut down to: `2^24`.
pub const FRACTION_STEPS: u32 = 16_777_216;

/// Half the width of the jitter band: one eightieth of a whole.
pub const JITTER_HALF_WIDTH: i64 = 83_886_080;

/// The top 24 bits of a draw: the numerator, over `FRACTION_STEPS`, of the
/// fraction in `[0, 1)` that uniform single-precision sampling makes of it.
pub open spec fn fraction(raw: u32) -> int {
    raw as int / 256
}

/// The offset `(fraction / 2^24 - 1/2) / 40`, in counts.
pub open spec fn jitter_of(raw: u32) -> int {
    10 * fraction(raw) - JITTER_HALF_WIDTH
}

/// The offset is exactly the fraction, centred on zero and scaled by one
/// fortieth: `80 * 2^24 * offset == (2 * fraction - 2^24) * UNITS`.
pub proof fn lemma_jitter_formula(raw: u32)
    ensures
        80 * FRACTION_STEPS * jitter_of(raw) == (2 * fraction(raw) - FRACTION_STEPS)
            * crate::units::UNITS,
{
    let f = fraction(raw);
    assert(80 * 16_777_216 * (10 * f - 83_886_080) == (2 * f - 16_777_216) * 6_710_886_400)
        by (nonlinear_arith);
}

/// The jitter that a draw stands for: an offset of at most one eightieth of
/// a whole to either side.
pub fn jitter(raw: u32) -> (offset: i64)
    ensures
        offset == jitter_of(raw),
        -JITTER_HALF_WIDTH <= offset < JITTER_HALF_WIDTH,
        offset % 2 == 0,
{
    let top: i64 = (raw / 256) as i64;
    10 * top - JITTER_HALF_WIDTH
}

} // verus!
