//! The fixed-point scale shared by every length, height and angle offset.
//!
//! One whole is `UNITS` counts. The scale is `25 * 2^28`, which makes a grid
//! step of one fifth, a gradient step of one fiftieth and a 24-bit jitter
//! fraction scaled by one fortieth all whole numbers of counts.

use vstd::prelude::*;

verus! {

/// Counts per whole.
pub const UNITS: i64 = 6_710_886_400;

/// One half, in counts.
pub const HALF: i64 = 3_355_443_200;

/// One quarter, in counts.
pub const QUARTER: i64 = 1_677_721_600;

/// Whether `value` lies between minus one and one, both included.
pub open spec fn within_unit(value: i64) -> bool {
    -UNITS <= value <= UNITS
}

/// `numer / UNITS` rounded towards zero.
pub open spec fn scaled_down(numer: int) -> int {
    if numer >= 0 {
        numer / (UNITS as int)
    } else {
        -((-numer) / (UNITS as int))
    }
}

/// The product of two fixed-point values, rounded towards zero.
pub open spec fn fixed_product(a: int, b: int) -> int {
    scaled_down(a * b)
}

/// A product with a factor between minus one and one is no larger in size
/// than the other factor.
pub proof fn lemma_fixed_product_bounded(factor: int, size: int)
    requires
        -UNITS <= factor <= UNITS,
        0 <= size,
    ensures
        -size <= fixed_product(factor, size) <= size,
{
    let u = UNITS as int;
    if factor * size >= 0 {
        assert(factor * size <= u * size) by (nonlinear_arith)
            requires
                factor <= u,
                0 <= size,
        ;
        assert((factor * size) / u <= size) by (nonlinear_arith)
            requires
                0 <= factor * size <= u * size,
                u > 0,
        ;
        assert((factor * size) / u >= 0) by (nonlinear_arith)
            requires
                0 <= factor * size,
                u > 0,
        ;
    } else {
        assert(-(factor * size) <= u * size) by (nonlinear_arith)
            requires
                -u <= factor,
                0 <= size,
        ;
        assert((-(factor * size)) / u <= size) by (nonlinear_arith)
            requires
                0 <= -(factor * size) <= u * size,
                u > 0,
        ;
        assert((-(factor * size)) / u >= 0) by (nonlinear_arith)
            requires
                0 <= -(factor * size),
                u > 0,
        ;
    }
}

/// Multiplies two fixed-point values and rounds the product towards zero.
pub fn mul_fixed(a: i64, b: i64) -> (r: i128)
    ensures
        r == fixed_product(a as int, b as int),
{
    assert(-0x4000_0000_0000_0000_0000_0000_0000_0000 <= (a as int) * (b as int)
        <= 0x4000_0000_0000_0000_0000_0000_0000_0000) by (nonlinear_arith)
        requires
            -0x8000_0000_0000_0000 <= (a as int) <= 0x7fff_ffff_ffff_ffff,
            -0x8000_0000_0000_0000 <= (b as int) <= 0x7fff_ffff_ffff_ffff,
    ;
    let wide: i128 = (a as i128) * (b as i128);
    wide / (UNITS as i128)
}

} // verus!
