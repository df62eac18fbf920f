//! Integer square roots.

use vstd::prelude::*;

verus! {

/// Whether `root` is the square root of `n` rounded down.
pub open spec fn is_floor_sqrt(root: nat, n: nat) -> bool {
    root * root <= n < (root + 1) * (root + 1)
}

/// The square root of `n` rounded down.
pub open spec fn floor_sqrt(n: nat) -> nat {
    choose|root: nat| is_floor_sqrt(root, n)
}

/// At most one number is the rounded-down square root of `n`.
pub proof fn lemma_floor_sqrt_unique(a: nat, b: nat, n: nat)
    requires
        is_floor_sqrt(a, n),
        is_floor_sqrt(b, n),
    ensures
        a == b,
{
    if a < b {
        assert((a + 1) * (a + 1) <= b * b) by (nonlinear_arith)
            requires
                a + 1 <= b,
        ;
    } else if b < a {
        assert((b + 1) * (b + 1) <= a * a) by (nonlinear_arith)
            requires
                b + 1 <= a,
        ;
    }
}

/// Every number has a rounded-down square root, and `floor_sqrt` is it.
pub proof fn lemma_floor_sqrt_is_root(n: nat)
    ensures
        is_floor_sqrt(floor_sqrt(n), n),
    decreases n,
{
    if n == 0 {
        assert(is_floor_sqrt(0, 0)) by (nonlinear_arith);
    } else {
        lemma_floor_sqrt_is_root((n - 1) as nat);
        let below = floor_sqrt((n - 1) as nat);
        if (below + 1) * (below + 1) <= n {
            assert((below + 2) * (below + 2) > (below + 1) * (below + 1)) by (nonlinear_arith);
            assert(is_floor_sqrt(below + 1, n));
        } else {
            assert(is_floor_sqrt(below, n));
        }
    }
}

/// A larger number has no smaller rounded-down square root.
pub proof fn lemma_floor_sqrt_monotonic(a: nat, b: nat)
    requires
        a <= b,
    ensures
        floor_sqrt(a) <= floor_sqrt(b),
{
    lemma_floor_sqrt_is_root(a);
    lemma_floor_sqrt_is_root(b);
    let ra = floor_sqrt(a);
    let rb = floor_sqrt(b);
    if rb < ra {
        assert((rb + 1) * (rb + 1) <= ra * ra) by (nonlinear_arith)
            requires
                rb + 1 <= ra,
        ;
    }
}

/// The square root of `n` rounded down.
pub fn isqrt(n: u128) -> (root: u64)
    ensures
        is_floor_sqrt(root as nat, n as nat),
        root == floor_sqrt(n as nat),
{
    let mut low: u128 = 0;
    let mut high: u128 = 0x1_0000_0000_0000_0000;
    assert(0x1_0000_0000_0000_0000int * 0x1_0000_0000_0000_0000int
        == 0x1_0000_0000_0000_0000_0000_0000_0000_0000int) by (nonlinear_arith);
    while high - low > 1
        invariant
            low < high <= 0x1_0000_0000_0000_0000,
            low * low <= n,
            n < high * high,
        decreases high - low,
    {
        let middle: u128 = low + (high - low) / 2;
        assert(middle * middle <= 0xffff_ffff_ffff_ffff * 0xffff_ffff_ffff_ffff) by (nonlinear_arith)
            requires
                0 <= middle <= 0xffff_ffff_ffff_ffff,
        ;
        assert(0xffff_ffff_ffff_ffffint * 0xffff_ffff_ffff_ffffint
            < 0x1_0000_0000_0000_0000_0000_0000_0000_0000int) by (nonlinear_arith);
        if middle * middle <= n {
            low = middle;
        } else {
            high = middle;
        }
    }
    proof {
        assert(high == low + 1);
        assert(is_floor_sqrt(low as nat, n as nat));
        lemma_floor_sqrt_is_root(n as nat);
        lemma_floor_sqrt_unique(low as nat, floor_sqrt(n as nat), n as nat);
    }
    low as u64
}

} // verus!
