//! Fixed-point numbers in millionths, and small vectors of them.

use vstd::prelude::*;

verus! {

/// How many steps of an `i64` make one unit.
pub const SCALE: i64 = 1_000_000;

/// `n / d` rounded toward zero, for a positive `d`.
pub open spec fn trunc_div(n: int, d: int) -> int {
    if n >= 0 {
        n / d
    } else {
        -((-n) / d)
    }
}

/// The product of two fixed-point numbers, rounded toward zero.
pub open spec fn fixed_mul(a: int, b: int) -> int {
    trunc_div(a * b, SCALE as int)
}

/// `v` brought into `lo ..= hi`.
pub open spec fn clamp(v: int, lo: int, hi: int) -> int {
    if v < lo {
        lo
    } else if v > hi {
        hi
    } else {
        v
    }
}

/// A product is no larger than the product of the bounds of its factors.
pub proof fn lemma_fixed_mul_bound(a: int, b: int, bound_a: int, bound_b: int)
    requires
        -bound_a <= a <= bound_a,
        -bound_b <= b <= bound_b,
    ensures
        -(bound_a * bound_b) <= fixed_mul(a, b) * SCALE <= bound_a * bound_b,
        -(bound_a * bound_b) <= a * b <= bound_a * bound_b,
{
    assert(-(bound_a * bound_b) <= a * b <= bound_a * bound_b) by (nonlinear_arith)
        requires
            -bound_a <= a <= bound_a,
            -bound_b <= b <= bound_b,
    ;
    let p = a * b;
    if p >= 0 {
        assert(0 <= (p / 1_000_000) * 1_000_000 <= p) by (nonlinear_arith)
            requires
                p >= 0,
        ;
    } else {
        assert(0 <= ((-p) / 1_000_000) * 1_000_000 <= -p) by (nonlinear_arith)
            requires
                p < 0,
        ;
    }
}

/// A zero factor gives a zero product.
pub proof fn lemma_fixed_mul_zero(a: int)
    ensures
        fixed_mul(0, a) == 0,
        fixed_mul(a, 0) == 0,
{
    assert(0 * a == 0) by (nonlinear_arith);
    assert(a * 0 == 0) by (nonlinear_arith);
}

/// The product of two fixed-point numbers, rounded toward zero.
pub fn mul_fixed(a: i64, b: i64) -> (r: i128)
    ensures
        r == fixed_mul(a as int, b as int),
{
    mul_wide(a as i128, b as i128)
}

/// The product of two fixed-point numbers that are at most `2^63` in
/// magnitude, rounded toward zero.
pub fn mul_wide(a: i128, b: i128) -> (r: i128)
    requires
        -0x8000_0000_0000_0000 <= a <= 0x8000_0000_0000_0000,
        -0x8000_0000_0000_0000 <= b <= 0x8000_0000_0000_0000,
    ensures
        r == fixed_mul(a as int, b as int),
{
    proof {
        lemma_fixed_mul_bound(
            a as int,
            b as int,
            0x8000_0000_0000_0000,
            0x8000_0000_0000_0000,
        );
    }
    let p: i128 = a * b;
    if p >= 0 {
        p / 1_000_000
    } else {
        let n: i128 = -p;
        -(n / 1_000_000)
    }
}

/// `v` brought into `lo ..= hi`, which an `i64` can hold.
pub fn clamp_to(v: i128, lo: i64, hi: i64) -> (r: i64)
    requires
        lo <= hi,
    ensures
        r == clamp(v as int, lo as int, hi as int),
{
    if v < lo as i128 {
        lo
    } else if v > hi as i128 {
        hi
    } else {
        v as i64
    }
}

} // verus!
