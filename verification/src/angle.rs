//! Angles in millionths of a radian, kept within half a turn of zero.

use vstd::prelude::*;

verus! {

/// Half a turn: pi radians.
pub const HALF_TURN: i64 = 3_141_593;

/// A whole turn: twice `HALF_TURN`.
pub const FULL_TURN: i64 = 6_283_186;

/// A quarter turn, the pitch at which the camera looks straight down or up.
pub const QUARTER_TURN: i64 = 1_570_796;

/// Whether `a` lies within half a turn of zero, both ends included.
pub open spec fn is_wrapped(a: int) -> bool {
    -HALF_TURN <= a <= HALF_TURN
}

/// The angle within half a turn of zero that differs from `a` by whole turns.
/// An angle already in range is kept, so both `-HALF_TURN` and `HALF_TURN`
/// stay what they are; any other is reduced into `-HALF_TURN .. HALF_TURN`.
pub open spec fn wrap_angle(a: int) -> int {
    if is_wrapped(a) {
        a
    } else {
        (a + HALF_TURN) % (FULL_TURN as int) - HALF_TURN
    }
}

/// Whether a camera pitched by `slope` is past a pole, and so upside down.
pub open spec fn is_upside_down(slope: int) -> bool {
    slope < -QUARTER_TURN || slope > QUARTER_TURN
}

/// A wrapped angle is in range and differs from the angle it was made of by
/// whole turns; wrapping changes nothing that is already in range.
pub proof fn lemma_wrap_angle(a: int)
    ensures
        is_wrapped(wrap_angle(a)),
        (wrap_angle(a) - a) % (FULL_TURN as int) == 0,
        is_wrapped(a) ==> wrap_angle(a) == a,
        wrap_angle(wrap_angle(a)) == wrap_angle(a),
{
    let f = FULL_TURN as int;
    if !is_wrapped(a) {
        let s = a + HALF_TURN;
        assert(s == f * (s / f) + s % f && 0 <= s % f < f) by (nonlinear_arith)
            requires
                f == 6_283_186,
        ;
        let k = s / f;
        assert(wrap_angle(a) - a == -(f * k));
        assert((-(f * k)) % f == 0) by (nonlinear_arith)
            requires
                f == 6_283_186,
        ;
    } else {
        assert(0int % f == 0);
    }
}

/// Wraps an angle that is at most `2^64` in magnitude.
fn wrap_wide(a: i128) -> (r: i64)
    requires
        -0x1_0000_0000_0000_0000 <= a <= 0x1_0000_0000_0000_0000,
    ensures
        r == wrap_angle(a as int),
        is_wrapped(r as int),
{
    proof {
        lemma_wrap_angle(a as int);
    }
    let half: i128 = 3_141_593;
    let full: i128 = 6_283_186;
    if a > half {
        let over: i128 = a - half;
        let m: i128 = over % full;
        proof {
            let f = FULL_TURN as int;
            let s = a + HALF_TURN;
            assert(s % f == (s - f) % f) by (nonlinear_arith)
                requires
                    f == 6_283_186,
            ;
        }
        (m - half) as i64
    } else if a < -half {
        let under: i128 = -(a + half);
        let m: i128 = under % full;
        proof {
            let f = FULL_TURN as int;
            let u = under as int;
            assert(u == f * (u / f) + u % f && 0 <= u % f < f) by (nonlinear_arith)
                requires
                    f == 6_283_186,
                    u > 0,
            ;
            let q = u / f;
            if m == 0 {
                assert((-u) % f == 0) by (nonlinear_arith)
                    requires
                        u == f * q,
                        f == 6_283_186,
                ;
            } else {
                assert((-u) % f == f - m) by (nonlinear_arith)
                    requires
                        u == f * q + m,
                        0 < m < f,
                        f == 6_283_186,
                ;
            }
        }
        if m == 0 {
            (-half) as i64
        } else {
            (full - m - half) as i64
        }
    } else {
        a as i64
    }
}

/// Brings an angle within half a turn of zero by taking whole turns away.
pub fn wrap(a: i64) -> (r: i64)
    ensures
        r == wrap_angle(a as int),
        is_wrapped(r as int),
{
    wrap_wide(a as i128)
}

/// The angle `a + b`, wrapped.
pub fn wrap_sum(a: i64, b: i64) -> (r: i64)
    ensures
        r == wrap_angle(a + b),
        is_wrapped(r as int),
{
    wrap_wide(a as i128 + b as i128)
}

/// The angle `a - b`, wrapped.
pub fn wrap_diff(a: i64, b: i64) -> (r: i64)
    ensures
        r == wrap_angle(a - b),
        is_wrapped(r as int),
{
    wrap_wide(a as i128 - b as i128)
}

/// Whether a camera pitched by `slope` is upside down.
pub fn upside_down(slope: i64) -> (r: bool)
    ensures
        r == is_upside_down(slope as int),
{
    slope < -QUARTER_TURN || slope > QUARTER_TURN
}

} // verus!
