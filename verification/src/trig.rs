//! Fixed-point trigonometry for orbit and look-direction math.
//!
//! Angles are `i64` micro-degrees; results are micro-units in
//! `[-UNIT, UNIT]`. Sine is Bhaskara's rational approximation, stated
//! exactly by [`spec_sin_udeg`]; it is exact at every multiple of a
//! quarter turn, which keeps the axis-aligned cases of the camera and the
//! orbit exact.

use crate::fixed::UNIT;
use vstd::prelude::*;

verus! {

/// A full turn in micro-degrees.
pub const TURN_UDEG: i64 = 360_000_000;

/// Half a turn in micro-degrees.
pub const HALF_TURN_UDEG: i64 = 180_000_000;

/// A quarter turn in micro-degrees.
pub const QUARTER_TURN_UDEG: i64 = 90_000_000;

/// The largest angle magnitude the entry points accept; far beyond any
/// angle the scene accumulates, it only keeps the fold-in arithmetic and
/// the quarter-turn shift inside an `i64`.
pub const MAX_ANGLE_UDEG: i64 = 1_000_000_000_000;

/// Bhaskara's sine approximation on the first half turn. The input is
/// millidegrees in `[0, 180_000]`; with `p = x * (180_000 - x)` the sine in
/// micro-units is `4 * p * UNIT / (40_500_000_000 - p)`.
pub open spec fn spec_sin_half_turn(x_m: int) -> int {
    let p = x_m * (180_000 - x_m);
    4 * p * (UNIT as int) / (40_500_000_000 - p)
}

/// The angle folded into `[0, TURN_UDEG)`.
pub open spec fn spec_angle_mod(a: int) -> int {
    a % (TURN_UDEG as int)
}

/// Sine of an angle in micro-degrees, in micro-units.
pub open spec fn spec_sin_udeg(a: int) -> int {
    let m = spec_angle_mod(a);
    if m < HALF_TURN_UDEG {
        spec_sin_half_turn(m / 1000)
    } else {
        -spec_sin_half_turn((m - HALF_TURN_UDEG) / 1000)
    }
}

/// Cosine is sine a quarter turn ahead.
pub open spec fn spec_cos_udeg(a: int) -> int {
    spec_sin_udeg(a + QUARTER_TURN_UDEG)
}

/// A nonnegative value divided by a positive divisor stays under any `c`
/// whose multiple of the divisor bounds the dividend.
proof fn lemma_div_le(num: int, den: int, c: int)
    requires
        den >= 1,
        0 <= num,
        num <= c * den,
    ensures
        0 <= num / den <= c,
{
    vstd::arithmetic::div_mod::lemma_div_pos_is_pos(num, den);
    vstd::arithmetic::div_mod::lemma_fundamental_div_mod(num, den);
    let q = num / den;
    if q > c {
        assert(q * den >= (c + 1) * den) by (nonlinear_arith)
            requires
                q >= c + 1,
                den >= 1;
        assert((c + 1) * den > c * den) by (nonlinear_arith)
            requires
                den >= 1;
        assert(q * den <= num) by {
            assert(num == den * q + num % den);
            vstd::arithmetic::div_mod::lemma_mod_bound(num, den);
            assert(den * q == q * den) by (nonlinear_arith);
        }
    }
}

/// The half-turn approximation stays within the unit range.
proof fn lemma_sin_half_turn_bounds(x_m: int)
    requires
        0 <= x_m <= 180_000,
    ensures
        0 <= spec_sin_half_turn(x_m) <= UNIT,
{
    let p = x_m * (180_000 - x_m);
    assert((x_m - 90_000) * (x_m - 90_000) >= 0) by (nonlinear_arith);
    assert(p == 8_100_000_000 - (x_m - 90_000) * (x_m - 90_000)) by (nonlinear_arith)
        requires
            p == x_m * (180_000 - x_m);
    assert(p >= 0) by (nonlinear_arith)
        requires
            0 <= x_m <= 180_000,
            p == x_m * (180_000 - x_m);
    let num = 4 * p * (UNIT as int);
    let den = 40_500_000_000 - p;
    assert(num <= (UNIT as int) * den) by (nonlinear_arith)
        requires
            0 <= p <= 8_100_000_000,
            num == 4 * p * (UNIT as int),
            den == 40_500_000_000 - p,
            UNIT == 1_000_000;
    lemma_div_le(num, den, UNIT as int);
}

/// Sine on the first half turn, millidegree input.
fn sin_half_turn(x_m: i64) -> (r: i64)
    requires
        0 <= x_m <= 180_000,
    ensures
        r == spec_sin_half_turn(x_m as int),
        0 <= r <= UNIT,
{
    proof {
        let xi = x_m as int;
        assert((xi - 90_000) * (xi - 90_000) >= 0) by (nonlinear_arith);
        assert(xi * (180_000 - xi) == 8_100_000_000 - (xi - 90_000) * (xi - 90_000))
            by (nonlinear_arith);
        assert(xi * (180_000 - xi) >= 0) by (nonlinear_arith)
            requires
                0 <= xi <= 180_000;
    }
    let p: i64 = x_m * (180_000 - x_m);
    let num: u64 = 4 * (p as u64) * 1_000_000;
    let den: u64 = 40_500_000_000 - (p as u64);
    let q: u64 = num / den;
    proof {
        lemma_sin_half_turn_bounds(x_m as int);
        assert(num as int == 4 * p as int * (UNIT as int));
        assert(q as int == spec_sin_half_turn(x_m as int));
    }
    q as i64
}

/// The angle folded into `[0, TURN_UDEG)`, matching the Euclidean
/// remainder that the specification's `%` denotes.
pub fn angle_mod(a: i64) -> (m: i64)
    requires
        -MAX_ANGLE_UDEG - TURN_UDEG <= a <= MAX_ANGLE_UDEG + TURN_UDEG,
    ensures
        m == spec_angle_mod(a as int),
        0 <= m < TURN_UDEG,
{
    let t: i64 = TURN_UDEG;
    if a >= 0 {
        let r = a % t;
        proof {
            vstd::arithmetic::div_mod::lemma_mod_bound(a as int, t as int);
        }
        r
    } else {
        let k: i64 = -a;
        let r0: i64 = k % t;
        proof {
            vstd::arithmetic::div_mod::lemma_mod_bound(k as int, t as int);
            vstd::arithmetic::div_mod::lemma_fundamental_div_mod(k as int, t as int);
            let q0 = k as int / t as int;
            if r0 == 0 {
                assert(a as int == t as int * (-q0) + 0);
                vstd::arithmetic::div_mod::lemma_mod_multiples_vanish(-q0, 0, t as int);
                vstd::arithmetic::div_mod::lemma_small_mod(0, t as nat);
            } else {
                assert(a as int == t as int * (-q0 - 1) + (t as int - r0 as int));
                vstd::arithmetic::div_mod::lemma_mod_multiples_vanish(
                    -q0 - 1,
                    t as int - r0 as int,
                    t as int,
                );
                vstd::arithmetic::div_mod::lemma_small_mod(
                    (t as int - r0 as int) as nat,
                    t as nat,
                );
            }
        }
        if r0 == 0 {
            0
        } else {
            t - r0
        }
    }
}

/// Sine of an angle in micro-degrees, in micro-units.
pub fn sin_udeg(a: i64) -> (r: i64)
    requires
        -MAX_ANGLE_UDEG - TURN_UDEG <= a <= MAX_ANGLE_UDEG + TURN_UDEG,
    ensures
        r == spec_sin_udeg(a as int),
        -UNIT <= r <= UNIT,
{
    let m = angle_mod(a);
    if m < HALF_TURN_UDEG {
        proof {
            vstd::arithmetic::div_mod::lemma_div_pos_is_pos(m as int, 1000);
            vstd::arithmetic::div_mod::lemma_div_is_ordered(m as int, 179_999_999, 1000);
        }
        sin_half_turn(m / 1000)
    } else {
        let folded: i64 = m - HALF_TURN_UDEG;
        proof {
            vstd::arithmetic::div_mod::lemma_div_pos_is_pos(folded as int, 1000);
            vstd::arithmetic::div_mod::lemma_div_is_ordered(folded as int, 179_999_999, 1000);
        }
        -sin_half_turn(folded / 1000)
    }
}

/// Cosine of an angle in micro-degrees, in micro-units.
pub fn cos_udeg(a: i64) -> (r: i64)
    requires
        -MAX_ANGLE_UDEG <= a <= MAX_ANGLE_UDEG,
    ensures
        r == spec_cos_udeg(a as int),
        -UNIT <= r <= UNIT,
{
    sin_udeg(a + QUARTER_TURN_UDEG)
}

} // verus!
