//! Fixed-point sine and cosine.
//!
//! The flow field turns noise samples into direction angles, and the
//! perspective projection needs the cotangent of the half field-of-view.
//! Both use the classic rational approximation of the sine on `[0, pi]`
//! (`16 x (pi - x) / (5 pi^2 - 4 x (pi - x))`), extended to the full circle
//! by periodic reduction. The contracts state the computed value exactly,
//! so both functions are pure functions of their argument.

use vstd::prelude::*;
use crate::fixed::{SCALE, iabs};

verus! {

/// Half turn in fixed-point radians.
pub const PI_FX: i64 = 3_141_593;

/// Quarter turn in fixed-point radians.
pub const HALF_PI_FX: i64 = 1_570_796;

/// Full turn in fixed-point radians.
pub const TAU_FX: i64 = 6_283_185;

/// Largest angle magnitude accepted by the trigonometric functions.
pub const ANGLE_LIMIT: i64 = 2_000_000_000_000;

/// The rational sine approximation on `[0, PI_FX]`, scaled to fixed point.
pub open spec fn spec_half_wave(x: int) -> int {
    let t = x * (PI_FX - x);
    (16 * t * SCALE) / (5 * PI_FX * PI_FX - 4 * t)
}

/// Fixed-point sine: periodic reduction into `[0, TAU_FX)`, one positive
/// half wave followed by one negative half wave.
pub open spec fn spec_sin(x: int) -> int {
    let r = x % (TAU_FX as int);
    if r <= PI_FX {
        spec_half_wave(r)
    } else {
        -spec_half_wave(r - PI_FX)
    }
}

/// Fixed-point cosine: the sine shifted by a quarter turn.
pub open spec fn spec_cos(x: int) -> int {
    spec_sin(x + HALF_PI_FX)
}

/// The half-wave numerator `x * (PI_FX - x)` over `[0, PI_FX]`, whose range
/// drives every bound below.
proof fn lemma_half_wave_bounds(x: int)
    requires
        0 <= x <= PI_FX,
    ensures
        0 <= x * (PI_FX - x),
        4 * (x * (PI_FX - x)) <= PI_FX * PI_FX,
{
    assert(0 <= x * (PI_FX - x)) by (nonlinear_arith)
        requires
            0 <= x,
            x <= PI_FX;
    assert(4 * (x * (PI_FX - x)) <= PI_FX * PI_FX) by (nonlinear_arith)
        requires
            0 <= x,
            x <= PI_FX;
}

/// One half wave of the sine, on inputs in `[0, PI_FX]`.
fn half_wave(x: u64) -> (r: i64)
    requires
        x <= PI_FX,
    ensures
        r == spec_half_wave(x as int),
        0 <= r <= SCALE,
{
    proof {
        lemma_half_wave_bounds(x as int);
        assert(x * ((PI_FX as u64) - x) <= u64::MAX) by (nonlinear_arith)
            requires
                x <= PI_FX,
                PI_FX == 3_141_593i64;
    }
    let t: u64 = x * ((PI_FX as u64) - x);
    proof {
        assert(16 * (t as int) * (SCALE as int) <= u128::MAX) by (nonlinear_arith)
            requires
                t <= u64::MAX,
                SCALE == 1_000_000i64;
    }
    let num: u128 = 16 * (t as u128) * (SCALE as u128);
    let den: u64 = 5 * ((PI_FX as u64) * (PI_FX as u64)) - 4 * t;
    let q: u128 = num / (den as u128);
    proof {
        let ti = t as int;
        let deni = den as int;
        crate::norms::lemma_floor_div(16 * ti * (SCALE as int), deni);
        assert(q * deni <= 16 * ti * (SCALE as int));
        assert(q <= SCALE) by (nonlinear_arith)
            requires
                q >= 0,
                q * deni <= 16 * ti * (SCALE as int),
                4 * ti <= PI_FX * PI_FX,
                deni == 5 * (PI_FX as int) * (PI_FX as int) - 4 * ti,
                ti >= 0,
                SCALE == 1_000_000i64,
                PI_FX == 3_141_593i64;
    }
    q as i64
}

/// Reduces an angle into `[0, TAU_FX)`, agreeing with the mathematical
/// (Euclidean) remainder.
fn reduce_angle(x: i64) -> (r: u64)
    requires
        iabs(x as int) <= ANGLE_LIMIT,
    ensures
        r == (x as int) % (TAU_FX as int),
        r < TAU_FX,
{
    let tau: u64 = TAU_FX as u64;
    if x >= 0 {
        let r: u64 = (x as u64) % tau;
        proof {
            assert((x as u64) % tau == (x as int) % (TAU_FX as int));
        }
        r
    } else {
        let a: u64 = (-x) as u64;
        let rem: u64 = a % tau;
        proof {
            vstd::arithmetic::div_mod::lemma_fundamental_div_mod(a as int, TAU_FX as int);
            vstd::arithmetic::div_mod::lemma_mod_division_less_than_divisor(a as int, TAU_FX as int);
            let qa = (a as int) / (TAU_FX as int);
            let ra = (a as int) % (TAU_FX as int);
            assert(rem == ra);
            if ra == 0 {
                assert(x as int == (-qa) * (TAU_FX as int) + 0) by (nonlinear_arith)
                    requires
                        a == qa * (TAU_FX as int) + 0,
                        x as int == -(a as int);
                vstd::arithmetic::div_mod::lemma_fundamental_div_mod_converse_mod(
                    x as int, TAU_FX as int, -qa, 0,
                );
            } else {
                assert(x as int == (-qa - 1) * (TAU_FX as int) + (TAU_FX - ra)) by (nonlinear_arith)
                    requires
                        a == qa * (TAU_FX as int) + ra,
                        x as int == -(a as int);
                vstd::arithmetic::div_mod::lemma_fundamental_div_mod_converse_mod(
                    x as int, TAU_FX as int, -qa - 1, TAU_FX - ra,
                );
            }
        }
        if rem == 0 {
            0
        } else {
            tau - rem
        }
    }
}

/// Away from its zeros, the sine keeps a concrete positive floor: needed to
/// divide by it when deriving a perspective focal length.
pub proof fn lemma_sin_lower(x: int)
    requires
        50_000 <= x <= PI_FX - 50_000,
    ensures
        spec_sin(x) >= 50_000,
{
    assert(x % (TAU_FX as int) == x) by {
        vstd::arithmetic::div_mod::lemma_fundamental_div_mod_converse_mod(
            x, TAU_FX as int, 0, x,
        );
    }
    let t = x * (PI_FX - x);
    assert(t >= 50_000 * (PI_FX - 50_000)) by (nonlinear_arith)
        requires
            50_000 <= x <= PI_FX - 50_000,
            t == x * (PI_FX - x),
            PI_FX == 3_141_593i64;
    lemma_half_wave_bounds(x);
    let den = 5 * (PI_FX as int) * (PI_FX as int) - 4 * t;
    assert(16 * t * (SCALE as int) >= 50_000 * den) by (nonlinear_arith)
        requires
            t >= 50_000 * ((PI_FX as int) - 50_000),
            den == 5 * (PI_FX as int) * (PI_FX as int) - 4 * t,
            SCALE == 1_000_000i64,
            PI_FX == 3_141_593i64;
    assert(den >= 1);
    vstd::arithmetic::div_mod::lemma_div_is_ordered(50_000 * den, 16 * t * (SCALE as int), den);
    vstd::arithmetic::div_mod::lemma_div_multiples_vanish(50_000, den);
    assert((den * 50_000) == (50_000 * den)) by (nonlinear_arith);
}

/// On the first half turn the sine does not go negative.
pub proof fn lemma_sin_nonneg(x: int)
    requires
        0 <= x <= PI_FX,
    ensures
        spec_sin(x) >= 0,
{
    assert(x % (TAU_FX as int) == x) by {
        vstd::arithmetic::div_mod::lemma_fundamental_div_mod_converse_mod(
            x, TAU_FX as int, 0, x,
        );
    }
    lemma_half_wave_bounds(x);
    let t = x * (PI_FX - x);
    assert(16 * t * (SCALE as int) >= 0);
    vstd::arithmetic::div_mod::lemma_div_pos_is_pos(
        16 * t * (SCALE as int), 5 * (PI_FX as int) * (PI_FX as int) - 4 * t,
    );
}

/// Fixed-point sine, defined for any angle within [`ANGLE_LIMIT`].
pub fn fx_sin(x: i64) -> (r: i64)
    requires
        iabs(x as int) <= ANGLE_LIMIT,
    ensures
        r == spec_sin(x as int),
        iabs(r as int) <= SCALE,
{
    let m: u64 = reduce_angle(x);
    if m <= PI_FX as u64 {
        half_wave(m)
    } else {
        -half_wave(m - PI_FX as u64)
    }
}

/// Fixed-point cosine, defined for any angle within half of [`ANGLE_LIMIT`].
pub fn fx_cos(x: i64) -> (r: i64)
    requires
        iabs(x as int) <= ANGLE_LIMIT / 2,
    ensures
        r == spec_cos(x as int),
        iabs(r as int) <= SCALE,
{
    fx_sin(x + HALF_PI_FX)
}

} // verus!
