//! Fixed-point scalar arithmetic: values are `i64` counts of millionths.
//!
//! Ghost-level mirrors (`sdiv`, `fmul`, `fdiv`) define every executable
//! operation exactly, so contracts throughout the crate are stated over
//! plain integer arithmetic.

use vstd::prelude::*;

verus! {

/// Raw units per 1.0: all fixed-point values count millionths.
pub const SCALE: i64 = 1_000_000;

/// Largest world-coordinate magnitude the kernel simulates (a million units).
pub const COORD_LIMIT: i64 = 1_000_000_000_000;

/// Longest elapsed time accepted for a single tick (ten seconds).
pub const TIME_LIMIT: i64 = 10_000_000;

/// Largest force-component magnitude a field may hand to the integrator.
pub const FORCE_LIMIT: i64 = 100_000_000_000_000_000;

/// Truncating division for a positive divisor: rounds toward zero,
/// matching hardware signed division.
pub open spec fn sdiv(a: int, b: int) -> int {
    if a >= 0 {
        a / b
    } else {
        -((-a) / b)
    }
}

/// Fixed-point product: `a * b` rescaled back down, rounded toward zero.
pub open spec fn fmul(a: int, b: int) -> int {
    sdiv(a * b, SCALE as int)
}

/// Fixed-point quotient: `a / b` scaled up first, rounded toward zero.
pub open spec fn fdiv(a: int, b: int) -> int {
    sdiv(a * SCALE, b)
}

/// Magnitude of an integer.
pub open spec fn iabs(a: int) -> int {
    if a >= 0 {
        a
    } else {
        -a
    }
}

/// Bound within which every fixed-point multiplication result fits an `i64`.
pub open spec fn fmul_fits(a: int, b: int) -> bool {
    iabs(fmul(a, b)) <= i64::MAX as int
}

/// Bound within which every fixed-point division result fits an `i64`.
pub open spec fn fdiv_fits(a: int, b: int) -> bool {
    iabs(fdiv(a, b)) <= i64::MAX as int
}

/// Magnitude of an `i64` as a `u64` (the smallest value is excluded so the
/// negation cannot overflow).
pub fn abs64(a: i64) -> (r: u64)
    requires
        a != i64::MIN,
    ensures
        r == iabs(a as int),
{
    if a < 0 {
        (-a) as u64
    } else {
        a as u64
    }
}

pub(crate) proof fn lemma_abs_mul(a: int, b: int)
    by (nonlinear_arith)
    ensures
        iabs(a) * iabs(b) == iabs(a * b),
        (a >= 0 && b >= 0) || (a <= 0 && b <= 0) ==> a * b >= 0,
        (a >= 0 && b <= 0) || (a <= 0 && b >= 0) ==> a * b <= 0,
{
}

/// Division of magnitudes agrees with `sdiv` once the sign is reapplied.
pub(crate) proof fn lemma_sdiv_signs(a: int, b: int)
    requires
        b > 0,
    ensures
        sdiv(a, b) == if a >= 0 { iabs(a) / b } else { -(iabs(a) / b) },
        iabs(sdiv(a, b)) == iabs(a) / b,
        iabs(a) / b >= 0,
{
    vstd::arithmetic::div_mod::lemma_div_pos_is_pos(iabs(a), b);
}

/// The magnitude of a fixed-point product is the scaled-down product of the
/// magnitudes.
pub proof fn lemma_fmul_abs(a: int, b: int)
    ensures
        iabs(fmul(a, b)) == (iabs(a) * iabs(b)) / (SCALE as int),
{
    lemma_abs_mul(a, b);
    lemma_sdiv_signs(a * b, SCALE as int);
}

/// A bound on the operand magnitudes bounds the fixed-point product.
pub proof fn lemma_fmul_le(a: int, b: int, c: int)
    requires
        iabs(a) * iabs(b) <= c,
    ensures
        iabs(fmul(a, b)) <= c / (SCALE as int),
{
    lemma_fmul_abs(a, b);
    vstd::arithmetic::div_mod::lemma_div_is_ordered(iabs(a) * iabs(b), c, SCALE as int);
}

/// The magnitude of a fixed-point quotient is the scaled-up quotient of the
/// magnitudes.
pub proof fn lemma_fdiv_abs(a: int, b: int)
    requires
        b > 0,
    ensures
        iabs(fdiv(a, b)) == (iabs(a) * (SCALE as int)) / b,
{
    lemma_abs_mul(a, SCALE as int);
    lemma_sdiv_signs(a * SCALE, b);
}

/// Bounds on the operands turn into a literal bound on the product.
pub proof fn lemma_fmul_bounded(a: int, b: int, na: int, nb: int)
    requires
        iabs(a) <= na,
        iabs(b) <= nb,
    ensures
        iabs(fmul(a, b)) <= (na * nb) / (SCALE as int),
{
    lemma_fmul_abs(a, b);
    assert(iabs(a) * iabs(b) <= na * nb) by (nonlinear_arith)
        requires
            0 <= iabs(a) <= na,
            0 <= iabs(b) <= nb;
    vstd::arithmetic::div_mod::lemma_div_is_ordered(iabs(a) * iabs(b), na * nb, SCALE as int);
}

/// Bounds on the dividend and a floor on the divisor turn into a literal
/// bound on the quotient.
pub proof fn lemma_fdiv_bounded(a: int, b: int, na: int, bmin: int)
    requires
        iabs(a) <= na,
        1 <= bmin <= b,
    ensures
        iabs(fdiv(a, b)) <= (na * (SCALE as int)) / bmin,
{
    lemma_fdiv_abs(a, b);
    vstd::arithmetic::div_mod::lemma_div_is_ordered(
        iabs(a) * (SCALE as int), na * (SCALE as int), b,
    );
    vstd::arithmetic::div_mod::lemma_div_is_ordered_by_denominator(na * (SCALE as int), bmin, b);
}

/// Dividing a nonnegative value by a positive divisor cannot grow it.
pub proof fn lemma_div_le(a: int, n: int)
    requires
        a >= 0,
        n >= 1,
    ensures
        0 <= a / n <= a,
{
    vstd::arithmetic::div_mod::lemma_div_pos_is_pos(a, n);
    vstd::arithmetic::div_mod::lemma_div_nonincreasing(a, n);
}

/// Fixed-point multiplication; the scaling back down truncates toward zero.
pub fn fx_mul(a: i64, b: i64) -> (r: i64)
    requires
        a != i64::MIN,
        b != i64::MIN,
        fmul_fits(a as int, b as int),
    ensures
        r == fmul(a as int, b as int),
{
    let negative: bool = (a < 0) != (b < 0);
    let ua: u128 = abs64(a) as u128;
    let ub: u128 = abs64(b) as u128;
    proof {
        assert(ua * ub <= u128::MAX) by (nonlinear_arith)
            requires
                ua <= u64::MAX,
                ub <= u64::MAX;
    }
    let p: u128 = ua * ub;
    let q: u128 = p / (SCALE as u128);
    proof {
        lemma_abs_mul(a as int, b as int);
        lemma_sdiv_signs(a as int * b as int, SCALE as int);
        assert(q == iabs(a as int * b as int) / (SCALE as int));
    }
    if negative {
        proof {
            assert(a as int * b as int <= 0);
        }
        -(q as i64)
    } else {
        proof {
            assert(a as int * b as int >= 0);
        }
        q as i64
    }
}

/// Characterizes the square root of `n` rounded upward.
pub open spec fn is_sqrt_up(n: int, r: int) -> bool {
    &&& r >= 0
    &&& r * r >= n
    &&& r >= 1 ==> (r - 1) * (r - 1) < n
    &&& n <= 0 ==> r == 0
}

/// The square root of `n` rounded upward (`sqrt_up(n) * sqrt_up(n) >= n`,
/// tightly); the characterization pins it down uniquely.
pub open spec fn sqrt_up(n: int) -> int {
    choose|r: int| is_sqrt_up(n, r)
}

/// Any value satisfying the characterization is the upward-rounded root.
pub proof fn lemma_sqrt_up_unique(n: int, r: int)
    requires
        is_sqrt_up(n, r),
    ensures
        sqrt_up(n) == r,
{
    assert(exists|q: int| is_sqrt_up(n, q)) by {
        assert(is_sqrt_up(n, r));
    }
    let q = sqrt_up(n);
    assert(is_sqrt_up(n, q));
    assert(q == r) by (nonlinear_arith)
        requires
            q >= 0,
            r >= 0,
            q * q >= n,
            r * r >= n,
            q >= 1 ==> (q - 1) * (q - 1) < n,
            r >= 1 ==> (r - 1) * (r - 1) < n,
            n <= 0 ==> q == 0,
            n <= 0 ==> r == 0;
}

/// Plain truncating division by a positive divisor (no rescaling).
pub fn div_trunc(a: i64, d: i64) -> (r: i64)
    requires
        a != i64::MIN,
        d > 0,
    ensures
        r == sdiv(a as int, d as int),
        iabs(r as int) <= iabs(a as int),
{
    let ua: u64 = abs64(a);
    let q: u64 = ua / (d as u64);
    proof {
        lemma_sdiv_signs(a as int, d as int);
        lemma_div_le(ua as int, d as int);
    }
    if a < 0 {
        -(q as i64)
    } else {
        q as i64
    }
}

/// Least `r` with `r * r >= n`: the square root of `n` rounded upward.
///
/// Dividing by this value can only shrink a magnitude, which is what the
/// norm bounds of vector normalization and speed clamping rest on.
pub fn isqrt_up(n: u128) -> (r: u128)
    ensures
        n == 0 ==> r == 0,
        (r as int) * (r as int) >= n as int,
        n > 0 ==> r >= 1 && (r - 1) * (r - 1) < n as int,
        r <= 0x1_0000_0000_0000_0000u128,
        is_sqrt_up(n as int, r as int),
{
    if n == 0 {
        return 0;
    }
    let mut lo: u128 = 0;
    let mut hi: u128 = 0x1_0000_0000_0000_0000u128;
    proof {
        assert((hi as int) * (hi as int) > n as int) by (nonlinear_arith)
            requires
                hi == 0x1_0000_0000_0000_0000u128,
                n <= u128::MAX;
    }
    while lo + 1 < hi
        invariant
            lo < hi,
            hi <= 0x1_0000_0000_0000_0000u128,
            (lo as int) * (lo as int) <= n as int,
            (hi as int) * (hi as int) > n as int,
        decreases hi - lo,
    {
        let mid: u128 = lo + (hi - lo) / 2;
        proof {
            assert(mid * mid <= u128::MAX) by (nonlinear_arith)
                requires
                    mid < 0x1_0000_0000_0000_0000u128;
        }
        if mid * mid <= n {
            lo = mid;
        } else {
            hi = mid;
        }
    }
    proof {
        assert(lo * lo <= u128::MAX) by (nonlinear_arith)
            requires
                lo < 0x1_0000_0000_0000_0000u128;
    }
    if lo * lo == n {
        proof {
            assert(lo >= 1);
            assert((lo - 1) * (lo - 1) < lo * lo) by (nonlinear_arith)
                requires
                    lo >= 1;
        }
        lo
    } else {
        lo + 1
    }
}

/// Fixed-point division by a positive divisor; truncates toward zero.
pub fn fx_div(a: i64, b: i64) -> (r: i64)
    requires
        a != i64::MIN,
        b > 0,
        fdiv_fits(a as int, b as int),
    ensures
        r == fdiv(a as int, b as int),
{
    let ua: u128 = abs64(a) as u128;
    proof {
        assert(ua * (SCALE as u128) <= u128::MAX) by (nonlinear_arith)
            requires
                ua <= u64::MAX,
                SCALE == 1_000_000i64;
    }
    let p: u128 = ua * (SCALE as u128);
    let q: u128 = p / (b as u128);
    proof {
        lemma_abs_mul(a as int, SCALE as int);
        lemma_sdiv_signs(a as int * SCALE as int, b as int);
        assert(q == iabs(a as int * SCALE as int) / (b as int));
    }
    if a < 0 {
        proof {
            assert(a as int * SCALE as int <= 0);
        }
        -(q as i64)
    } else {
        proof {
            assert(a as int * SCALE as int >= 0);
        }
        q as i64
    }
}

} // verus!
