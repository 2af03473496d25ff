//! Shared facts about sums of squares under scaled integer division.
//!
//! Normalization divides each component by (a scaling of) the vector's
//! length rounded upward, and speed clamping does the same with a target
//! magnitude; both norm bounds below are instances of the same estimates.

use vstd::prelude::*;

verus! {

/// Floor division facts for a nonnegative dividend and positive divisor.
pub(crate) proof fn lemma_floor_div(a: int, n: int)
    requires
        a >= 0,
        n > 0,
    ensures
        a / n >= 0,
        (a / n) * n <= a,
        a < (a / n) * n + n,
{
    vstd::arithmetic::div_mod::lemma_div_pos_is_pos(a, n);
    vstd::arithmetic::div_mod::lemma_remainder(a, n);
}

/// If each scaled component `u_i * nn` stays below `a_i * c` and the squared
/// input norm scaled by `c^2` stays below `nn^2 * b`, then the squared output
/// norm stays below `b`.
pub(crate) proof fn lemma_norm_upper(
    ux: int, uy: int, uz: int,
    ax: int, ay: int, az: int,
    nn: int, c: int, b: int,
)
    requires
        ux >= 0, uy >= 0, uz >= 0,
        ax >= 0, ay >= 0, az >= 0,
        c >= 0, b >= 0, nn >= 1,
        ux * nn <= ax * c,
        uy * nn <= ay * c,
        uz * nn <= az * c,
        (ax * ax + ay * ay + az * az) * (c * c) <= (nn * nn) * b,
    ensures
        ux * ux + uy * uy + uz * uz <= b,
{
    assert(ux * ux * (nn * nn) <= (ax * ax) * (c * c)) by (nonlinear_arith)
        requires
            ux >= 0, ax >= 0, c >= 0, nn >= 1, ux * nn <= ax * c;
    assert(uy * uy * (nn * nn) <= (ay * ay) * (c * c)) by (nonlinear_arith)
        requires
            uy >= 0, ay >= 0, c >= 0, nn >= 1, uy * nn <= ay * c;
    assert(uz * uz * (nn * nn) <= (az * az) * (c * c)) by (nonlinear_arith)
        requires
            uz >= 0, az >= 0, c >= 0, nn >= 1, uz * nn <= az * c;
    assert(ux * ux + uy * uy + uz * uz <= b) by (nonlinear_arith)
        requires
            ux * ux * (nn * nn) <= (ax * ax) * (c * c),
            uy * uy * (nn * nn) <= (ay * ay) * (c * c),
            uz * uz * (nn * nn) <= (az * az) * (c * c),
            (ax * ax + ay * ay + az * az) * (c * c) <= (nn * nn) * b,
            nn >= 1;
}

/// Normalizing by the upward-rounded root loses less than `8 * s` of the
/// squared target norm `s^2`: the result is a unit vector within tolerance.
pub(crate) proof fn lemma_normalize_lower(
    ax: int, ay: int, az: int,
    n2: int, nn: int,
    ux: int, uy: int, uz: int,
    s: int,
)
    requires
        s >= 2,
        ax >= 0, ay >= 0, az >= 0,
        n2 == ax * ax + ay * ay + az * az,
        n2 >= 1,
        nn >= s,
        n2 * (s * s) <= nn * nn,
        (nn - 1) * (nn - 1) < n2 * (s * s),
        ux >= 0, uy >= 0, uz >= 0,
        ax * (s * s) - nn < ux * nn, ux * nn <= ax * (s * s),
        ay * (s * s) - nn < uy * nn, uy * nn <= ay * (s * s),
        az * (s * s) - nn < uz * nn, uz * nn <= az * (s * s),
    ensures
        ux * ux + uy * uy + uz * uz > s * s - 8 * s,
{
    let sum = ux * ux + uy * uy + uz * uz;
    // Each component of the input is at most the scaled length.
    assert(ax * s <= nn) by (nonlinear_arith)
        requires
            ax >= 0, s >= 0, nn >= 0, ax * ax <= n2, n2 * (s * s) <= nn * nn;
    assert(ay * s <= nn) by (nonlinear_arith)
        requires
            ay >= 0, s >= 0, nn >= 0, ay * ay <= n2, n2 * (s * s) <= nn * nn;
    assert(az * s <= nn) by (nonlinear_arith)
        requires
            az >= 0, s >= 0, nn >= 0, az * az <= n2, n2 * (s * s) <= nn * nn;
    // Truncation costs each squared component at most twice the scaled value.
    assert(ux * ux * (nn * nn) >= (ax * (s * s)) * (ax * (s * s)) - 2 * (ax * (s * s)) * nn)
        by (nonlinear_arith)
        requires
            ux >= 0, nn >= 1, ax * (s * s) >= 0,
            ax * (s * s) - nn < ux * nn, ux * nn <= ax * (s * s);
    assert(uy * uy * (nn * nn) >= (ay * (s * s)) * (ay * (s * s)) - 2 * (ay * (s * s)) * nn)
        by (nonlinear_arith)
        requires
            uy >= 0, nn >= 1, ay * (s * s) >= 0,
            ay * (s * s) - nn < uy * nn, uy * nn <= ay * (s * s);
    assert(uz * uz * (nn * nn) >= (az * (s * s)) * (az * (s * s)) - 2 * (az * (s * s)) * nn)
        by (nonlinear_arith)
        requires
            uz >= 0, nn >= 1, az * (s * s) >= 0,
            az * (s * s) - nn < uz * nn, uz * nn <= az * (s * s);
    // Summing the three component estimates over opaque scaled components.
    let b0 = ax * (s * s);
    let b1 = ay * (s * s);
    let b2 = az * (s * s);
    assert(sum * (nn * nn) == ux * ux * (nn * nn) + uy * uy * (nn * nn) + uz * uz * (nn * nn))
        by (nonlinear_arith)
        requires
            sum == ux * ux + uy * uy + uz * uz;
    assert(2 * nn * (b0 + b1 + b2) == 2 * b0 * nn + 2 * b1 * nn + 2 * b2 * nn)
        by (nonlinear_arith);
    assert(sum * (nn * nn) >= (b0 * b0 + b1 * b1 + b2 * b2) - 2 * nn * (b0 + b1 + b2));
    assert(b0 * b0 + b1 * b1 + b2 * b2 == n2 * ((s * s) * (s * s))) by (nonlinear_arith)
        requires
            b0 == ax * (s * s),
            b1 == ay * (s * s),
            b2 == az * (s * s),
            n2 == ax * ax + ay * ay + az * az;
    assert(b0 <= nn * s) by (nonlinear_arith)
        requires
            b0 == ax * (s * s), ax * s <= nn, s >= 0;
    assert(b1 <= nn * s) by (nonlinear_arith)
        requires
            b1 == ay * (s * s), ay * s <= nn, s >= 0;
    assert(b2 <= nn * s) by (nonlinear_arith)
        requires
            b2 == az * (s * s), az * s <= nn, s >= 0;
    assert(2 * nn * (b0 + b1 + b2) <= 6 * s * (nn * nn)) by (nonlinear_arith)
        requires
            b0 <= nn * s, b1 <= nn * s, b2 <= nn * s, nn >= 0, s >= 0;
    // The scaled squared norm nearly reaches the scaled length squared.
    assert(n2 * ((s * s) * (s * s)) >= (s * s) * (nn * nn) - 2 * (s * s) * nn + 2 * (s * s))
        by (nonlinear_arith)
        requires
            s >= 0, (nn - 1) * (nn - 1) < n2 * (s * s);
    assert(2 * (s * s) * nn <= 2 * s * (nn * nn)) by (nonlinear_arith)
        requires
            0 <= s, s <= nn;
    // Combine and cancel the positive factor `nn * nn`.
    assert(sum > s * s - 8 * s) by (nonlinear_arith)
        requires
            sum * (nn * nn) >= (b0 * b0 + b1 * b1 + b2 * b2) - 2 * nn * (b0 + b1 + b2),
            b0 * b0 + b1 * b1 + b2 * b2 == n2 * ((s * s) * (s * s)),
            2 * nn * (b0 + b1 + b2) <= 6 * s * (nn * nn),
            n2 * ((s * s) * (s * s)) >= (s * s) * (nn * nn) - 2 * (s * s) * nn + 2 * (s * s),
            2 * (s * s) * nn <= 2 * s * (nn * nn),
            nn >= 1, s >= 2;
}

} // verus!
