//! Fixed-point 3D vectors: the coordinate type of cameras, particles and
//! force fields.

use vstd::prelude::*;
use crate::fixed::{
    SCALE, abs64, fmul, fmul_fits, fx_mul, iabs, is_sqrt_up, isqrt_up, lemma_sqrt_up_unique, sdiv,
    sqrt_up,
};
use crate::norms::{lemma_floor_div, lemma_norm_upper, lemma_normalize_lower};

verus! {

/// Largest component magnitude a vector may have on entry to `normalize`.
pub const NORMALIZE_LIMIT: i64 = 8_000_000_000_000;

/// A 3D vector of fixed-point coordinates (millionths of a unit).
#[derive(Clone, Copy, Debug, PartialEq, Eq, Structural)]
pub struct Vec3Fx {
    pub x: i64,
    pub y: i64,
    pub z: i64,
}

impl Vec3Fx {
    /// Every component's magnitude stays within `b`.
    pub open spec fn in_bounds(self, b: int) -> bool {
        &&& iabs(self.x as int) <= b
        &&& iabs(self.y as int) <= b
        &&& iabs(self.z as int) <= b
    }

    /// Squared Euclidean norm, in raw squared units.
    pub open spec fn norm_sq(self) -> int {
        self.x * self.x + self.y * self.y + self.z * self.z
    }

    pub open spec fn is_zero(self) -> bool {
        self.x == 0 && self.y == 0 && self.z == 0
    }

    pub open spec fn spec_add(self, o: Vec3Fx) -> Vec3Fx {
        Vec3Fx { x: (self.x + o.x) as i64, y: (self.y + o.y) as i64, z: (self.z + o.z) as i64 }
    }

    pub open spec fn spec_sub(self, o: Vec3Fx) -> Vec3Fx {
        Vec3Fx { x: (self.x - o.x) as i64, y: (self.y - o.y) as i64, z: (self.z - o.z) as i64 }
    }

    /// Component-wise fixed-point scaling by `c`.
    pub open spec fn spec_scale(self, c: int) -> Vec3Fx {
        Vec3Fx {
            x: fmul(self.x as int, c) as i64,
            y: fmul(self.y as int, c) as i64,
            z: fmul(self.z as int, c) as i64,
        }
    }

    /// Fixed-point dot product.
    pub open spec fn spec_dot(self, o: Vec3Fx) -> int {
        fmul(self.x as int, o.x as int) + fmul(self.y as int, o.y as int) + fmul(
            self.z as int,
            o.z as int,
        )
    }

    /// Fixed-point cross product.
    pub open spec fn spec_cross(self, o: Vec3Fx) -> Vec3Fx {
        Vec3Fx {
            x: (fmul(self.y as int, o.z as int) - fmul(self.z as int, o.y as int)) as i64,
            y: (fmul(self.z as int, o.x as int) - fmul(self.x as int, o.z as int)) as i64,
            z: (fmul(self.x as int, o.y as int) - fmul(self.y as int, o.x as int)) as i64,
        }
    }

    /// `self` scaled to (within tolerance) unit length, as a value.
    pub open spec fn spec_normalized(self) -> Vec3Fx {
        let nn = sqrt_up(self.norm_sq() * SCALE * SCALE);
        Vec3Fx {
            x: sdiv(self.x * SCALE * SCALE, nn) as i64,
            y: sdiv(self.y * SCALE * SCALE, nn) as i64,
            z: sdiv(self.z * SCALE * SCALE, nn) as i64,
        }
    }

    /// `self` with its length capped at `m`, as a value.
    pub open spec fn spec_clamp(self, m: int) -> Vec3Fx {
        if self.norm_sq() <= m * m {
            self
        } else {
            let nn = sqrt_up(self.norm_sq());
            Vec3Fx {
                x: sdiv(self.x * m, nn) as i64,
                y: sdiv(self.y * m, nn) as i64,
                z: sdiv(self.z * m, nn) as i64,
            }
        }
    }

    /// `r` is `self` scaled to (within tolerance) unit length: each component
    /// is divided by the upward-rounded scaled length, rounding toward zero.
    pub open spec fn is_unit_toward(self, r: Vec3Fx) -> bool {
        let nn = sqrt_up(self.norm_sq() * SCALE * SCALE);
        &&& r.x == sdiv(self.x * SCALE * SCALE, nn)
        &&& r.y == sdiv(self.y * SCALE * SCALE, nn)
        &&& r.z == sdiv(self.z * SCALE * SCALE, nn)
    }

    /// `r` is `self` with its length capped at `m`: unchanged when already
    /// within the cap, otherwise rescaled by `m` over the upward-rounded
    /// length (direction preserved, magnitude capped).
    pub open spec fn is_clamped(self, m: int, r: Vec3Fx) -> bool {
        if self.norm_sq() <= m * m {
            r == self
        } else {
            let nn = sqrt_up(self.norm_sq());
            &&& r.x == sdiv(self.x * m, nn)
            &&& r.y == sdiv(self.y * m, nn)
            &&& r.z == sdiv(self.z * m, nn)
        }
    }

    pub fn new(x: i64, y: i64, z: i64) -> (r: Vec3Fx)
        ensures
            r == (Vec3Fx { x, y, z }),
    {
        Vec3Fx { x, y, z }
    }

    pub fn add(self, o: Vec3Fx) -> (r: Vec3Fx)
        requires
            iabs(self.x + o.x) <= i64::MAX,
            iabs(self.y + o.y) <= i64::MAX,
            iabs(self.z + o.z) <= i64::MAX,
        ensures
            r == self.spec_add(o),
    {
        Vec3Fx { x: self.x + o.x, y: self.y + o.y, z: self.z + o.z }
    }

    pub fn sub(self, o: Vec3Fx) -> (r: Vec3Fx)
        requires
            iabs(self.x - o.x) <= i64::MAX,
            iabs(self.y - o.y) <= i64::MAX,
            iabs(self.z - o.z) <= i64::MAX,
        ensures
            r == self.spec_sub(o),
    {
        Vec3Fx { x: self.x - o.x, y: self.y - o.y, z: self.z - o.z }
    }

    pub fn scale(self, c: i64) -> (r: Vec3Fx)
        requires
            self.x != i64::MIN,
            self.y != i64::MIN,
            self.z != i64::MIN,
            c != i64::MIN,
            fmul_fits(self.x as int, c as int),
            fmul_fits(self.y as int, c as int),
            fmul_fits(self.z as int, c as int),
        ensures
            r == self.spec_scale(c as int),
    {
        Vec3Fx { x: fx_mul(self.x, c), y: fx_mul(self.y, c), z: fx_mul(self.z, c) }
    }

    pub fn dot(self, o: Vec3Fx) -> (r: i64)
        requires
            self.x != i64::MIN && self.y != i64::MIN && self.z != i64::MIN,
            o.x != i64::MIN && o.y != i64::MIN && o.z != i64::MIN,
            fmul_fits(self.x as int, o.x as int),
            fmul_fits(self.y as int, o.y as int),
            fmul_fits(self.z as int, o.z as int),
            iabs(self.spec_dot(o)) <= i64::MAX,
            iabs(fmul(self.x as int, o.x as int) + fmul(self.y as int, o.y as int)) <= i64::MAX,
        ensures
            r == self.spec_dot(o),
    {
        fx_mul(self.x, o.x) + fx_mul(self.y, o.y) + fx_mul(self.z, o.z)
    }

    pub fn cross(self, o: Vec3Fx) -> (r: Vec3Fx)
        requires
            self.x != i64::MIN && self.y != i64::MIN && self.z != i64::MIN,
            o.x != i64::MIN && o.y != i64::MIN && o.z != i64::MIN,
            fmul_fits(self.y as int, o.z as int),
            fmul_fits(self.z as int, o.y as int),
            fmul_fits(self.z as int, o.x as int),
            fmul_fits(self.x as int, o.z as int),
            fmul_fits(self.x as int, o.y as int),
            fmul_fits(self.y as int, o.x as int),
            iabs(fmul(self.y as int, o.z as int) - fmul(self.z as int, o.y as int)) <= i64::MAX,
            iabs(fmul(self.z as int, o.x as int) - fmul(self.x as int, o.z as int)) <= i64::MAX,
            iabs(fmul(self.x as int, o.y as int) - fmul(self.y as int, o.x as int)) <= i64::MAX,
        ensures
            r == self.spec_cross(o),
    {
        Vec3Fx {
            x: fx_mul(self.y, o.z) - fx_mul(self.z, o.y),
            y: fx_mul(self.z, o.x) - fx_mul(self.x, o.z),
            z: fx_mul(self.x, o.y) - fx_mul(self.y, o.x),
        }
    }

    /// Squared norm, computed exactly in 128-bit arithmetic.
    pub fn norm_sq_u128(&self) -> (r: u128)
        requires
            self.x != i64::MIN,
            self.y != i64::MIN,
            self.z != i64::MIN,
        ensures
            r == self.norm_sq(),
    {
        let ax: u128 = abs64(self.x) as u128;
        let ay: u128 = abs64(self.y) as u128;
        let az: u128 = abs64(self.z) as u128;
        proof {
            assert(ax * ax == self.x * self.x && ax * ax <= 0x4000_0000_0000_0000_0000_0000_0000_0000u128)
                by (nonlinear_arith)
                requires
                    ax == iabs(self.x as int),
                    ax <= u64::MAX;
            assert(ay * ay == self.y * self.y && ay * ay <= 0x4000_0000_0000_0000_0000_0000_0000_0000u128)
                by (nonlinear_arith)
                requires
                    ay == iabs(self.y as int),
                    ay <= u64::MAX;
            assert(az * az == self.z * self.z && az * az <= 0x4000_0000_0000_0000_0000_0000_0000_0000u128)
                by (nonlinear_arith)
                requires
                    az == iabs(self.z as int),
                    az <= u64::MAX;
        }
        ax * ax + ay * ay + az * az
    }

    /// Scales the vector to unit length, within fixed-point tolerance.
    ///
    /// The result is exactly the truncated quotient of each component by the
    /// upward-rounded length, so its squared norm can only fall below the
    /// unit square, and by less than `8 * SCALE` parts.
    pub fn normalize(&self) -> (r: Vec3Fx)
        requires
            self.in_bounds(NORMALIZE_LIMIT as int),
            !self.is_zero(),
        ensures
            self.is_unit_toward(r),
            r == self.spec_normalized(),
            r.in_bounds(SCALE as int),
            SCALE * SCALE - 8 * SCALE < r.norm_sq() <= SCALE * SCALE,
    {
        let n2: u128 = self.norm_sq_u128();
        proof {
            assert(n2 >= 1) by (nonlinear_arith)
                requires
                    n2 == self.x * self.x + self.y * self.y + self.z * self.z,
                    !(self.x == 0 && self.y == 0 && self.z == 0);
            assert(n2 <= 3 * 64000000000000000000000000u128) by (nonlinear_arith)
                requires
                    n2 == self.x * self.x + self.y * self.y + self.z * self.z,
                    iabs(self.x as int) <= 8_000_000_000_000i64,
                    iabs(self.y as int) <= 8_000_000_000_000i64,
                    iabs(self.z as int) <= 8_000_000_000_000i64;
        }
        let sc2: u128 = (SCALE as u128) * (SCALE as u128);
        let m: u128 = n2 * sc2;
        let nn: u128 = isqrt_up(m);
        proof {
            lemma_sqrt_up_unique(m as int, nn as int);
            assert(nn >= SCALE) by (nonlinear_arith)
                requires
                    (nn as int) * (nn as int) >= m,
                    m == n2 * ((SCALE as int) * (SCALE as int)),
                    n2 >= 1,
                    nn >= 0,
                    SCALE == 1_000_000i64;
        }
        proof {
            assert(iabs(self.x as int) * iabs(self.x as int) <= n2
                && iabs(self.y as int) * iabs(self.y as int) <= n2
                && iabs(self.z as int) * iabs(self.z as int) <= n2) by (nonlinear_arith)
                requires
                    n2 == self.x * self.x + self.y * self.y + self.z * self.z;
        }
        let rx: i64 = scale_component(self.x, sc2, nn, Ghost(n2 as int));
        let ry: i64 = scale_component(self.y, sc2, nn, Ghost(n2 as int));
        let rz: i64 = scale_component(self.z, sc2, nn, Ghost(n2 as int));
        let r = Vec3Fx { x: rx, y: ry, z: rz };
        proof {
            let s = SCALE as int;
            let ax = iabs(self.x as int);
            let ay = iabs(self.y as int);
            let az = iabs(self.z as int);
            let qx = iabs(rx as int);
            let qy = iabs(ry as int);
            let qz = iabs(rz as int);
            assert(r.norm_sq() == qx * qx + qy * qy + qz * qz) by (nonlinear_arith)
                requires
                    qx == iabs(rx as int),
                    qy == iabs(ry as int),
                    qz == iabs(rz as int),
                    r.x == rx && r.y == ry && r.z == rz;
            assert(n2 == ax * ax + ay * ay + az * az) by (nonlinear_arith)
                requires
                    n2 == self.x * self.x + self.y * self.y + self.z * self.z,
                    ax == iabs(self.x as int),
                    ay == iabs(self.y as int),
                    az == iabs(self.z as int);
            assert((ax * ax + ay * ay + az * az) * ((s * s) * (s * s)) <= ((nn as int) * (nn as int))
                * (s * s)) by (nonlinear_arith)
                requires
                    ax * ax + ay * ay + az * az >= 0,
                    s >= 0,
                    (ax * ax + ay * ay + az * az) * (s * s) <= (nn as int) * (nn as int);
            lemma_norm_upper(
                qx, qy, qz, ax, ay, az, nn as int, s * s, s * s,
            );
            lemma_normalize_lower(
                ax, ay, az, n2 as int, nn as int, qx, qy, qz, s,
            );
        }
        r
    }

    /// Caps the vector's length at `m`, preserving its direction: a speed
    /// limiter, not a hard stop.
    pub fn clamp_length_max(&self, m: i64) -> (r: Vec3Fx)
        requires
            1 <= m,
            m <= 1_000_000_000_000i64,
            self.x != i64::MIN,
            self.y != i64::MIN,
            self.z != i64::MIN,
        ensures
            self.is_clamped(m as int, r),
            r == self.spec_clamp(m as int),
            r.norm_sq() <= m * m,
    {
        let n2: u128 = self.norm_sq_u128();
        proof {
            assert((m as u128) * (m as u128) <= u128::MAX) by (nonlinear_arith)
                requires
                    1 <= m,
                    m <= 1_000_000_000_000i64;
        }
        let m2: u128 = (m as u128) * (m as u128);
        if n2 <= m2 {
            proof {
                assert(self.norm_sq() <= (m as int) * (m as int));
            }
            *self
        } else {
            let nn: u128 = isqrt_up(n2);
            proof {
                lemma_sqrt_up_unique(n2 as int, nn as int);
                assert(nn >= 1);
                assert(iabs(self.x as int) * iabs(self.x as int) <= n2
                    && iabs(self.y as int) * iabs(self.y as int) <= n2
                    && iabs(self.z as int) * iabs(self.z as int) <= n2) by (nonlinear_arith)
                    requires
                        n2 == self.x * self.x + self.y * self.y + self.z * self.z;
            }
            let rx: i64 = clamp_component(self.x, m, nn, Ghost(n2 as int));
            let ry: i64 = clamp_component(self.y, m, nn, Ghost(n2 as int));
            let rz: i64 = clamp_component(self.z, m, nn, Ghost(n2 as int));
            let r = Vec3Fx { x: rx, y: ry, z: rz };
            proof {
                let ax = iabs(self.x as int);
                let ay = iabs(self.y as int);
                let az = iabs(self.z as int);
                let qx = iabs(rx as int);
                let qy = iabs(ry as int);
                let qz = iabs(rz as int);
                assert(r.norm_sq() == qx * qx + qy * qy + qz * qz) by (nonlinear_arith)
                    requires
                        qx == iabs(rx as int),
                        qy == iabs(ry as int),
                        qz == iabs(rz as int),
                        r.x == rx && r.y == ry && r.z == rz;
                assert(n2 == ax * ax + ay * ay + az * az) by (nonlinear_arith)
                    requires
                        n2 == self.x * self.x + self.y * self.y + self.z * self.z,
                        ax == iabs(self.x as int),
                        ay == iabs(self.y as int),
                        az == iabs(self.z as int);
                assert((ax * ax + ay * ay + az * az) * ((m as int) * (m as int)) <= ((nn as int)
                    * (nn as int)) * ((m as int) * (m as int))) by (nonlinear_arith)
                    requires
                        m >= 1,
                        ax * ax + ay * ay + az * az <= (nn as int) * (nn as int);
                lemma_norm_upper(
                    qx, qy, qz, ax, ay, az, nn as int, m as int, (m as int) * (m as int),
                );
            }
            r
        }
    }
}

/// One normalized component: the truncated quotient of the scaled component
/// by the upward-rounded scaled length.
fn scale_component(v: i64, sc2: u128, nn: u128, n2: Ghost<int>) -> (r: i64)
    requires
        v != i64::MIN,
        sc2 == (SCALE as int) * (SCALE as int),
        nn >= 1,
        iabs(v as int) * iabs(v as int) <= n2@,
        n2@ * ((SCALE as int) * (SCALE as int)) <= (nn as int) * (nn as int),
        is_sqrt_up(n2@ * ((SCALE as int) * (SCALE as int)), nn as int),
    ensures
        r == sdiv(v * (SCALE as int) * (SCALE as int), nn as int),
        iabs(r as int) == (iabs(v as int) * ((SCALE as int) * (SCALE as int))) / (nn as int),
        iabs(r as int) <= SCALE,
        iabs(r as int) * (nn as int) <= iabs(v as int) * ((SCALE as int) * (SCALE as int)),
        iabs(v as int) * ((SCALE as int) * (SCALE as int)) - (nn as int) < iabs(r as int) * (
        nn as int),
{
    let a: u128 = abs64(v) as u128;
    proof {
        assert(a * sc2 <= u128::MAX) by (nonlinear_arith)
            requires
                a <= u64::MAX,
                sc2 == 1_000_000_000_000u128;
    }
    let q: u128 = (a * sc2) / nn;
    proof {
        let s = SCALE as int;
        let ai = a as int;
        let nni = nn as int;
        lemma_floor_div(ai * (s * s), nni);
        // a * SCALE is at most nn, so the quotient is at most SCALE.
        assert(ai * s <= nni) by (nonlinear_arith)
            requires
                ai >= 0,
                s >= 0,
                nni >= 0,
                ai * ai <= n2@,
                n2@ * (s * s) <= nni * nni;
        assert(q * nni <= ai * (s * s)) by {
            assert(q == (ai * (s * s)) / nni);
        }
        assert(q <= s) by (nonlinear_arith)
            requires
                q * nni <= ai * (s * s),
                ai * s <= nni,
                nni >= 1,
                s >= 0,
                q >= 0;
        // Truncating division on the magnitude agrees with `sdiv`.
        crate::fixed::lemma_sdiv_signs(v * (s * s), nni);
        assert(iabs(v * (s * s)) == ai * (s * s)) by (nonlinear_arith)
            requires
                ai == iabs(v as int),
                s * s >= 0;
        assert(v < 0 ==> v * (s * s) < 0) by (nonlinear_arith)
            requires
                s >= 1;
        assert(v >= 0 ==> v * (s * s) >= 0) by (nonlinear_arith)
            requires
                s >= 1;
    }
    if v < 0 {
        -(q as i64)
    } else {
        q as i64
    }
}

/// One clamped component: the truncated quotient of the component scaled by
/// the cap `m` and divided by the upward-rounded length.
pub(crate) fn clamp_component(v: i64, m: i64, nn: u128, n2: Ghost<int>) -> (r: i64)
    requires
        v != i64::MIN,
        1 <= m <= 1_000_000_000_000i64,
        nn >= 1,
        iabs(v as int) * iabs(v as int) <= n2@,
        n2@ <= (nn as int) * (nn as int),
    ensures
        r == sdiv(v * m, nn as int),
        iabs(r as int) == (iabs(v as int) * m) / (nn as int),
        iabs(r as int) <= m,
        iabs(r as int) * (nn as int) <= iabs(v as int) * m,
{
    let a: u128 = abs64(v) as u128;
    proof {
        assert(a * (m as u128) <= u128::MAX) by (nonlinear_arith)
            requires
                a <= u64::MAX,
                m <= 1_000_000_000_000i64,
                m >= 1;
    }
    let q: u128 = (a * (m as u128)) / nn;
    proof {
        let ai = a as int;
        let mi = m as int;
        let nni = nn as int;
        lemma_floor_div(ai * mi, nni);
        assert(ai <= nni) by (nonlinear_arith)
            requires
                ai >= 0,
                nni >= 0,
                ai * ai <= n2@,
                n2@ <= nni * nni;
        assert(q * nni <= ai * mi) by {
            assert(q == (ai * mi) / nni);
        }
        assert(q <= mi) by (nonlinear_arith)
            requires
                q * nni <= ai * mi,
                ai <= nni,
                nni >= 1,
                mi >= 0,
                q >= 0;
        crate::fixed::lemma_sdiv_signs(v * mi, nni);
        assert(iabs(v * mi) == ai * mi) by (nonlinear_arith)
            requires
                ai == iabs(v as int),
                mi >= 0;
        assert(v < 0 ==> v * mi < 0) by (nonlinear_arith)
            requires
                mi >= 1;
        assert(v >= 0 ==> v * mi >= 0) by (nonlinear_arith)
            requires
                mi >= 1;
    }
    if v < 0 {
        -(q as i64)
    } else {
        q as i64
    }
}

} // verus!
