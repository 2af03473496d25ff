//! Fixed-point 2D vectors: the coordinate type of the planar flow field and
//! of pointer samples.

use vstd::prelude::*;
use crate::fixed::{abs64, fmul, fmul_fits, fx_mul, iabs, isqrt_up, lemma_sqrt_up_unique, sdiv, sqrt_up};
use crate::norms::lemma_norm_upper;

verus! {

/// A 2D vector of fixed-point coordinates (millionths of a unit).
#[derive(Clone, Copy, Debug, PartialEq, Eq, Structural)]
pub struct Vec2Fx {
    pub x: i64,
    pub y: i64,
}

impl Vec2Fx {
    /// Every component's magnitude stays within `b`.
    pub open spec fn in_bounds(self, b: int) -> bool {
        &&& iabs(self.x as int) <= b
        &&& iabs(self.y as int) <= b
    }

    /// Squared Euclidean norm, in raw squared units.
    pub open spec fn norm_sq(self) -> int {
        self.x * self.x + self.y * self.y
    }

    pub open spec fn spec_add(self, o: Vec2Fx) -> Vec2Fx {
        Vec2Fx { x: (self.x + o.x) as i64, y: (self.y + o.y) as i64 }
    }

    pub open spec fn spec_sub(self, o: Vec2Fx) -> Vec2Fx {
        Vec2Fx { x: (self.x - o.x) as i64, y: (self.y - o.y) as i64 }
    }

    /// Component-wise fixed-point scaling by `c`.
    pub open spec fn spec_scale(self, c: int) -> Vec2Fx {
        Vec2Fx { x: fmul(self.x as int, c) as i64, y: fmul(self.y as int, c) as i64 }
    }

    /// `r` is `self` with its length capped at `m`: unchanged when already
    /// within the cap, otherwise rescaled by `m` over the upward-rounded
    /// length (direction preserved, magnitude capped).
    pub open spec fn is_clamped(self, m: int, r: Vec2Fx) -> bool {
        if self.norm_sq() <= m * m {
            r == self
        } else {
            let nn = sqrt_up(self.norm_sq());
            &&& r.x == sdiv(self.x * m, nn)
            &&& r.y == sdiv(self.y * m, nn)
        }
    }

    /// `self` with its length capped at `m`, as a value.
    pub open spec fn spec_clamp(self, m: int) -> Vec2Fx {
        if self.norm_sq() <= m * m {
            self
        } else {
            let nn = sqrt_up(self.norm_sq());
            Vec2Fx { x: sdiv(self.x * m, nn) as i64, y: sdiv(self.y * m, nn) as i64 }
        }
    }

    pub fn new(x: i64, y: i64) -> (r: Vec2Fx)
        ensures
            r == (Vec2Fx { x, y }),
    {
        Vec2Fx { x, y }
    }

    pub fn add(self, o: Vec2Fx) -> (r: Vec2Fx)
        requires
            iabs(self.x + o.x) <= i64::MAX,
            iabs(self.y + o.y) <= i64::MAX,
        ensures
            r == self.spec_add(o),
    {
        Vec2Fx { x: self.x + o.x, y: self.y + o.y }
    }

    pub fn sub(self, o: Vec2Fx) -> (r: Vec2Fx)
        requires
            iabs(self.x - o.x) <= i64::MAX,
            iabs(self.y - o.y) <= i64::MAX,
        ensures
            r == self.spec_sub(o),
    {
        Vec2Fx { x: self.x - o.x, y: self.y - o.y }
    }

    pub fn scale(self, c: i64) -> (r: Vec2Fx)
        requires
            self.x != i64::MIN,
            self.y != i64::MIN,
            c != i64::MIN,
            fmul_fits(self.x as int, c as int),
            fmul_fits(self.y as int, c as int),
        ensures
            r == self.spec_scale(c as int),
    {
        Vec2Fx { x: fx_mul(self.x, c), y: fx_mul(self.y, c) }
    }

    /// Squared norm, computed exactly in 128-bit arithmetic.
    pub fn norm_sq_u128(&self) -> (r: u128)
        requires
            self.x != i64::MIN,
            self.y != i64::MIN,
        ensures
            r == self.norm_sq(),
    {
        let ax: u128 = abs64(self.x) as u128;
        let ay: u128 = abs64(self.y) as u128;
        proof {
            assert(ax * ax == self.x * self.x && ax * ax <= 0x4000_0000_0000_0000_0000_0000_0000_0000u128)
                by (nonlinear_arith)
                requires
                    ax == iabs(self.x as int),
                    ax <= u64::MAX;
            assert(ay * ay == self.y * self.y && ay * ay <= 0x4000_0000_0000_0000_0000_0000_0000_0000u128)
                by (nonlinear_arith)
                requires
                    ay == iabs(self.y as int),
                    ay <= u64::MAX;
        }
        ax * ax + ay * ay
    }

    /// Caps the vector's length at `m`, preserving its direction.
    pub fn clamp_length_max(&self, m: i64) -> (r: Vec2Fx)
        requires
            1 <= m,
            m <= 1_000_000_000_000i64,
            self.x != i64::MIN,
            self.y != i64::MIN,
        ensures
            self.is_clamped(m as int, r),
            r == self.spec_clamp(m as int),
            r.norm_sq() <= m * m,
    {
        let n2: u128 = self.norm_sq_u128();
        proof {
            assert((m as u128) * (m as u128) <= u128::MAX) by (nonlinear_arith)
                requires
                    1 <= m,
                    m <= 1_000_000_000_000i64;
        }
        let m2: u128 = (m as u128) * (m as u128);
        if n2 <= m2 {
            *self
        } else {
            let nn: u128 = isqrt_up(n2);
            proof {
                lemma_sqrt_up_unique(n2 as int, nn as int);
                assert(nn >= 1);
                assert(iabs(self.x as int) * iabs(self.x as int) <= n2
                    && iabs(self.y as int) * iabs(self.y as int) <= n2) by (nonlinear_arith)
                    requires
                        n2 == self.x * self.x + self.y * self.y;
            }
            let rx: i64 = crate::vec3::clamp_component(self.x, m, nn, Ghost(n2 as int));
            let ry: i64 = crate::vec3::clamp_component(self.y, m, nn, Ghost(n2 as int));
            let r = Vec2Fx { x: rx, y: ry };
            proof {
                let ax = iabs(self.x as int);
                let ay = iabs(self.y as int);
                let qx = iabs(rx as int);
                let qy = iabs(ry as int);
                assert(r.norm_sq() == qx * qx + qy * qy) by (nonlinear_arith)
                    requires
                        qx == iabs(rx as int),
                        qy == iabs(ry as int),
                        r.x == rx && r.y == ry;
                assert(n2 == ax * ax + ay * ay) by (nonlinear_arith)
                    requires
                        n2 == self.x * self.x + self.y * self.y,
                        ax == iabs(self.x as int),
                        ay == iabs(self.y as int);
                assert((ax * ax + ay * ay + 0 * 0) * ((m as int) * (m as int)) <= ((nn as int) * (
                nn as int)) * ((m as int) * (m as int))) by (nonlinear_arith)
                    requires
                        m >= 1,
                        ax * ax + ay * ay <= (nn as int) * (nn as int);
                lemma_norm_upper(
                    qx, qy, 0, ax, ay, 0, nn as int, m as int, (m as int) * (m as int),
                );
            }
            r
        }
    }
}

} // verus!
