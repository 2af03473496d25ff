//! Fixed-point homogeneous vectors and 4x4 matrices: what cameras hand the
//! renderer, and what carries world points into clip space.

use vstd::prelude::*;
use crate::fixed::{SCALE, fmul, fmul_fits, fx_mul, iabs};

verus! {

/// Bound on rotational (first three) columns of a renderer-ready matrix.
pub const MAT_ROT_LIMIT: i64 = 2_000_000_000_000;

/// Bound on the translation (last) column of a renderer-ready matrix.
pub const MAT_W_LIMIT: i64 = 3_200_000_000_000_000_000;

/// A homogeneous 4-component fixed-point vector.
#[derive(Clone, Copy, Debug, PartialEq, Eq, Structural)]
pub struct Vec4Fx {
    pub x: i64,
    pub y: i64,
    pub z: i64,
    pub w: i64,
}

/// A 4x4 fixed-point matrix, stored as rows; `m * v` combines row `i` with
/// the column vector `v`.
#[derive(Clone, Copy, Debug, PartialEq, Eq, Structural)]
pub struct Mat4Fx {
    pub r0: Vec4Fx,
    pub r1: Vec4Fx,
    pub r2: Vec4Fx,
    pub r3: Vec4Fx,
}

/// One row combined with a point taken homogeneous (`w = 1`), so the row's
/// last entry is added unscaled.
pub open spec fn spec_row_apply(row: Vec4Fx, x: int, y: int, z: int) -> int {
    fmul(row.x as int, x) + fmul(row.y as int, y) + fmul(row.z as int, z) + row.w
}

impl Vec4Fx {
    pub open spec fn in_bounds(self, b: int) -> bool {
        &&& iabs(self.x as int) <= b
        &&& iabs(self.y as int) <= b
        &&& iabs(self.z as int) <= b
        &&& iabs(self.w as int) <= b
    }

    /// Row bounds split between the rotational part and the last entry.
    pub open spec fn row_bounds(self, rot: int, wb: int) -> bool {
        &&& iabs(self.x as int) <= rot
        &&& iabs(self.y as int) <= rot
        &&& iabs(self.z as int) <= rot
        &&& iabs(self.w as int) <= wb
    }
}

impl Mat4Fx {
    /// Every row within the split bounds: rotational entries within `rot`,
    /// translation entries within `wb`.
    pub open spec fn entries_bounded(self, rot: int, wb: int) -> bool {
        &&& self.r0.row_bounds(rot, wb)
        &&& self.r1.row_bounds(rot, wb)
        &&& self.r2.row_bounds(rot, wb)
        &&& self.r3.row_bounds(rot, wb)
    }

    /// Column `j` of the matrix, as a vector.
    pub open spec fn col_x(self) -> Vec4Fx {
        Vec4Fx { x: self.r0.x, y: self.r1.x, z: self.r2.x, w: self.r3.x }
    }

    pub open spec fn col_y(self) -> Vec4Fx {
        Vec4Fx { x: self.r0.y, y: self.r1.y, z: self.r2.y, w: self.r3.y }
    }

    pub open spec fn col_z(self) -> Vec4Fx {
        Vec4Fx { x: self.r0.z, y: self.r1.z, z: self.r2.z, w: self.r3.z }
    }

    pub open spec fn col_w(self) -> Vec4Fx {
        Vec4Fx { x: self.r0.w, y: self.r1.w, z: self.r2.w, w: self.r3.w }
    }

    /// The fixed-point matrix product, entry by entry.
    pub open spec fn spec_mul(self, o: Mat4Fx) -> Mat4Fx {
        Mat4Fx {
            r0: spec_row_mul(self.r0, o),
            r1: spec_row_mul(self.r1, o),
            r2: spec_row_mul(self.r2, o),
            r3: spec_row_mul(self.r3, o),
        }
    }

    /// The image of a world point under this transformation, before the
    /// perspective divide (which the renderer performs).
    pub open spec fn spec_transform_point(self, p: crate::vec3::Vec3Fx) -> Vec4Fx {
        Vec4Fx {
            x: spec_row_apply(self.r0, p.x as int, p.y as int, p.z as int) as i64,
            y: spec_row_apply(self.r1, p.x as int, p.y as int, p.z as int) as i64,
            z: spec_row_apply(self.r2, p.x as int, p.y as int, p.z as int) as i64,
            w: spec_row_apply(self.r3, p.x as int, p.y as int, p.z as int) as i64,
        }
    }

    /// Applies the matrix to the homogeneous extension `(x, y, z, 1)` of a
    /// world point; the renderer divides by the resulting `w`.
    pub fn transform_point(&self, p: crate::vec3::Vec3Fx) -> (r: Vec4Fx)
        requires
            self.entries_bounded(MAT_ROT_LIMIT as int, MAT_W_LIMIT as int),
            p.in_bounds(crate::fixed::COORD_LIMIT as int),
        ensures
            r == self.spec_transform_point(p),
    {
        Vec4Fx {
            x: row_apply(&self.r0, p.x, p.y, p.z),
            y: row_apply(&self.r1, p.x, p.y, p.z),
            z: row_apply(&self.r2, p.x, p.y, p.z),
            w: row_apply(&self.r3, p.x, p.y, p.z),
        }
    }
}

/// The fixed-point dot product of two homogeneous vectors.
pub open spec fn spec_dot4(a: Vec4Fx, b: Vec4Fx) -> int {
    fmul(a.x as int, b.x as int) + fmul(a.y as int, b.y as int) + fmul(a.z as int, b.z as int)
        + fmul(a.w as int, b.w as int)
}

/// One row of a fixed-point matrix product.
pub open spec fn spec_row_mul(row: Vec4Fx, o: Mat4Fx) -> Vec4Fx {
    Vec4Fx {
        x: spec_dot4(row, o.col_x()) as i64,
        y: spec_dot4(row, o.col_y()) as i64,
        z: spec_dot4(row, o.col_z()) as i64,
        w: spec_dot4(row, o.col_w()) as i64,
    }
}

/// Combines one matrix row with a homogeneous world point.
fn row_apply(row: &Vec4Fx, x: i64, y: i64, z: i64) -> (r: i64)
    requires
        row.row_bounds(MAT_ROT_LIMIT as int, MAT_W_LIMIT as int),
        iabs(x as int) <= crate::fixed::COORD_LIMIT,
        iabs(y as int) <= crate::fixed::COORD_LIMIT,
        iabs(z as int) <= crate::fixed::COORD_LIMIT,
    ensures
        r == spec_row_apply(*row, x as int, y as int, z as int),
{
    proof {
        lemma_row_term(row.x as int, x as int);
        lemma_row_term(row.y as int, y as int);
        lemma_row_term(row.z as int, z as int);
    }
    fx_mul(row.x, x) + fx_mul(row.y, y) + fx_mul(row.z, z) + row.w
}

/// One product of a bounded rotational entry with a bounded coordinate fits
/// comfortably within an eighth of the signed range.
proof fn lemma_row_term(a: int, b: int)
    requires
        iabs(a) <= MAT_ROT_LIMIT,
        iabs(b) <= crate::fixed::COORD_LIMIT,
    ensures
        fmul_fits(a, b),
        iabs(fmul(a, b)) <= 2_000_000_000_000_000_000,
{
    assert(iabs(a) * iabs(b) <= 2_000_000_000_000i64 * 1_000_000_000_000i64) by (nonlinear_arith)
        requires
            0 <= iabs(a) <= 2_000_000_000_000i64,
            0 <= iabs(b) <= 1_000_000_000_000i64;
    crate::fixed::lemma_fmul_le(a, b, 2_000_000_000_000i64 * 1_000_000_000_000i64);
}

/// Scaling by zero yields zero, exactly.
pub proof fn lemma_fmul_zero(b: int)
    ensures
        fmul(0, b) == 0,
{
    assert(0 * b == 0) by (nonlinear_arith);
    assert(0int / (SCALE as int) == 0) by {
        vstd::arithmetic::div_mod::lemma_div_of0(SCALE as int);
    }
}

/// Scaling by the fixed-point unit is the identity, exactly.
pub proof fn lemma_fmul_unit(b: int)
    ensures
        fmul(SCALE as int, b) == b,
{
    if b >= 0 {
        assert((SCALE as int) * b == (SCALE as int) * b);
        vstd::arithmetic::div_mod::lemma_div_multiples_vanish(b, SCALE as int);
        assert(fmul(SCALE as int, b) == ((SCALE as int) * b) / (SCALE as int));
    } else {
        vstd::arithmetic::div_mod::lemma_div_multiples_vanish(-b, SCALE as int);
        assert((-((SCALE as int) * b)) == (SCALE as int) * (-b)) by (nonlinear_arith);
        assert(fmul(SCALE as int, b) == -(((SCALE as int) * (-b)) / (SCALE as int)));
    }
}

/// Scaling by the negated fixed-point unit is exact negation.
pub proof fn lemma_fmul_neg_unit(b: int)
    ensures
        fmul(-(SCALE as int), b) == -b,
{
    lemma_fmul_unit(-b);
    assert((-(SCALE as int)) * b == (SCALE as int) * (-b)) by (nonlinear_arith);
}

} // verus!
