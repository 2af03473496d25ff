//! The camera: position, view direction and up vector, owning a projection.
//! It derives the view matrix, the projection matrix, and their composition,
//! which carries world coordinates into clip space.
//!
//! Invariant: the view direction stays a unit vector (within fixed-point
//! tolerance) across every mutation.

use vstd::prelude::*;
use crate::SimError;
use crate::fixed::{COORD_LIMIT, SCALE, fmul, iabs, lemma_fmul_bounded};
use crate::mat4::{
    MAT_ROT_LIMIT, MAT_W_LIMIT, Mat4Fx, Vec4Fx, lemma_fmul_neg_unit, lemma_fmul_unit,
    lemma_fmul_zero,
};
use crate::particle::lemma_norm_component_bounds;
use crate::projection::{
    OrthographicProjection, PROJ_ROT_LIMIT, PROJ_W_LIMIT, PerspectiveProjection, Projection,
};
use crate::vec3::{NORMALIZE_LIMIT, Vec3Fx};

verus! {

/// Bound on the up vector's components (ten units).
pub const UP_LIMIT: i64 = 10_000_000;

/// The squared norm of a unit-within-tolerance direction.
pub open spec fn unit_norm_sq(v: Vec3Fx) -> bool {
    SCALE * SCALE - 8 * SCALE < v.norm_sq() <= SCALE * SCALE
}

/// Turns 3D world coordinates into clip coordinates in `[-1, 1]`.
#[derive(Clone, Copy, Debug, PartialEq, Eq, Structural)]
pub struct Camera {
    pub position: Vec3Fx,
    pub view_direction: Vec3Fx,
    pub up: Vec3Fx,
    pub projection: Projection,
}

impl Camera {
    /// The standing invariant: coordinates in range, a unit view direction,
    /// a bounded up vector, and a valid projection.
    pub open spec fn wf(self) -> bool {
        &&& self.position.in_bounds(COORD_LIMIT as int)
        &&& unit_norm_sq(self.view_direction)
        &&& self.up.in_bounds(UP_LIMIT as int)
        &&& self.projection.wf()
    }

    /// The right-handed look-at view matrix: rows are the side, corrected-up
    /// and negated-forward axes, with translations that center the camera.
    pub open spec fn spec_view_matrix(self) -> Mat4Fx {
        let f = self.view_direction;
        let s = f.spec_cross(self.up).spec_normalized();
        let u = s.spec_cross(f);
        Mat4Fx {
            r0: Vec4Fx { x: s.x, y: s.y, z: s.z, w: (-s.spec_dot(self.position)) as i64 },
            r1: Vec4Fx { x: u.x, y: u.y, z: u.z, w: (-u.spec_dot(self.position)) as i64 },
            r2: Vec4Fx {
                x: (-f.x) as i64,
                y: (-f.y) as i64,
                z: (-f.z) as i64,
                w: f.spec_dot(self.position) as i64,
            },
            r3: Vec4Fx { x: 0, y: 0, z: 0, w: SCALE },
        }
    }

    /// The view matrix degenerates exactly when the up vector is parallel
    /// to the view direction.
    pub open spec fn view_degenerate(self) -> bool {
        self.view_direction.spec_cross(self.up).is_zero()
    }

    /// Builds an orthographic camera; succeeds exactly when every argument
    /// is within the machine range and the view direction is unit length.
    pub fn new_orthographic(
        position: Vec3Fx,
        view_direction: Vec3Fx,
        up: Vec3Fx,
        size: i64,
        aspect_ratio: i64,
    ) -> (r: Result<Camera, SimError>)
        ensures
            r is Ok <==> (position.in_bounds(COORD_LIMIT as int) && unit_norm_sq(view_direction)
                && up.in_bounds(UP_LIMIT as int) && crate::projection::SIZE_MIN <= size
                <= crate::projection::SIZE_MAX && crate::projection::SIZE_MIN <= aspect_ratio
                <= crate::projection::SIZE_MAX),
            r matches Ok(c) ==> c == (Camera {
                position,
                view_direction,
                up,
                projection: Projection::Orthographic(
                    OrthographicProjection {
                        size,
                        z_near: crate::projection::DEFAULT_Z_NEAR,
                        z_far: crate::projection::DEFAULT_Z_FAR,
                        aspect_ratio,
                    },
                ),
            }) && c.wf(),
            r is Err ==> r == Result::<Camera, SimError>::Err(SimError::InvalidParameter),
    {
        if !vec_in_coord_bounds(position) || !is_unit(view_direction) || !vec_in_up_bounds(up) {
            return Err(SimError::InvalidParameter);
        }
        match OrthographicProjection::new(size, aspect_ratio) {
            Ok(p) => Ok(
                Camera { position, view_direction, up, projection: Projection::Orthographic(p) },
            ),
            Err(e) => Err(e),
        }
    }

    /// Builds a perspective camera; succeeds exactly when every argument is
    /// within the machine range and the view direction is unit length.
    pub fn new_perspective(
        position: Vec3Fx,
        view_direction: Vec3Fx,
        up: Vec3Fx,
        fov: i64,
        aspect_ratio: i64,
    ) -> (r: Result<Camera, SimError>)
        ensures
            r is Ok <==> (position.in_bounds(COORD_LIMIT as int) && unit_norm_sq(view_direction)
                && up.in_bounds(UP_LIMIT as int) && crate::projection::FOV_MIN <= fov
                <= crate::trig::PI_FX - crate::projection::FOV_MIN
                && crate::projection::SIZE_MIN <= aspect_ratio <= crate::projection::SIZE_MAX),
            r matches Ok(c) ==> c == (Camera {
                position,
                view_direction,
                up,
                projection: Projection::Perspective(
                    PerspectiveProjection {
                        fov_y_radians: fov,
                        z_near: crate::projection::DEFAULT_Z_NEAR,
                        z_far: crate::projection::DEFAULT_Z_FAR,
                        aspect_ratio,
                    },
                ),
            }) && c.wf(),
            r is Err ==> r == Result::<Camera, SimError>::Err(SimError::InvalidParameter),
    {
        if !vec_in_coord_bounds(position) || !is_unit(view_direction) || !vec_in_up_bounds(up) {
            return Err(SimError::InvalidParameter);
        }
        match PerspectiveProjection::new(fov, aspect_ratio) {
            Ok(p) => Ok(
                Camera { position, view_direction, up, projection: Projection::Perspective(p) },
            ),
            Err(e) => Err(e),
        }
    }

    /// Turns the camera to aim at `target_position`: the view direction
    /// becomes the normalized offset from the camera to the target. Fails
    /// with degenerate geometry when the target coincides with the camera
    /// (the direction would be undefined), and with invalid input when the
    /// target lies outside the machine range; nothing changes on failure.
    pub fn look_at(&mut self, target_position: Vec3Fx) -> (r: Result<(), SimError>)
        requires
            old(self).wf(),
        ensures
            r is Ok <==> (target_position != old(self).position && target_position.in_bounds(
                COORD_LIMIT as int,
            )),
            r is Ok ==> final(self).view_direction == target_position.spec_sub(
                old(self).position,
            ).spec_normalized() && unit_norm_sq(final(self).view_direction),
            r is Err ==> *final(self) == *old(self),
            target_position == old(self).position ==> r == Result::<(), SimError>::Err(
                SimError::DegenerateGeometry,
            ),
            target_position != old(self).position && !target_position.in_bounds(COORD_LIMIT as int)
                ==> r == Result::<(), SimError>::Err(SimError::InvalidInput),
            final(self).position == old(self).position,
            final(self).up == old(self).up,
            final(self).projection == old(self).projection,
            final(self).wf(),
    {
        if target_position.x == self.position.x && target_position.y == self.position.y
            && target_position.z == self.position.z {
            proof {
                assert(target_position == self.position);
            }
            return Err(SimError::DegenerateGeometry);
        }
        if !vec_in_coord_bounds(target_position) {
            return Err(SimError::InvalidInput);
        }
        let offset = target_position.sub(self.position);
        proof {
            assert(!offset.is_zero());
            assert(offset.in_bounds(NORMALIZE_LIMIT as int));
        }
        self.view_direction = offset.normalize();
        Ok(())
    }

    /// The right-handed look-at view matrix, recomputed on demand; fails
    /// exactly when the up vector is parallel to the view direction.
    pub fn get_view_matrix(&self) -> (r: Result<Mat4Fx, SimError>)
        requires
            self.wf(),
        ensures
            r is Ok <==> !self.view_degenerate(),
            r matches Ok(m) ==> m == self.spec_view_matrix() && m.r0.row_bounds(
                SCALE as int,
                3_000_000_000_000,
            ) && m.r1.row_bounds(2 * SCALE, 6_000_000_000_000) && m.r2.row_bounds(
                SCALE as int,
                3_000_000_000_000,
            ) && m.r3.row_bounds(0, SCALE as int),
            r is Err ==> r == Result::<Mat4Fx, SimError>::Err(SimError::DegenerateGeometry),
    {
        let f = self.view_direction;
        proof {
            lemma_norm_component_bounds(f.x as int, f.y as int, f.z as int, SCALE as int);
            lemma_cross_bounds(f, self.up, SCALE as int, UP_LIMIT as int);
        }
        let side_raw = f.cross(self.up);
        if side_raw.x == 0 && side_raw.y == 0 && side_raw.z == 0 {
            proof {
                assert(self.view_degenerate());
            }
            return Err(SimError::DegenerateGeometry);
        }
        let s = side_raw.normalize();
        proof {
            lemma_norm_component_bounds(s.x as int, s.y as int, s.z as int, SCALE as int);
            lemma_cross_bounds(s, f, SCALE as int, SCALE as int);
            lemma_dot_bounds(s, self.position, SCALE as int);
        }
        let u = s.cross(f);
        proof {
            lemma_dot_bounds(u, self.position, 2 * SCALE);
            lemma_dot_bounds(f, self.position, SCALE as int);
        }
        let ws: i64 = s.dot(self.position);
        let wu: i64 = u.dot(self.position);
        let wft: i64 = f.dot(self.position);
        Ok(
            Mat4Fx {
                r0: Vec4Fx { x: s.x, y: s.y, z: s.z, w: -ws },
                r1: Vec4Fx { x: u.x, y: u.y, z: u.z, w: -wu },
                r2: Vec4Fx { x: -f.x, y: -f.y, z: -f.z, w: wft },
                r3: Vec4Fx { x: 0, y: 0, z: 0, w: SCALE },
            },
        )
    }

    /// The clip matrix of the owned projection.
    pub fn get_projection_matrix(&self) -> (r: Mat4Fx)
        requires
            self.wf(),
        ensures
            r == self.projection.spec_matrix(),
    {
        self.projection.get_transformation_matrix()
    }

    /// The full world-to-clip matrix: the projection matrix composed after
    /// the view matrix (camera-space coordinates are computed first, then
    /// projected). Fails exactly when the view matrix degenerates.
    pub fn get_transformation_matrix(&self) -> (r: Result<Mat4Fx, SimError>)
        requires
            self.wf(),
        ensures
            r is Ok <==> !self.view_degenerate(),
            r matches Ok(m) ==> m == self.projection.spec_matrix().spec_mul(
                self.spec_view_matrix(),
            ) && m.entries_bounded(MAT_ROT_LIMIT as int, MAT_W_LIMIT as int),
            r is Err ==> r == Result::<Mat4Fx, SimError>::Err(SimError::DegenerateGeometry),
    {
        let view = match self.get_view_matrix() {
            Ok(v) => v,
            Err(e) => {
                return Err(e);
            },
        };
        let pm = self.projection.get_transformation_matrix();
        proof {
            assert forall|b: int| fmul(0, b) == 0 by {
                lemma_fmul_zero(b);
            }
            assert forall|b: int| fmul(SCALE as int, b) == b by {
                lemma_fmul_unit(b);
            }
            assert forall|b: int| #![trigger fmul(-(SCALE as int), b)] fmul(
                -(SCALE as int),
                b,
            ) == -b by {
                lemma_fmul_neg_unit(b);
            }
            assert forall|b: int| #![trigger fmul(b, SCALE as int)] fmul(b, SCALE as int) == b by {
                lemma_fmul_unit(b);
                assert(b * (SCALE as int) == (SCALE as int) * b) by (nonlinear_arith);
            }
        }
        match (&self.projection, pm) {
            (Projection::Orthographic(_), pm) => {
                let r2w: i64 = pm.r2.w;
                let mut m = Mat4Fx {
                    r0: row_scale(
                        pm.r0.x, &view.r0, Ghost(10_000_000_000), Ghost(SCALE as int),
                        Ghost(3_000_000_000_000),
                    ),
                    r1: row_scale(
                        pm.r1.y, &view.r1, Ghost(100_000_000), Ghost(2 * SCALE),
                        Ghost(6_000_000_000_000),
                    ),
                    r2: row_scale(
                        pm.r2.z, &view.r2, Ghost((SCALE * SCALE) as int), Ghost(SCALE as int),
                        Ghost(3_000_000_000_000),
                    ),
                    r3: Vec4Fx { x: 0, y: 0, z: 0, w: SCALE },
                };
                m.r2.w = m.r2.w + r2w;
                Ok(m)
            },
            (Projection::Perspective(_), pm) => {
                let r2w: i64 = pm.r2.w;
                let mut m = Mat4Fx {
                    r0: row_scale(
                        pm.r0.x, &view.r0, Ghost(10_000_000_000), Ghost(SCALE as int),
                        Ghost(3_000_000_000_000),
                    ),
                    r1: row_scale(
                        pm.r1.y, &view.r1, Ghost(100_000_000), Ghost(2 * SCALE),
                        Ghost(6_000_000_000_000),
                    ),
                    r2: row_scale(
                        pm.r2.z, &view.r2, Ghost((SCALE * SCALE) as int), Ghost(SCALE as int),
                        Ghost(3_000_000_000_000),
                    ),
                    r3: Vec4Fx { x: -view.r2.x, y: -view.r2.y, z: -view.r2.z, w: -view.r2.w },
                };
                m.r2.w = m.r2.w + r2w;
                Ok(m)
            },
        }
    }

    pub fn get_z_near(&self) -> (r: i64)
        ensures
            r == self.projection.spec_z_near(),
    {
        self.projection.get_z_near()
    }

    pub fn get_z_far(&self) -> (r: i64)
        ensures
            r == self.projection.spec_z_far(),
    {
        self.projection.get_z_far()
    }

    /// Forwards a near-plane update to the owned projection (fail-fast).
    pub fn z_near(&mut self, v: i64) -> (r: Result<(), SimError>)
        ensures
            r is Ok <==> crate::projection::depth_range_wf(
                v as int,
                old(self).projection.spec_z_far(),
            ),
            r is Ok ==> final(self).projection == old(self).projection.spec_with_z_near(v),
            r is Err ==> *final(self) == *old(self) && r == Result::<(), SimError>::Err(
                SimError::InvalidParameter,
            ),
            final(self).position == old(self).position,
            final(self).view_direction == old(self).view_direction,
            final(self).up == old(self).up,
            old(self).wf() && r is Ok ==> final(self).wf(),
    {
        self.projection.z_near(v)
    }

    /// Forwards a far-plane update to the owned projection (fail-fast).
    pub fn z_far(&mut self, v: i64) -> (r: Result<(), SimError>)
        ensures
            r is Ok <==> crate::projection::depth_range_wf(
                old(self).projection.spec_z_near(),
                v as int,
            ),
            r is Ok ==> final(self).projection == old(self).projection.spec_with_z_far(v),
            r is Err ==> *final(self) == *old(self) && r == Result::<(), SimError>::Err(
                SimError::InvalidParameter,
            ),
            final(self).position == old(self).position,
            final(self).view_direction == old(self).view_direction,
            final(self).up == old(self).up,
            old(self).wf() && r is Ok ==> final(self).wf(),
    {
        self.projection.z_far(v)
    }

    pub fn get_aspect_ratio(&self) -> (r: i64)
        ensures
            r == self.projection.spec_aspect_ratio(),
    {
        self.projection.get_aspect_ratio()
    }

    /// Forwards an aspect-ratio update to the owned projection (fail-fast);
    /// the host recomputes this every frame from its viewport.
    pub fn aspect_ratio(&mut self, v: i64) -> (r: Result<(), SimError>)
        ensures
            r is Ok <==> crate::projection::SIZE_MIN <= v <= crate::projection::SIZE_MAX,
            r is Ok ==> final(self).projection == old(self).projection.spec_with_aspect_ratio(v),
            r is Err ==> *final(self) == *old(self) && r == Result::<(), SimError>::Err(
                SimError::InvalidParameter,
            ),
            final(self).position == old(self).position,
            final(self).view_direction == old(self).view_direction,
            final(self).up == old(self).up,
            old(self).wf() && r is Ok ==> final(self).wf(),
    {
        self.projection.aspect_ratio(v)
    }
}

/// Whether every component is within the world-coordinate range.
fn vec_in_coord_bounds(v: Vec3Fx) -> (r: bool)
    ensures
        r == v.in_bounds(COORD_LIMIT as int),
{
    -COORD_LIMIT <= v.x && v.x <= COORD_LIMIT && -COORD_LIMIT <= v.y && v.y <= COORD_LIMIT
        && -COORD_LIMIT <= v.z && v.z <= COORD_LIMIT
}

/// Whether every component is within the up-vector range.
fn vec_in_up_bounds(v: Vec3Fx) -> (r: bool)
    ensures
        r == v.in_bounds(UP_LIMIT as int),
{
    -UP_LIMIT <= v.x && v.x <= UP_LIMIT && -UP_LIMIT <= v.y && v.y <= UP_LIMIT && -UP_LIMIT <= v.z
        && v.z <= UP_LIMIT
}

/// Whether the squared norm lies in the unit band.
fn is_unit(v: Vec3Fx) -> (r: bool)
    ensures
        r == unit_norm_sq(v),
{
    if v.x < -SCALE || v.x > SCALE || v.y < -SCALE || v.y > SCALE || v.z < -SCALE || v.z > SCALE {
        proof {
            lemma_unit_band_components(v);
        }
        return false;
    }
    let n2: u128 = v.norm_sq_u128();
    proof {
        assert((SCALE as int) * (SCALE as int) == 1_000_000_000_000) by (nonlinear_arith)
            requires
                SCALE == 1_000_000i64;
    }
    let lo: u128 = 1_000_000_000_000u128 - 8 * (SCALE as u128);
    let hi: u128 = 1_000_000_000_000u128;
    lo < n2 && n2 <= hi
}

/// A vector in the unit band has components within one unit.
proof fn lemma_unit_band_components(v: Vec3Fx)
    requires
        !v.in_bounds(SCALE as int),
    ensures
        !unit_norm_sq(v),
{
    if unit_norm_sq(v) {
        lemma_norm_component_bounds(v.x as int, v.y as int, v.z as int, SCALE as int);
    }
}

/// Bounds for every fixed-point product inside a cross product of two
/// bounded vectors.
pub(crate) proof fn lemma_cross_bounds(a: Vec3Fx, b: Vec3Fx, na: int, nb: int)
    requires
        a.in_bounds(na),
        b.in_bounds(nb),
        0 <= na <= 10_000_000,
        0 <= nb <= 10_000_000,
    ensures
        crate::fixed::fmul_fits(a.y as int, b.z as int),
        crate::fixed::fmul_fits(a.z as int, b.y as int),
        crate::fixed::fmul_fits(a.z as int, b.x as int),
        crate::fixed::fmul_fits(a.x as int, b.z as int),
        crate::fixed::fmul_fits(a.x as int, b.y as int),
        crate::fixed::fmul_fits(a.y as int, b.x as int),
        a.spec_cross(b).in_bounds(2 * ((na * nb) / (SCALE as int))),
        iabs(fmul(a.y as int, b.z as int) - fmul(a.z as int, b.y as int)) <= i64::MAX,
        iabs(fmul(a.z as int, b.x as int) - fmul(a.x as int, b.z as int)) <= i64::MAX,
        iabs(fmul(a.x as int, b.y as int) - fmul(a.y as int, b.x as int)) <= i64::MAX,
{
    assert(na * nb <= 100_000_000_000_000) by (nonlinear_arith)
        requires
            0 <= na <= 10_000_000,
            0 <= nb <= 10_000_000;
    crate::fixed::lemma_div_le(na * nb, SCALE as int);
    lemma_fmul_bounded(a.y as int, b.z as int, na, nb);
    lemma_fmul_bounded(a.z as int, b.y as int, na, nb);
    lemma_fmul_bounded(a.z as int, b.x as int, na, nb);
    lemma_fmul_bounded(a.x as int, b.z as int, na, nb);
    lemma_fmul_bounded(a.x as int, b.y as int, na, nb);
    lemma_fmul_bounded(a.y as int, b.x as int, na, nb);
}

/// Bounds for every fixed-point product inside a dot product of a vector
/// bounded by `ab` with a world coordinate.
proof fn lemma_dot_bounds(a: Vec3Fx, b: Vec3Fx, ab: int)
    requires
        a.in_bounds(ab),
        0 <= ab <= 2 * SCALE,
        b.in_bounds(COORD_LIMIT as int),
    ensures
        crate::fixed::fmul_fits(a.x as int, b.x as int),
        crate::fixed::fmul_fits(a.y as int, b.y as int),
        crate::fixed::fmul_fits(a.z as int, b.z as int),
        iabs(a.spec_dot(b)) <= 3 * ((ab * COORD_LIMIT) / (SCALE as int)),
        iabs(fmul(a.x as int, b.x as int) + fmul(a.y as int, b.y as int)) <= i64::MAX,
{
    assert(ab * COORD_LIMIT <= 2 * SCALE * COORD_LIMIT) by (nonlinear_arith)
        requires
            0 <= ab <= 2 * SCALE,
            COORD_LIMIT == 1_000_000_000_000i64;
    crate::fixed::lemma_div_le(ab * COORD_LIMIT, SCALE as int);
    vstd::arithmetic::div_mod::lemma_div_is_ordered(
        ab * COORD_LIMIT, 2 * SCALE * COORD_LIMIT, SCALE as int,
    );
    vstd::arithmetic::div_mod::lemma_div_pos_is_pos(ab * COORD_LIMIT, SCALE as int);
    lemma_fmul_bounded(a.x as int, b.x as int, ab, COORD_LIMIT as int);
    lemma_fmul_bounded(a.y as int, b.y as int, ab, COORD_LIMIT as int);
    lemma_fmul_bounded(a.z as int, b.z as int, ab, COORD_LIMIT as int);
}

/// Scales a whole view-matrix row by a projection entry; the bounds of the
/// entry and of the row are passed along so each row keeps its own budget.
fn row_scale(c: i64, row: &Vec4Fx, cb: Ghost<int>, rb: Ghost<int>, wb: Ghost<int>) -> (r: Vec4Fx)
    requires
        iabs(c as int) <= cb@,
        row.row_bounds(rb@, wb@),
        0 <= cb@ <= i64::MAX,
        0 <= rb@ <= i64::MAX,
        0 <= wb@ <= i64::MAX,
        cb@ * rb@ <= 2_000_000_000_000_000_000,
        cb@ * wb@ <= 3_200_000_000_000_000_000_000_000,
    ensures
        r.x == fmul(c as int, row.x as int),
        r.y == fmul(c as int, row.y as int),
        r.z == fmul(c as int, row.z as int),
        r.w == fmul(c as int, row.w as int),
        r.row_bounds((cb@ * rb@) / (SCALE as int), (cb@ * wb@) / (SCALE as int)),
{
    proof {
        lemma_fmul_bounded(c as int, row.x as int, cb@, rb@);
        lemma_fmul_bounded(c as int, row.y as int, cb@, rb@);
        lemma_fmul_bounded(c as int, row.z as int, cb@, rb@);
        lemma_fmul_bounded(c as int, row.w as int, cb@, wb@);
        crate::fixed::lemma_div_le(cb@ * rb@, SCALE as int);
        crate::fixed::lemma_div_le(cb@ * wb@, SCALE as int);
    }
    Vec4Fx {
        x: crate::fixed::fx_mul(c, row.x),
        y: crate::fixed::fx_mul(c, row.y),
        z: crate::fixed::fx_mul(c, row.z),
        w: crate::fixed::fx_mul(c, row.w),
    }
}

} // verus!
