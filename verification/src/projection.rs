//! Projections: camera-space points into the canonical clip cube.
//!
//! Both variants expose their transformation primarily as a matrix so
//! callers can batch-transform points; `apply_projection` and `clip_depth`
//! map single coordinates with one rounding each, which makes the clip
//! planes land exactly.

use vstd::prelude::*;
use crate::SimError;
use crate::fixed::{
    COORD_LIMIT, SCALE, div_trunc, fdiv, fmul, fx_div, fx_mul, iabs, lemma_fdiv_abs,
    lemma_fdiv_bounded, lemma_fmul_bounded,
};
use crate::mat4::{Mat4Fx, Vec4Fx};
use crate::trig::{PI_FX, fx_cos, fx_sin, lemma_sin_lower, spec_cos, spec_sin};
use crate::vec2::Vec2Fx;
use crate::vec3::Vec3Fx;

verus! {

/// Default near plane distance (0.1 units).
pub const DEFAULT_Z_NEAR: i64 = 100_000;

/// Default far plane distance (1000 units).
pub const DEFAULT_Z_FAR: i64 = 1_000_000_000;

/// Smallest accepted near plane distance: one raw unit, the smallest
/// positive fixed-point value.
pub const Z_NEAR_MIN: i64 = 1;

/// Largest accepted near plane distance (1000 units).
pub const Z_NEAR_MAX: i64 = 1_000_000_000;

/// Largest accepted far plane distance (10000 units).
pub const Z_FAR_MAX: i64 = 10_000_000_000;

/// Smallest accepted orthographic size or aspect ratio (0.01).
pub const SIZE_MIN: i64 = 10_000;

/// Largest accepted orthographic size or aspect ratio (1000).
pub const SIZE_MAX: i64 = 1_000_000_000;

/// Smallest accepted vertical field of view (0.1 radians).
pub const FOV_MIN: i64 = 100_000;

/// Bound on the rotational entries of either projection matrix.
pub const PROJ_ROT_LIMIT: i64 = 1_000_000_000_000;

/// Bound on the translation-column entries of either projection matrix.
pub const PROJ_W_LIMIT: i64 = 30_000_000_000_000_000;

/// Depth planes within a projection are valid when positive and ordered,
/// within the machine range. Fixed point forces two exclusions at the edge
/// of the representation: the gap between the planes must span at least
/// two raw units (two millionths), and must be at least a millionth of the
/// planes' sum — a thinner gap makes the depth row of the clip matrix
/// larger than the machine's integers hold.
pub open spec fn depth_range_wf(z_near: int, z_far: int) -> bool {
    &&& Z_NEAR_MIN <= z_near <= Z_NEAR_MAX
    &&& z_near + 2 <= z_far <= Z_FAR_MAX
    &&& z_far + z_near <= SCALE * (z_far - z_near)
}

/// Maps camera-space depth `z` into clip depth for the planes `(zn, zf)`:
/// the camera looks along the negative axis, so `-zn` lands on the near
/// plane `-1` and `-zf` on the far plane `+1`.
pub open spec fn spec_clip_depth(z_near: int, z_far: int, z: int) -> int {
    fdiv(-(2 * z + z_far + z_near), z_far - z_near)
}

/// An orthographic projection: linear in every axis. `size` is the
/// camera-space height mapped to the full vertical clip range.
#[derive(Clone, Copy, Debug, PartialEq, Eq, Structural)]
pub struct OrthographicProjection {
    pub size: i64,
    pub z_near: i64,
    pub z_far: i64,
    pub aspect_ratio: i64,
}

impl OrthographicProjection {
    pub open spec fn wf(self) -> bool {
        &&& SIZE_MIN <= self.size <= SIZE_MAX
        &&& SIZE_MIN <= self.aspect_ratio <= SIZE_MAX
        &&& depth_range_wf(self.z_near as int, self.z_far as int)
    }

    /// The orthographic clip matrix: a diagonal scale plus a depth offset.
    pub open spec fn spec_matrix(self) -> Mat4Fx {
        let d = self.z_far - self.z_near;
        Mat4Fx {
            r0: Vec4Fx {
                x: fdiv(SCALE as int, fmul(self.size as int, self.aspect_ratio as int)) as i64,
                y: 0, z: 0, w: 0,
            },
            r1: Vec4Fx { x: 0, y: fdiv(SCALE as int, self.size as int) as i64, z: 0, w: 0 },
            r2: Vec4Fx {
                x: 0, y: 0,
                z: (-fdiv(2 * SCALE, d)) as i64,
                w: (-fdiv(self.z_far + self.z_near, d)) as i64,
            },
            r3: Vec4Fx { x: 0, y: 0, z: 0, w: SCALE },
        }
    }

    /// Builds an orthographic projection with the default depth planes,
    /// which succeeds exactly when the size and aspect ratio are in range.
    pub fn new(size: i64, aspect_ratio: i64) -> (r: Result<OrthographicProjection, SimError>)
        ensures
            r is Ok <==> (SIZE_MIN <= size <= SIZE_MAX && SIZE_MIN <= aspect_ratio <= SIZE_MAX),
            r matches Ok(p) ==> p == (OrthographicProjection {
                size,
                z_near: DEFAULT_Z_NEAR,
                z_far: DEFAULT_Z_FAR,
                aspect_ratio,
            }) && p.wf(),
            r is Err ==> r == Result::<OrthographicProjection, SimError>::Err(
                SimError::InvalidParameter,
            ),
    {
        if size < SIZE_MIN || size > SIZE_MAX || aspect_ratio < SIZE_MIN || aspect_ratio > SIZE_MAX {
            Err(SimError::InvalidParameter)
        } else {
            Ok(
                OrthographicProjection {
                    size,
                    z_near: DEFAULT_Z_NEAR,
                    z_far: DEFAULT_Z_FAR,
                    aspect_ratio,
                },
            )
        }
    }

    /// The clip matrix of this projection.
    pub fn get_transformation_matrix(&self) -> (r: Mat4Fx)
        requires
            self.wf(),
        ensures
            r == self.spec_matrix(),
            r.entries_bounded(PROJ_ROT_LIMIT as int, PROJ_W_LIMIT as int),
            r.r0.row_bounds(10_000_000_000, 0),
            r.r1.row_bounds(100_000_000, 0),
            r.r2.row_bounds(SCALE * SCALE, SCALE * SCALE),
            r.r3.row_bounds(0, SCALE as int),
    {
        proof {
            lemma_fmul_bounded(
                self.size as int, self.aspect_ratio as int, SIZE_MAX as int, SIZE_MAX as int,
            );
        }
        let sa: i64 = fx_mul(self.size, self.aspect_ratio);
        proof {
            lemma_sa_range(self.size as int, self.aspect_ratio as int);
            lemma_fdiv_bounded(SCALE as int, sa as int, SCALE as int, 100);
            lemma_fdiv_bounded(SCALE as int, self.size as int, SCALE as int, SIZE_MIN as int);
            lemma_depth_entries(self.z_near as int, self.z_far as int);
        }
        let d: i64 = self.z_far - self.z_near;
        Mat4Fx {
            r0: Vec4Fx { x: fx_div(SCALE, sa), y: 0, z: 0, w: 0 },
            r1: Vec4Fx { x: 0, y: fx_div(SCALE, self.size), z: 0, w: 0 },
            r2: Vec4Fx { x: 0, y: 0, z: -fx_div(2 * SCALE, d), w: -fx_div(self.z_far + self.z_near, d) },
            r3: Vec4Fx { x: 0, y: 0, z: 0, w: SCALE },
        }
    }

    /// Maps a camera-space point to the planar clip coordinates, each with
    /// a single rounding.
    pub fn apply_projection(&self, point: Vec3Fx) -> (r: Vec2Fx)
        requires
            self.wf(),
            point.in_bounds(COORD_LIMIT as int),
        ensures
            r.x == fdiv(point.x as int, fmul(self.size as int, self.aspect_ratio as int)),
            r.y == fdiv(point.y as int, self.size as int),
    {
        proof {
            lemma_fmul_bounded(
                self.size as int, self.aspect_ratio as int, SIZE_MAX as int, SIZE_MAX as int,
            );
        }
        let sa: i64 = fx_mul(self.size, self.aspect_ratio);
        proof {
            lemma_sa_range(self.size as int, self.aspect_ratio as int);
            lemma_fdiv_bounded(point.x as int, sa as int, COORD_LIMIT as int, 100);
            lemma_fdiv_bounded(point.y as int, self.size as int, COORD_LIMIT as int, SIZE_MIN as int);
        }
        Vec2Fx { x: fx_div(point.x, sa), y: fx_div(point.y, self.size) }
    }

    /// Maps camera-space depth to clip depth with a single rounding.
    pub fn clip_depth(&self, z: i64) -> (r: i64)
        requires
            self.wf(),
            iabs(z as int) <= COORD_LIMIT,
        ensures
            r == spec_clip_depth(self.z_near as int, self.z_far as int, z as int),
    {
        let num: i64 = -(2 * z + self.z_far + self.z_near);
        let d: i64 = self.z_far - self.z_near;
        proof {
            lemma_fdiv_bounded(num as int, d as int, 3 * COORD_LIMIT as int, 2);
        }
        fx_div(num, d)
    }
}

/// Decides [`depth_range_wf`] at run time (the checks are ordered so no
/// intermediate can overflow).
fn depth_range_ok(z_near: i64, z_far: i64) -> (r: bool)
    ensures
        r == depth_range_wf(z_near as int, z_far as int),
{
    Z_NEAR_MIN <= z_near && z_near <= Z_NEAR_MAX && z_near + 2 <= z_far && z_far <= Z_FAR_MAX
        && z_far + z_near <= SCALE * (z_far - z_near)
}

/// A valid size and aspect ratio multiply to a moderate positive scale.
proof fn lemma_sa_range(size: int, aspect: int)
    requires
        SIZE_MIN <= size <= SIZE_MAX,
        SIZE_MIN <= aspect <= SIZE_MAX,
    ensures
        100 <= fmul(size, aspect) <= 1_000_000_000_000,
{
    assert(10_000 * 10_000 <= size * aspect <= 1_000_000_000i64 * 1_000_000_000i64)
        by (nonlinear_arith)
        requires
            10_000 <= size <= 1_000_000_000i64,
            10_000 <= aspect <= 1_000_000_000i64;
    vstd::arithmetic::div_mod::lemma_div_is_ordered(
        10_000int * 10_000int, size * aspect, SCALE as int,
    );
    vstd::arithmetic::div_mod::lemma_div_is_ordered(
        size * aspect, 1_000_000_000i64 as int * 1_000_000_000i64 as int, SCALE as int,
    );
}

/// The depth-row entries of either clip matrix stay within the machine
/// range for every valid plane pair: the plane-sum ratio within one scaled
/// unit, the gap reciprocal within one scaled unit, and the perspective
/// depth offset within twice the near plane.
proof fn lemma_depth_entries(zn: int, zf: int)
    requires
        depth_range_wf(zn, zf),
    ensures
        iabs(fdiv(zf + zn, zf - zn)) <= SCALE * SCALE,
        iabs(fdiv(2 * SCALE, zf - zn)) <= SCALE * SCALE,
        0 <= fmul(zf, zn) <= 10_000_000_000_000,
        iabs(fdiv(2 * fmul(zf, zn), zf - zn)) <= 2_000_000_000_000_000,
{
    let d = zf - zn;
    // The plane sum over the gap: the sum is at most `SCALE` gaps.
    lemma_fdiv_abs(zf + zn, d);
    assert((zf + zn) * SCALE <= d * ((SCALE as int) * (SCALE as int))) by (nonlinear_arith)
        requires
            zf + zn <= SCALE * d,
            d >= 0,
            SCALE == 1_000_000i64;
    vstd::arithmetic::div_mod::lemma_div_is_ordered(
        (zf + zn) * (SCALE as int), d * ((SCALE as int) * (SCALE as int)), d,
    );
    vstd::arithmetic::div_mod::lemma_div_multiples_vanish((SCALE as int) * (SCALE as int), d);
    // The gap reciprocal: the gap spans at least two raw units.
    lemma_fdiv_abs(2 * SCALE, d);
    vstd::arithmetic::div_mod::lemma_div_is_ordered_by_denominator(
        2 * (SCALE as int) * (SCALE as int), 2, d,
    );
    // The plane product, scaled down, and the perspective depth offset:
    // `2 zf zn / d` is at most `2 zn` scaled units since `zf <= SCALE * d`.
    lemma_fmul_bounded(zf, zn, Z_FAR_MAX as int, Z_NEAR_MAX as int);
    assert(zf * zn >= 0) by (nonlinear_arith)
        requires
            zf >= 0,
            zn >= 0;
    vstd::arithmetic::div_mod::lemma_div_pos_is_pos(zf * zn, SCALE as int);
    let fp = fmul(zf, zn);
    lemma_fdiv_abs(2 * fp, d);
    assert(fp * SCALE <= zf * zn) by {
        vstd::arithmetic::div_mod::lemma_remainder_lower(zf * zn, SCALE as int);
    }
    assert(2 * fp * SCALE <= (2 * zn * SCALE) * d) by (nonlinear_arith)
        requires
            fp * SCALE <= zf * zn,
            zf <= SCALE * d,
            fp >= 0,
            zn >= 0,
            d >= 0,
            SCALE == 1_000_000i64;
    vstd::arithmetic::div_mod::lemma_div_is_ordered(2 * fp * SCALE, (2 * zn * SCALE) * d, d);
    vstd::arithmetic::div_mod::lemma_div_multiples_vanish(2 * zn * SCALE, d);
    assert((2 * zn * SCALE) * d == d * (2 * zn * SCALE)) by (nonlinear_arith);
}

/// Points on the near and far planes land exactly on the clip boundaries:
/// depth `-z_near` maps to `-1` and depth `-z_far` maps to `+1`.
pub proof fn lemma_clip_planes_exact(z_near: int, z_far: int)
    requires
        depth_range_wf(z_near, z_far),
    ensures
        spec_clip_depth(z_near, z_far, -z_near) == -SCALE,
        spec_clip_depth(z_near, z_far, -z_far) == SCALE,
{
    let d = z_far - z_near;
    assert(-(2 * (-z_near) + z_far + z_near) == -d);
    assert(-(2 * (-z_far) + z_far + z_near) == d);
    assert((-d) * (SCALE as int) == -(d * SCALE)) by (nonlinear_arith);
    vstd::arithmetic::div_mod::lemma_div_multiples_vanish(SCALE as int, d);
    assert(d * SCALE == (SCALE as int) * d) by (nonlinear_arith);
    assert(fdiv(d, d) == SCALE);
    assert(fdiv(-d, d) == -SCALE);
}

/// The edges of the orthographic view volume land exactly on the clip
/// boundaries: a point at the full horizontal extent `size * aspect` maps
/// to clip `1`, and one at the full vertical extent `size` likewise.
pub proof fn lemma_ortho_extent_exact(size: int, aspect: int)
    requires
        SIZE_MIN <= size <= SIZE_MAX,
        SIZE_MIN <= aspect <= SIZE_MAX,
    ensures
        fdiv(fmul(size, aspect), fmul(size, aspect)) == SCALE,
        fdiv(-fmul(size, aspect), fmul(size, aspect)) == -SCALE,
        fdiv(size, size) == SCALE,
        fdiv(-size, size) == -SCALE,
{
    lemma_sa_range(size, aspect);
    let sa = fmul(size, aspect);
    vstd::arithmetic::div_mod::lemma_div_multiples_vanish(SCALE as int, sa);
    assert(sa * SCALE == (SCALE as int) * sa) by (nonlinear_arith);
    assert((-sa) * SCALE == -(sa * SCALE)) by (nonlinear_arith);
    vstd::arithmetic::div_mod::lemma_div_multiples_vanish(SCALE as int, size);
    assert(size * SCALE == (SCALE as int) * size) by (nonlinear_arith);
    assert((-size) * SCALE == -(size * SCALE)) by (nonlinear_arith);
}

/// A perspective projection: a standard right-handed vertical-field-of-view
/// frustum. The focal length is the cotangent of half the field of view.
#[derive(Clone, Copy, Debug, PartialEq, Eq, Structural)]
pub struct PerspectiveProjection {
    pub fov_y_radians: i64,
    pub z_near: i64,
    pub z_far: i64,
    pub aspect_ratio: i64,
}

/// The focal scale of a perspective projection: `cot(fov / 2)`.
pub open spec fn spec_focal(fov: int) -> int {
    fdiv(spec_cos(fov / 2), spec_sin(fov / 2))
}

impl PerspectiveProjection {
    pub open spec fn wf(self) -> bool {
        &&& FOV_MIN <= self.fov_y_radians <= PI_FX - FOV_MIN
        &&& SIZE_MIN <= self.aspect_ratio <= SIZE_MAX
        &&& depth_range_wf(self.z_near as int, self.z_far as int)
    }

    /// The perspective clip matrix.
    pub open spec fn spec_matrix(self) -> Mat4Fx {
        let d = self.z_far - self.z_near;
        let focal = spec_focal(self.fov_y_radians as int);
        Mat4Fx {
            r0: Vec4Fx { x: fdiv(focal, self.aspect_ratio as int) as i64, y: 0, z: 0, w: 0 },
            r1: Vec4Fx { x: 0, y: focal as i64, z: 0, w: 0 },
            r2: Vec4Fx {
                x: 0, y: 0,
                z: (-fdiv(self.z_far + self.z_near, d)) as i64,
                w: (-fdiv(2 * fmul(self.z_far as int, self.z_near as int), d)) as i64,
            },
            r3: Vec4Fx { x: 0, y: 0, z: (-SCALE) as i64, w: 0 },
        }
    }

    /// Builds a perspective projection with the default depth planes, which
    /// succeeds exactly when the field of view and aspect ratio are in range.
    pub fn new(fov: i64, aspect_ratio: i64) -> (r: Result<PerspectiveProjection, SimError>)
        ensures
            r is Ok <==> (FOV_MIN <= fov <= PI_FX - FOV_MIN && SIZE_MIN <= aspect_ratio
                <= SIZE_MAX),
            r matches Ok(p) ==> p == (PerspectiveProjection {
                fov_y_radians: fov,
                z_near: DEFAULT_Z_NEAR,
                z_far: DEFAULT_Z_FAR,
                aspect_ratio,
            }) && p.wf(),
            r is Err ==> r == Result::<PerspectiveProjection, SimError>::Err(
                SimError::InvalidParameter,
            ),
    {
        if fov < FOV_MIN || fov > PI_FX - FOV_MIN || aspect_ratio < SIZE_MIN || aspect_ratio
            > SIZE_MAX {
            Err(SimError::InvalidParameter)
        } else {
            Ok(
                PerspectiveProjection {
                    fov_y_radians: fov,
                    z_near: DEFAULT_Z_NEAR,
                    z_far: DEFAULT_Z_FAR,
                    aspect_ratio,
                },
            )
        }
    }

    /// The focal scale `cot(fov / 2)`, positive and within 20 units.
    fn focal(&self) -> (r: i64)
        requires
            self.wf(),
        ensures
            r == spec_focal(self.fov_y_radians as int),
            0 <= r <= 20_000_000,
    {
        let half: i64 = div_trunc(self.fov_y_radians, 2);
        proof {
            vstd::arithmetic::div_mod::lemma_div_is_ordered(
                FOV_MIN as int, self.fov_y_radians as int, 2,
            );
            vstd::arithmetic::div_mod::lemma_div_is_ordered(
                self.fov_y_radians as int, PI_FX - FOV_MIN, 2,
            );
            lemma_sin_lower(half as int);
        }
        let sin_half: i64 = fx_sin(half);
        let cos_half: i64 = fx_cos(half);
        proof {
            crate::trig::lemma_sin_nonneg(half + crate::trig::HALF_PI_FX);
            lemma_fdiv_bounded(cos_half as int, sin_half as int, SCALE as int, 50_000);
            assert(fdiv(cos_half as int, sin_half as int) >= 0) by {
                vstd::arithmetic::div_mod::lemma_div_pos_is_pos(
                    cos_half * (SCALE as int), sin_half as int,
                );
            }
        }
        fx_div(cos_half, sin_half)
    }

    /// The clip matrix of this projection.
    pub fn get_transformation_matrix(&self) -> (r: Mat4Fx)
        requires
            self.wf(),
        ensures
            r == self.spec_matrix(),
            r.entries_bounded(PROJ_ROT_LIMIT as int, PROJ_W_LIMIT as int),
            r.r0.row_bounds(10_000_000_000, 0),
            r.r1.row_bounds(100_000_000, 0),
            r.r2.row_bounds(SCALE * SCALE, 2_000_000_000_000_000),
            r.r3.row_bounds(SCALE as int, 0),
    {
        let focal: i64 = self.focal();
        proof {
            lemma_fdiv_bounded(focal as int, self.aspect_ratio as int, 20_000_000, SIZE_MIN as int);
            lemma_depth_entries(self.z_near as int, self.z_far as int);
        }
        let d: i64 = self.z_far - self.z_near;
        let fn_product: i64 = fx_mul(self.z_far, self.z_near);
        Mat4Fx {
            r0: Vec4Fx { x: fx_div(focal, self.aspect_ratio), y: 0, z: 0, w: 0 },
            r1: Vec4Fx { x: 0, y: focal, z: 0, w: 0 },
            r2: Vec4Fx {
                x: 0, y: 0,
                z: -fx_div(self.z_far + self.z_near, d),
                w: -fx_div(2 * fn_product, d),
            },
            r3: Vec4Fx { x: 0, y: 0, z: -SCALE, w: 0 },
        }
    }

    /// Maps a camera-space point to the planar clip coordinates (before the
    /// renderer's perspective divide).
    pub fn apply_projection(&self, point: Vec3Fx) -> (r: Vec2Fx)
        requires
            self.wf(),
            point.in_bounds(COORD_LIMIT as int),
        ensures
            r.x == fmul(fdiv(spec_focal(self.fov_y_radians as int), self.aspect_ratio as int),
                point.x as int),
            r.y == fmul(spec_focal(self.fov_y_radians as int), point.y as int),
    {
        let focal: i64 = self.focal();
        proof {
            lemma_fdiv_bounded(focal as int, self.aspect_ratio as int, 20_000_000, SIZE_MIN as int);
            lemma_fmul_bounded(
                fdiv(focal as int, self.aspect_ratio as int), point.x as int,
                2_000_000_000, COORD_LIMIT as int,
            );
            lemma_fmul_bounded(focal as int, point.y as int, 20_000_000, COORD_LIMIT as int);
        }
        let m00: i64 = fx_div(focal, self.aspect_ratio);
        Vec2Fx { x: fx_mul(m00, point.x), y: fx_mul(focal, point.y) }
    }
}

/// A closed pair of projection variants, dispatched by a single match: the
/// variant set is known, so no indirection is needed.
#[derive(Clone, Copy, Debug, PartialEq, Eq, Structural)]
pub enum Projection {
    Orthographic(OrthographicProjection),
    Perspective(PerspectiveProjection),
}

impl Projection {
    pub open spec fn wf(self) -> bool {
        match self {
            Projection::Orthographic(p) => p.wf(),
            Projection::Perspective(p) => p.wf(),
        }
    }

    pub open spec fn spec_z_near(self) -> int {
        match self {
            Projection::Orthographic(p) => p.z_near as int,
            Projection::Perspective(p) => p.z_near as int,
        }
    }

    pub open spec fn spec_z_far(self) -> int {
        match self {
            Projection::Orthographic(p) => p.z_far as int,
            Projection::Perspective(p) => p.z_far as int,
        }
    }

    pub open spec fn spec_aspect_ratio(self) -> int {
        match self {
            Projection::Orthographic(p) => p.aspect_ratio as int,
            Projection::Perspective(p) => p.aspect_ratio as int,
        }
    }

    pub open spec fn spec_matrix(self) -> Mat4Fx {
        match self {
            Projection::Orthographic(p) => p.spec_matrix(),
            Projection::Perspective(p) => p.spec_matrix(),
        }
    }

    /// The same projection with the near plane replaced.
    pub open spec fn spec_with_z_near(self, v: i64) -> Projection {
        match self {
            Projection::Orthographic(p) => Projection::Orthographic(
                OrthographicProjection { z_near: v, ..p },
            ),
            Projection::Perspective(p) => Projection::Perspective(
                PerspectiveProjection { z_near: v, ..p },
            ),
        }
    }

    /// The same projection with the far plane replaced.
    pub open spec fn spec_with_z_far(self, v: i64) -> Projection {
        match self {
            Projection::Orthographic(p) => Projection::Orthographic(
                OrthographicProjection { z_far: v, ..p },
            ),
            Projection::Perspective(p) => Projection::Perspective(
                PerspectiveProjection { z_far: v, ..p },
            ),
        }
    }

    /// The same projection with the aspect ratio replaced.
    pub open spec fn spec_with_aspect_ratio(self, v: i64) -> Projection {
        match self {
            Projection::Orthographic(p) => Projection::Orthographic(
                OrthographicProjection { aspect_ratio: v, ..p },
            ),
            Projection::Perspective(p) => Projection::Perspective(
                PerspectiveProjection { aspect_ratio: v, ..p },
            ),
        }
    }

    /// Maps a camera-space point to planar clip coordinates with the
    /// active variant.
    pub fn apply_projection(&self, point: Vec3Fx) -> (r: Vec2Fx)
        requires
            self.wf(),
            point.in_bounds(COORD_LIMIT as int),
        ensures
            self matches Projection::Orthographic(p) ==> r.x == fdiv(
                point.x as int,
                fmul(p.size as int, p.aspect_ratio as int),
            ) && r.y == fdiv(point.y as int, p.size as int),
            self matches Projection::Perspective(p) ==> r.x == fmul(
                fdiv(spec_focal(p.fov_y_radians as int), p.aspect_ratio as int),
                point.x as int,
            ) && r.y == fmul(spec_focal(p.fov_y_radians as int), point.y as int),
    {
        match self {
            Projection::Orthographic(p) => p.apply_projection(point),
            Projection::Perspective(p) => p.apply_projection(point),
        }
    }

    /// The clip matrix of the active variant.
    pub fn get_transformation_matrix(&self) -> (r: Mat4Fx)
        requires
            self.wf(),
        ensures
            r == self.spec_matrix(),
            r.entries_bounded(PROJ_ROT_LIMIT as int, PROJ_W_LIMIT as int),
            r.r0.row_bounds(10_000_000_000, 0),
            r.r1.row_bounds(100_000_000, 0),
            r.r2.row_bounds(SCALE * SCALE, 2_000_000_000_000_000),
            r.r3.row_bounds(SCALE as int, SCALE as int),
    {
        match self {
            Projection::Orthographic(p) => p.get_transformation_matrix(),
            Projection::Perspective(p) => p.get_transformation_matrix(),
        }
    }

    pub fn get_z_near(&self) -> (r: i64)
        ensures
            r == self.spec_z_near(),
    {
        match self {
            Projection::Orthographic(p) => p.z_near,
            Projection::Perspective(p) => p.z_near,
        }
    }

    pub fn get_z_far(&self) -> (r: i64)
        ensures
            r == self.spec_z_far(),
    {
        match self {
            Projection::Orthographic(p) => p.z_far,
            Projection::Perspective(p) => p.z_far,
        }
    }

    pub fn get_aspect_ratio(&self) -> (r: i64)
        ensures
            r == self.spec_aspect_ratio(),
    {
        match self {
            Projection::Orthographic(p) => p.aspect_ratio,
            Projection::Perspective(p) => p.aspect_ratio,
        }
    }

    /// Replaces the near plane, failing fast on a value that would break
    /// the depth-plane ordering (or leave the machine's representable
    /// range); on failure nothing changes.
    pub fn z_near(&mut self, v: i64) -> (r: Result<(), SimError>)
        ensures
            r is Ok <==> depth_range_wf(v as int, old(self).spec_z_far()),
            r is Ok ==> *final(self) == old(self).spec_with_z_near(v),
            r is Err ==> *final(self) == *old(self) && r == Result::<(), SimError>::Err(
                SimError::InvalidParameter,
            ),
            old(self).wf() && r is Ok ==> final(self).wf(),
    {
        let zf = self.get_z_far();
        if !depth_range_ok(v, zf) {
            Err(SimError::InvalidParameter)
        } else {
            match self {
                Projection::Orthographic(p) => p.z_near = v,
                Projection::Perspective(p) => p.z_near = v,
            }
            Ok(())
        }
    }

    /// Replaces the far plane, failing fast on a value that would break
    /// the depth-plane ordering (or leave the machine's representable
    /// range); on failure nothing changes.
    pub fn z_far(&mut self, v: i64) -> (r: Result<(), SimError>)
        ensures
            r is Ok <==> depth_range_wf(old(self).spec_z_near(), v as int),
            r is Ok ==> *final(self) == old(self).spec_with_z_far(v),
            r is Err ==> *final(self) == *old(self) && r == Result::<(), SimError>::Err(
                SimError::InvalidParameter,
            ),
            old(self).wf() && r is Ok ==> final(self).wf(),
    {
        let zn = self.get_z_near();
        if !depth_range_ok(zn, v) {
            Err(SimError::InvalidParameter)
        } else {
            match self {
                Projection::Orthographic(p) => p.z_far = v,
                Projection::Perspective(p) => p.z_far = v,
            }
            Ok(())
        }
    }

    /// Replaces the aspect ratio, failing fast on an out-of-range value;
    /// on failure nothing changes.
    pub fn aspect_ratio(&mut self, v: i64) -> (r: Result<(), SimError>)
        ensures
            r is Ok <==> SIZE_MIN <= v <= SIZE_MAX,
            r is Ok ==> *final(self) == old(self).spec_with_aspect_ratio(v),
            r is Err ==> *final(self) == *old(self) && r == Result::<(), SimError>::Err(
                SimError::InvalidParameter,
            ),
            old(self).wf() && r is Ok ==> final(self).wf(),
    {
        if v < SIZE_MIN || v > SIZE_MAX {
            Err(SimError::InvalidParameter)
        } else {
            match self {
                Projection::Orthographic(p) => p.aspect_ratio = v,
                Projection::Perspective(p) => p.aspect_ratio = v,
            }
            Ok(())
        }
    }
}

} // verus!
