//! Particles and their force integration: semi-implicit Euler with a speed
//! limit. Velocity is updated from the force before the position is moved,
//! and its magnitude is capped at [`MAX_VELOCITY`] (direction preserved) —
//! a silent policy, not an error path.

use vstd::prelude::*;
use crate::fixed::{
    COORD_LIMIT, FORCE_LIMIT, SCALE, TIME_LIMIT, fdiv, fmul, fmul_fits, fx_div, iabs,
    lemma_fmul_le,
};
use crate::vec2::Vec2Fx;
use crate::vec3::Vec3Fx;

verus! {

/// The speed cap applied after every force update (40 units per second).
pub const MAX_VELOCITY: i64 = 40_000_000;

/// A color carried for the renderer's benefit; the simulation never reads it.
#[derive(Clone, Copy, Debug, PartialEq, Eq, Structural)]
pub struct ColorFx {
    pub red: i64,
    pub green: i64,
    pub blue: i64,
    pub alpha: i64,
}

/// A viewport rectangle, used to normalize window coordinates.
#[derive(Clone, Copy, Debug, PartialEq, Eq, Structural)]
pub struct RectFx {
    pub left: i64,
    pub bottom: i64,
    pub width: i64,
    pub height: i64,
}

impl RectFx {
    /// A viewport at least one unit wide and tall, within the coordinate
    /// range.
    pub open spec fn wf(self) -> bool {
        &&& iabs(self.left as int) <= COORD_LIMIT
        &&& iabs(self.bottom as int) <= COORD_LIMIT
        &&& SCALE <= self.width <= COORD_LIMIT
        &&& SCALE <= self.height <= COORD_LIMIT
    }
}

/// Maps window coordinates to the unit square relative to `win`: the offset
/// from the bottom-left corner, divided component-wise by the extent.
pub open spec fn spec_scale_coords(win: RectFx, coords: Vec2Fx) -> Vec2Fx {
    Vec2Fx {
        x: fdiv(coords.x - win.left, win.width as int) as i64,
        y: fdiv(coords.y - win.bottom, win.height as int) as i64,
    }
}

/// Maps window coordinates to the unit square relative to `win`.
pub fn scale_coords(win: RectFx, coords: Vec2Fx) -> (r: Vec2Fx)
    requires
        win.wf(),
        coords.in_bounds(COORD_LIMIT as int),
    ensures
        r == spec_scale_coords(win, coords),
        r.in_bounds(2 * COORD_LIMIT),
{
    proof {
        crate::fixed::lemma_fdiv_bounded(
            coords.x - win.left, win.width as int, 2 * COORD_LIMIT, SCALE as int,
        );
        crate::fixed::lemma_fdiv_bounded(
            coords.y - win.bottom, win.height as int, 2 * COORD_LIMIT, SCALE as int,
        );
    }
    Vec2Fx {
        x: fx_div(coords.x - win.left, win.width),
        y: fx_div(coords.y - win.bottom, win.height),
    }
}

/// A particle of the planar flow-field scene.
#[derive(Clone, Copy, Debug, PartialEq, Eq, Structural)]
pub struct Particle2 {
    pub position: Vec2Fx,
    pub velocity: Vec2Fx,
    pub radius: i64,
    pub color: ColorFx,
}

impl Particle2 {
    /// The standing invariant: coordinates in range and speed under the cap.
    pub open spec fn wf(self) -> bool {
        &&& self.position.in_bounds(COORD_LIMIT as int)
        &&& self.velocity.norm_sq() <= MAX_VELOCITY * MAX_VELOCITY
    }

    /// The velocity after one force update: the scaled force is added, then
    /// the magnitude is capped.
    pub open spec fn spec_processed_velocity(self, force: Vec2Fx, dt: int) -> Vec2Fx {
        self.velocity.spec_add(force.spec_scale(dt)).spec_clamp(MAX_VELOCITY as int)
    }

    pub fn new(position: Vec2Fx, color: ColorFx) -> (r: Particle2)
        ensures
            r.position == position,
            r.velocity == (Vec2Fx { x: 0, y: 0 }),
            r.radius == SCALE,
            r.color == color,
    {
        Particle2 { position, velocity: Vec2Fx { x: 0, y: 0 }, radius: SCALE, color }
    }

    /// Updates the velocity from a force over the elapsed time, then caps
    /// its magnitude at [`MAX_VELOCITY`].
    pub fn process_force(&mut self, force: Vec2Fx, time_passed: i64)
        requires
            old(self).wf(),
            force.in_bounds(FORCE_LIMIT as int),
            0 <= time_passed <= TIME_LIMIT,
        ensures
            final(self).velocity == old(self).spec_processed_velocity(force, time_passed as int),
            final(self).velocity.norm_sq() <= MAX_VELOCITY * MAX_VELOCITY,
            final(self).position == old(self).position,
            final(self).radius == old(self).radius,
            final(self).color == old(self).color,
    {
        proof {
            lemma_particle_step_bounds(
                self.velocity.x as int, self.velocity.y as int, 0,
                force.x as int, force.y as int, 0,
                time_passed as int,
            );
        }
        let pushed = self.velocity.add(force.scale(time_passed));
        self.velocity = pushed.clamp_length_max(MAX_VELOCITY);
    }

    /// Moves the particle along its velocity for the elapsed time.
    pub fn move_at_velocity(&mut self, time_passed: i64)
        requires
            old(self).wf(),
            0 <= time_passed <= TIME_LIMIT,
        ensures
            final(self).position == old(self).position.spec_add(
                old(self).velocity.spec_scale(time_passed as int),
            ),
            final(self).position.in_bounds(COORD_LIMIT + 400_000_000),
            final(self).velocity == old(self).velocity,
            final(self).radius == old(self).radius,
            final(self).color == old(self).color,
    {
        proof {
            lemma_velocity_component_bounds(
                self.velocity.x as int, self.velocity.y as int, 0, time_passed as int,
            );
        }
        self.position = self.position.add(self.velocity.scale(time_passed));
    }

    /// One integration step: the force update, then the move — in that
    /// order, so the new velocity drives the new position.
    pub fn update(&mut self, force: Vec2Fx, time_passed: i64)
        requires
            old(self).wf(),
            force.in_bounds(FORCE_LIMIT as int),
            0 <= time_passed <= TIME_LIMIT,
        ensures
            final(self).velocity == old(self).spec_processed_velocity(force, time_passed as int),
            final(self).position == old(self).position.spec_add(
                old(self).spec_processed_velocity(force, time_passed as int).spec_scale(
                    time_passed as int,
                ),
            ),
            final(self).velocity.norm_sq() <= MAX_VELOCITY * MAX_VELOCITY,
            final(self).position.in_bounds(COORD_LIMIT + 400_000_000),
            final(self).radius == old(self).radius,
            final(self).color == old(self).color,
    {
        self.process_force(force, time_passed);
        self.move_at_velocity(time_passed);
    }

    /// The position normalized into the unit square of the given viewport.
    pub fn position_scaled(&self, win: RectFx) -> (r: Vec2Fx)
        requires
            win.wf(),
            self.position.in_bounds(COORD_LIMIT as int),
        ensures
            r == spec_scale_coords(win, self.position),
    {
        scale_coords(win, self.position)
    }
}

/// A particle of the 3D scenes.
#[derive(Clone, Copy, Debug, PartialEq, Eq, Structural)]
pub struct Particle3 {
    pub position: Vec3Fx,
    pub velocity: Vec3Fx,
    pub radius: i64,
    pub color: ColorFx,
}

impl Particle3 {
    /// The standing invariant: coordinates in range and speed under the cap.
    pub open spec fn wf(self) -> bool {
        &&& self.position.in_bounds(COORD_LIMIT as int)
        &&& self.velocity.norm_sq() <= MAX_VELOCITY * MAX_VELOCITY
    }

    /// The velocity after one force update: the scaled force is added, then
    /// the magnitude is capped.
    pub open spec fn spec_processed_velocity(self, force: Vec3Fx, dt: int) -> Vec3Fx {
        self.velocity.spec_add(force.spec_scale(dt)).spec_clamp(MAX_VELOCITY as int)
    }

    pub fn new(position: Vec3Fx, color: ColorFx, radius: i64) -> (r: Particle3)
        ensures
            r.position == position,
            r.velocity == (Vec3Fx { x: 0, y: 0, z: 0 }),
            r.radius == radius,
            r.color == color,
    {
        Particle3 { position, velocity: Vec3Fx { x: 0, y: 0, z: 0 }, radius, color }
    }

    /// Updates the velocity from a force over the elapsed time, then caps
    /// its magnitude at [`MAX_VELOCITY`].
    pub fn process_force(&mut self, force: Vec3Fx, time_passed: i64)
        requires
            old(self).wf(),
            force.in_bounds(FORCE_LIMIT as int),
            0 <= time_passed <= TIME_LIMIT,
        ensures
            final(self).velocity == old(self).spec_processed_velocity(force, time_passed as int),
            final(self).velocity.norm_sq() <= MAX_VELOCITY * MAX_VELOCITY,
            final(self).position == old(self).position,
            final(self).radius == old(self).radius,
            final(self).color == old(self).color,
    {
        proof {
            lemma_particle_step_bounds(
                self.velocity.x as int, self.velocity.y as int, self.velocity.z as int,
                force.x as int, force.y as int, force.z as int,
                time_passed as int,
            );
        }
        let pushed = self.velocity.add(force.scale(time_passed));
        self.velocity = pushed.clamp_length_max(MAX_VELOCITY);
    }

    /// Moves the particle along its velocity for the elapsed time.
    pub fn move_at_velocity(&mut self, time_passed: i64)
        requires
            old(self).wf(),
            0 <= time_passed <= TIME_LIMIT,
        ensures
            final(self).position == old(self).position.spec_add(
                old(self).velocity.spec_scale(time_passed as int),
            ),
            final(self).position.in_bounds(COORD_LIMIT + 400_000_000),
            final(self).velocity == old(self).velocity,
            final(self).radius == old(self).radius,
            final(self).color == old(self).color,
    {
        proof {
            lemma_velocity_component_bounds(
                self.velocity.x as int, self.velocity.y as int, self.velocity.z as int,
                time_passed as int,
            );
        }
        self.position = self.position.add(self.velocity.scale(time_passed));
    }

    /// The particle's position carried into clip space by a world-to-clip
    /// matrix, before the renderer's perspective divide.
    pub fn transform_position(&self, transformation_matrix: crate::mat4::Mat4Fx) -> (r:
        crate::mat4::Vec4Fx)
        requires
            transformation_matrix.entries_bounded(
                crate::mat4::MAT_ROT_LIMIT as int,
                crate::mat4::MAT_W_LIMIT as int,
            ),
            self.position.in_bounds(COORD_LIMIT as int),
        ensures
            r == transformation_matrix.spec_transform_point(self.position),
    {
        transformation_matrix.transform_point(self.position)
    }

    /// One integration step: the force update, then the move — in that
    /// order, so the new velocity drives the new position.
    pub fn update(&mut self, force: Vec3Fx, time_passed: i64)
        requires
            old(self).wf(),
            force.in_bounds(FORCE_LIMIT as int),
            0 <= time_passed <= TIME_LIMIT,
        ensures
            final(self).velocity == old(self).spec_processed_velocity(force, time_passed as int),
            final(self).position == old(self).position.spec_add(
                old(self).spec_processed_velocity(force, time_passed as int).spec_scale(
                    time_passed as int,
                ),
            ),
            final(self).velocity.norm_sq() <= MAX_VELOCITY * MAX_VELOCITY,
            final(self).position.in_bounds(COORD_LIMIT + 400_000_000),
            final(self).radius == old(self).radius,
            final(self).color == old(self).color,
    {
        self.process_force(force, time_passed);
        self.move_at_velocity(time_passed);
    }
}

/// Bounds needed by one force update: the scaled force and the pushed
/// velocity stay within `i64`.
proof fn lemma_particle_step_bounds(
    vx: int, vy: int, vz: int,
    fx: int, fy: int, fz: int,
    dt: int,
)
    requires
        vx * vx + vy * vy + vz * vz <= MAX_VELOCITY * MAX_VELOCITY,
        iabs(fx) <= FORCE_LIMIT,
        iabs(fy) <= FORCE_LIMIT,
        iabs(fz) <= FORCE_LIMIT,
        0 <= dt <= TIME_LIMIT,
    ensures
        fmul_fits(fx, dt),
        fmul_fits(fy, dt),
        fmul_fits(fz, dt),
        iabs(vx + fmul(fx, dt)) <= i64::MAX,
        iabs(vy + fmul(fy, dt)) <= i64::MAX,
        iabs(vz + fmul(fz, dt)) <= i64::MAX,
{
    lemma_norm_component_bounds(vx, vy, vz, MAX_VELOCITY as int);
    assert(iabs(fx) * iabs(dt) <= FORCE_LIMIT * TIME_LIMIT) by (nonlinear_arith)
        requires
            iabs(fx) <= FORCE_LIMIT,
            0 <= iabs(dt) <= TIME_LIMIT;
    assert(iabs(fy) * iabs(dt) <= FORCE_LIMIT * TIME_LIMIT) by (nonlinear_arith)
        requires
            iabs(fy) <= FORCE_LIMIT,
            0 <= iabs(dt) <= TIME_LIMIT;
    assert(iabs(fz) * iabs(dt) <= FORCE_LIMIT * TIME_LIMIT) by (nonlinear_arith)
        requires
            iabs(fz) <= FORCE_LIMIT,
            0 <= iabs(dt) <= TIME_LIMIT;
    lemma_fmul_le(fx, dt, FORCE_LIMIT as int * TIME_LIMIT as int);
    lemma_fmul_le(fy, dt, FORCE_LIMIT as int * TIME_LIMIT as int);
    lemma_fmul_le(fz, dt, FORCE_LIMIT as int * TIME_LIMIT as int);
}

/// Bounds needed by one move: a capped velocity scaled by a bounded elapsed
/// time shifts each coordinate by at most 400 whole units.
proof fn lemma_velocity_component_bounds(vx: int, vy: int, vz: int, dt: int)
    requires
        vx * vx + vy * vy + vz * vz <= MAX_VELOCITY * MAX_VELOCITY,
        0 <= dt <= TIME_LIMIT,
    ensures
        fmul_fits(vx, dt),
        fmul_fits(vy, dt),
        fmul_fits(vz, dt),
        iabs(vx) <= MAX_VELOCITY,
        iabs(vy) <= MAX_VELOCITY,
        iabs(vz) <= MAX_VELOCITY,
        iabs(fmul(vx, dt)) <= 400_000_000,
        iabs(fmul(vy, dt)) <= 400_000_000,
        iabs(fmul(vz, dt)) <= 400_000_000,
{
    lemma_norm_component_bounds(vx, vy, vz, MAX_VELOCITY as int);
    assert(iabs(vx) * iabs(dt) <= MAX_VELOCITY * TIME_LIMIT) by (nonlinear_arith)
        requires
            iabs(vx) <= MAX_VELOCITY,
            0 <= iabs(dt) <= TIME_LIMIT;
    assert(iabs(vy) * iabs(dt) <= MAX_VELOCITY * TIME_LIMIT) by (nonlinear_arith)
        requires
            iabs(vy) <= MAX_VELOCITY,
            0 <= iabs(dt) <= TIME_LIMIT;
    assert(iabs(vz) * iabs(dt) <= MAX_VELOCITY * TIME_LIMIT) by (nonlinear_arith)
        requires
            iabs(vz) <= MAX_VELOCITY,
            0 <= iabs(dt) <= TIME_LIMIT;
    lemma_fmul_le(vx, dt, MAX_VELOCITY as int * TIME_LIMIT as int);
    lemma_fmul_le(vy, dt, MAX_VELOCITY as int * TIME_LIMIT as int);
    lemma_fmul_le(vz, dt, MAX_VELOCITY as int * TIME_LIMIT as int);
}

/// A squared-norm bound caps every component's magnitude.
pub(crate) proof fn lemma_norm_component_bounds(vx: int, vy: int, vz: int, m: int)
    requires
        vx * vx + vy * vy + vz * vz <= m * m,
        m >= 0,
    ensures
        iabs(vx) <= m,
        iabs(vy) <= m,
        iabs(vz) <= m,
{
    assert(iabs(vx) <= m && iabs(vy) <= m && iabs(vz) <= m) by (nonlinear_arith)
        requires
            vx * vx + vy * vy + vz * vz <= m * m,
            m >= 0;
}

} // verus!
