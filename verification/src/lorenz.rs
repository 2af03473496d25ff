//! The Lorenz-attractor scene: a swarm of particles driven by the classic
//! three-variable Lorenz system, watched by an orbiting perspective camera.

use vstd::prelude::*;
use crate::SimError;
use crate::camera::Camera;
use crate::controls::{
    CameraControls, CenteredCameraControls, InputEvent, spec_orbit_applied, spec_world_velocity,
};
use crate::projection::{PerspectiveProjection, Projection};
use crate::fixed::{
    COORD_LIMIT, FORCE_LIMIT, SCALE, TIME_LIMIT, div_trunc, fmul, iabs, lemma_fmul_bounded, sdiv,
};
use crate::particle::{ColorFx, Particle3};
use crate::rng::random_in_range;
use crate::vec3::Vec3Fx;

verus! {

/// Largest coordinate magnitude the chaotic field accepts (ten thousand
/// units; the attractor itself stays within a few dozen).
pub const LORENZ_COORD_LIMIT: i64 = 10_000_000_000;

/// Largest magnitude accepted for the Lorenz constants (a thousand).
pub const PARAM_LIMIT: i64 = 1_000_000_000;

/// Elapsed time is divided by this factor before integration: a deliberate
/// slow-motion scaling that keeps the attractor visually legible.
pub const TIME_DIVISOR: i64 = 10;

/// Default `rho` of the Lorenz system (28).
pub const DEFAULT_RHO: i64 = 28_000_000;

/// Default `sigma` of the Lorenz system (10).
pub const DEFAULT_SIGMA: i64 = 10_000_000;

/// Default `beta` of the Lorenz system (2.66667).
pub const DEFAULT_BETA: i64 = 2_666_670;

/// How many particles the scene seeds.
pub const PARTICLE_COUNT: usize = 1000;

/// The Lorenz system constants, immutable for the scene's lifetime.
#[derive(Clone, Copy, Debug, PartialEq, Eq, Structural)]
pub struct LorenzOptions {
    pub rho: i64,
    pub sigma: i64,
    pub beta: i64,
}

impl LorenzOptions {
    pub open spec fn wf(self) -> bool {
        &&& iabs(self.rho as int) <= PARAM_LIMIT
        &&& iabs(self.sigma as int) <= PARAM_LIMIT
        &&& iabs(self.beta as int) <= PARAM_LIMIT
    }

    /// Accepts any constants within the machine range, and only those.
    pub fn new(rho: i64, sigma: i64, beta: i64) -> (r: Result<LorenzOptions, SimError>)
        ensures
            r is Ok <==> (iabs(rho as int) <= PARAM_LIMIT && iabs(sigma as int) <= PARAM_LIMIT
                && iabs(beta as int) <= PARAM_LIMIT),
            r matches Ok(o) ==> o == (LorenzOptions { rho, sigma, beta }) && o.wf(),
            r is Err ==> r == Result::<LorenzOptions, SimError>::Err(SimError::InvalidParameter),
    {
        if rho < -PARAM_LIMIT || rho > PARAM_LIMIT || sigma < -PARAM_LIMIT || sigma > PARAM_LIMIT
            || beta < -PARAM_LIMIT || beta > PARAM_LIMIT {
            Err(SimError::InvalidParameter)
        } else {
            Ok(LorenzOptions { rho, sigma, beta })
        }
    }
}

/// The Lorenz field at `p`: `(sigma (y - x), x (rho - z) - y, x y - beta z)`
/// — a pure function of the position and the three constants, with no
/// hidden state.
pub open spec fn spec_lorenz_force(p: Vec3Fx, rho: int, sigma: int, beta: int) -> Vec3Fx {
    Vec3Fx {
        x: fmul(sigma, p.y - p.x) as i64,
        y: (fmul(p.x as int, rho - p.z) - p.y) as i64,
        z: (fmul(p.x as int, p.y as int) - fmul(beta, p.z as int)) as i64,
    }
}

/// Evaluates the Lorenz field; total on every in-range position, and equal
/// to the specification field exactly, so two calls on equal inputs give
/// equal outputs.
pub fn lorenz_force(position: Vec3Fx, options: &LorenzOptions) -> (r: Vec3Fx)
    requires
        options.wf(),
        position.in_bounds(LORENZ_COORD_LIMIT as int),
    ensures
        r == spec_lorenz_force(
            position, options.rho as int, options.sigma as int, options.beta as int,
        ),
        r.in_bounds(FORCE_LIMIT as int),
{
    proof {
        lemma_fmul_bounded(
            options.sigma as int, position.y - position.x, PARAM_LIMIT as int,
            2 * LORENZ_COORD_LIMIT,
        );
        lemma_fmul_bounded(
            position.x as int, options.rho - position.z, LORENZ_COORD_LIMIT as int,
            PARAM_LIMIT + LORENZ_COORD_LIMIT,
        );
        lemma_fmul_bounded(
            position.x as int, position.y as int, LORENZ_COORD_LIMIT as int,
            LORENZ_COORD_LIMIT as int,
        );
        lemma_fmul_bounded(
            options.beta as int, position.z as int, PARAM_LIMIT as int, LORENZ_COORD_LIMIT as int,
        );
    }
    let dx: i64 = crate::fixed::fx_mul(options.sigma, position.y - position.x);
    let dy: i64 = crate::fixed::fx_mul(position.x, options.rho - position.z) - position.y;
    let dz: i64 = crate::fixed::fx_mul(position.x, position.y) - crate::fixed::fx_mul(
        options.beta,
        position.z,
    );
    Vec3Fx { x: dx, y: dy, z: dz }
}

/// The Lorenz field is a pure function: equal positions and constants give
/// equal field values, across any two evaluations.
pub proof fn lemma_lorenz_force_pure(
    p1: Vec3Fx, p2: Vec3Fx, rho1: int, rho2: int, sigma1: int, sigma2: int, beta1: int, beta2: int,
)
    requires
        p1 == p2,
        rho1 == rho2,
        sigma1 == sigma2,
        beta1 == beta2,
    ensures
        spec_lorenz_force(p1, rho1, sigma1, beta1) == spec_lorenz_force(p2, rho2, sigma2, beta2),
{
}

/// One integration step of a particle under the Lorenz field: the position
/// advances by the field value over the slowed elapsed time; the particle's
/// stored velocity is not involved (the field acts as the velocity).
pub open spec fn spec_lorenz_step(p: Particle3, o: LorenzOptions, dt: int) -> Particle3 {
    let f = spec_lorenz_force(p.position, o.rho as int, o.sigma as int, o.beta as int);
    Particle3 {
        position: Vec3Fx {
            x: (p.position.x + sdiv(fmul(f.x as int, dt), TIME_DIVISOR as int)) as i64,
            y: (p.position.y + sdiv(fmul(f.y as int, dt), TIME_DIVISOR as int)) as i64,
            z: (p.position.z + sdiv(fmul(f.z as int, dt), TIME_DIVISOR as int)) as i64,
        },
        ..p
    }
}

/// What holds of every freshly seeded particle, whatever the random draws:
/// at rest, radius 4, the scene's color, and a whole-unit position within
/// ten units of the origin.
pub open spec fn spec_spawned(p: Particle3) -> bool {
    &&& p.velocity == (Vec3Fx { x: 0, y: 0, z: 0 })
    &&& p.radius == 4 * SCALE
    &&& p.color == (ColorFx { red: 0, green: 0, blue: 0, alpha: 990_000 })
    &&& -10 * SCALE <= p.position.x < 10 * SCALE
    &&& -10 * SCALE <= p.position.y < 10 * SCALE
    &&& -10 * SCALE <= p.position.z < 10 * SCALE
    &&& (p.position.x as int) % (SCALE as int) == 0
    &&& (p.position.y as int) % (SCALE as int) == 0
    &&& (p.position.z as int) % (SCALE as int) == 0
}

/// The Lorenz scene: particles, constants, camera and its controls.
pub struct Model {
    pub particles: Vec<Particle3>,
    pub rho: i64,
    pub sigma: i64,
    pub beta: i64,
    pub camera: Camera,
    pub camera_controls: CameraControls,
}

impl Model {
    pub open spec fn options(self) -> LorenzOptions {
        LorenzOptions { rho: self.rho, sigma: self.sigma, beta: self.beta }
    }

    pub open spec fn wf(self) -> bool {
        &&& self.options().wf()
        &&& self.camera.wf()
        &&& self.camera_controls.wf()
        &&& forall|i: int|
            0 <= i < self.particles@.len() ==> (#[trigger] self.particles@[i]).wf()
                && self.particles@[i].position.in_bounds(LORENZ_COORD_LIMIT as int)
    }

    /// Builds the scene. Whatever the random draws, every particle starts
    /// at rest with radius 4 at a whole-unit position within ten units of
    /// the origin; the camera is a fixed perspective camera (field of view
    /// 0.25, aspect 1) with a re-orthonormalized up vector, orbiting the
    /// origin under keyboard controls with both speeds at 100.
    pub fn new(options: &LorenzOptions) -> (r: Model)
        requires
            options.wf(),
        ensures
            r.wf(),
            r.particles@.len() == PARTICLE_COUNT,
            forall|i: int|
                0 <= i < r.particles@.len() ==> spec_spawned(#[trigger] r.particles@[i]),
            r.rho == options.rho,
            r.sigma == options.sigma,
            r.beta == options.beta,
            r.camera.position == (Vec3Fx { x: 10_926_121, y: 7_850_386, z: 232_435_930 }),
            r.camera.view_direction == (Vec3Fx {
                x: (-10 * SCALE) as i64,
                y: (-10 * SCALE) as i64,
                z: (-10 * SCALE) as i64,
            }).spec_normalized(),
            r.camera.up == spec_orthonormal_up(
                r.camera.view_direction,
                Vec3Fx { x: 0, y: SCALE, z: 0 },
            ),
            r.camera.projection == Projection::Perspective(
                PerspectiveProjection {
                    fov_y_radians: 250_000,
                    z_near: crate::projection::DEFAULT_Z_NEAR,
                    z_far: crate::projection::DEFAULT_Z_FAR,
                    aspect_ratio: SCALE,
                },
            ),
            r.camera_controls == CameraControls::Centered(
                CenteredCameraControls {
                    center: Vec3Fx { x: 0, y: 0, z: 0 },
                    speed: (100 * SCALE) as i64,
                    zoom_speed: (100 * SCALE) as i64,
                    left_pressed: false,
                    right_pressed: false,
                    up_pressed: false,
                    down_pressed: false,
                    zoom_in_pressed: false,
                    zoom_out_pressed: false,
                },
            ),
    {
        let mut particles: Vec<Particle3> = Vec::new();
        let color = ColorFx { red: 0, green: 0, blue: 0, alpha: 990_000 };
        let mut k: usize = 0;
        while k < PARTICLE_COUNT
            invariant
                particles@.len() == k,
                k <= PARTICLE_COUNT,
                forall|i: int|
                    0 <= i < particles@.len() ==> (#[trigger] particles@[i]).wf()
                        && particles@[i].position.in_bounds(LORENZ_COORD_LIMIT as int),
                forall|i: int|
                    0 <= i < particles@.len() ==> spec_spawned(#[trigger] particles@[i]),
                color == (ColorFx { red: 0, green: 0, blue: 0, alpha: 990_000 }),
            decreases PARTICLE_COUNT - k,
        {
            let dx: i64 = random_in_range(-10, 10);
            let dy: i64 = random_in_range(-10, 10);
            let dz: i64 = random_in_range(-10, 10);
            let x: i64 = dx * SCALE;
            let y: i64 = dy * SCALE;
            let z: i64 = dz * SCALE;
            proof {
                vstd::arithmetic::div_mod::lemma_mod_multiples_basic(dx as int, SCALE as int);
                vstd::arithmetic::div_mod::lemma_mod_multiples_basic(dy as int, SCALE as int);
                vstd::arithmetic::div_mod::lemma_mod_multiples_basic(dz as int, SCALE as int);
                assert((x as int) % (SCALE as int) == 0 && (y as int) % (SCALE as int) == 0 && (
                z as int) % (SCALE as int) == 0);
            }
            let p = Particle3::new(Vec3Fx { x, y, z }, color, 4 * SCALE);
            proof {
                assert(spec_spawned(p));
            }
            particles.push(p);
            k = k + 1;
        }

        let cam_position = Vec3Fx { x: 10_926_121, y: 7_850_386, z: 232_435_930 };
        let view_center = Vec3Fx { x: 0, y: 0, z: 0 };
        let view_direction = view_center.sub(
            Vec3Fx { x: 10 * SCALE, y: 10 * SCALE, z: 10 * SCALE },
        ).normalize();
        let up = orthonormal_up(view_direction, Vec3Fx { x: 0, y: SCALE, z: 0 });
        let camera = build_orbit_camera(cam_position, view_direction, up, 250_000, SCALE);
        Model {
            particles,
            rho: options.rho,
            sigma: options.sigma,
            beta: options.beta,
            camera,
            camera_controls: CameraControls::Centered(
                CenteredCameraControls::new(view_center, 100 * SCALE, 100 * SCALE),
            ),
        }
    }

    /// Delivers one input event to the camera controls.
    pub fn event(&mut self, event: InputEvent)
        requires
            old(self).wf(),
            event.wf(),
        ensures
            final(self).camera_controls == old(self).camera_controls.spec_event(event),
            final(self).particles == old(self).particles,
            final(self).camera == old(self).camera,
            final(self).rho == old(self).rho,
            final(self).sigma == old(self).sigma,
            final(self).beta == old(self).beta,
            final(self).wf(),
    {
        self.camera_controls.event(event);
    }

    /// One tick: every particle advances under the Lorenz field over the
    /// slowed elapsed time, then the controls move and re-aim the camera.
    /// Succeeds exactly when the stepped camera and every stepped particle
    /// stay within the machine's coordinate range; otherwise it fails with
    /// invalid input and the scene is unchanged.
    pub fn update(&mut self, elapsed: i64) -> (r: Result<(), SimError>)
        requires
            old(self).wf(),
            0 <= elapsed <= TIME_LIMIT,
        ensures
            r is Ok <==> (old(self).camera.position.spec_add(
                spec_world_velocity(
                    old(self).camera,
                    old(self).camera_controls.spec_local_velocity(),
                ).spec_scale(elapsed as int),
            ).in_bounds(crate::fixed::COORD_LIMIT as int) && (forall|i: int|
                0 <= i < old(self).particles@.len() ==> spec_lorenz_step(
                    #[trigger] old(self).particles@[i],
                    old(self).options(),
                    elapsed as int,
                ).position.in_bounds(LORENZ_COORD_LIMIT as int))),
            r is Ok ==> final(self).particles@.len() == old(self).particles@.len()
                && (forall|i: int|
                0 <= i < old(self).particles@.len() ==> final(self).particles@[i]
                    == spec_lorenz_step(
                    #[trigger] old(self).particles@[i],
                    old(self).options(),
                    elapsed as int,
                )) && spec_orbit_applied(
                old(self).camera_controls.spec_center(),
                old(self).camera_controls.spec_local_velocity(),
                old(self).camera,
                final(self).camera,
                elapsed as int,
            ),
            r is Err ==> *final(self) == *old(self) && r == Result::<(), SimError>::Err(
                SimError::InvalidInput,
            ),
            final(self).camera_controls == old(self).camera_controls,
            final(self).rho == old(self).rho,
            final(self).sigma == old(self).sigma,
            final(self).beta == old(self).beta,
            final(self).wf(),
    {
        let options = LorenzOptions { rho: self.rho, sigma: self.sigma, beta: self.beta };
        let mut cam2 = self.camera;
        match self.camera_controls.apply_to_camera(&mut cam2, elapsed) {
            Ok(_) => {},
            Err(e) => {
                return Err(e);
            },
        }
        let mut stepped: Vec<Particle3> = Vec::new();
        let n = self.particles.len();
        let mut k: usize = 0;
        while k < n
            invariant
                stepped@.len() == k,
                k <= n,
                n == self.particles@.len(),
                self.wf(),
                0 <= elapsed <= TIME_LIMIT,
                options == self.options(),
                forall|i: int|
                    0 <= i < k ==> stepped@[i] == spec_lorenz_step(
                        #[trigger] self.particles@[i],
                        options,
                        elapsed as int,
                    ),
                forall|i: int|
                    0 <= i < k ==> (#[trigger] stepped@[i]).wf()
                        && stepped@[i].position.in_bounds(LORENZ_COORD_LIMIT as int),
            decreases n - k,
        {
            let p = self.particles[k];
            let force = lorenz_force(p.position, &options);
            proof {
                lemma_fmul_bounded(
                    force.x as int, elapsed as int, FORCE_LIMIT as int, TIME_LIMIT as int,
                );
                lemma_fmul_bounded(
                    force.y as int, elapsed as int, FORCE_LIMIT as int, TIME_LIMIT as int,
                );
                lemma_fmul_bounded(
                    force.z as int, elapsed as int, FORCE_LIMIT as int, TIME_LIMIT as int,
                );
            }
            let sx: i64 = div_trunc(crate::fixed::fx_mul(force.x, elapsed), TIME_DIVISOR);
            let sy: i64 = div_trunc(crate::fixed::fx_mul(force.y, elapsed), TIME_DIVISOR);
            let sz: i64 = div_trunc(crate::fixed::fx_mul(force.z, elapsed), TIME_DIVISOR);
            let nx: i64 = p.position.x + sx;
            let ny: i64 = p.position.y + sy;
            let nz: i64 = p.position.z + sz;
            proof {
                let sp = spec_lorenz_step(self.particles@[k as int], options, elapsed as int);
                assert(sp.position.x == nx && sp.position.y == ny && sp.position.z == nz);
            }
            if nx < -LORENZ_COORD_LIMIT || nx > LORENZ_COORD_LIMIT || ny < -LORENZ_COORD_LIMIT
                || ny > LORENZ_COORD_LIMIT || nz < -LORENZ_COORD_LIMIT || nz > LORENZ_COORD_LIMIT {
                proof {
                    assert(!spec_lorenz_step(
                        self.particles@[k as int],
                        options,
                        elapsed as int,
                    ).position.in_bounds(LORENZ_COORD_LIMIT as int));
                }
                return Err(SimError::InvalidInput);
            }
            let p2 = Particle3 { position: Vec3Fx { x: nx, y: ny, z: nz }, ..p };
            proof {
                assert(p2 == spec_lorenz_step(self.particles@[k as int], options, elapsed as int));
            }
            stepped.push(p2);
            k = k + 1;
        }
        self.particles = stepped;
        self.camera = cam2;
        Ok(())
    }
}

/// The re-orthonormalized up vector: the side axis of the view direction
/// and the rough up, crossed back with the view direction and normalized;
/// where a cross degenerates (parallel vectors), the rough up is kept.
pub open spec fn spec_orthonormal_up(view_direction: Vec3Fx, rough_up: Vec3Fx) -> Vec3Fx {
    let side_raw = view_direction.spec_cross(rough_up);
    if side_raw.is_zero() {
        rough_up
    } else {
        let up_raw = side_raw.spec_normalized().spec_cross(view_direction);
        if up_raw.is_zero() {
            rough_up
        } else {
            up_raw.spec_normalized()
        }
    }
}

/// Recomputes a usable up vector: the side axis of the view direction and
/// the rough up, crossed back with the view direction and normalized. Where
/// a cross degenerates (parallel vectors), the rough up is kept.
fn orthonormal_up(view_direction: Vec3Fx, rough_up: Vec3Fx) -> (r: Vec3Fx)
    requires
        view_direction.in_bounds(SCALE as int),
        rough_up.in_bounds(SCALE as int),
    ensures
        r == spec_orthonormal_up(view_direction, rough_up),
        r.in_bounds(crate::camera::UP_LIMIT as int),
{
    proof {
        crate::camera::lemma_cross_bounds(view_direction, rough_up, SCALE as int, SCALE as int);
    }
    let side_raw = view_direction.cross(rough_up);
    if side_raw.x == 0 && side_raw.y == 0 && side_raw.z == 0 {
        return rough_up;
    }
    let side = side_raw.normalize();
    proof {
        crate::camera::lemma_cross_bounds(side, view_direction, SCALE as int, SCALE as int);
    }
    let up_raw = side.cross(view_direction);
    if up_raw.x == 0 && up_raw.y == 0 && up_raw.z == 0 {
        return rough_up;
    }
    up_raw.normalize()
}

/// Assembles the scene camera; the concrete construction values always
/// satisfy the camera's machine ranges.
fn build_orbit_camera(
    position: Vec3Fx,
    view_direction: Vec3Fx,
    up: Vec3Fx,
    fov: i64,
    aspect_ratio: i64,
) -> (r: Camera)
    requires
        position.in_bounds(COORD_LIMIT as int),
        crate::camera::unit_norm_sq(view_direction),
        up.in_bounds(crate::camera::UP_LIMIT as int),
        crate::projection::FOV_MIN <= fov <= crate::trig::PI_FX - crate::projection::FOV_MIN,
        crate::projection::SIZE_MIN <= aspect_ratio <= crate::projection::SIZE_MAX,
    ensures
        r.wf(),
        r.position == position,
        r.view_direction == view_direction,
        r.up == up,
        r.projection == Projection::Perspective(
            PerspectiveProjection {
                fov_y_radians: fov,
                z_near: crate::projection::DEFAULT_Z_NEAR,
                z_far: crate::projection::DEFAULT_Z_FAR,
                aspect_ratio,
            },
        ),
{
    match Camera::new_perspective(position, view_direction, up, fov, aspect_ratio) {
        Ok(c) => c,
        Err(_) => {
            proof {
                assert(false);
            }
            vstd::pervasive::unreached()
        },
    }
}

} // verus!
