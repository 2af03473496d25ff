//! The noise-driven planar flow field: each particle is pushed along a
//! direction derived from a noise sample at its (normalized) position.
//!
//! The noise function itself lives with the host; the kernel computes the
//! sample coordinates, turns each sampled value into a force vector, and
//! integrates the particles — all of it verified for every sample value.

use vstd::prelude::*;
use crate::SimError;
use crate::fixed::{COORD_LIMIT, SCALE, TIME_LIMIT, fmul, iabs, lemma_fmul_bounded};
use crate::particle::{ColorFx, Particle2, RectFx, scale_coords, spec_scale_coords};
use crate::rng::{random_in_range, random_seed};
use crate::trig::{TAU_FX, fx_cos, fx_sin, spec_cos, spec_sin};
use crate::vec2::Vec2Fx;

verus! {

/// The magnitude of the particle-driving force (22 units).
pub const MOVE_LENGTH: i64 = 22_000_000;

/// The scale applied to a force when drawn as a preview vector (10 units);
/// distinct from the driving magnitude on purpose.
pub const VECTOR_PREVIEW_SCALE: i64 = 10_000_000;

/// The default factor between normalized coordinates and noise coordinates.
pub const DEFAULT_NOISE_SCALE: i64 = 4_000_000;

/// Largest noise-sample magnitude the field accepts (noise functions stay
/// within one; a hundred leaves generous slack).
pub const NOISE_VALUE_LIMIT: i64 = 100_000_000;

/// How many particles the scene seeds.
pub const PARTICLE_COUNT: usize = 1000;

/// Flow-field configuration delivered by the host.
#[derive(Clone, Copy, Debug, PartialEq, Eq, Structural)]
pub struct PerlinFlowOptions {
    pub show_vectors: bool,
    pub hide_dots: bool,
    pub seed: Option<u32>,
}

/// The force a noise sample induces: the sample scaled to a full-turn
/// angle, taken as a unit direction, scaled by [`MOVE_LENGTH`].
pub open spec fn spec_force_vector(noise_value: int) -> Vec2Fx {
    let angle = fmul(noise_value, TAU_FX as int);
    Vec2Fx {
        x: fmul(spec_cos(angle), MOVE_LENGTH as int) as i64,
        y: fmul(spec_sin(angle), MOVE_LENGTH as int) as i64,
    }
}

/// Turns one noise sample into a force vector, exactly as the
/// specification field states; same sample, same force, on every call.
pub fn force_vector(noise_value: i64) -> (r: Vec2Fx)
    requires
        iabs(noise_value as int) <= NOISE_VALUE_LIMIT,
    ensures
        r == spec_force_vector(noise_value as int),
        r.in_bounds(MOVE_LENGTH as int),
{
    proof {
        lemma_fmul_bounded(noise_value as int, TAU_FX as int, NOISE_VALUE_LIMIT as int, TAU_FX as int);
    }
    let angle: i64 = crate::fixed::fx_mul(noise_value, TAU_FX);
    let c: i64 = fx_cos(angle);
    let s: i64 = fx_sin(angle);
    proof {
        lemma_fmul_bounded(c as int, MOVE_LENGTH as int, SCALE as int, MOVE_LENGTH as int);
        lemma_fmul_bounded(s as int, MOVE_LENGTH as int, SCALE as int, MOVE_LENGTH as int);
    }
    Vec2Fx {
        x: crate::fixed::fx_mul(c, MOVE_LENGTH),
        y: crate::fixed::fx_mul(s, MOVE_LENGTH),
    }
}

/// The flow field is deterministic: equal noise samples give equal force
/// vectors, across repeated calls and across runs.
pub proof fn lemma_force_vector_pure(n1: int, n2: int)
    requires
        n1 == n2,
    ensures
        spec_force_vector(n1) == spec_force_vector(n2),
{
}

/// One tick of a flow particle: the sampled force updates the velocity
/// (capped), and the new velocity moves the particle.
pub open spec fn spec_flow_step(p: Particle2, noise_value: int, dt: int) -> Particle2 {
    let f = spec_force_vector(noise_value);
    let v = p.spec_processed_velocity(f, dt);
    Particle2 { velocity: v, position: p.position.spec_add(v.spec_scale(dt)), ..p }
}

/// The lower edge of the spawn box along one axis: a third of the
/// viewport's edge coordinate.
pub open spec fn spec_spawn_low(edge: int) -> int {
    crate::fixed::sdiv(edge, 3)
}

/// The upper edge of the spawn box along one axis: a third of the opposite
/// viewport edge, pushed one past the lower edge if the window is too
/// narrow to leave a gap.
pub open spec fn spec_spawn_high(edge: int, extent: int) -> int {
    let h = crate::fixed::sdiv(edge + extent, 3);
    if h > spec_spawn_low(edge) {
        h
    } else {
        spec_spawn_low(edge) + 1
    }
}

/// What holds of every freshly seeded flow particle, whatever the random
/// draws: at rest, unit radius, the scene's color, placed inside the
/// middle-third spawn box of the viewport.
pub open spec fn spec_spawned(win: RectFx, p: Particle2) -> bool {
    &&& p.velocity == (Vec2Fx { x: 0, y: 0 })
    &&& p.radius == SCALE
    &&& p.color == (ColorFx { red: SCALE, green: SCALE, blue: SCALE, alpha: 300 })
    &&& spec_spawn_low(win.left as int) <= p.position.x < spec_spawn_high(
        win.left as int,
        win.width as int,
    )
    &&& spec_spawn_low(win.bottom as int) <= p.position.y < spec_spawn_high(
        win.bottom as int,
        win.height as int,
    )
}

/// The flow-field scene: the seed and coordinate scale of its noise field,
/// and the particles it drives.
pub struct Model {
    pub seed: u32,
    pub noise_scale: i64,
    pub particles: Vec<Particle2>,
}

impl Model {
    pub open spec fn wf(self) -> bool {
        &&& 0 <= self.noise_scale <= 1_000_000_000
        &&& forall|i: int| 0 <= i < self.particles@.len() ==> (#[trigger] self.particles@[i]).wf()
    }

    /// Builds the scene: the given seed (or a random one) and the default
    /// noise scale. Whatever the random draws, every particle starts at
    /// rest with unit radius inside the middle-third spawn box of the
    /// viewport.
    pub fn new(win: RectFx, options: &PerlinFlowOptions) -> (r: Model)
        requires
            win.wf(),
        ensures
            r.wf(),
            r.particles@.len() == PARTICLE_COUNT,
            forall|i: int|
                0 <= i < r.particles@.len() ==> spec_spawned(win, #[trigger] r.particles@[i]),
            r.noise_scale == DEFAULT_NOISE_SCALE,
            options.seed matches Some(s) ==> r.seed == s,
    {
        let seed: u32 = match options.seed {
            Some(s) => s,
            None => random_seed(),
        };
        proof {
            crate::fixed::lemma_sdiv_signs(win.left as int, 3);
            crate::fixed::lemma_sdiv_signs(win.left + win.width, 3);
            crate::fixed::lemma_sdiv_signs(win.bottom as int, 3);
            crate::fixed::lemma_sdiv_signs(win.bottom + win.height, 3);
            vstd::arithmetic::div_mod::lemma_div_is_ordered(
                iabs(win.left as int), COORD_LIMIT as int, 3,
            );
            vstd::arithmetic::div_mod::lemma_div_is_ordered(
                iabs(win.left + win.width), 2 * COORD_LIMIT, 3,
            );
            vstd::arithmetic::div_mod::lemma_div_is_ordered(
                iabs(win.bottom as int), COORD_LIMIT as int, 3,
            );
            vstd::arithmetic::div_mod::lemma_div_is_ordered(
                iabs(win.bottom + win.height), 2 * COORD_LIMIT, 3,
            );
        }
        let lo_x: i64 = crate::fixed::div_trunc(win.left, 3);
        let hi_x0: i64 = crate::fixed::div_trunc(win.left + win.width, 3);
        let hi_x: i64 = if hi_x0 > lo_x {
            hi_x0
        } else {
            lo_x + 1
        };
        let lo_y: i64 = crate::fixed::div_trunc(win.bottom, 3);
        let hi_y0: i64 = crate::fixed::div_trunc(win.bottom + win.height, 3);
        let hi_y: i64 = if hi_y0 > lo_y {
            hi_y0
        } else {
            lo_y + 1
        };
        let color = ColorFx { red: SCALE, green: SCALE, blue: SCALE, alpha: 300 };
        let mut particles: Vec<Particle2> = Vec::new();
        let mut k: usize = 0;
        while k < PARTICLE_COUNT
            invariant
                particles@.len() == k,
                k <= PARTICLE_COUNT,
                lo_x < hi_x,
                lo_y < hi_y,
                lo_x == spec_spawn_low(win.left as int),
                hi_x == spec_spawn_high(win.left as int, win.width as int),
                lo_y == spec_spawn_low(win.bottom as int),
                hi_y == spec_spawn_high(win.bottom as int, win.height as int),
                iabs(lo_x as int) <= COORD_LIMIT,
                iabs(hi_x as int) <= COORD_LIMIT,
                iabs(lo_y as int) <= COORD_LIMIT,
                iabs(hi_y as int) <= COORD_LIMIT,
                color == (ColorFx { red: SCALE, green: SCALE, blue: SCALE, alpha: 300 }),
                forall|i: int| 0 <= i < particles@.len() ==> (#[trigger] particles@[i]).wf(),
                forall|i: int|
                    0 <= i < particles@.len() ==> spec_spawned(win, #[trigger] particles@[i]),
            decreases PARTICLE_COUNT - k,
        {
            let x: i64 = random_in_range(lo_x, hi_x);
            let y: i64 = random_in_range(lo_y, hi_y);
            let p = Particle2::new(Vec2Fx { x, y }, color);
            proof {
                assert(spec_spawned(win, p));
            }
            particles.push(p);
            k = k + 1;
        }
        Model { seed, noise_scale: DEFAULT_NOISE_SCALE, particles }
    }

    /// Where the host should sample its noise function for a particle at
    /// `position`: the viewport-normalized coordinates times the noise
    /// scale.
    pub fn sample_point(&self, win: RectFx, position: Vec2Fx) -> (r: Vec2Fx)
        requires
            self.wf(),
            win.wf(),
            position.in_bounds(COORD_LIMIT as int),
        ensures
            r == spec_scale_coords(win, position).spec_scale(self.noise_scale as int),
    {
        let scaled = scale_coords(win, position);
        proof {
            lemma_fmul_bounded(
                scaled.x as int, self.noise_scale as int, 2 * COORD_LIMIT, 1_000_000_000,
            );
            lemma_fmul_bounded(
                scaled.y as int, self.noise_scale as int, 2 * COORD_LIMIT, 1_000_000_000,
            );
        }
        scaled.scale(self.noise_scale)
    }

    /// One tick: particle `i` is integrated under the force of
    /// `noise_values[i]` (the host's noise sampled at that particle's
    /// sample point). Succeeds exactly when every stepped particle stays
    /// within the machine's coordinate range; otherwise it fails with
    /// invalid input and the scene is unchanged.
    pub fn update(&mut self, noise_values: &Vec<i64>, elapsed: i64) -> (r: Result<(), SimError>)
        requires
            old(self).wf(),
            noise_values@.len() == old(self).particles@.len(),
            forall|i: int|
                0 <= i < noise_values@.len() ==> iabs(#[trigger] noise_values@[i] as int)
                    <= NOISE_VALUE_LIMIT,
            0 <= elapsed <= TIME_LIMIT,
        ensures
            r is Ok <==> (forall|i: int|
                0 <= i < old(self).particles@.len() ==> spec_flow_step(
                    #[trigger] old(self).particles@[i],
                    noise_values@[i] as int,
                    elapsed as int,
                ).position.in_bounds(COORD_LIMIT as int)),
            r is Ok ==> final(self).particles@.len() == old(self).particles@.len()
                && (forall|i: int|
                0 <= i < old(self).particles@.len() ==> final(self).particles@[i]
                    == spec_flow_step(
                    #[trigger] old(self).particles@[i],
                    noise_values@[i] as int,
                    elapsed as int,
                )),
            r is Err ==> *final(self) == *old(self) && r == Result::<(), SimError>::Err(
                SimError::InvalidInput,
            ),
            final(self).seed == old(self).seed,
            final(self).noise_scale == old(self).noise_scale,
            final(self).wf(),
    {
        let mut stepped: Vec<Particle2> = Vec::new();
        let n = self.particles.len();
        let mut k: usize = 0;
        while k < n
            invariant
                stepped@.len() == k,
                k <= n,
                n == self.particles@.len(),
                n == noise_values@.len(),
                self.wf(),
                0 <= elapsed <= TIME_LIMIT,
                forall|i: int|
                    0 <= i < noise_values@.len() ==> iabs(#[trigger] noise_values@[i] as int)
                        <= NOISE_VALUE_LIMIT,
                forall|i: int|
                    0 <= i < k ==> stepped@[i] == spec_flow_step(
                        #[trigger] self.particles@[i],
                        noise_values@[i] as int,
                        elapsed as int,
                    ),
                forall|i: int| 0 <= i < k ==> (#[trigger] stepped@[i]).wf(),
            decreases n - k,
        {
            let mut p = self.particles[k];
            let force = force_vector(noise_values[k]);
            proof {
                assert(force.in_bounds(crate::fixed::FORCE_LIMIT as int));
            }
            p.update(force, elapsed);
            proof {
                assert(p == spec_flow_step(
                    self.particles@[k as int],
                    noise_values@[k as int] as int,
                    elapsed as int,
                ));
            }
            if p.position.x < -COORD_LIMIT || p.position.x > COORD_LIMIT || p.position.y
                < -COORD_LIMIT || p.position.y > COORD_LIMIT {
                proof {
                    assert(!spec_flow_step(
                        self.particles@[k as int],
                        noise_values@[k as int] as int,
                        elapsed as int,
                    ).position.in_bounds(COORD_LIMIT as int));
                }
                return Err(SimError::InvalidInput);
            }
            stepped.push(p);
            k = k + 1;
        }
        self.particles = stepped;
        Ok(())
    }
}

} // verus!
