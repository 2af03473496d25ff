//! Camera controllers: input-to-motion policies that translate the camera
//! and always re-aim it at a fixed orbit center (a turntable camera, never
//! a free-fly camera).

use vstd::prelude::*;
use crate::SimError;
use crate::camera::{Camera, unit_norm_sq};
use crate::fixed::{COORD_LIMIT, SCALE, TIME_LIMIT, fmul_fits, iabs, lemma_fmul_bounded};
use crate::particle::lemma_norm_component_bounds;
use crate::vec2::Vec2Fx;
use crate::vec3::Vec3Fx;

verus! {

/// Bound on controller speed factors (a thousand units per second).
pub const SPEED_LIMIT: i64 = 1_000_000_000;

/// Bound on pointer-sample coordinates (ten thousand units).
pub const SCREEN_LIMIT: i64 = 10_000_000_000;

/// The largest pointer jump the smoothing keeps (two units).
pub const POINTER_CLAMP: i64 = 2_000_000;

/// The keys the controllers react to; arrow-style and letter-style keys are
/// aliases driving the same flags.
#[derive(Clone, Copy, Debug, PartialEq, Eq, Structural)]
pub enum Key {
    Left,
    Right,
    Up,
    Down,
    PageUp,
    PageDown,
    A,
    D,
    W,
    S,
    Q,
    E,
    Other,
}

/// A discrete input event delivered by the host before each tick.
#[derive(Clone, Copy, Debug, PartialEq, Eq, Structural)]
pub enum InputEvent {
    KeyPressed(Key),
    KeyReleased(Key),
    PointerSample { x: i64, y: i64 },
    Update { elapsed: i64 },
}

impl InputEvent {
    /// Events the kernel accepts: pointer samples on screen and elapsed
    /// times within the tick bound.
    pub open spec fn wf(self) -> bool {
        match self {
            InputEvent::PointerSample { x, y } => iabs(x as int) <= SCREEN_LIMIT && iabs(y as int)
                <= SCREEN_LIMIT,
            InputEvent::Update { elapsed } => 0 <= elapsed <= TIME_LIMIT,
            _ => true,
        }
    }
}

/// The world-space velocity of a local controller velocity `v`: the view
/// direction carries its `z`, the up vector its `y`, and their cross
/// product (the side axis) its `x`.
pub open spec fn spec_world_velocity(cam: Camera, v: Vec3Fx) -> Vec3Fx {
    cam.view_direction.spec_scale(v.z as int).spec_add(cam.up.spec_scale(v.y as int)).spec_add(
        cam.view_direction.spec_cross(cam.up).spec_scale(v.x as int),
    )
}

/// How one controller tick transforms the camera: the position advances by
/// the world-space velocity over the elapsed time, and the view direction
/// re-aims at the orbit center (kept unchanged only in the degenerate case
/// of landing exactly on the center). Everything else is untouched.
pub open spec fn spec_orbit_applied(
    center: Vec3Fx,
    v: Vec3Fx,
    old_cam: Camera,
    new_cam: Camera,
    elapsed: int,
) -> bool {
    let new_pos = old_cam.position.spec_add(
        spec_world_velocity(old_cam, v).spec_scale(elapsed),
    );
    &&& new_cam.position == new_pos
    &&& (new_pos != center ==> new_cam.view_direction == center.spec_sub(
        new_pos,
    ).spec_normalized())
    &&& (new_pos == center ==> new_cam.view_direction == old_cam.view_direction)
    &&& new_cam.up == old_cam.up
    &&& new_cam.projection == old_cam.projection
}

/// The orbit invariant: after any successful controller tick that does not
/// land the camera exactly on its center, the camera faces the center —
/// its view direction is the normalized offset from its position to the
/// center. Chaining ticks preserves this, since each tick re-establishes it.
pub proof fn lemma_orbit_invariant(
    center: Vec3Fx,
    v: Vec3Fx,
    old_cam: Camera,
    new_cam: Camera,
    elapsed: int,
)
    requires
        spec_orbit_applied(center, v, old_cam, new_cam, elapsed),
        new_cam.position != center,
    ensures
        new_cam.view_direction == center.spec_sub(new_cam.position).spec_normalized(),
{
}

/// Key-state controls that always re-aim the camera at the orbit center.
#[derive(Clone, Copy, Debug, PartialEq, Eq, Structural)]
pub struct CenteredCameraControls {
    pub center: Vec3Fx,
    pub speed: i64,
    pub zoom_speed: i64,
    pub left_pressed: bool,
    pub right_pressed: bool,
    pub up_pressed: bool,
    pub down_pressed: bool,
    pub zoom_in_pressed: bool,
    pub zoom_out_pressed: bool,
}

impl CenteredCameraControls {
    pub open spec fn wf(self) -> bool {
        &&& self.center.in_bounds(COORD_LIMIT as int)
        &&& iabs(self.speed as int) <= SPEED_LIMIT
        &&& iabs(self.zoom_speed as int) <= SPEED_LIMIT
    }

    pub fn new(center: Vec3Fx, speed: i64, zoom_speed: i64) -> (r: CenteredCameraControls)
        ensures
            r == (CenteredCameraControls {
                center,
                speed,
                zoom_speed,
                left_pressed: false,
                right_pressed: false,
                up_pressed: false,
                down_pressed: false,
                zoom_in_pressed: false,
                zoom_out_pressed: false,
            }),
    {
        CenteredCameraControls {
            center,
            speed,
            zoom_speed,
            left_pressed: false,
            right_pressed: false,
            up_pressed: false,
            down_pressed: false,
            zoom_in_pressed: false,
            zoom_out_pressed: false,
        }
    }

    /// The state with the flag of key `k` set to `v`; unknown keys change
    /// nothing.
    pub open spec fn spec_with_key(self, k: Key, v: bool) -> CenteredCameraControls {
        match k {
            Key::Left | Key::A => CenteredCameraControls { left_pressed: v, ..self },
            Key::Right | Key::D => CenteredCameraControls { right_pressed: v, ..self },
            Key::Up | Key::W => CenteredCameraControls { up_pressed: v, ..self },
            Key::Down | Key::S => CenteredCameraControls { down_pressed: v, ..self },
            Key::PageUp | Key::Q => CenteredCameraControls { zoom_in_pressed: v, ..self },
            Key::PageDown | Key::E => CenteredCameraControls { zoom_out_pressed: v, ..self },
            Key::Other => self,
        }
    }

    /// The state after one input event: presses set flags, releases clear
    /// them, and pointer or timing events are ignored.
    pub open spec fn spec_event(self, e: InputEvent) -> CenteredCameraControls {
        match e {
            InputEvent::KeyPressed(k) => self.spec_with_key(k, true),
            InputEvent::KeyReleased(k) => self.spec_with_key(k, false),
            _ => self,
        }
    }

    /// The raw lateral direction composed from the four planar flags.
    pub open spec fn spec_lateral_direction(self) -> Vec3Fx {
        let x = (if self.right_pressed { SCALE as int } else { 0 }) - (if self.left_pressed {
            SCALE as int
        } else {
            0
        });
        let y = (if self.up_pressed { SCALE as int } else { 0 }) - (if self.down_pressed {
            SCALE as int
        } else {
            0
        });
        Vec3Fx { x: x as i64, y: y as i64, z: 0 }
    }

    /// The raw zoom direction composed from the two zoom flags.
    pub open spec fn spec_zoom_direction(self) -> Vec3Fx {
        let z = (if self.zoom_in_pressed { SCALE as int } else { 0 }) - (if self.zoom_out_pressed {
            SCALE as int
        } else {
            0
        });
        Vec3Fx { x: 0, y: 0, z: z as i64 }
    }

    /// The local velocity of one tick: each direction normalized when
    /// nonzero, scaled by its speed factor, then summed.
    pub open spec fn spec_local_velocity(self) -> Vec3Fx {
        let lat = self.spec_lateral_direction();
        let lat_unit = if lat.is_zero() {
            lat
        } else {
            lat.spec_normalized()
        };
        let zoom = self.spec_zoom_direction();
        let zoom_unit = if zoom.is_zero() {
            zoom
        } else {
            zoom.spec_normalized()
        };
        lat_unit.spec_scale(self.speed as int).spec_add(zoom_unit.spec_scale(self.zoom_speed as int))
    }

    /// Updates the press flags from one input event.
    pub fn event(&mut self, event: InputEvent)
        ensures
            *final(self) == old(self).spec_event(event),
    {
        match event {
            InputEvent::KeyPressed(k) => match k {
                Key::Left | Key::A => self.left_pressed = true,
                Key::Right | Key::D => self.right_pressed = true,
                Key::Up | Key::W => self.up_pressed = true,
                Key::Down | Key::S => self.down_pressed = true,
                Key::PageUp | Key::Q => self.zoom_in_pressed = true,
                Key::PageDown | Key::E => self.zoom_out_pressed = true,
                Key::Other => {},
            },
            InputEvent::KeyReleased(k) => match k {
                Key::Left | Key::A => self.left_pressed = false,
                Key::Right | Key::D => self.right_pressed = false,
                Key::Up | Key::W => self.up_pressed = false,
                Key::Down | Key::S => self.down_pressed = false,
                Key::PageUp | Key::Q => self.zoom_in_pressed = false,
                Key::PageDown | Key::E => self.zoom_out_pressed = false,
                Key::Other => {},
            },
            _ => {},
        }
    }

    /// Composes the tick's local velocity from the press flags.
    #[verifier::rlimit(100)]
    fn local_velocity(&self) -> (v: Vec3Fx)
        requires
            self.wf(),
        ensures
            v == self.spec_local_velocity(),
            v.in_bounds(2 * SPEED_LIMIT as int),
    {
        let mut direction = Vec3Fx { x: 0, y: 0, z: 0 };
        if self.left_pressed {
            direction = Vec3Fx { x: direction.x - SCALE, ..direction };
        }
        if self.right_pressed {
            direction = Vec3Fx { x: direction.x + SCALE, ..direction };
        }
        if self.up_pressed {
            direction = Vec3Fx { y: direction.y + SCALE, ..direction };
        }
        if self.down_pressed {
            direction = Vec3Fx { y: direction.y - SCALE, ..direction };
        }
        proof {
            assert(direction == self.spec_lateral_direction());
        }
        if !(direction.x == 0 && direction.y == 0 && direction.z == 0) {
            direction = direction.normalize();
        }
        proof {
            lemma_fmul_bounded(direction.x as int, self.speed as int, SCALE as int, SPEED_LIMIT as int);
            lemma_fmul_bounded(direction.y as int, self.speed as int, SCALE as int, SPEED_LIMIT as int);
            lemma_fmul_bounded(direction.z as int, self.speed as int, SCALE as int, SPEED_LIMIT as int);
        }
        let direction = direction.scale(self.speed);

        let mut zoom_direction = Vec3Fx { x: 0, y: 0, z: 0 };
        if self.zoom_in_pressed {
            zoom_direction = Vec3Fx { z: zoom_direction.z + SCALE, ..zoom_direction };
        }
        if self.zoom_out_pressed {
            zoom_direction = Vec3Fx { z: zoom_direction.z - SCALE, ..zoom_direction };
        }
        proof {
            assert(zoom_direction == self.spec_zoom_direction());
        }
        if !(zoom_direction.x == 0 && zoom_direction.y == 0 && zoom_direction.z == 0) {
            zoom_direction = zoom_direction.normalize();
        }
        proof {
            lemma_fmul_bounded(
                zoom_direction.x as int, self.zoom_speed as int, SCALE as int, SPEED_LIMIT as int,
            );
            lemma_fmul_bounded(
                zoom_direction.y as int, self.zoom_speed as int, SCALE as int, SPEED_LIMIT as int,
            );
            lemma_fmul_bounded(
                zoom_direction.z as int, self.zoom_speed as int, SCALE as int, SPEED_LIMIT as int,
            );
        }
        let zoom_direction = zoom_direction.scale(self.zoom_speed);

        direction.add(zoom_direction)
    }

    /// Advances the camera by the flag-derived velocity over the elapsed
    /// time and re-aims it at the orbit center. Fails (camera unchanged)
    /// only when the step would leave the machine's coordinate range.
    pub fn apply_to_camera(&self, camera: &mut Camera, elapsed: i64) -> (r: Result<(), SimError>)
        requires
            self.wf(),
            old(camera).wf(),
            0 <= elapsed <= TIME_LIMIT,
        ensures
            ({
                let new_pos = old(camera).position.spec_add(
                    spec_world_velocity(*old(camera), self.spec_local_velocity()).spec_scale(
                        elapsed as int,
                    ),
                );
                &&& (r is Ok <==> new_pos.in_bounds(COORD_LIMIT as int))
                &&& (r is Ok ==> spec_orbit_applied(
                    self.center,
                    self.spec_local_velocity(),
                    *old(camera),
                    *final(camera),
                    elapsed as int,
                ))
                &&& (r is Err ==> *final(camera) == *old(camera) && r == Result::<
                    (),
                    SimError,
                >::Err(SimError::InvalidInput))
                &&& final(camera).wf()
            }),
    {
        let velocity = self.local_velocity();
        let world_velocity = world_velocity_of(camera, velocity);
        proof {
            lemma_fmul_bounded(
                world_velocity.x as int, elapsed as int, 700_000_000_000_000_000, TIME_LIMIT as int,
            );
            lemma_fmul_bounded(
                world_velocity.y as int, elapsed as int, 700_000_000_000_000_000, TIME_LIMIT as int,
            );
            lemma_fmul_bounded(
                world_velocity.z as int, elapsed as int, 700_000_000_000_000_000, TIME_LIMIT as int,
            );
        }
        let delta = world_velocity.scale(elapsed);
        translate_and_reaim(camera, delta, self.center)
    }
}

/// Pointer-driven controls that always re-aim the camera at the orbit
/// center; the pointer is smoothed toward its previous position, and any
/// single jump is clamped to [`POINTER_CLAMP`].
#[derive(Clone, Copy, Debug, PartialEq, Eq, Structural)]
pub struct MouseBasedCenteredCameraControls {
    pub center: Vec3Fx,
    pub speed: i64,
    pub mouse_position: Vec2Fx,
    pub mouse_position_prev: Vec2Fx,
}

impl MouseBasedCenteredCameraControls {
    pub open spec fn wf(self) -> bool {
        &&& self.center.in_bounds(COORD_LIMIT as int)
        &&& iabs(self.speed as int) <= SPEED_LIMIT
        &&& self.mouse_position.in_bounds(SCREEN_LIMIT as int)
        &&& self.mouse_position_prev.in_bounds(SCREEN_LIMIT + 2 * POINTER_CLAMP)
    }

    pub fn new(center: Vec3Fx, speed: i64) -> (r: MouseBasedCenteredCameraControls)
        ensures
            r == (MouseBasedCenteredCameraControls {
                center,
                speed,
                mouse_position: Vec2Fx { x: 0, y: 0 },
                mouse_position_prev: Vec2Fx { x: 0, y: 0 },
            }),
    {
        MouseBasedCenteredCameraControls {
            center,
            speed,
            mouse_position: Vec2Fx { x: 0, y: 0 },
            mouse_position_prev: Vec2Fx { x: 0, y: 0 },
        }
    }

    /// The smoothed previous pointer position after a tick of `dt`: it
    /// drifts toward the current sample, and its distance from the sample
    /// is clamped to [`POINTER_CLAMP`].
    pub open spec fn spec_smoothed_prev(self, dt: int) -> Vec2Fx {
        let drifted = self.mouse_position_prev.spec_add(
            self.mouse_position.spec_sub(self.mouse_position_prev).spec_scale(dt),
        );
        drifted.spec_sub(self.mouse_position).spec_clamp(POINTER_CLAMP as int).spec_add(
            self.mouse_position,
        )
    }

    /// The state after one input event: pointer samples replace the current
    /// position, update ticks advance the smoothing, keys are ignored.
    pub open spec fn spec_event(self, e: InputEvent) -> MouseBasedCenteredCameraControls {
        match e {
            InputEvent::PointerSample { x, y } => MouseBasedCenteredCameraControls {
                mouse_position: Vec2Fx { x, y },
                ..self
            },
            InputEvent::Update { elapsed } => MouseBasedCenteredCameraControls {
                mouse_position_prev: self.spec_smoothed_prev(elapsed as int),
                ..self
            },
            _ => self,
        }
    }

    /// The local velocity of one tick: the smoothed pointer delta, scaled.
    pub open spec fn spec_local_velocity(self) -> Vec3Fx {
        let delta = self.mouse_position.spec_sub(self.mouse_position_prev);
        Vec3Fx { x: delta.x, y: delta.y, z: 0 }.spec_scale(self.speed as int)
    }

    /// Updates the pointer state from one input event.
    pub fn event(&mut self, event: InputEvent)
        requires
            old(self).wf(),
            event.wf(),
        ensures
            *final(self) == old(self).spec_event(event),
            final(self).wf(),
    {
        match event {
            InputEvent::PointerSample { x, y } => {
                self.mouse_position = Vec2Fx { x, y };
            },
            InputEvent::Update { elapsed } => {
                proof {
                    lemma_fmul_bounded(
                        self.mouse_position.x - self.mouse_position_prev.x, elapsed as int,
                        SCREEN_LIMIT + SCREEN_LIMIT + 2 * POINTER_CLAMP, TIME_LIMIT as int,
                    );
                    lemma_fmul_bounded(
                        self.mouse_position.y - self.mouse_position_prev.y, elapsed as int,
                        SCREEN_LIMIT + SCREEN_LIMIT + 2 * POINTER_CLAMP, TIME_LIMIT as int,
                    );
                }
                let drifted = self.mouse_position_prev.add(
                    self.mouse_position.sub(self.mouse_position_prev).scale(elapsed),
                );
                let clamped = drifted.sub(self.mouse_position).clamp_length_max(POINTER_CLAMP);
                proof {
                    lemma_clamped_components(
                        drifted.spec_sub(self.mouse_position), POINTER_CLAMP as int, clamped,
                    );
                }
                self.mouse_position_prev = clamped.add(self.mouse_position);
            },
            _ => {},
        }
    }

    /// Advances the camera by the pointer-delta velocity over the elapsed
    /// time and re-aims it at the orbit center. Fails (camera unchanged)
    /// only when the step would leave the machine's coordinate range.
    pub fn apply_to_camera(&self, camera: &mut Camera, elapsed: i64) -> (r: Result<(), SimError>)
        requires
            self.wf(),
            old(camera).wf(),
            0 <= elapsed <= TIME_LIMIT,
        ensures
            ({
                let new_pos = old(camera).position.spec_add(
                    spec_world_velocity(*old(camera), self.spec_local_velocity()).spec_scale(
                        elapsed as int,
                    ),
                );
                &&& (r is Ok <==> new_pos.in_bounds(COORD_LIMIT as int))
                &&& (r is Ok ==> spec_orbit_applied(
                    self.center,
                    self.spec_local_velocity(),
                    *old(camera),
                    *final(camera),
                    elapsed as int,
                ))
                &&& (r is Err ==> *final(camera) == *old(camera) && r == Result::<
                    (),
                    SimError,
                >::Err(SimError::InvalidInput))
                &&& final(camera).wf()
            }),
    {
        let delta2 = self.mouse_position.sub(self.mouse_position_prev);
        proof {
            lemma_fmul_bounded(
                delta2.x as int, self.speed as int, 2 * SCREEN_LIMIT + 2 * POINTER_CLAMP,
                SPEED_LIMIT as int,
            );
            lemma_fmul_bounded(
                delta2.y as int, self.speed as int, 2 * SCREEN_LIMIT + 2 * POINTER_CLAMP,
                SPEED_LIMIT as int,
            );
        }
        let velocity = Vec3Fx { x: delta2.x, y: delta2.y, z: 0 }.scale(self.speed);
        proof {
            assert(velocity == self.spec_local_velocity());
        }
        let world_velocity = world_velocity_of(camera, velocity);
        proof {
            lemma_fmul_bounded(
                world_velocity.x as int, elapsed as int, 700_000_000_000_000_000, TIME_LIMIT as int,
            );
            lemma_fmul_bounded(
                world_velocity.y as int, elapsed as int, 700_000_000_000_000_000, TIME_LIMIT as int,
            );
            lemma_fmul_bounded(
                world_velocity.z as int, elapsed as int, 700_000_000_000_000_000, TIME_LIMIT as int,
            );
        }
        let delta = world_velocity.scale(elapsed);
        translate_and_reaim(camera, delta, self.center)
    }
}

/// The two controller policies as a closed pair of variants, dispatched by
/// a single match.
#[derive(Clone, Copy, Debug, PartialEq, Eq, Structural)]
pub enum CameraControls {
    Centered(CenteredCameraControls),
    MouseBased(MouseBasedCenteredCameraControls),
}

impl CameraControls {
    pub open spec fn wf(self) -> bool {
        match self {
            CameraControls::Centered(c) => c.wf(),
            CameraControls::MouseBased(c) => c.wf(),
        }
    }

    pub open spec fn spec_center(self) -> Vec3Fx {
        match self {
            CameraControls::Centered(c) => c.center,
            CameraControls::MouseBased(c) => c.center,
        }
    }

    pub open spec fn spec_event(self, e: InputEvent) -> CameraControls {
        match self {
            CameraControls::Centered(c) => CameraControls::Centered(c.spec_event(e)),
            CameraControls::MouseBased(c) => CameraControls::MouseBased(c.spec_event(e)),
        }
    }

    pub open spec fn spec_local_velocity(self) -> Vec3Fx {
        match self {
            CameraControls::Centered(c) => c.spec_local_velocity(),
            CameraControls::MouseBased(c) => c.spec_local_velocity(),
        }
    }

    /// Updates the controller state from one input event.
    pub fn event(&mut self, event: InputEvent)
        requires
            old(self).wf(),
            event.wf(),
        ensures
            *final(self) == old(self).spec_event(event),
            final(self).wf(),
    {
        match self {
            CameraControls::Centered(c) => c.event(event),
            CameraControls::MouseBased(c) => c.event(event),
        }
    }

    /// Advances the camera with the active policy and re-aims it at the
    /// orbit center.
    pub fn apply_to_camera(&self, camera: &mut Camera, elapsed: i64) -> (r: Result<(), SimError>)
        requires
            self.wf(),
            old(camera).wf(),
            0 <= elapsed <= TIME_LIMIT,
        ensures
            ({
                let new_pos = old(camera).position.spec_add(
                    spec_world_velocity(*old(camera), self.spec_local_velocity()).spec_scale(
                        elapsed as int,
                    ),
                );
                &&& (r is Ok <==> new_pos.in_bounds(COORD_LIMIT as int))
                &&& (r is Ok ==> spec_orbit_applied(
                    self.spec_center(),
                    self.spec_local_velocity(),
                    *old(camera),
                    *final(camera),
                    elapsed as int,
                ))
                &&& (r is Err ==> *final(camera) == *old(camera) && r == Result::<
                    (),
                    SimError,
                >::Err(SimError::InvalidInput))
                &&& final(camera).wf()
            }),
    {
        match self {
            CameraControls::Centered(c) => c.apply_to_camera(camera, elapsed),
            CameraControls::MouseBased(c) => c.apply_to_camera(camera, elapsed),
        }
    }
}

/// A clamped vector has components within the clamp.
proof fn lemma_clamped_components(v: Vec2Fx, m: int, c: Vec2Fx)
    requires
        v.is_clamped(m, c),
        1 <= m,
        c.norm_sq() <= m * m,
    ensures
        c.in_bounds(m),
{
    lemma_norm_component_bounds(c.x as int, c.y as int, 0, m);
}

/// Computes the world-space velocity of a local controller velocity.
fn world_velocity_of(camera: &Camera, v: Vec3Fx) -> (r: Vec3Fx)
    requires
        camera.wf(),
        v.in_bounds(30_000_000_000_000i64 as int),
    ensures
        r == spec_world_velocity(*camera, v),
        r.in_bounds(700_000_000_000_000_000i64 as int),
{
    proof {
        lemma_norm_component_bounds(
            camera.view_direction.x as int, camera.view_direction.y as int,
            camera.view_direction.z as int, SCALE as int,
        );
        lemma_fmul_bounded(
            camera.view_direction.x as int, v.z as int, SCALE as int, 30_000_000_000_000i64 as int,
        );
        lemma_fmul_bounded(
            camera.view_direction.y as int, v.z as int, SCALE as int, 30_000_000_000_000i64 as int,
        );
        lemma_fmul_bounded(
            camera.view_direction.z as int, v.z as int, SCALE as int, 30_000_000_000_000i64 as int,
        );
        lemma_fmul_bounded(
            camera.up.x as int, v.y as int, crate::camera::UP_LIMIT as int,
            30_000_000_000_000i64 as int,
        );
        lemma_fmul_bounded(
            camera.up.y as int, v.y as int, crate::camera::UP_LIMIT as int,
            30_000_000_000_000i64 as int,
        );
        lemma_fmul_bounded(
            camera.up.z as int, v.y as int, crate::camera::UP_LIMIT as int,
            30_000_000_000_000i64 as int,
        );
        lemma_cross_fits(camera.view_direction, camera.up);
    }
    let side = camera.view_direction.cross(camera.up);
    proof {
        lemma_fmul_bounded(side.x as int, v.x as int, 20_000_000, 30_000_000_000_000i64 as int);
        lemma_fmul_bounded(side.y as int, v.x as int, 20_000_000, 30_000_000_000_000i64 as int);
        lemma_fmul_bounded(side.z as int, v.x as int, 20_000_000, 30_000_000_000_000i64 as int);
    }
    camera.view_direction.scale(v.z).add(camera.up.scale(v.y)).add(side.scale(v.x))
}

/// Bounds for the cross product of a unit view direction with the up vector.
proof fn lemma_cross_fits(f: Vec3Fx, up: Vec3Fx)
    requires
        f.in_bounds(SCALE as int),
        up.in_bounds(crate::camera::UP_LIMIT as int),
    ensures
        fmul_fits(f.y as int, up.z as int),
        fmul_fits(f.z as int, up.y as int),
        fmul_fits(f.z as int, up.x as int),
        fmul_fits(f.x as int, up.z as int),
        fmul_fits(f.x as int, up.y as int),
        fmul_fits(f.y as int, up.x as int),
        iabs(crate::fixed::fmul(f.y as int, up.z as int) - crate::fixed::fmul(
            f.z as int, up.y as int,
        )) <= i64::MAX,
        iabs(crate::fixed::fmul(f.z as int, up.x as int) - crate::fixed::fmul(
            f.x as int, up.z as int,
        )) <= i64::MAX,
        iabs(crate::fixed::fmul(f.x as int, up.y as int) - crate::fixed::fmul(
            f.y as int, up.x as int,
        )) <= i64::MAX,
        f.spec_cross(up).in_bounds(20_000_000),
{
    lemma_fmul_bounded(f.y as int, up.z as int, SCALE as int, crate::camera::UP_LIMIT as int);
    lemma_fmul_bounded(f.z as int, up.y as int, SCALE as int, crate::camera::UP_LIMIT as int);
    lemma_fmul_bounded(f.z as int, up.x as int, SCALE as int, crate::camera::UP_LIMIT as int);
    lemma_fmul_bounded(f.x as int, up.z as int, SCALE as int, crate::camera::UP_LIMIT as int);
    lemma_fmul_bounded(f.x as int, up.y as int, SCALE as int, crate::camera::UP_LIMIT as int);
    lemma_fmul_bounded(f.y as int, up.x as int, SCALE as int, crate::camera::UP_LIMIT as int);
}

/// Translates the camera by `delta` and re-aims it at `center`; when the
/// camera lands exactly on the center the previous view direction is kept
/// (the aim would be undefined), as the orbit-center contract allows.
fn translate_and_reaim(camera: &mut Camera, delta: Vec3Fx, center: Vec3Fx) -> (r: Result<
    (),
    SimError,
>)
    requires
        old(camera).wf(),
        delta.in_bounds(9_000_000_000_000_000_000i64 as int),
        center.in_bounds(COORD_LIMIT as int),
    ensures
        ({
            let new_pos = old(camera).position.spec_add(delta);
            &&& (r is Ok <==> new_pos.in_bounds(COORD_LIMIT as int))
            &&& (r is Ok ==> final(camera).position == new_pos)
            &&& (r is Ok && new_pos != center ==> final(camera).view_direction == center.spec_sub(
                new_pos,
            ).spec_normalized())
            &&& (r is Ok && new_pos == center ==> final(camera).view_direction == old(
                camera,
            ).view_direction)
            &&& (r is Err ==> *final(camera) == *old(camera) && r == Result::<(), SimError>::Err(
                SimError::InvalidInput,
            ))
            &&& final(camera).up == old(camera).up
            &&& final(camera).projection == old(camera).projection
            &&& final(camera).wf()
        }),
{
    let px: i64 = camera.position.x;
    let py: i64 = camera.position.y;
    let pz: i64 = camera.position.z;
    let nx: i64 = px + delta.x;
    let ny: i64 = py + delta.y;
    let nz: i64 = pz + delta.z;
    if nx < -COORD_LIMIT || nx > COORD_LIMIT || ny < -COORD_LIMIT || ny > COORD_LIMIT || nz
        < -COORD_LIMIT || nz > COORD_LIMIT {
        return Err(SimError::InvalidInput);
    }
    camera.position = Vec3Fx { x: nx, y: ny, z: nz };
    proof {
        assert(camera.position == old(camera).position.spec_add(delta));
    }
    match camera.look_at(center) {
        Ok(_) => Ok(()),
        Err(_) => Ok(()),
    }
}

} // verus!
