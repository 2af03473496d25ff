//! The static point-cloud scene: the eight corners of a cube watched by a
//! pointer-controlled orbiting perspective camera.

use vstd::prelude::*;
use crate::SimError;
use crate::camera::Camera;
use crate::controls::{
    CameraControls, InputEvent, MouseBasedCenteredCameraControls, spec_orbit_applied,
};
use crate::fixed::{SCALE, TIME_LIMIT};
use crate::particle::{ColorFx, Particle3};
use crate::vec2::Vec2Fx;
use crate::vec3::Vec3Fx;

verus! {

/// The camera's vertical field of view: a quarter turn (pi / 4).
pub const CUBE_FOV: i64 = 785_398;

/// The scene's eight cube corners at one unit from the origin.
pub open spec fn spec_cube_corner(i: int) -> Vec3Fx {
    Vec3Fx {
        x: if i % 8 >= 4 { (-SCALE) as i64 } else { SCALE },
        y: if i % 4 >= 2 { (-SCALE) as i64 } else { SCALE },
        z: if i % 2 >= 1 { (-SCALE) as i64 } else { SCALE },
    }
}

/// The static scene: camera, controls and the cube's points.
pub struct Model {
    pub camera: Camera,
    pub camera_controls: CameraControls,
    pub points: Vec<Particle3>,
}

impl Model {
    pub open spec fn wf(self) -> bool {
        &&& self.camera.wf()
        &&& self.camera_controls.wf()
        &&& forall|i: int| 0 <= i < self.points@.len() ==> (#[trigger] self.points@[i]).wf()
    }

    /// Builds the scene: a perspective camera at `(3, 3, 3)` aimed at the
    /// origin, pointer-based orbit controls centered there, and the eight
    /// unit-cube corners as points at rest, with unit radius and the
    /// scene's color.
    pub fn new() -> (r: Model)
        ensures
            r.wf(),
            r.points@.len() == 8,
            forall|i: int|
                0 <= i < 8 ==> (#[trigger] r.points@[i]).position == spec_cube_corner(i)
                    && r.points@[i].velocity == (Vec3Fx { x: 0, y: 0, z: 0 }) && r.points@[i].radius
                    == SCALE && r.points@[i].color == (ColorFx {
                    red: 0,
                    green: 0,
                    blue: 0,
                    alpha: SCALE,
                }),
            r.camera.position == (Vec3Fx {
                x: (3 * SCALE) as i64,
                y: (3 * SCALE) as i64,
                z: (3 * SCALE) as i64,
            }),
            r.camera.view_direction == (Vec3Fx {
                x: (-SCALE) as i64,
                y: (-SCALE) as i64,
                z: (-SCALE) as i64,
            }).spec_normalized(),
            r.camera.up == (Vec3Fx { x: 0, y: SCALE, z: 0 }),
            r.camera.projection == crate::projection::Projection::Perspective(
                crate::projection::PerspectiveProjection {
                    fov_y_radians: CUBE_FOV,
                    z_near: crate::projection::DEFAULT_Z_NEAR,
                    z_far: crate::projection::DEFAULT_Z_FAR,
                    aspect_ratio: SCALE,
                },
            ),
            r.camera_controls == CameraControls::MouseBased(
                MouseBasedCenteredCameraControls {
                    center: Vec3Fx { x: 0, y: 0, z: 0 },
                    speed: SCALE,
                    mouse_position: Vec2Fx { x: 0, y: 0 },
                    mouse_position_prev: Vec2Fx { x: 0, y: 0 },
                },
            ),
    {
        let position = Vec3Fx { x: 3 * SCALE, y: 3 * SCALE, z: 3 * SCALE };
        let view_direction = Vec3Fx { x: -SCALE, y: -SCALE, z: -SCALE }.normalize();
        let up = Vec3Fx { x: 0, y: SCALE, z: 0 };
        let camera = match Camera::new_perspective(position, view_direction, up, CUBE_FOV, SCALE) {
            Ok(c) => c,
            Err(_) => {
                proof {
                    assert(false);
                }
                vstd::pervasive::unreached()
            },
        };
        let color = ColorFx { red: 0, green: 0, blue: 0, alpha: SCALE };
        let mut points: Vec<Particle3> = Vec::new();
        let mut k: usize = 0;
        while k < 8
            invariant
                points@.len() == k,
                k <= 8,
                color == (ColorFx { red: 0, green: 0, blue: 0, alpha: SCALE }),
                forall|i: int|
                    0 <= i < k ==> (#[trigger] points@[i]).wf() && points@[i].position
                        == spec_cube_corner(i) && points@[i].velocity == (Vec3Fx {
                        x: 0,
                        y: 0,
                        z: 0,
                    }) && points@[i].radius == SCALE && points@[i].color == (ColorFx {
                        red: 0,
                        green: 0,
                        blue: 0,
                        alpha: SCALE,
                    }),
            decreases 8 - k,
        {
            let x: i64 = if k >= 4 {
                -SCALE
            } else {
                SCALE
            };
            let y: i64 = if k % 4 >= 2 {
                -SCALE
            } else {
                SCALE
            };
            let z: i64 = if k % 2 >= 1 {
                -SCALE
            } else {
                SCALE
            };
            let p = Particle3::new(Vec3Fx { x, y, z }, color, SCALE);
            proof {
                assert(p.position == spec_cube_corner(k as int));
            }
            points.push(p);
            k = k + 1;
        }
        Model {
            camera,
            camera_controls: CameraControls::MouseBased(
                MouseBasedCenteredCameraControls::new(Vec3Fx { x: 0, y: 0, z: 0 }, SCALE),
            ),
            points,
        }
    }

    /// Delivers one input event to the camera controls.
    pub fn event(&mut self, event: InputEvent)
        requires
            old(self).wf(),
            event.wf(),
        ensures
            final(self).camera_controls == old(self).camera_controls.spec_event(event),
            final(self).camera == old(self).camera,
            final(self).points == old(self).points,
            final(self).wf(),
    {
        self.camera_controls.event(event);
    }

    /// One tick: the camera takes the viewport's current aspect ratio, then
    /// the controls move and re-aim it. Succeeds exactly when the aspect
    /// ratio is in range and the moved camera stays within the machine's
    /// coordinate range; otherwise it fails with the matching error and the
    /// scene is unchanged.
    pub fn update(&mut self, aspect_ratio: i64, elapsed: i64) -> (r: Result<(), SimError>)
        requires
            old(self).wf(),
            0 <= elapsed <= TIME_LIMIT,
        ensures
            ({
                let aspect_ok = crate::projection::SIZE_MIN <= aspect_ratio
                    <= crate::projection::SIZE_MAX;
                let new_pos = old(self).camera.position.spec_add(
                    crate::controls::spec_world_velocity(
                        Camera {
                            projection: old(self).camera.projection.spec_with_aspect_ratio(
                                aspect_ratio,
                            ),
                            ..old(self).camera
                        },
                        old(self).camera_controls.spec_local_velocity(),
                    ).spec_scale(elapsed as int),
                );
                &&& (r is Ok <==> (aspect_ok && new_pos.in_bounds(
                    crate::fixed::COORD_LIMIT as int,
                )))
                &&& (!aspect_ok ==> r == Result::<(), SimError>::Err(SimError::InvalidParameter))
                &&& (aspect_ok && r is Err ==> r == Result::<(), SimError>::Err(
                    SimError::InvalidInput,
                ))
            }),
            r is Ok ==> final(self).camera.projection == old(self).camera.projection
                .spec_with_aspect_ratio(aspect_ratio) && spec_orbit_applied(
                old(self).camera_controls.spec_center(),
                old(self).camera_controls.spec_local_velocity(),
                Camera {
                    projection: old(self).camera.projection.spec_with_aspect_ratio(aspect_ratio),
                    ..old(self).camera
                },
                final(self).camera,
                elapsed as int,
            ),
            r is Err ==> *final(self) == *old(self),
            final(self).camera_controls == old(self).camera_controls,
            final(self).points == old(self).points,
            final(self).wf(),
    {
        let mut cam2 = self.camera;
        match cam2.aspect_ratio(aspect_ratio) {
            Ok(_) => {},
            Err(e) => {
                return Err(e);
            },
        }
        match self.camera_controls.apply_to_camera(&mut cam2, elapsed) {
            Ok(_) => {},
            Err(e) => {
                return Err(e);
            },
        }
        self.camera = cam2;
        Ok(())
    }
}

} // verus!
