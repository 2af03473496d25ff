//! Scenario tests for the camera, the projections, the controllers and the
//! scene models.

use flowfield::SimError;
use flowfield::base3d;
use flowfield::camera::Camera;
use flowfield::controls::{CenteredCameraControls, InputEvent, Key};
use flowfield::fixed::SCALE;
use flowfield::lorenz;
use flowfield::lorenz::LorenzOptions;
use flowfield::particle::RectFx;
use flowfield::perlin_flow;
use flowfield::perlin_flow::PerlinFlowOptions;
use flowfield::projection::{OrthographicProjection, PerspectiveProjection, Projection};
use flowfield::vec3::Vec3Fx;

fn unit_z_camera() -> Camera {
    Camera::new_perspective(
        Vec3Fx { x: 0, y: 0, z: 5 * SCALE },
        Vec3Fx { x: 0, y: 0, z: -SCALE },
        Vec3Fx { x: 0, y: SCALE, z: 0 },
        250_000,
        SCALE,
    )
    .unwrap()
}

#[test]
fn look_at_from_three_three_three() {
    // Aiming at the origin from (3, 3, 3) gives the negated unit diagonal.
    let mut cam = Camera::new_perspective(
        Vec3Fx { x: 3 * SCALE, y: 3 * SCALE, z: 3 * SCALE },
        Vec3Fx { x: 0, y: 0, z: -SCALE },
        Vec3Fx { x: 0, y: SCALE, z: 0 },
        250_000,
        SCALE,
    )
    .unwrap();
    cam.look_at(Vec3Fx { x: 0, y: 0, z: 0 }).unwrap();
    assert_eq!(cam.view_direction, Vec3Fx { x: -577_350, y: -577_350, z: -577_350 });
}

#[test]
fn look_at_yields_unit_direction_for_any_target() {
    let mut cam = unit_z_camera();
    let targets = [
        Vec3Fx { x: 17, y: -4, z: 0 },
        Vec3Fx { x: 1_000_000_000, y: 2_000_000_000, z: -3_000_000_000 },
        Vec3Fx { x: 0, y: 0, z: 4_999_999 },
    ];
    for t in targets {
        cam.look_at(t).unwrap();
        let v = cam.view_direction;
        let n = (v.x as i128) * (v.x as i128) + (v.y as i128) * (v.y as i128)
            + (v.z as i128) * (v.z as i128);
        let one = (SCALE as i128) * (SCALE as i128);
        assert!(n <= one && n > one - 8 * (SCALE as i128));
    }
}

#[test]
fn look_at_own_position_is_degenerate() {
    let mut cam = unit_z_camera();
    let before = cam.view_direction;
    let r = cam.look_at(Vec3Fx { x: 0, y: 0, z: 5 * SCALE });
    assert_eq!(r, Err(SimError::DegenerateGeometry));
    assert_eq!(cam.view_direction, before);
}

#[test]
fn look_at_out_of_range_target_is_invalid_input() {
    let mut cam = unit_z_camera();
    let r = cam.look_at(Vec3Fx { x: 2_000_000_000_000, y: 0, z: 0 });
    assert_eq!(r, Err(SimError::InvalidInput));
}

#[test]
fn orthographic_depth_planes_map_to_clip_boundaries() {
    // A camera-space point on the near plane lands on clip -1, on the far
    // plane on clip +1, exactly.
    let p = OrthographicProjection::new(SCALE, SCALE).unwrap();
    assert_eq!(p.clip_depth(-p.z_near), -SCALE);
    assert_eq!(p.clip_depth(-p.z_far), SCALE);
    assert_eq!(p.clip_depth(-(p.z_near + p.z_far) / 2), 0);
}

#[test]
fn orthographic_extent_maps_to_clip_edges() {
    // A camera-space point at the full horizontal and vertical extents of
    // a 6-by-3 view volume lands exactly on clip (1, 1).
    let p = OrthographicProjection::new(3 * SCALE, 2 * SCALE).unwrap();
    let extent = Vec3Fx { x: 6 * SCALE, y: 3 * SCALE, z: -SCALE };
    let clip = p.apply_projection(extent);
    assert_eq!(clip.x, SCALE);
    assert_eq!(clip.y, SCALE);
    let opposite = p.apply_projection(Vec3Fx { x: -6 * SCALE, y: -3 * SCALE, z: -SCALE });
    assert_eq!(opposite.x, -SCALE);
    assert_eq!(opposite.y, -SCALE);
}

#[test]
fn orthographic_matrix_for_unit_size() {
    let p = OrthographicProjection::new(SCALE, SCALE).unwrap();
    let m = p.get_transformation_matrix();
    assert_eq!(m.r0.x, SCALE);
    assert_eq!(m.r1.y, SCALE);
    assert_eq!(m.r2.z, -2_000);
    assert_eq!(m.r2.w, -1_000_200);
    assert_eq!(m.r3.w, SCALE);
}

#[test]
fn perspective_matrix_focal_scale() {
    let p = PerspectiveProjection::new(785_398, SCALE).unwrap();
    let m = p.get_transformation_matrix();
    // cot(pi / 8) is about 2.414; the rational sine puts it at 2.406597.
    assert_eq!(m.r1.y, 2_406_597);
    assert_eq!(m.r0.x, 2_406_597);
    assert_eq!(m.r3.z, -SCALE);
    assert_eq!(m.r3.w, 0);
}

#[test]
fn projection_setters_fail_fast_and_leave_state() {
    let p = OrthographicProjection::new(SCALE, SCALE).unwrap();
    let mut proj = Projection::Orthographic(p);
    assert_eq!(proj.z_near(0), Err(SimError::InvalidParameter));
    assert_eq!(proj.get_z_near(), p.z_near);
    assert_eq!(proj.z_far(p.z_near), Err(SimError::InvalidParameter));
    assert_eq!(proj.get_z_far(), p.z_far);
    assert_eq!(proj.aspect_ratio(-5), Err(SimError::InvalidParameter));
    assert_eq!(proj.get_aspect_ratio(), p.aspect_ratio);
    assert_eq!(proj.z_near(200_000), Ok(()));
    assert_eq!(proj.get_z_near(), 200_000);
    assert_eq!(proj.aspect_ratio(2 * SCALE), Ok(()));
    assert_eq!(proj.get_aspect_ratio(), 2 * SCALE);
}

#[test]
fn projection_setters_accept_the_full_ordered_range() {
    // Any ordered plane pair is accepted, including a near plane at ninety
    // percent of the far plane; only a gap at the representation's own
    // resolution (under a millionth of the plane sum) is refused.
    let p = OrthographicProjection::new(SCALE, SCALE).unwrap();
    let mut proj = Projection::Orthographic(p);
    assert_eq!(proj.z_near(900_000_000), Ok(()));
    assert_eq!(proj.get_z_near(), 900_000_000);
    let mut tight = Projection::Orthographic(OrthographicProjection {
        size: SCALE,
        z_near: SCALE,
        z_far: 2 * SCALE,
        aspect_ratio: SCALE,
    });
    // A gap of a single raw unit is below the resolution and is refused.
    assert_eq!(tight.z_far(SCALE + 1), Err(SimError::InvalidParameter));
    assert_eq!(tight.z_far(SCALE + 10), Ok(()));
    assert_eq!(tight.get_z_far(), SCALE + 10);
}

#[test]
fn camera_constructor_rejects_non_unit_direction() {
    let r = Camera::new_perspective(
        Vec3Fx { x: 0, y: 0, z: 0 },
        Vec3Fx { x: SCALE, y: SCALE, z: 0 },
        Vec3Fx { x: 0, y: SCALE, z: 0 },
        250_000,
        SCALE,
    );
    assert_eq!(r, Err(SimError::InvalidParameter));
}

#[test]
fn key_state_controller_moves_along_the_side_axis() {
    // Only "right" pressed, unit speed, one second: the camera shifts one
    // unit along the cross of the view direction and up.
    let mut controls = CenteredCameraControls::new(Vec3Fx { x: 0, y: 0, z: 0 }, SCALE, SCALE);
    controls.event(InputEvent::KeyPressed(Key::Right));
    let mut cam = unit_z_camera();
    controls.apply_to_camera(&mut cam, SCALE).unwrap();
    assert_eq!(cam.position, Vec3Fx { x: SCALE, y: 0, z: 5 * SCALE });
}

#[test]
fn key_aliases_drive_the_same_flags() {
    let mut a = CenteredCameraControls::new(Vec3Fx { x: 0, y: 0, z: 0 }, SCALE, SCALE);
    let mut b = a;
    a.event(InputEvent::KeyPressed(Key::Left));
    b.event(InputEvent::KeyPressed(Key::A));
    assert_eq!(a, b);
    a.event(InputEvent::KeyReleased(Key::PageUp));
    b.event(InputEvent::KeyReleased(Key::Q));
    assert_eq!(a, b);
}

#[test]
fn orbit_controller_keeps_facing_the_center() {
    let center = Vec3Fx { x: 0, y: 0, z: 0 };
    let mut controls = CenteredCameraControls::new(center, SCALE, SCALE);
    controls.event(InputEvent::KeyPressed(Key::Up));
    controls.event(InputEvent::KeyPressed(Key::Right));
    let mut cam = unit_z_camera();
    for _ in 0..10 {
        controls.apply_to_camera(&mut cam, SCALE / 4).unwrap();
        // The camera still faces its center: re-aiming from its position
        // reproduces the view direction it already has.
        let expected = cam.view_direction;
        let mut probe = cam;
        probe.look_at(center).unwrap();
        assert_eq!(probe.view_direction, expected);
    }
}

#[test]
fn view_matrix_of_an_axis_aligned_camera() {
    // Looking down the negative depth axis from (0, 0, 5): the rotation is
    // the identity and the translation centers the camera.
    let cam = unit_z_camera();
    let m = cam.get_view_matrix().unwrap();
    assert_eq!(m.r0.x, SCALE);
    assert_eq!(m.r0.y, 0);
    assert_eq!(m.r0.w, 0);
    assert_eq!(m.r1.y, SCALE);
    assert_eq!(m.r2.z, SCALE);
    assert_eq!(m.r2.w, -5 * SCALE);
    assert_eq!(m.r3.w, SCALE);
}

#[test]
fn view_matrix_degenerates_when_up_is_parallel() {
    let cam = Camera::new_perspective(
        Vec3Fx { x: 0, y: 0, z: 5 * SCALE },
        Vec3Fx { x: 0, y: SCALE, z: 0 },
        Vec3Fx { x: 0, y: SCALE, z: 0 },
        250_000,
        SCALE,
    )
    .unwrap();
    assert_eq!(cam.get_view_matrix(), Err(SimError::DegenerateGeometry));
}

#[test]
fn look_at_accepts_the_coordinate_boundary() {
    let mut cam = unit_z_camera();
    let limit = flowfield::fixed::COORD_LIMIT;
    cam.look_at(Vec3Fx { x: limit, y: -limit, z: limit }).unwrap();
    let just_outside = cam.look_at(Vec3Fx { x: limit + 1, y: 0, z: 0 });
    assert_eq!(just_outside, Err(SimError::InvalidInput));
}

#[test]
fn base3d_scene_updates_aspect_and_orbits() {
    let mut model = base3d::Model::new();
    assert_eq!(model.points.len(), 8);
    for p in model.points.iter() {
        assert_eq!(p.velocity, Vec3Fx { x: 0, y: 0, z: 0 });
        assert_eq!(p.radius, SCALE);
    }
    assert_eq!(model.camera.position, Vec3Fx { x: 3 * SCALE, y: 3 * SCALE, z: 3 * SCALE });
    assert_eq!(model.camera.up, Vec3Fx { x: 0, y: SCALE, z: 0 });
    model.event(InputEvent::PointerSample { x: SCALE, y: SCALE });
    model.event(InputEvent::Update { elapsed: SCALE / 10 });
    model.update(3 * SCALE / 2, SCALE / 10).unwrap();
    assert_eq!(model.camera.get_aspect_ratio(), 3 * SCALE / 2);
    assert_eq!(model.update(0, SCALE / 10), Err(SimError::InvalidParameter));
}

#[test]
fn base3d_transformation_matrix_is_available() {
    let model = base3d::Model::new();
    let m = model.camera.get_transformation_matrix().unwrap();
    let clip = model.points[0].transform_position(m);
    // The corner nearest the camera projects in front of it: positive w.
    assert!(clip.w > 0);
}

#[test]
fn lorenz_scene_advances_particles_deterministically() {
    let options = LorenzOptions::new(28 * SCALE, 10 * SCALE, 2_666_670).unwrap();
    let mut model = lorenz::Model::new(&options);
    assert_eq!(model.particles.len(), 1000);
    let before = model.particles.clone();
    model.update(SCALE / 10).unwrap();
    // Recompute one particle's step by hand: position moves by the field
    // value times a tenth of a second, slowed tenfold.
    for (p0, p1) in before.iter().zip(model.particles.iter()).take(20) {
        let f = lorenz::lorenz_force(p0.position, &options);
        let step = |c: i64| -> i64 {
            let scaled = (c as i128) * (SCALE as i128 / 10) / (SCALE as i128);
            let slowed = scaled / 10;
            slowed as i64
        };
        assert_eq!(p1.position.x, p0.position.x + step(f.x));
        assert_eq!(p1.position.y, p0.position.y + step(f.y));
        assert_eq!(p1.position.z, p0.position.z + step(f.z));
    }
}

#[test]
fn lorenz_particles_start_within_ten_units() {
    let options = LorenzOptions::new(28 * SCALE, 10 * SCALE, 2_666_670).unwrap();
    let model = lorenz::Model::new(&options);
    for p in model.particles.iter() {
        assert!(p.position.x >= -10 * SCALE && p.position.x < 10 * SCALE);
        assert!(p.position.y >= -10 * SCALE && p.position.y < 10 * SCALE);
        assert!(p.position.z >= -10 * SCALE && p.position.z < 10 * SCALE);
        assert_eq!(p.position.x % SCALE, 0);
        assert_eq!(p.velocity, Vec3Fx { x: 0, y: 0, z: 0 });
        assert_eq!(p.radius, 4 * SCALE);
    }
}

#[test]
fn perlin_scene_keeps_the_given_seed() {
    let win = RectFx { left: -900_000_000, bottom: -600_000_000, width: 1_800_000_000, height: 1_200_000_000 };
    let options = PerlinFlowOptions { show_vectors: false, hide_dots: false, seed: Some(7) };
    let model = perlin_flow::Model::new(win, &options);
    assert_eq!(model.seed, 7);
    assert_eq!(model.particles.len(), 1000);
    assert_eq!(model.noise_scale, perlin_flow::DEFAULT_NOISE_SCALE);
    // Every particle starts at rest inside the middle-third spawn box.
    for p in model.particles.iter() {
        assert!(p.position.x >= -300_000_000 && p.position.x < 300_000_000);
        assert!(p.position.y >= -200_000_000 && p.position.y < 200_000_000);
        assert_eq!(p.velocity.x, 0);
        assert_eq!(p.velocity.y, 0);
        assert_eq!(p.radius, SCALE);
    }
}

#[test]
fn perlin_scene_update_applies_the_sampled_forces() {
    let win = RectFx { left: -900_000_000, bottom: -600_000_000, width: 1_800_000_000, height: 1_200_000_000 };
    let options = PerlinFlowOptions { show_vectors: false, hide_dots: false, seed: Some(1) };
    let mut model = perlin_flow::Model::new(win, &options);
    let n = model.particles.len();
    let noise_values: Vec<i64> = vec![0; n];
    let before = model.particles.clone();
    model.update(&noise_values, SCALE / 10).unwrap();
    // A zero sample pushes along +x with the move length: velocity gains
    // 2.1999978 per tenth second, position follows.
    let f = perlin_flow::force_vector(0);
    for (p0, p1) in before.iter().zip(model.particles.iter()).take(20) {
        let dv = (f.x as i128) * (SCALE as i128 / 10) / (SCALE as i128);
        assert_eq!(p1.velocity.x, p0.velocity.x + dv as i64);
        let dp = (p1.velocity.x as i128) * (SCALE as i128 / 10) / (SCALE as i128);
        assert_eq!(p1.position.x, p0.position.x + dp as i64);
        assert_eq!(p1.position.y, p0.position.y);
    }
}
