//! Scenario tests for the fixed-point math kernel: vectors, particles,
//! trigonometry and the force fields.

use flowfield::fixed::SCALE;
use flowfield::lorenz::{LorenzOptions, lorenz_force};
use flowfield::particle::{ColorFx, Particle2, Particle3, RectFx, scale_coords};
use flowfield::perlin_flow::force_vector;
use flowfield::trig::{HALF_PI_FX, PI_FX, fx_cos, fx_sin};
use flowfield::vec2::Vec2Fx;
use flowfield::vec3::Vec3Fx;

fn black() -> ColorFx {
    ColorFx { red: 0, green: 0, blue: 0, alpha: SCALE }
}

#[test]
fn normalize_diagonal_matches_exact_quotients() {
    let v = Vec3Fx { x: SCALE, y: SCALE, z: 0 };
    let n = v.normalize();
    assert_eq!(n, Vec3Fx { x: 707_106, y: 707_106, z: 0 });
}

#[test]
fn normalize_axis_is_exact() {
    let v = Vec3Fx { x: 0, y: 0, z: -5 * SCALE };
    let n = v.normalize();
    assert_eq!(n, Vec3Fx { x: 0, y: 0, z: -SCALE });
}

#[test]
fn normalize_norm_stays_in_unit_band() {
    let samples = [
        Vec3Fx { x: 3 * SCALE, y: -4 * SCALE, z: 12 * SCALE },
        Vec3Fx { x: 1, y: 0, z: 0 },
        Vec3Fx { x: 123_456_789, y: -987_654_321, z: 555 },
        Vec3Fx { x: -3 * SCALE, y: -3 * SCALE, z: -3 * SCALE },
    ];
    for v in samples {
        let n = v.normalize();
        let norm_sq = (n.x as i128) * (n.x as i128) + (n.y as i128) * (n.y as i128)
            + (n.z as i128) * (n.z as i128);
        let one_sq = (SCALE as i128) * (SCALE as i128);
        assert!(norm_sq <= one_sq);
        assert!(norm_sq > one_sq - 8 * (SCALE as i128));
    }
}

#[test]
fn clamp_shrinks_an_overlong_vector() {
    let v = Vec3Fx { x: 50_000_000, y: 0, z: 0 };
    assert_eq!(v.clamp_length_max(40_000_000), Vec3Fx { x: 40_000_000, y: 0, z: 0 });
}

#[test]
fn clamp_keeps_a_short_vector() {
    let v = Vec3Fx { x: 1_000, y: -2_000, z: 3_000 };
    assert_eq!(v.clamp_length_max(40_000_000), v);
}

#[test]
fn clamp_preserves_direction_on_the_diagonal() {
    let v = Vec3Fx { x: 40_000_000, y: 40_000_000, z: 0 };
    let c = v.clamp_length_max(40_000_000);
    assert_eq!(c, Vec3Fx { x: 28_284_270, y: 28_284_270, z: 0 });
}

#[test]
fn particle_update_integrates_velocity_then_position() {
    // A particle at rest under a force of 10 units for a tenth of a second
    // reaches velocity 1 and moves a tenth of a unit.
    let mut p = Particle3::new(Vec3Fx { x: 0, y: 0, z: 0 }, black(), SCALE);
    p.update(Vec3Fx { x: 10 * SCALE, y: 0, z: 0 }, SCALE / 10);
    assert_eq!(p.velocity, Vec3Fx { x: SCALE, y: 0, z: 0 });
    assert_eq!(p.position, Vec3Fx { x: SCALE / 10, y: 0, z: 0 });
}

#[test]
fn particle2_update_matches_particle3() {
    let mut p = Particle2::new(Vec2Fx { x: 0, y: 0 }, black());
    p.update(Vec2Fx { x: 10 * SCALE, y: 0 }, SCALE / 10);
    assert_eq!(p.velocity, Vec2Fx { x: SCALE, y: 0 });
    assert_eq!(p.position, Vec2Fx { x: SCALE / 10, y: 0 });
}

#[test]
fn particle_speed_is_capped_after_update() {
    let mut p = Particle3::new(Vec3Fx { x: 0, y: 0, z: 0 }, black(), SCALE);
    for _ in 0..5 {
        p.update(Vec3Fx { x: 90_000_000, y: 10_000_000, z: -40_000_000 }, SCALE);
        let n = (p.velocity.x as i128) * (p.velocity.x as i128)
            + (p.velocity.y as i128) * (p.velocity.y as i128)
            + (p.velocity.z as i128) * (p.velocity.z as i128);
        assert!(n <= 40_000_000i128 * 40_000_000i128);
    }
}

#[test]
fn scale_coords_normalizes_into_the_unit_square() {
    let win = RectFx { left: -900_000_000, bottom: -600_000_000, width: 1_800_000_000, height: 1_200_000_000 };
    let r = scale_coords(win, Vec2Fx { x: 0, y: 0 });
    assert_eq!(r, Vec2Fx { x: SCALE / 2, y: SCALE / 2 });
    let corner = scale_coords(win, Vec2Fx { x: -900_000_000, y: -600_000_000 });
    assert_eq!(corner, Vec2Fx { x: 0, y: 0 });
    let far = scale_coords(win, Vec2Fx { x: 900_000_000, y: 600_000_000 });
    assert_eq!(far, Vec2Fx { x: SCALE, y: SCALE });
}

#[test]
fn sine_hits_the_anchor_points() {
    assert_eq!(fx_sin(0), 0);
    assert_eq!(fx_sin(PI_FX), 0);
    assert_eq!(fx_sin(HALF_PI_FX), 999_999);
    assert_eq!(fx_sin(-HALF_PI_FX), -999_999);
    assert_eq!(fx_sin(523_599), 500_000);
    assert_eq!(fx_cos(0), 999_999);
}

#[test]
fn sine_is_bounded_and_periodic() {
    let tau = flowfield::trig::TAU_FX;
    for k in [-3i64, -1, 0, 1, 5] {
        for x in [0i64, 100_000, 1_234_567, 3_000_000, 6_000_000] {
            let s = fx_sin(x);
            assert!(s.abs() <= SCALE);
            assert_eq!(s, fx_sin(x + k * tau));
        }
    }
}

#[test]
fn lorenz_force_at_ones() {
    // The classic constants at (1, 1, 1): (0, 26, -1.66667), exactly.
    let o = LorenzOptions::new(28 * SCALE, 10 * SCALE, 2_666_670).unwrap();
    let f = lorenz_force(Vec3Fx { x: SCALE, y: SCALE, z: SCALE }, &o);
    assert_eq!(f, Vec3Fx { x: 0, y: 26 * SCALE, z: -1_666_670 });
}

#[test]
fn lorenz_force_is_a_pure_function() {
    let o = LorenzOptions::new(28 * SCALE, 10 * SCALE, 2_666_670).unwrap();
    let p = Vec3Fx { x: 3_141_592, y: -2_718_281, z: 1_414_213 };
    let f1 = lorenz_force(p, &o);
    let f2 = lorenz_force(p, &o);
    assert_eq!(f1, f2);
}

#[test]
fn lorenz_options_reject_out_of_range_constants() {
    assert!(LorenzOptions::new(28 * SCALE, 10 * SCALE, 2_666_670).is_ok());
    assert!(LorenzOptions::new(2_000_000_000, 10 * SCALE, 2_666_670).is_err());
}

#[test]
fn force_vector_has_the_move_length_magnitude() {
    // A zero noise sample points along +x with the full move length.
    assert_eq!(force_vector(0), Vec2Fx { x: 21_999_978, y: 0 });
    // A quarter-turn sample points along +y.
    assert_eq!(force_vector(250_000), Vec2Fx { x: 22, y: 21_999_978 });
    // A half-turn sample points along -x.
    assert_eq!(force_vector(500_000), Vec2Fx { x: -21_999_978, y: 22 });
}

#[test]
fn update_with_zero_elapsed_changes_nothing() {
    let mut p = Particle3::new(Vec3Fx { x: 7, y: 8, z: 9 }, black(), SCALE);
    let before = p;
    p.update(Vec3Fx { x: 10 * SCALE, y: 0, z: 0 }, 0);
    assert_eq!(p, before);
}

#[test]
fn clamp_at_exactly_the_cap_is_identity() {
    let v = Vec3Fx { x: 40_000_000, y: 0, z: 0 };
    assert_eq!(v.clamp_length_max(40_000_000), v);
}

#[test]
fn sine_accepts_the_largest_angle() {
    let limit = flowfield::trig::ANGLE_LIMIT;
    assert!(fx_sin(limit).abs() <= SCALE);
    assert!(fx_sin(-limit).abs() <= SCALE);
}

#[test]
fn force_vector_is_deterministic() {
    for nv in [-1_000_000i64, -333_333, 0, 123_456, 999_999] {
        assert_eq!(force_vector(nv), force_vector(nv));
    }
}
