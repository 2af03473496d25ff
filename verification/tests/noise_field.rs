//! Determinism of the noise-driven flow: the same seed and coordinate give
//! the same noise sample, and the kernel turns equal samples into equal
//! forces.

use flowfield::fixed::SCALE;
use flowfield::particle::RectFx;
use flowfield::perlin_flow::{Model, PerlinFlowOptions, force_vector};
use flowfield::vec2::Vec2Fx;
use noise::{NoiseFn, Perlin, Seedable};

fn window() -> RectFx {
    RectFx { left: -900_000_000, bottom: -600_000_000, width: 1_800_000_000, height: 1_200_000_000 }
}

#[test]
fn perlin_noise_is_deterministic_per_seed() {
    let a = Perlin::new().set_seed(42);
    let b = Perlin::new().set_seed(42);
    for &(x, y) in [(0.3, 0.7), (1.5, -2.25), (0.0, 0.0), (123.456, -654.321)].iter() {
        let va = a.get([x, y]);
        let vb = b.get([x, y]);
        assert_eq!(va.to_bits(), vb.to_bits());
    }
    let c = Perlin::new().set_seed(43);
    let mut all_equal = true;
    for &(x, y) in [(0.3, 0.7), (1.5, -2.25), (12.5, 3.75)].iter() {
        if a.get([x, y]).to_bits() != c.get([x, y]).to_bits() {
            all_equal = false;
        }
    }
    assert!(!all_equal);
}

#[test]
fn sampled_noise_drives_the_same_force_every_time() {
    let perlin = Perlin::new().set_seed(42);
    let model = Model::new(
        window(),
        &PerlinFlowOptions { show_vectors: false, hide_dots: false, seed: Some(42) },
    );
    let position = Vec2Fx { x: 123_000_000, y: -45_000_000 };
    let sample = model.sample_point(window(), position);
    let noise_value =
        (perlin.get([sample.x as f64 / SCALE as f64, sample.y as f64 / SCALE as f64])
            * SCALE as f64) as i64;
    assert_eq!(force_vector(noise_value), force_vector(noise_value));
    // The force genuinely depends on the sample: a different sample turns
    // the direction.
    assert_ne!(force_vector(0), force_vector(500_000));
}
