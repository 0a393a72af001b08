use noise::NoiseFn;
use terrain_scene::fixed::UNIT;
use terrain_scene::terrain_builder::{terrain_builder, HeightField, MAX_AMPLITUDE, NOISE_SCALE_DIV};

/// The fixed-point sample for a grid point, exactly as the embedding
/// produces it from the seeded Perlin field.
fn sample(perlin: &noise::Perlin, x: usize, z: usize) -> i64 {
    let v = perlin.get([
        x as f64 / NOISE_SCALE_DIV as f64,
        z as f64 / NOISE_SCALE_DIV as f64,
    ]);
    (v * 1_000_000f64) as i64
}

#[test]
fn height_deterministic_for_fixed_seed() {
    let hf = terrain_builder(123, 4);
    let perlin = noise::Perlin::new(123);
    for x in 0..40 {
        for z in 0..40 {
            let s1 = sample(&perlin, x, z);
            let s2 = sample(&perlin, x, z);
            assert_eq!(s1, s2);
            assert_eq!(hf.height_from_sample(s1), hf.height_from_sample(s2));
        }
    }
}

#[test]
fn height_bounded_over_grid() {
    let hf = terrain_builder(7, 9);
    let perlin = noise::Perlin::new(7);
    for x in 0..200 {
        for z in 0..200 {
            let h = hf.height_from_sample(sample(&perlin, x, z));
            assert!(h <= 9);
        }
    }
}

#[test]
fn height_midline_at_zero_sample() {
    let hf = terrain_builder(1, 4);
    assert_eq!(hf.height_from_sample(0), 2);
}

#[test]
fn height_extremes_of_sample_range() {
    let hf = terrain_builder(1, 4);
    assert_eq!(hf.height_from_sample(UNIT), 4);
    assert_eq!(hf.height_from_sample(-UNIT), 0);
}

#[test]
fn height_clamps_out_of_range_samples() {
    let hf = terrain_builder(1, 4);
    assert_eq!(hf.height_from_sample(3 * UNIT), 4);
    assert_eq!(hf.height_from_sample(-3 * UNIT), 0);
}

#[test]
fn height_varies_with_sample() {
    let hf = terrain_builder(1, 100);
    let low = hf.height_from_sample(-UNIT / 2);
    let high = hf.height_from_sample(UNIT / 2);
    assert_eq!(low, 25);
    assert_eq!(high, 75);
    assert!(low < high);
}

#[test]
fn terrain_builder_keeps_seed_and_basis() {
    let hf = terrain_builder(42, MAX_AMPLITUDE);
    assert_eq!(
        hf,
        HeightField {
            seed: 42,
            amplitude_basis: MAX_AMPLITUDE
        }
    );
}

#[test]
fn scenario_seed_123_heights_in_range() {
    let hf = terrain_builder(123, 4);
    let perlin = noise::Perlin::new(123);
    let h00 = hf.height_from_sample(sample(&perlin, 0, 0));
    let h2525 = hf.height_from_sample(sample(&perlin, 25, 25));
    assert!(h00 <= 4);
    assert!(h2525 <= 4);
    // A lattice point of the gradient field samples to zero, so the
    // origin's column sits exactly on the midline.
    assert_eq!(h00, 2);
}
