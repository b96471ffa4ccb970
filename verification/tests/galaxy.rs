//! The galaxy generator: buffer shape, value ranges, determinism, and the
//! legacy anchor matrix.

use volka::fixed::FX_ONE;
use volka::fixed::TWO_PI_FX;
use volka::mat4::Mat4;
use volka::rng::SplitMix64;
use volka::utils::arm_separation;
use volka::utils::generate_galaxy_vectors;
use volka::utils::scale_value;
use volka::utils::star_color_value;
use volka::utils::GalaxyConfig;
use volka::utils::ENTRY_MAX;

// The regression-baseline configuration: 1000 particles on five arms.
fn baseline_config() -> GalaxyConfig {
    let arm_numb = 5 * FX_ONE;
    GalaxyConfig {
        size: 1000,
        arm_numb,
        arm_separation_dist: arm_separation(arm_numb),
        arm_offset_max: FX_ONE / 2,
        rotation_factor: 5 * FX_ONE,
        random_offset_xy: FX_ONE / 50,
    }
}

#[test]
fn buffer_holds_nineteen_floats_per_particle() {
    for &size in [1i32, 2, 7, 100].iter() {
        let mut cfg = baseline_config();
        cfg.size = size;
        let mut rng = SplitMix64::new(1);
        let (_, buf) = generate_galaxy_vectors(cfg, &mut rng);
        assert_eq!(buf.len(), 19 * size as usize);
    }
}

#[test]
fn zero_size_yields_empty_buffer_and_identity() {
    let mut cfg = baseline_config();
    cfg.size = 0;
    let mut rng = SplitMix64::new(1);
    let (mat, buf) = generate_galaxy_vectors(cfg, &mut rng);
    assert!(buf.is_empty());
    assert_eq!(mat, Mat4::identity());
}

#[test]
fn negative_size_yields_empty_buffer_and_identity() {
    let mut cfg = baseline_config();
    cfg.size = -3;
    let mut rng = SplitMix64::new(1);
    let (mat, buf) = generate_galaxy_vectors(cfg, &mut rng);
    assert!(buf.is_empty());
    assert_eq!(mat, Mat4::identity());
}

#[test]
fn nonpositive_arm_count_yields_empty_buffer_and_identity() {
    let mut cfg = baseline_config();
    cfg.arm_numb = 0;
    let mut rng = SplitMix64::new(1);
    let (mat, buf) = generate_galaxy_vectors(cfg, &mut rng);
    assert!(buf.is_empty());
    assert_eq!(mat, Mat4::identity());
}

#[test]
fn nonpositive_separation_yields_empty_buffer_and_identity() {
    let mut cfg = baseline_config();
    cfg.arm_separation_dist = 0;
    let mut rng = SplitMix64::new(1);
    let (mat, buf) = generate_galaxy_vectors(cfg, &mut rng);
    assert!(buf.is_empty());
    assert_eq!(mat, Mat4::identity());
}

#[test]
fn every_entry_is_bounded_across_edge_configs() {
    let mut configs = vec![baseline_config()];
    let mut c = baseline_config();
    c.arm_offset_max = 0;
    configs.push(c);
    let mut c = baseline_config();
    c.rotation_factor = 0;
    configs.push(c);
    let mut c = baseline_config();
    c.random_offset_xy = 0;
    configs.push(c);
    let mut c = baseline_config();
    c.arm_offset_max = 0;
    c.rotation_factor = 0;
    c.random_offset_xy = 0;
    configs.push(c);
    let mut c = baseline_config();
    c.arm_offset_max = -FX_ONE;
    c.rotation_factor = -5 * FX_ONE;
    configs.push(c);
    for (seed, cfg) in configs.into_iter().enumerate() {
        let mut rng = SplitMix64::new(seed as u64);
        let (_, buf) = generate_galaxy_vectors(cfg, &mut rng);
        for &v in buf.iter() {
            assert!(-ENTRY_MAX <= v && v <= ENTRY_MAX);
        }
    }
}

#[test]
fn color_components_lie_in_the_unit_interval() {
    let cfg = baseline_config();
    let mut rng = SplitMix64::new(3);
    let (_, buf) = generate_galaxy_vectors(cfg, &mut rng);
    for (k, &v) in buf.iter().enumerate() {
        if k % 19 >= 16 {
            assert!(0 <= v && v <= FX_ONE);
        }
    }
}

#[test]
fn same_seed_reproduces_the_same_galaxy() {
    let cfg = baseline_config();
    let mut rng_a = SplitMix64::new(1234);
    let mut rng_b = SplitMix64::new(1234);
    let (mat_a, buf_a) = generate_galaxy_vectors(cfg, &mut rng_a);
    let (mat_b, buf_b) = generate_galaxy_vectors(cfg, &mut rng_b);
    assert_eq!(buf_a.len(), 19000);
    assert_eq!(buf_a, buf_b);
    assert_eq!(mat_a, mat_b);
    assert_eq!(rng_a.state, rng_b.state);
}

#[test]
fn different_seeds_give_different_galaxies() {
    let cfg = baseline_config();
    let mut rng_a = SplitMix64::new(1);
    let mut rng_b = SplitMix64::new(2);
    let (_, buf_a) = generate_galaxy_vectors(cfg, &mut rng_a);
    let (_, buf_b) = generate_galaxy_vectors(cfg, &mut rng_b);
    assert_ne!(buf_a, buf_b);
}

#[test]
fn generator_consumes_eight_draws_per_particle() {
    let mut cfg = baseline_config();
    cfg.size = 25;
    let mut rng = SplitMix64::new(77);
    let mut twin = SplitMix64::new(77);
    let _ = generate_galaxy_vectors(cfg, &mut rng);
    for _ in 0..(8 * 25) {
        let _ = twin.next_u64();
    }
    assert_eq!(rng.state, twin.state);
}

#[test]
fn anchor_matrix_is_the_last_particle() {
    let mut cfg = baseline_config();
    cfg.size = 13;
    let mut rng = SplitMix64::new(555);
    let (mat, buf) = generate_galaxy_vectors(cfg, &mut rng);
    let tail = &buf[19 * 12..19 * 12 + 16];
    let mut flat: Vec<i64> = Vec::new();
    mat.push_cols(&mut flat);
    assert_eq!(tail, &flat[..]);
}

#[test]
fn arm_separation_divides_the_full_turn() {
    // 2*pi / 5 in fixed point, truncated.
    let sep = arm_separation(5 * FX_ONE);
    let expected = ((TWO_PI_FX as i128) * (FX_ONE as i128) / (5 * FX_ONE) as i128) as i64;
    assert_eq!(sep, expected);
    assert_eq!(sep, TWO_PI_FX / 5);
    assert_eq!(arm_separation(FX_ONE), TWO_PI_FX);
}

#[test]
fn palettes_hold_the_expected_values() {
    assert_eq!(scale_value(0), 16 * FX_ONE);
    assert_eq!(scale_value(1), 32 * FX_ONE);
    assert_eq!(scale_value(2), 64 * FX_ONE);
    assert_eq!(scale_value(3), 128 * FX_ONE);
    let (r, g, b) = star_color_value(0);
    assert_eq!(r, 231 * FX_ONE / 255);
    assert_eq!(g, 236 * FX_ONE / 255);
    assert_eq!(b, 254 * FX_ONE / 255);
    let (r, g, b) = star_color_value(11);
    assert_eq!(r, 175 * FX_ONE / 255);
    assert_eq!(g, 54 * FX_ONE / 255);
    assert_eq!(b, 39 * FX_ONE / 255);
    for i in 0..12 {
        let (r, g, b) = star_color_value(i);
        assert!(0 <= r && r <= FX_ONE);
        assert!(0 <= g && g <= FX_ONE);
        assert!(0 <= b && b <= FX_ONE);
    }
}
