//! The galaxy point-cloud generator.
//!
//! `generate_galaxy_vectors` produces, for each of `size` particles, a 4x4
//! instance transform (16 scalars) followed by an RGB color (3 scalars): 19
//! consecutive entries per particle in one flat buffer, plus the last
//! particle's transform on its own for single-sprite callers. Every value is
//! an exact function of the configuration and the random source's starting
//! state, spelled out by the `star_*` spec functions below: the same seed
//! always reproduces the same buffer.

use vstd::prelude::*;

use crate::fixed::div_t;
use crate::fixed::div_trunc;
use crate::fixed::fx_div;
use crate::fixed::fx_div_s;
use crate::fixed::fx_half;
use crate::fixed::fx_mul;
use crate::fixed::fx_mul_s;
use crate::fixed::lemma_div_t_bound;
use crate::fixed::lemma_fx_mul_bound;
use crate::fixed::FX_DIV_MAX;
use crate::fixed::FX_ONE;
use crate::fixed::FX_OP_MAX;
use crate::fixed::PI_FX;
use crate::fixed::TWO_PI_FX;
use crate::mat4::cols_seq;
use crate::mat4::is_identity;
use crate::mat4::is_srt;
use crate::mat4::Mat4;
use crate::mat4::Vec2;
use crate::rng::draw_below;
use crate::rng::sm_state_after;
use crate::rng::SplitMix64;
use crate::trig::cos_fx;
use crate::trig::cos_fx_s;
use crate::trig::lemma_cos_fx_range;
use crate::trig::lemma_sin_fx_range;
use crate::trig::mod_two_pi_i128;
use crate::trig::sin_fx;
use crate::trig::sin_fx_s;

verus! {

/// Largest particle count a configuration accepts.
pub const GAL_SIZE_MAX: i32 = 0x10_0000;

/// Largest magnitude the scalar configuration fields accept.
pub const GAL_CFG_MAX: i64 = 0x400_0000;

/// Every buffer entry the generator emits lies within this magnitude: the
/// fixed-point counterpart of "no NaN or infinity reaches the render
/// boundary".
pub const ENTRY_MAX: i64 = 0x4_0000_0000;

/// The generator's configuration. `arm_separation_dist` must always be
/// `2 * pi / arm_numb` (see `consistent` and `arm_separation`); the
/// generator itself reads only the separation.
#[derive(Clone, Copy, Debug, PartialEq, Eq, Structural)]
pub struct GalaxyConfig {
    pub size: i32,
    pub arm_numb: i64,
    pub arm_separation_dist: i64,
    pub arm_offset_max: i64,
    pub rotation_factor: i64,
    pub random_offset_xy: i64,
}

impl GalaxyConfig {
    /// The machine-limit bounds on the fields; everything the generator's
    /// arithmetic needs.
    pub open spec fn bounds(self) -> bool {
        &&& self.size <= GAL_SIZE_MAX
        &&& -GAL_CFG_MAX <= self.arm_numb <= GAL_CFG_MAX
        &&& -GAL_CFG_MAX <= self.arm_offset_max <= GAL_CFG_MAX
        &&& -GAL_CFG_MAX <= self.rotation_factor <= GAL_CFG_MAX
        &&& -GAL_CFG_MAX <= self.random_offset_xy <= GAL_CFG_MAX
        &&& 0 <= self.arm_separation_dist <= FX_DIV_MAX
    }

    /// The configurations the generator does work for; anything else yields
    /// the empty buffer and the identity matrix.
    pub open spec fn valid(self) -> bool {
        &&& self.size >= 1
        &&& self.arm_numb >= 1
        &&& self.arm_separation_dist >= 1
    }

    /// The arm separation is derived from the arm count, never set apart
    /// from it.
    pub open spec fn consistent(self) -> bool {
        self.arm_separation_dist == fx_div_s(TWO_PI_FX as int, self.arm_numb as int)
    }

    /// How many particles a run of the generator emits.
    pub open spec fn count(self) -> int {
        if self.valid() {
            self.size as int
        } else {
            0
        }
    }
}

/// The arm separation angle `2 * pi / arm_numb` for a positive arm count:
/// the one way to fill `arm_separation_dist`.
pub fn arm_separation(arm_numb: i64) -> (sep: i64)
    requires
        1 <= arm_numb,
    ensures
        sep == fx_div_s(TWO_PI_FX as int, arm_numb as int),
        0 <= sep <= TWO_PI_FX * FX_ONE,
{
    proof {
        lemma_div_t_bound(
            (TWO_PI_FX * FX_ONE) as int,
            arm_numb as int,
            (TWO_PI_FX * FX_ONE) as int,
        );
        vstd::arithmetic::div_mod::lemma_div_pos_is_pos((TWO_PI_FX * FX_ONE) as int, arm_numb as int);
    }
    fx_div(TWO_PI_FX, arm_numb)
}

/// A consistent separation for an arm count within bounds is at least one:
/// the derived configuration is always `valid` in its separation.
pub proof fn lemma_consistent_sep_positive(cfg: GalaxyConfig)
    requires
        cfg.consistent(),
        1 <= cfg.arm_numb <= GAL_CFG_MAX,
    ensures
        1 <= cfg.arm_separation_dist,
{
    vstd::arithmetic::div_mod::lemma_div_is_ordered_by_denominator(
        (TWO_PI_FX * FX_ONE) as int,
        cfg.arm_numb as int,
        GAL_CFG_MAX as int,
    );
}

/// The per-particle visual scale palette.
pub open spec fn scale_of(i: int) -> int {
    if i == 0 {
        16 * FX_ONE as int
    } else if i == 1 {
        32 * FX_ONE as int
    } else if i == 2 {
        64 * FX_ONE as int
    } else {
        128 * FX_ONE as int
    }
}

/// Executable lookup into the scale palette.
pub fn scale_value(i: i64) -> (r: i64)
    ensures
        r == scale_of(i as int),
        16 * FX_ONE <= r <= 128 * FX_ONE,
{
    if i == 0 {
        16 * FX_ONE
    } else if i == 1 {
        32 * FX_ONE
    } else if i == 2 {
        64 * FX_ONE
    } else {
        128 * FX_ONE
    }
}

/// Red byte of the star color palette: warm-to-cool star-like tones.
pub open spec fn star_red(i: int) -> int {
    if i == 0 {
        231
    } else if i == 1 {
        245
    } else if i == 2 {
        254
    } else if i == 3 {
        255
    } else if i == 4 {
        255
    } else if i == 5 {
        255
    } else if i == 6 {
        255
    } else if i == 7 {
        247
    } else if i == 8 {
        238
    } else if i == 9 {
        223
    } else if i == 10 {
        197
    } else {
        175
    }
}

/// Green byte of the star color palette.
pub open spec fn star_green(i: int) -> int {
    if i == 0 {
        236
    } else if i == 1 {
        247
    } else if i == 2 {
        254
    } else if i == 3 {
        251
    } else if i == 4 {
        243
    } else if i == 5 {
        212
    } else if i == 6 {
        163
    } else if i == 7 {
        128
    } else if i == 8 {
        79
    } else if i == 9 {
        60
    } else if i == 10 {
        51
    } else {
        54
    }
}

/// Blue byte of the star color palette.
pub open spec fn star_blue(i: int) -> int {
    if i == 0 {
        254
    } else if i == 1 {
        255
    } else if i == 2 {
        254
    } else if i == 3 {
        229
    } else if i == 4 {
        189
    } else if i == 5 {
        138
    } else if i == 6 {
        138
    } else if i == 7 {
        95
    } else if i == 8 {
        58
    } else if i == 9 {
        38
    } else if i == 10 {
        32
    } else {
        39
    }
}

/// A palette byte normalized into `[0, FX_ONE]`.
pub open spec fn color_fx(b: int) -> int {
    div_t(b * FX_ONE, 255)
}

/// Executable palette lookup, already normalized.
pub fn star_color_value(i: i64) -> (rgb: (i64, i64, i64))
    requires
        0 <= i < 12,
    ensures
        rgb.0 == color_fx(star_red(i as int)),
        rgb.1 == color_fx(star_green(i as int)),
        rgb.2 == color_fx(star_blue(i as int)),
{
    let r: i64 = if i == 0 {
        231
    } else if i == 1 {
        245
    } else if i == 2 {
        254
    } else if i == 3 {
        255
    } else if i == 4 {
        255
    } else if i == 5 {
        255
    } else if i == 6 {
        255
    } else if i == 7 {
        247
    } else if i == 8 {
        238
    } else if i == 9 {
        223
    } else if i == 10 {
        197
    } else {
        175
    };
    let g: i64 = if i == 0 {
        236
    } else if i == 1 {
        247
    } else if i == 2 {
        254
    } else if i == 3 {
        251
    } else if i == 4 {
        243
    } else if i == 5 {
        212
    } else if i == 6 {
        163
    } else if i == 7 {
        128
    } else if i == 8 {
        79
    } else if i == 9 {
        60
    } else if i == 10 {
        51
    } else {
        54
    };
    let b: i64 = if i == 0 {
        254
    } else if i == 1 {
        255
    } else if i == 2 {
        254
    } else if i == 3 {
        229
    } else if i == 4 {
        189
    } else if i == 5 {
        138
    } else if i == 6 {
        138
    } else if i == 7 {
        95
    } else if i == 8 {
        58
    } else if i == 9 {
        38
    } else if i == 10 {
        32
    } else {
        39
    };
    (div_trunc(r * FX_ONE, 255), div_trunc(g * FX_ONE, 255), div_trunc(b * FX_ONE, 255))
}

/// The scale drawn for the particle whose draws start at state `s`.
#[verifier::opaque]
pub open spec fn star_scale(s: u64) -> int {
    scale_of(draw_below(s, 4))
}

/// The particle's distance from the core: a uniform raw sample in
/// `[0, scale)`, squared, which biases density toward the center.
#[verifier::opaque]
pub open spec fn star_dist(s: u64) -> int {
    let d0 = draw_below(sm_state_after(s, 1), star_scale(s));
    fx_mul_s(d0, d0)
}

/// The particle's raw angle before arm quantization.
#[verifier::opaque]
pub open spec fn star_base_angle(s: u64) -> int {
    fx_mul_s(draw_below(sm_state_after(s, 2), star_scale(s)), TWO_PI_FX as int)
}

/// The particle's arm offset: a recentered uniform sample scaled by
/// `arm_offset_max`, divided by the distance (arms tighten toward the core;
/// at distance exactly zero the offset is zero rather than a division), then
/// squared with its sign preserved.
#[verifier::opaque]
pub open spec fn star_arm_offset(cfg: GalaxyConfig, s: u64) -> int {
    let o0 = draw_below(sm_state_after(s, 3), star_scale(s));
    let off = fx_mul_s(o0, cfg.arm_offset_max as int) - div_t(cfg.arm_offset_max as int, 2);
    let dist = star_dist(s);
    if dist == 0 {
        0
    } else {
        let q = fx_div_s(off, dist);
        if q < 0 {
            -fx_mul_s(q, q)
        } else {
            fx_mul_s(q, q)
        }
    }
}

/// The particle's final polar angle: the base angle quantized down to its
/// arm, plus the arm offset, plus the radial differential rotation
/// `dist * rotation_factor` that bends rays into spiral arms.
#[verifier::opaque]
pub open spec fn star_angle(cfg: GalaxyConfig, s: u64) -> int {
    let sep = cfg.arm_separation_dist as int;
    (star_base_angle(s) / sep) * sep + star_arm_offset(cfg, s) + fx_mul_s(
        star_dist(s),
        cfg.rotation_factor as int,
    )
}

/// The particle's world X: polar to Cartesian plus axis jitter.
#[verifier::opaque]
pub open spec fn star_x(cfg: GalaxyConfig, s: u64) -> int {
    fx_mul_s(cos_fx_s(star_angle(cfg, s)), star_dist(s)) + fx_mul_s(
        draw_below(sm_state_after(s, 4), star_scale(s)),
        cfg.random_offset_xy as int,
    )
}

/// The particle's world Y: polar to Cartesian plus axis jitter.
#[verifier::opaque]
pub open spec fn star_y(cfg: GalaxyConfig, s: u64) -> int {
    fx_mul_s(sin_fx_s(star_angle(cfg, s)), star_dist(s)) + fx_mul_s(
        draw_below(sm_state_after(s, 5), star_scale(s)),
        cfg.random_offset_xy as int,
    )
}

/// The particle's own spin: a uniform rotation in `[0, pi)` radians.
#[verifier::opaque]
pub open spec fn star_spin(s: u64) -> int {
    draw_below(sm_state_after(s, 6), PI_FX as int)
}

/// The particle's color palette index.
#[verifier::opaque]
pub open spec fn star_color_idx(s: u64) -> int {
    draw_below(sm_state_after(s, 7), 12)
}

/// The X translation of the particle's instance transform: the quad is
/// anchored so its center lands on `(star_x, star_y)`.
#[verifier::opaque]
pub open spec fn star_tx(cfg: GalaxyConfig, s: u64) -> int {
    div_t(star_scale(s), 2) + star_x(cfg, s)
}

/// The Y translation of the particle's instance transform.
#[verifier::opaque]
pub open spec fn star_ty(cfg: GalaxyConfig, s: u64) -> int {
    div_t(star_scale(s), 2) + star_y(cfg, s)
}

/// Entry `j` (of 19) of the particle whose draws start at state `s`:
/// the 16 column-major entries of its instance transform, then its RGB
/// color.
#[verifier::opaque]
pub open spec fn particle_entry(cfg: GalaxyConfig, s: u64, j: int) -> int {
    let sc = star_scale(s);
    let c = cos_fx_s(star_spin(s));
    let sn = sin_fx_s(star_spin(s));
    if j == 0 {
        fx_mul_s(c, sc)
    } else if j == 1 {
        fx_mul_s(sn, sc)
    } else if j == 4 {
        -fx_mul_s(sn, sc)
    } else if j == 5 {
        fx_mul_s(c, sc)
    } else if j == 12 {
        star_tx(cfg, s)
    } else if j == 13 {
        star_ty(cfg, s)
    } else if j == 15 {
        FX_ONE as int
    } else if j == 16 {
        color_fx(star_red(star_color_idx(s)))
    } else if j == 17 {
        color_fx(star_green(star_color_idx(s)))
    } else if j == 18 {
        color_fx(star_blue(star_color_idx(s)))
    } else {
        0
    }
}

/// Entry `k` of the whole buffer: particle `k / 19`, entry `k % 19`, with
/// each particle's draws starting 8 states after the previous one's.
#[verifier::opaque]
pub open spec fn galaxy_entry(cfg: GalaxyConfig, s0: u64, k: int) -> int {
    particle_entry(cfg, sm_state_after(s0, (8 * (k / 19)) as nat), k % 19)
}

/// The state the last emitted particle's draws start at.
pub open spec fn last_star_state(cfg: GalaxyConfig, s0: u64) -> u64 {
    sm_state_after(s0, (8 * (cfg.count() - 1)) as nat)
}

/// A normalized palette byte lies within `[0, FX_ONE]`.
pub proof fn lemma_color_fx_range(b: int)
    requires
        0 <= b <= 255,
    ensures
        0 <= color_fx(b) <= FX_ONE as int,
{
    vstd::arithmetic::div_mod::lemma_div_pos_is_pos(b * (FX_ONE as int), 255);
    vstd::arithmetic::div_mod::lemma_div_is_ordered(b * (FX_ONE as int), 255 * (FX_ONE as int), 255);
}

/// The bounds every intermediate of one particle obeys, given a
/// configuration within bounds.
pub proof fn lemma_star_bounds(cfg: GalaxyConfig, s: u64)
    requires
        cfg.bounds(),
    ensures
        16 * (FX_ONE as int) <= star_scale(s) <= 128 * (FX_ONE as int),
        0 <= star_dist(s) <= 0x4000_0000,
        -(128 * (FX_ONE as int)) <= fx_mul_s(cos_fx_s(star_spin(s)), star_scale(s)) <= 128 * (
        FX_ONE as int),
        -(128 * (FX_ONE as int)) <= fx_mul_s(sin_fx_s(star_spin(s)), star_scale(s)) <= 128 * (
        FX_ONE as int),
        -(ENTRY_MAX as int) <= star_tx(cfg, s) <= ENTRY_MAX as int,
        -(ENTRY_MAX as int) <= star_ty(cfg, s) <= ENTRY_MAX as int,
        0 <= star_color_idx(s) < 12,
{
    reveal(star_scale);
    reveal(star_dist);
    reveal(star_x);
    reveal(star_y);
    reveal(star_spin);
    reveal(star_color_idx);
    reveal(star_tx);
    reveal(star_ty);
    let one = FX_ONE as int;
    crate::rng::lemma_draw_below_range(s, 4);
    let sc = star_scale(s);
    crate::rng::lemma_draw_below_range(sm_state_after(s, 1), sc);
    crate::rng::lemma_draw_below_range(sm_state_after(s, 4), sc);
    crate::rng::lemma_draw_below_range(sm_state_after(s, 5), sc);
    crate::rng::lemma_draw_below_range(sm_state_after(s, 6), PI_FX as int);
    crate::rng::lemma_draw_below_range(sm_state_after(s, 7), 12);
    let d0 = draw_below(sm_state_after(s, 1), sc);
    lemma_fx_mul_bound(d0, d0, 128 * one, 128 * one);
    assert(d0 * d0 >= 0) by (nonlinear_arith)
        requires
            d0 >= 0,
    ;
    vstd::arithmetic::div_mod::lemma_div_pos_is_pos(d0 * d0, one);
    lemma_cos_fx_range(star_spin(s));
    lemma_sin_fx_range(star_spin(s));
    lemma_fx_mul_bound(cos_fx_s(star_spin(s)), sc, one, 128 * one);
    lemma_fx_mul_bound(sin_fx_s(star_spin(s)), sc, one, 128 * one);
    lemma_cos_fx_range(star_angle(cfg, s));
    lemma_sin_fx_range(star_angle(cfg, s));
    lemma_fx_mul_bound(cos_fx_s(star_angle(cfg, s)), star_dist(s), one, 0x4000_0000);
    lemma_fx_mul_bound(sin_fx_s(star_angle(cfg, s)), star_dist(s), one, 0x4000_0000);
    lemma_fx_mul_bound(
        draw_below(sm_state_after(s, 4), sc),
        cfg.random_offset_xy as int,
        128 * one,
        GAL_CFG_MAX as int,
    );
    lemma_fx_mul_bound(
        draw_below(sm_state_after(s, 5), sc),
        cfg.random_offset_xy as int,
        128 * one,
        GAL_CFG_MAX as int,
    );
    vstd::arithmetic::div_mod::lemma_div_pos_is_pos(sc, 2);
    vstd::arithmetic::div_mod::lemma_div_is_ordered(sc, 128 * one, 2);
}

/// Every entry the generator emits is bounded, and the color entries lie in
/// `[0, FX_ONE]`: no out-of-range value can reach the render boundary.
pub proof fn lemma_particle_entry_bounds(cfg: GalaxyConfig, s: u64, j: int)
    requires
        cfg.bounds(),
        0 <= j < 19,
    ensures
        -ENTRY_MAX <= particle_entry(cfg, s, j) <= ENTRY_MAX as int,
        16 <= j ==> 0 <= particle_entry(cfg, s, j) <= FX_ONE as int,
{
    reveal(particle_entry);
    lemma_star_bounds(cfg, s);
    let i = star_color_idx(s);
    lemma_color_fx_range(star_red(i));
    lemma_color_fx_range(star_green(i));
    lemma_color_fx_range(star_blue(i));
}

/// Every entry of the whole buffer model is bounded, colors within
/// `[0, FX_ONE]`.
pub proof fn lemma_galaxy_entry_bounds(cfg: GalaxyConfig, s0: u64, k: int)
    requires
        cfg.bounds(),
        0 <= k,
    ensures
        -ENTRY_MAX <= galaxy_entry(cfg, s0, k) <= ENTRY_MAX as int,
        k % 19 >= 16 ==> 0 <= galaxy_entry(cfg, s0, k) <= FX_ONE as int,
{
    reveal(galaxy_entry);
    vstd::arithmetic::div_mod::lemma_mod_bound(k, 19);
    lemma_particle_entry_bounds(cfg, sm_state_after(s0, (8 * (k / 19)) as nat), k % 19);
}

/// Emits one particle: advances the random source by its eight draws,
/// appends the particle's 19 buffer entries, and returns its instance
/// transform.
#[verifier::rlimit(40)]
fn emit_star(galaxy_consts: GalaxyConfig, sep: i64, rng: &mut SplitMix64, buf: &mut Vec<i64>) -> (m:
    Mat4)
    requires
        galaxy_consts.bounds(),
        galaxy_consts.valid(),
        sep == galaxy_consts.arm_separation_dist,
    ensures
        final(rng).state == sm_state_after(old(rng).state, 8),
        final(buf)@.len() == old(buf)@.len() + 19,
        forall|j: int| 0 <= j < old(buf)@.len() ==> final(buf)@[j] == old(buf)@[j],
        forall|j: int|
            0 <= j < 19 ==> #[trigger] final(buf)@[old(buf)@.len() + j] as int == particle_entry(
                galaxy_consts,
                old(rng).state,
                j,
            ),
        is_srt(
            m,
            star_scale(old(rng).state),
            star_scale(old(rng).state),
            star_spin(old(rng).state),
            star_tx(galaxy_consts, old(rng).state),
            star_ty(galaxy_consts, old(rng).state),
        ),
{
    let ghost si = rng.state;
    let ghost prev_buf = buf@;
    proof {
        crate::rng::lemma_sm_chain(si);
    }
    let idx = rng.next_below(4);
    let scale = scale_value(idx);
    let d0 = rng.next_below(scale);
    let a0 = rng.next_below(scale);
    let o0 = rng.next_below(scale);
    let jx = rng.next_below(scale);
    let jy = rng.next_below(scale);
    let spin = rng.next_below(PI_FX);
    let cidx = rng.next_below(12);
    proof {
        reveal(star_scale);
        assert(scale as int == star_scale(si));
        assert(d0 as int == draw_below(sm_state_after(si, 1), star_scale(si)));
    }
    let dist = fx_mul(d0, d0);
    proof {
        assert(d0 * d0 >= 0) by (nonlinear_arith)
            requires
                d0 >= 0,
        ;
        vstd::arithmetic::div_mod::lemma_div_pos_is_pos(d0 * d0, FX_ONE as int);
        lemma_fx_mul_bound(d0 as int, d0 as int, 128 * (FX_ONE as int), 128 * (FX_ONE as int));
        assert(dist as int == star_dist(si)) by {
            reveal(star_dist);
        }
    }
    let base = fx_mul(a0, TWO_PI_FX);
    proof {
        assert(a0 * TWO_PI_FX >= 0) by (nonlinear_arith)
            requires
                a0 >= 0,
        ;
        vstd::arithmetic::div_mod::lemma_div_pos_is_pos(a0 as int * (TWO_PI_FX as int), FX_ONE as int);
        lemma_fx_mul_bound(a0 as int, TWO_PI_FX as int, 128 * (FX_ONE as int), TWO_PI_FX as int);
        assert(base as int == star_base_angle(si)) by {
            reveal(star_base_angle);
        }
    }
    proof {
        lemma_fx_mul_bound(
            o0 as int,
            galaxy_consts.arm_offset_max as int,
            128 * (FX_ONE as int),
            GAL_CFG_MAX as int,
        );
        lemma_div_t_bound(galaxy_consts.arm_offset_max as int, 2, GAL_CFG_MAX as int);
    }
    let off = fx_mul(o0, galaxy_consts.arm_offset_max) - fx_half(galaxy_consts.arm_offset_max);
    let arm_off: i128 = if dist == 0 {
        0
    } else {
        let q = fx_div(off, dist);
        proof {
            lemma_div_t_bound(off as int * (FX_ONE as int), dist as int, 0x4_0000_0000_0000);
            assert(0 <= q as int * q as int <= 0x10_0000_0000_0000_0000_0000_0000)
                by (nonlinear_arith)
                requires
                    -0x4_0000_0000_0000 <= q as int <= 0x4_0000_0000_0000,
            ;
        }
        let qi: i128 = q as i128;
        let qq: i128 = qi * qi;
        let sq: i128 = ((qq as u128) / (FX_ONE as u128)) as i128;
        if q < 0 {
            -sq
        } else {
            sq
        }
    };
    proof {
        assert(arm_off as int == star_arm_offset(galaxy_consts, si)) by {
            reveal(star_arm_offset);
        }
    }
    let rot = fx_mul(dist, galaxy_consts.rotation_factor);
    proof {
        lemma_fx_mul_bound(
            dist as int,
            galaxy_consts.rotation_factor as int,
            0x4000_0000,
            GAL_CFG_MAX as int,
        );
    }
    let bq = div_trunc(base, sep);
    proof {
        vstd::arithmetic::div_mod::lemma_fundamental_div_mod(base as int, sep as int);
        vstd::arithmetic::div_mod::lemma_mod_bound(base as int, sep as int);
        assert(bq as int * sep as int == sep as int * bq as int) by (nonlinear_arith);
    }
    let quant = bq * sep;
    let angle_total: i128 = quant as i128 + arm_off + rot as i128;
    proof {
        assert(angle_total as int == star_angle(galaxy_consts, si)) by {
            reveal(star_angle);
        }
    }
    let ang = mod_two_pi_i128(angle_total);
    let c = cos_fx(ang);
    let sn = sin_fx(ang);
    proof {
        crate::trig::lemma_trig_mod(angle_total as int);
        assert(c as int == cos_fx_s(star_angle(galaxy_consts, si)));
        assert(sn as int == sin_fx_s(star_angle(galaxy_consts, si)));
        lemma_fx_mul_bound(c as int, dist as int, FX_ONE as int, 0x4000_0000);
        lemma_fx_mul_bound(sn as int, dist as int, FX_ONE as int, 0x4000_0000);
        lemma_fx_mul_bound(
            jx as int,
            galaxy_consts.random_offset_xy as int,
            128 * (FX_ONE as int),
            GAL_CFG_MAX as int,
        );
        lemma_fx_mul_bound(
            jy as int,
            galaxy_consts.random_offset_xy as int,
            128 * (FX_ONE as int),
            GAL_CFG_MAX as int,
        );
    }
    let x = fx_mul(c, dist) + fx_mul(jx, galaxy_consts.random_offset_xy);
    let y = fx_mul(sn, dist) + fx_mul(jy, galaxy_consts.random_offset_xy);
    let tx = fx_half(scale) + x;
    let ty = fx_half(scale) + y;
    proof {
        vstd::arithmetic::div_mod::lemma_div_pos_is_pos(scale as int, 2);
        vstd::arithmetic::div_mod::lemma_div_is_ordered(scale as int, 128 * (FX_ONE as int), 2);
        assert(x as int == star_x(galaxy_consts, si) && y as int == star_y(galaxy_consts, si))
            by {
            reveal(star_x);
            reveal(star_y);
        }
        assert(tx as int == star_tx(galaxy_consts, si) && ty as int == star_ty(
            galaxy_consts,
            si,
        )) by {
            reveal(star_tx);
            reveal(star_ty);
        }
    }
    let m = transform2d(Vec2::new(scale, scale), spin, Vec2::new(tx, ty));
    m.push_cols(buf);
    let rgb = star_color_value(cidx);
    buf.push(rgb.0);
    buf.push(rgb.1);
    buf.push(rgb.2);
    proof {
        assert(spin as int == star_spin(si)) by {
            reveal(star_spin);
        }
        assert(cidx as int == star_color_idx(si)) by {
            reveal(star_color_idx);
        }
        assert forall|j: int| 0 <= j < 19 implies #[trigger] buf@[prev_buf.len() + j] as int
            == particle_entry(galaxy_consts, si, j) by {
            reveal(particle_entry);
            assert(buf@ == prev_buf + crate::mat4::cols_seq(m) + seq![rgb.0] + seq![rgb.1]
                + seq![rgb.2]);
        }
    }
    m
}

/// Generates the galaxy: for each particle, 16 instance-transform entries
/// then 3 color entries, 19 per particle in one flat buffer, each one the
/// exact `galaxy_entry` of the configuration and the random source's
/// starting state. The returned matrix is the last particle's transform,
/// kept for single-sprite callers; an invalid configuration (no particles,
/// no arms, or no separation) yields the empty buffer and the identity.
pub fn generate_galaxy_vectors(galaxy_consts: GalaxyConfig, rng: &mut SplitMix64) -> (out: (
    Mat4,
    Vec<i64>,
))
    requires
        galaxy_consts.bounds(),
    ensures
        final(rng).state == sm_state_after(old(rng).state, (8 * galaxy_consts.count()) as nat),
        out.1@.len() == 19 * galaxy_consts.count(),
        forall|k: int|
            0 <= k < out.1@.len() ==> #[trigger] out.1@[k] as int == galaxy_entry(
                galaxy_consts,
                old(rng).state,
                k,
            ),
        forall|k: int| 0 <= k < out.1@.len() ==> -ENTRY_MAX <= #[trigger] out.1@[k] <= ENTRY_MAX,
        forall|k: int|
            0 <= k < out.1@.len() && k % 19 >= 16 ==> 0 <= #[trigger] out.1@[k] <= FX_ONE,
        !galaxy_consts.valid() ==> is_identity(out.0),
        galaxy_consts.valid() ==> is_srt(
            out.0,
            star_scale(last_star_state(galaxy_consts, old(rng).state)),
            star_scale(last_star_state(galaxy_consts, old(rng).state)),
            star_spin(last_star_state(galaxy_consts, old(rng).state)),
            star_tx(galaxy_consts, last_star_state(galaxy_consts, old(rng).state)),
            star_ty(galaxy_consts, last_star_state(galaxy_consts, old(rng).state)),
        ),
{
    let ghost s0 = rng.state;
    let mut transf = Mat4::identity();
    let mut buf: Vec<i64> = Vec::new();
    if galaxy_consts.size < 1 || galaxy_consts.arm_numb < 1 || galaxy_consts.arm_separation_dist
        < 1 {
        return (transf, buf);
    }
    let sep = galaxy_consts.arm_separation_dist;
    let n: usize = galaxy_consts.size as usize;
    let mut i: usize = 0;
    while i < n
        invariant
            galaxy_consts.bounds(),
            galaxy_consts.valid(),
            sep == galaxy_consts.arm_separation_dist,
            n == galaxy_consts.size as int,
            n == galaxy_consts.count(),
            0 <= i <= n,
            rng.state == sm_state_after(s0, (8 * i) as nat),
            buf@.len() == 19 * i,
            forall|k: int|
                0 <= k < 19 * i ==> #[trigger] buf@[k] as int == galaxy_entry(
                    galaxy_consts,
                    s0,
                    k,
                ),
            i == 0 ==> is_identity(transf),
            i >= 1 ==> is_srt(
                transf,
                star_scale(sm_state_after(s0, (8 * (i - 1)) as nat)),
                star_scale(sm_state_after(s0, (8 * (i - 1)) as nat)),
                star_spin(sm_state_after(s0, (8 * (i - 1)) as nat)),
                star_tx(galaxy_consts, sm_state_after(s0, (8 * (i - 1)) as nat)),
                star_ty(galaxy_consts, sm_state_after(s0, (8 * (i - 1)) as nat)),
            ),
        decreases n - i,
    {
        let ghost si = rng.state;
        let ghost prev_len = buf@.len();
        transf = emit_star(galaxy_consts, sep, rng, &mut buf);
        proof {
            crate::rng::lemma_sm_compose(s0, (8 * i) as nat, 8);
            assert forall|k: int| 0 <= k < 19 * (i + 1) implies #[trigger] buf@[k] as int
                == galaxy_entry(galaxy_consts, s0, k) by {
                if k >= 19 * i {
                    let j = k - 19 * i;
                    assert(buf@[prev_len + j] as int == particle_entry(galaxy_consts, si, j));
                    assert(k == prev_len + j);
                    vstd::arithmetic::div_mod::lemma_fundamental_div_mod_converse_mod(
                        k,
                        19,
                        i as int,
                        j,
                    );
                    vstd::arithmetic::div_mod::lemma_fundamental_div_mod_converse_div(
                        k,
                        19,
                        i as int,
                        j,
                    );
                    assert(buf@[k] as int == particle_entry(galaxy_consts, si, j));
                    assert(galaxy_entry(galaxy_consts, s0, k) == particle_entry(
                        galaxy_consts,
                        si,
                        j,
                    )) by {
                        reveal(galaxy_entry);
                    }
                } else {
                    assert(buf@[k] as int == galaxy_entry(galaxy_consts, s0, k));
                }
            }
        }
        i = i + 1;
    }
    proof {
        assert forall|k: int| 0 <= k < buf@.len() implies -ENTRY_MAX <= #[trigger] buf@[k]
            <= ENTRY_MAX && (k % 19 >= 16 ==> 0 <= buf@[k] <= FX_ONE) by {
            lemma_galaxy_entry_bounds(galaxy_consts, s0, k);
        }
    }
    (transf, buf)
}

/// The affine transform `T(translate) * R_z(rot_angle) * S(scale)`, as one
/// matrix. The translation is used as given; callers anchor it themselves.
pub fn transform2d(scale: Vec2, rot_angle: i64, translate: Vec2) -> (m: Mat4)
    requires
        scale.bounded(FX_OP_MAX as int),
        rot_angle + crate::fixed::HALF_PI_FX <= i64::MAX,
    ensures
        is_srt(
            m,
            scale.x as int,
            scale.y as int,
            rot_angle as int,
            translate.x as int,
            translate.y as int,
        ),
{
    Mat4::from_scale_rotation_translation(scale, rot_angle, translate)
}

} // verus!
