//! A small seedable random source.
//!
//! The generator takes its randomness from an explicit, seedable source so
//! that a given configuration and seed always reproduce the same point
//! cloud. The mixer is SplitMix64: one 64-bit additive counter whose value
//! is scrambled by two xor-shift-multiply rounds per draw. Every step is
//! ordinary verified integer code; the spec functions below are the exact
//! model of each draw.

use vstd::prelude::*;

use vstd::wrapping::u64_specs;

verus! {

/// The odd additive constant of SplitMix64 (the golden ratio in 0.64
/// fixed point).
pub const SM_GAMMA: u64 = 0x9E3779B97F4A7C15;

/// First multiplier of the SplitMix64 output mix.
pub const SM_MUL_1: u64 = 0xBF58476D1CE4E5B9;

/// Second multiplier of the SplitMix64 output mix.
pub const SM_MUL_2: u64 = 0x94D049BB133111EB;

/// The state after one draw.
pub open spec fn sm_next_state(s: u64) -> u64 {
    u64_specs::wrapping_add(s, SM_GAMMA)
}

/// The output mix applied to a state.
#[verifier::opaque]
pub open spec fn sm_mix_s(z0: u64) -> u64 {
    let z1 = u64_specs::wrapping_mul(z0 ^ (z0 >> 30), SM_MUL_1);
    let z2 = u64_specs::wrapping_mul(z1 ^ (z1 >> 27), SM_MUL_2);
    z2 ^ (z2 >> 31)
}

/// The value drawn when the state `s` is advanced once.
#[verifier::opaque]
pub open spec fn sm_out(s: u64) -> u64 {
    sm_mix_s(sm_next_state(s))
}

/// The state after `k` draws.
pub open spec fn sm_state_after(s: u64, k: nat) -> u64
    decreases k,
{
    if k == 0 {
        s
    } else {
        sm_next_state(sm_state_after(s, (k - 1) as nat))
    }
}

/// The draw from state `s` reduced below a positive bound `m`.
#[verifier::opaque]
pub open spec fn draw_below(s: u64, m: int) -> int {
    (sm_out(s) as int) % m
}

/// A seedable SplitMix64 random source.
#[derive(Clone, Copy, Debug, PartialEq, Eq, Structural)]
pub struct SplitMix64 {
    pub state: u64,
}

impl SplitMix64 {
    /// A source that will replay the draws determined by `seed`.
    pub fn new(seed: u64) -> (r: SplitMix64)
        ensures
            r.state == seed,
    {
        SplitMix64 { state: seed }
    }

    /// The next raw 64-bit draw.
    pub fn next_u64(&mut self) -> (r: u64)
        ensures
            final(self).state == sm_next_state(old(self).state),
            r == sm_out(old(self).state),
    {
        proof {
            reveal(sm_out);
            reveal(sm_mix_s);
        }
        self.state = self.state.wrapping_add(SM_GAMMA);
        let z0: u64 = self.state;
        let z1: u64 = (z0 ^ (z0 >> 30)).wrapping_mul(SM_MUL_1);
        let z2: u64 = (z1 ^ (z1 >> 27)).wrapping_mul(SM_MUL_2);
        z2 ^ (z2 >> 31)
    }

    /// The next draw reduced below a positive bound, as a fixed-point-ready
    /// scalar.
    pub fn next_below(&mut self, m: i64) -> (r: i64)
        requires
            1 <= m,
        ensures
            final(self).state == sm_next_state(old(self).state),
            r == draw_below(old(self).state, m as int),
            0 <= r < m,
    {
        proof {
            reveal(draw_below);
        }
        let v = self.next_u64();
        let rem: u64 = v % (m as u64);
        rem as i64
    }
}

/// Advancing by `a + b` draws is advancing by `a`, then by `b`.
pub proof fn lemma_sm_compose(s: u64, a: nat, b: nat)
    ensures
        sm_state_after(s, a + b) == sm_state_after(sm_state_after(s, a), b),
    decreases b,
{
    if b > 0 {
        lemma_sm_compose(s, a, (b - 1) as nat);
    }
}

/// The first eight states of a draw sequence, unfolded: what one particle's
/// worth of draws walks through.
pub proof fn lemma_sm_chain(s: u64)
    ensures
        sm_state_after(s, 0) == s,
        sm_state_after(s, 1) == sm_next_state(s),
        sm_state_after(s, 2) == sm_next_state(sm_state_after(s, 1)),
        sm_state_after(s, 3) == sm_next_state(sm_state_after(s, 2)),
        sm_state_after(s, 4) == sm_next_state(sm_state_after(s, 3)),
        sm_state_after(s, 5) == sm_next_state(sm_state_after(s, 4)),
        sm_state_after(s, 6) == sm_next_state(sm_state_after(s, 5)),
        sm_state_after(s, 7) == sm_next_state(sm_state_after(s, 6)),
        sm_state_after(s, 8) == sm_next_state(sm_state_after(s, 7)),
{
    assert(sm_state_after(s, 0) == s);
    assert(sm_state_after(s, 1) == sm_next_state(sm_state_after(s, 0)));
    assert(sm_state_after(s, 2) == sm_next_state(sm_state_after(s, 1)));
    assert(sm_state_after(s, 3) == sm_next_state(sm_state_after(s, 2)));
    assert(sm_state_after(s, 4) == sm_next_state(sm_state_after(s, 3)));
    assert(sm_state_after(s, 5) == sm_next_state(sm_state_after(s, 4)));
    assert(sm_state_after(s, 6) == sm_next_state(sm_state_after(s, 5)));
    assert(sm_state_after(s, 7) == sm_next_state(sm_state_after(s, 6)));
    assert(sm_state_after(s, 8) == sm_next_state(sm_state_after(s, 7)));
}

/// A reduced draw lies below its bound.
pub proof fn lemma_draw_below_range(s: u64, m: int)
    requires
        1 <= m,
    ensures
        0 <= draw_below(s, m) < m,
{
    reveal(draw_below);
    vstd::arithmetic::div_mod::lemma_mod_bound(sm_out(s) as int, m);
}

} // verus!
