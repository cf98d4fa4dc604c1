//! The engine's injectable random source: a seeded xorshift-star
//! generator.
//!
//! Randomness must be injectable so rendering is reproducible: the
//! caller seeds the generator, and every draw is pinned exactly by the
//! contracts, so equal seeds give equal streams.

use vstd::prelude::*;

verus! {

/// Multiplier of the xorshift-star output stage.
pub const RNG_MULT: u64 = 0x2545F4914F6CDD1D;

/// Fallback state for a zero seed, which xorshift would fix forever.
pub const RNG_DEFAULT_STATE: u64 = 0x9E3779B97F4A7C15;

/// The xorshift state transition.
pub open spec fn rng_step(s: u64) -> u64 {
    let a = s ^ (s >> 12);
    let b = a ^ (a << 25);
    b ^ (b >> 27)
}

/// The output drawn while stepping away from state `s`.
pub open spec fn rng_out(s: u64) -> u64 {
    (((rng_step(s) as int) * (RNG_MULT as int)) % 0x10000000000000000) as u64
}

/// The generator state after `k` draws from state `s`.
pub open spec fn rng_skip(s: u64, k: nat) -> u64
    decreases k,
{
    if k == 0 {
        s
    } else {
        rng_step(rng_skip(s, (k - 1) as nat))
    }
}

/// A deterministic pseudorandom source seeded by the caller.
pub struct Rand64 {
    pub state: u64,
}

impl Rand64 {
    /// Seed the source; a zero seed falls back to a fixed odd constant.
    pub fn new(seed: u64) -> (r: Rand64)
        ensures
            r.state == if seed == 0 {
                RNG_DEFAULT_STATE
            } else {
                seed
            },
    {
        if seed == 0 {
            Rand64 { state: RNG_DEFAULT_STATE }
        } else {
            Rand64 { state: seed }
        }
    }

    /// Draw the next word; the result and the new state are pinned.
    pub fn next_u64(&mut self) -> (r: u64)
        ensures
            final(self).state == rng_step(old(self).state),
            r == rng_out(old(self).state),
    {
        let s = self.state;
        let a: u64 = s ^ (s >> 12);
        let b: u64 = a ^ (a << 25);
        let c: u64 = b ^ (b >> 27);
        self.state = c;
        (((c as u128) * (RNG_MULT as u128)) % 0x10000000000000000) as u64
    }

    /// Draw uniformly from the closed range `[lo, hi]`: the remainder of
    /// the next word, offset by `lo`.
    pub fn next_range(&mut self, lo: i64, hi: i64) -> (r: i64)
        requires
            lo <= hi,
            -0x1000000000000 <= lo,
            hi <= 0x1000000000000,
        ensures
            final(self).state == rng_step(old(self).state),
            r == lo + (rng_out(old(self).state) as int) % (hi - lo + 1),
            lo <= r <= hi,
    {
        let span: u64 = ((hi - lo) as u64) + 1;
        let w = self.next_u64();
        let off: u64 = w % span;
        lo + (off as i64)
    }
}

} // verus!
