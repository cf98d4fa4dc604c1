//! Fixed-point sine for the oscillators.
//!
//! A phase is a `u64` below [`PHASE_ONE`] (two to the thirty-second)
//! standing for a position in `[0, 1)` of a full cycle. The sine is the
//! classic refined parabola: a parabola over each half cycle, sharpened
//! by a weighted square so the peak is exactly 1.0 in Q16.

use vstd::prelude::*;
use crate::fixed::FX_ONE;

verus! {

/// One full cycle of phase: two to the thirty-second.
pub const PHASE_ONE: u64 = 4294967296;

/// Half a cycle of phase.
pub const HALF_PHASE: u64 = 2147483648;

/// The positive half wave over `p` in `[0, HALF_PHASE)`, in Q16.
pub open spec fn half_sine_spec(p: int) -> int {
    let yq = p / 65536;
    let s1 = (4 * (yq * (32768 - yq))) / 32768;
    2 * ((25395 * s1 + 7373 * ((s1 * s1) / 32768)) / 32768)
}

/// Sine of a phase in `[0, PHASE_ONE)`, in Q16.
#[verifier::opaque]
pub open spec fn sin_fx_spec(phase: int) -> int {
    if phase < HALF_PHASE {
        half_sine_spec(phase)
    } else {
        -half_sine_spec(phase - HALF_PHASE)
    }
}

/// The positive half wave, computed exactly as `half_sine_spec` says.
fn half_sine(p: u64) -> (r: i64)
    requires
        p < HALF_PHASE,
    ensures
        r == half_sine_spec(p as int),
        0 <= r <= FX_ONE,
{
    let yq: u64 = p / 65536;
    proof {
        vstd::arithmetic::div_mod::lemma_div_is_ordered(p as int, 2147483647, 65536);
        vstd::arithmetic::div_mod::lemma_fundamental_div_mod_converse(2147483647, 65536, 32767, 65535);
    }
    assert(yq * (32768 - yq) <= 268435456) by (nonlinear_arith)
        requires
            0 <= yq <= 32767,
    ;
    let arch: u64 = 4 * (yq * (32768 - yq));
    let s1: u64 = arch / 32768;
    proof {
        vstd::arithmetic::div_mod::lemma_div_is_ordered(arch as int, 1073741824, 32768);
        vstd::arithmetic::div_mod::lemma_fundamental_div_mod_converse(1073741824, 32768, 32768, 0);
    }
    assert(s1 * s1 <= 1073741824) by (nonlinear_arith)
        requires
            0 <= s1 <= 32768,
    ;
    let s2: u64 = (s1 * s1) / 32768;
    proof {
        vstd::arithmetic::div_mod::lemma_div_is_ordered((s1 * s1) as int, 1073741824, 32768);
        vstd::arithmetic::div_mod::lemma_fundamental_div_mod_converse(1073741824, 32768, 32768, 0);
    }
    let r: u64 = (25395 * s1 + 7373 * s2) / 32768;
    proof {
        vstd::arithmetic::div_mod::lemma_div_is_ordered(
            (25395 * s1 + 7373 * s2) as int,
            1073741824,
            32768,
        );
        vstd::arithmetic::div_mod::lemma_fundamental_div_mod_converse(1073741824, 32768, 32768, 0);
    }
    (2 * r) as i64
}

/// Sine of a wrapped phase: `sin_fx_spec` computed exactly, the result
/// bounded by one in Q16.
pub fn sin_fx(phase: u64) -> (r: i64)
    requires
        phase < PHASE_ONE,
    ensures
        r == sin_fx_spec(phase as int),
        -FX_ONE <= r <= FX_ONE,
{
    proof {
        reveal(sin_fx_spec);
    }
    if phase < HALF_PHASE {
        half_sine(phase)
    } else {
        let h = half_sine(phase - HALF_PHASE);
        -h
    }
}

} // verus!
