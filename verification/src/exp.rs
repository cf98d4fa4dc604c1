//! A fixed-point negative exponential for filter and envelope
//! coefficients.
//!
//! `exp_neg_q16(u)` evaluates `e` to the power `-u / 65536` for a
//! nonnegative Q16 argument. The argument is first divided by 256, a
//! truncated series is taken in Q32, and the result is squared eight
//! times, which undoes the division; the Q32 value is then reduced to
//! Q16. Every step is exact integer arithmetic mirrored by the spec.

use vstd::prelude::*;
use crate::fixed::FX_ONE;

verus! {

/// Q32 unit for the internal exponential computation.
pub const EXP_ONE: u64 = 4294967296;

/// Largest Q16 argument the exponential accepts, a little above seven.
pub const EXP_MAX_ARG: u64 = 500000;

/// Truncated series for `e` to the power `-r`, `r` in Q32, clamped to
/// `[0, EXP_ONE]`.
pub open spec fn exp_series_spec(r: int) -> int {
    let r2 = (r * r) / 4294967296;
    let r3 = (r2 * r) / 4294967296;
    let pos = 4294967296 + r2 / 2;
    let neg = r + r3 / 6;
    if pos >= neg {
        if pos - neg > 4294967296 {
            4294967296
        } else {
            pos - neg
        }
    } else {
        0
    }
}

/// One Q32 squaring.
pub open spec fn sq_q32_spec(s: int) -> int {
    (s * s) / 4294967296
}

/// The exponential of a negated Q16 argument, as a Q16 value.
#[verifier::opaque]
pub open spec fn exp_neg_spec(u: int) -> int {
    let s0 = exp_series_spec(u * 256);
    sq_q32_spec(
        sq_q32_spec(
            sq_q32_spec(sq_q32_spec(sq_q32_spec(sq_q32_spec(sq_q32_spec(sq_q32_spec(s0)))))),
        ),
    ) / 65536
}

/// One Q32 squaring, exactly as the spec says, staying within Q32.
fn sq_q32(s: u64) -> (r: u64)
    requires
        s <= EXP_ONE,
    ensures
        r == sq_q32_spec(s as int),
        r <= EXP_ONE,
{
    assert(s * s <= 4294967296 * (s as int) && 4294967296 * (s as int)
        <= 4294967296int * 4294967296) by (nonlinear_arith)
        requires
            0 <= s <= 4294967296,
    ;
    let p: u128 = (s as u128) * (s as u128);
    proof {
        vstd::arithmetic::div_mod::lemma_div_is_ordered(p as int, 4294967296 * (s as int), 4294967296);
        vstd::arithmetic::div_mod::lemma_div_multiples_vanish(s as int, 4294967296);
    }
    (p / 4294967296) as u64
}

/// The exponential of a negated Q16 argument, computed exactly as
/// `exp_neg_spec` says; the result lies in `[0, 1]` in Q16.
pub fn exp_neg_q16(u: u64) -> (r: i64)
    requires
        u <= EXP_MAX_ARG,
    ensures
        r == exp_neg_spec(u as int),
        0 <= r <= FX_ONE,
{
    proof {
        reveal(exp_neg_spec);
    }
    let rr: u64 = u * 256;
    assert(rr * rr <= 4294967296 * (rr as int) && 4294967296 * (rr as int)
        <= 4294967296int * 4294967296) by (nonlinear_arith)
        requires
            0 <= rr <= 4294967296,
    ;
    let r2: u64 = ((rr as u128 * rr as u128) / 4294967296) as u64;
    proof {
        vstd::arithmetic::div_mod::lemma_div_is_ordered(
            (rr * rr) as int,
            4294967296 * (rr as int),
            4294967296,
        );
        vstd::arithmetic::div_mod::lemma_div_multiples_vanish(rr as int, 4294967296);
    }
    assert(r2 * rr <= 4294967296 * (r2 as int) && 4294967296 * (r2 as int)
        <= 4294967296int * 4294967296) by (nonlinear_arith)
        requires
            0 <= rr <= 4294967296,
            0 <= r2 <= 4294967296,
    ;
    let r3: u64 = ((r2 as u128 * rr as u128) / 4294967296) as u64;
    proof {
        vstd::arithmetic::div_mod::lemma_div_is_ordered(
            (r2 * rr) as int,
            4294967296 * (r2 as int),
            4294967296,
        );
        vstd::arithmetic::div_mod::lemma_div_multiples_vanish(r2 as int, 4294967296);
    }
    let pos: u64 = 4294967296 + r2 / 2;
    let neg: u64 = rr + r3 / 6;
    let s0: u64 = if pos >= neg {
        let diff: u64 = pos - neg;
        if diff > 4294967296 {
            4294967296
        } else {
            diff
        }
    } else {
        0
    };
    let s1 = sq_q32(s0);
    let s2 = sq_q32(s1);
    let s3 = sq_q32(s2);
    let s4 = sq_q32(s3);
    let s5 = sq_q32(s4);
    let s6 = sq_q32(s5);
    let s7 = sq_q32(s6);
    let s8 = sq_q32(s7);
    proof {
        vstd::arithmetic::div_mod::lemma_div_is_ordered(s8 as int, 4294967296, 65536);
        assert(4294967296int / 65536 == 65536);
        vstd::arithmetic::div_mod::lemma_div_pos_is_pos(s8 as int, 65536);
    }
    (s8 / 65536) as i64
}

} // verus!
