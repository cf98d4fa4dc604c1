//! A fixed-capacity circular delay line with fractional read.
//!
//! Writes land at the cursor and advance it circularly; reads take a
//! delay length in Q16 samples, split it into whole and fractional
//! parts, index backwards from the cursor with a modulo that is never
//! negative, and interpolate linearly between the two neighbours.

use vstd::prelude::*;
use crate::fixed::{fx_fits, tdiv, tdiv_i128, FX_LIMIT, FX_ONE};

verus! {

/// A circular buffer of Q16 samples with a write cursor.
pub struct DelayLine {
    pub buf: Vec<i64>,
    pub widx: usize,
}

/// Well-formed: at least one slot, cursor inside, samples in headroom.
pub open spec fn delay_wf(buf: Seq<i64>, widx: int) -> bool {
    &&& 1 <= buf.len() <= 0x10000000
    &&& 0 <= widx < buf.len()
    &&& forall|i: int| 0 <= i < buf.len() ==> fx_fits(#[trigger] buf[i] as int)
}

/// The two tap indices and the interpolation of a fractional read.
#[verifier::opaque]
pub open spec fn read_frac_spec(buf: Seq<i64>, widx: int, delay: int) -> int {
    let len = buf.len() as int;
    let d = delay / 65536;
    let f = delay % 65536;
    let i0 = (widx - d - 1) % len;
    let i1 = (i0 + 1) % len;
    let s0 = buf[i0] as int;
    let s1 = buf[i1] as int;
    s0 + tdiv(f * (s1 - s0), 65536)
}

/// The capacity a delay line gets from a length in tenths of
/// milliseconds: rounded to the nearest sample, floored to one.
pub open spec fn delay_cap_spec(fs: int, tenth_ms: int) -> int {
    let raw = (tenth_ms * fs + 5000) / 10000;
    if raw >= 1 {
        raw
    } else {
        1
    }
}

/// Backward circular indexing agrees with the Euclidean form.
proof fn lemma_tap_index(wi: int, len: int, d: int)
    requires
        0 < len,
        0 <= wi < len,
        0 <= d,
    ensures
        (wi + len - ((d + 1) % len)) % len == (wi - d - 1) % len,
{
    let dm = (d + 1) % len;
    let q = (d + 1) / len;
    vstd::arithmetic::div_mod::lemma_fundamental_div_mod(d + 1, len);
    assert(len * (-(q + 1)) + (wi + len - dm) == wi - d - 1) by (nonlinear_arith)
        requires
            d + 1 == len * q + dm,
    ;
    vstd::arithmetic::div_mod::lemma_mod_multiples_vanish(-(q + 1), wi + len - dm, len);
}

impl DelayLine {
    /// Well-formedness of this delay line.
    pub open spec fn wf(&self) -> bool {
        delay_wf(self.buf@, self.widx as int)
    }

    /// A line of `len` zeroed slots, at least one.
    pub fn with_len(len: usize) -> (r: DelayLine)
        requires
            1 <= len <= 0x10000000,
        ensures
            r.wf(),
            r.buf@.len() == len,
            r.widx == 0,
            forall|i: int| 0 <= i < len ==> r.buf@[i] == 0,
    {
        let mut buf: Vec<i64> = Vec::new();
        let mut i: usize = 0;
        while i < len
            invariant
                i <= len,
                buf@.len() == i,
                forall|j: int| 0 <= j < i ==> buf@[j] == 0,
            decreases len - i,
        {
            buf.push(0);
            i = i + 1;
        }
        DelayLine { buf, widx: 0 }
    }

    /// Capacity from a length in tenths of milliseconds at the given
    /// sample rate, rounded to the nearest sample and floored to one.
    pub fn with_tenth_ms(sample_rate: u32, tenth_ms: u32) -> (r: DelayLine)
        requires
            sample_rate <= 1000000,
            tenth_ms <= 10000,
        ensures
            r.wf(),
            r.widx == 0,
            r.buf@.len() == delay_cap_spec(sample_rate as int, tenth_ms as int),
            forall|i: int| 0 <= i < r.buf@.len() ==> r.buf@[i] == 0,
    {
        assert((tenth_ms as int) * (sample_rate as int) <= 10000000000) by (nonlinear_arith)
            requires
                0 <= tenth_ms <= 10000,
                0 <= sample_rate <= 1000000,
        ;
        let raw: u64 = ((tenth_ms as u64) * (sample_rate as u64) + 5000) / 10000;
        proof {
            vstd::arithmetic::div_mod::lemma_div_is_ordered(
                ((tenth_ms as u64) * (sample_rate as u64) + 5000) as int,
                10000005000,
                10000,
            );
            vstd::arithmetic::div_mod::lemma_fundamental_div_mod_converse(
                10000005000, 10000, 1000000, 5000);
        }
        let len: usize = if raw >= 1 {
            raw as usize
        } else {
            1
        };
        Self::with_len(len)
    }

    /// Store a sample at the cursor and step the cursor circularly.
    pub fn write(&mut self, x: i64)
        requires
            old(self).wf(),
            fx_fits(x as int),
        ensures
            final(self).wf(),
            final(self).buf@ == old(self).buf@.update(old(self).widx as int, x),
            final(self).widx as int == (old(self).widx + 1) % (old(self).buf@.len() as int),
            final(self).buf@.len() == old(self).buf@.len(),
    {
        let ghost len = self.buf@.len() as int;
        let i = self.widx;
        self.buf.set(i, x);
        if i + 1 >= self.buf.len() {
            self.widx = 0;
            proof {
                vstd::arithmetic::div_mod::lemma_mod_self_0(len);
            }
        } else {
            self.widx = i + 1;
            proof {
                vstd::arithmetic::div_mod::lemma_small_mod((i + 1) as nat, len as nat);
            }
        }
    }

    /// Read `delay` Q16 samples behind the cursor with linear
    /// interpolation; the result stays between the two tapped samples.
    pub fn read_frac(&self, delay: u64) -> (r: i64)
        requires
            self.wf(),
            delay <= FX_LIMIT as u64,
        ensures
            r == read_frac_spec(self.buf@, self.widx as int, delay as int),
            fx_fits(r as int),
            ({
                let len = self.buf@.len() as int;
                let i0 = (self.widx - (delay as int) / 65536 - 1) % len;
                let i1 = (i0 + 1) % len;
                let s0 = self.buf@[i0] as int;
                let s1 = self.buf@[i1] as int;
                (s0 <= r <= s1) || (s1 <= r <= s0)
            }),
    {
        proof {
            reveal(read_frac_spec);
        }
        let len: u64 = self.buf.len() as u64;
        let d: u64 = delay / 65536;
        let f: u64 = delay % 65536;
        let dm: u64 = (d + 1) % len;
        proof {
            vstd::arithmetic::div_mod::lemma_mod_division_less_than_divisor((d + 1) as int, len as int);
        }
        let i0u: u64 = (self.widx as u64 + len - dm) % len;
        proof {
            vstd::arithmetic::div_mod::lemma_mod_division_less_than_divisor(
                (self.widx as u64 + len - dm) as int,
                len as int,
            );
            lemma_tap_index(self.widx as int, len as int, d as int);
        }
        let i0: usize = i0u as usize;
        let i1: usize = if i0 + 1 >= self.buf.len() {
            0
        } else {
            i0 + 1
        };
        proof {
            if i0 + 1 >= self.buf@.len() {
                vstd::arithmetic::div_mod::lemma_mod_self_0(len as int);
            } else {
                vstd::arithmetic::div_mod::lemma_small_mod((i0 + 1) as nat, len as nat);
            }
        }
        let s0: i64 = self.buf[i0];
        let s1: i64 = self.buf[i1];
        let diff: i64 = s1 - s0;
        let ghost m: int = if diff >= 0 { diff as int } else { -(diff as int) };
        assert((f as int) * (diff as int) <= m * 65536 && -(m * 65536) <= (f as int) * (diff as int))
            by (nonlinear_arith)
            requires
                0 <= f < 65536,
                m == if diff >= 0 { diff as int } else { -(diff as int) },
        ;
        let t: i128 = tdiv_i128((f as i128) * (diff as i128), 65536);
        proof {
            crate::fixed::lemma_tdiv_bound((f as int) * (diff as int), 65536, m);
            if diff >= 0 {
                vstd::arithmetic::mul::lemma_mul_nonnegative(f as int, diff as int);
                vstd::arithmetic::div_mod::lemma_div_pos_is_pos((f as int) * (diff as int), 65536);
            } else {
                assert((f as int) * (diff as int) <= 0) by (nonlinear_arith)
                    requires
                        f >= 0,
                        diff < 0,
                ;
                vstd::arithmetic::div_mod::lemma_div_pos_is_pos(-((f as int) * (diff as int)), 65536);
            }
        }
        let ti: i64 = t as i64;
        s0 + ti
    }
}

/// Reading at integer offset zero immediately after a write returns the
/// value just written.
pub proof fn lemma_read_back_just_written(buf: Seq<i64>, widx: int, x: i64)
    requires
        delay_wf(buf, widx),
    ensures
        read_frac_spec(buf.update(widx, x), (widx + 1) % (buf.len() as int), 0) == x,
{
    reveal(read_frac_spec);
    let len = buf.len() as int;
    let w2 = (widx + 1) % len;
    if widx + 1 < len {
        vstd::arithmetic::div_mod::lemma_small_mod((widx + 1) as nat, len as nat);
    } else {
        vstd::arithmetic::div_mod::lemma_mod_self_0(len);
    }
    assert(0 <= w2 < len);
    let i0 = (w2 - 0 - 1) % len;
    if w2 == 0 {
        assert(widx == len - 1);
        vstd::arithmetic::div_mod::lemma_fundamental_div_mod_converse(-1, len, -1, len - 1);
    } else {
        vstd::arithmetic::div_mod::lemma_small_mod((w2 - 1) as nat, len as nat);
    }
    assert(i0 == widx);
    assert(0int / 65536 == 0 && 0int % 65536 == 0);
    let s0 = buf.update(widx, x)[i0] as int;
    assert(s0 == x as int);
    assert(tdiv(0 * (buf.update(widx, x)[(i0 + 1) % len] as int - s0), 65536) == 0) by {
        vstd::arithmetic::div_mod::lemma_div_of0(65536);
    }
}

} // verus!
