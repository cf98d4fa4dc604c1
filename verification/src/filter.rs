//! The reverb's filter voices: a one-pole lowpass, a modulated
//! lowpass-damped comb, and an allpass.

use vstd::prelude::*;
use crate::fixed::{
    fx_add, fx_add_spec, fx_fits, fx_mul, fx_mul_spec, fx_sub, fx_sub_spec, FX_LIMIT, FX_ONE,
};
use crate::exp::{exp_neg_q16, exp_neg_spec};
use crate::sine::{sin_fx, sin_fx_spec, PHASE_ONE};
use crate::delay::{delay_cap_spec, read_frac_spec, DelayLine};
use crate::rng::{rng_out, rng_step, Rand64};

verus! {

/// Two pi in Q16, the angular factor of the lowpass coefficient.
pub const TAU_Q16: u64 = 411775;

/// The feedback coefficient of a one-pole lowpass for a cutoff at the
/// given sample rate: `e` to the power `-2 pi fc / fs`, with the cutoff
/// clamped into `[1, fs / 2]` and the exponent argument saturated to
/// the domain of the fixed-point exponential.
pub open spec fn lpf_coeff_spec(fs: int, fc: int) -> int {
    let fcc = if fc < 1 {
        1
    } else if fc > fs / 2 {
        fs / 2
    } else {
        fc
    };
    let u0 = (411775 * fcc) / fs;
    let u = if u0 > 500000 {
        500000
    } else {
        u0
    };
    exp_neg_spec(u)
}

/// The base tap length of a voice in Q16 samples for a length in
/// tenths of milliseconds, floored to one sample.
pub open spec fn voice_base_spec(fs: int, tenth_ms: int) -> int {
    let raw = (tenth_ms * fs * 65536) / 10000;
    if raw >= 65536 {
        raw
    } else {
        65536
    }
}

/// A single-pole IIR smoothing filter: `z = a * input + b * z`.
pub struct OnePoleLpf {
    pub a: i64,
    pub b: i64,
    pub z: i64,
}

impl OnePoleLpf {
    /// Well-formed: the coefficients sum to one and the state fits.
    pub open spec fn wf(&self) -> bool {
        &&& self.a + self.b == FX_ONE
        &&& 0 <= self.b <= FX_ONE
        &&& fx_fits(self.z as int)
    }

    /// What one processed sample leaves in the state cell.
    pub open spec fn process_spec(&self, input: int) -> int {
        fx_add_spec(fx_mul_spec(self.a as int, input), fx_mul_spec(self.b as int, self.z as int))
    }

    /// Compute the clamped coefficient for a cutoff at a sample rate.
    fn coeff(sample_rate: u32, cutoff_hz: u32) -> (r: i64)
        requires
            1000 <= sample_rate <= 1000000,
        ensures
            r == lpf_coeff_spec(sample_rate as int, cutoff_hz as int),
            0 <= r <= FX_ONE,
    {
        let half: u32 = sample_rate / 2;
        let fcc: u32 = if cutoff_hz < 1 {
            1
        } else if cutoff_hz > half {
            half
        } else {
            cutoff_hz
        };
        let num: u64 = TAU_Q16 * (fcc as u64);
        proof {
            vstd::arithmetic::div_mod::lemma_div_is_ordered(
                sample_rate as int,
                1000000,
                2,
            );
        }
        let u0: u64 = num / (sample_rate as u64);
        let u: u64 = if u0 > 500000 {
            500000
        } else {
            u0
        };
        exp_neg_q16(u)
    }

    /// A fresh filter with zeroed state.
    pub fn new(sample_rate: u32, cutoff_hz: u32) -> (r: OnePoleLpf)
        requires
            1000 <= sample_rate <= 1000000,
        ensures
            r.wf(),
            r.b == lpf_coeff_spec(sample_rate as int, cutoff_hz as int),
            r.a == FX_ONE - r.b,
            r.z == 0,
    {
        let b = Self::coeff(sample_rate, cutoff_hz);
        OnePoleLpf { a: FX_ONE - b, b, z: 0 }
    }

    /// Recompute the coefficients for a new cutoff; the state cell is
    /// deliberately kept, so a live change may step audibly.
    pub fn set_cutoff(&mut self, sample_rate: u32, cutoff_hz: u32)
        requires
            old(self).wf(),
            1000 <= sample_rate <= 1000000,
        ensures
            final(self).wf(),
            final(self).b == lpf_coeff_spec(sample_rate as int, cutoff_hz as int),
            final(self).a == FX_ONE - final(self).b,
            final(self).z == old(self).z,
    {
        let b = Self::coeff(sample_rate, cutoff_hz);
        self.b = b;
        self.a = FX_ONE - b;
    }

    /// Smooth one sample through the filter and return the new state.
    pub fn process(&mut self, input: i64) -> (r: i64)
        requires
            old(self).wf(),
            fx_fits(input as int),
        ensures
            final(self).wf(),
            final(self).a == old(self).a,
            final(self).b == old(self).b,
            final(self).z == old(self).process_spec(input as int),
            r == final(self).z,
            fx_fits(r as int),
    {
        let z = fx_add(fx_mul(self.a, input), fx_mul(self.b, self.z));
        self.z = z;
        z
    }
}

/// A feedback comb voice: a delay line read at a slowly modulated
/// length, damped by a lowpass in the feedback path.
pub struct CombLpf {
    pub delay: DelayLine,
    pub feedback: i64,
    pub damp: OnePoleLpf,
    pub base_samps: i64,
    pub lfo_phase: u64,
    pub lfo_inc: u64,
    pub mod_depth: i64,
}

impl CombLpf {
    /// Well-formed comb state.
    pub open spec fn wf(&self) -> bool {
        &&& self.delay.wf()
        &&& 0 <= self.feedback <= FX_ONE
        &&& self.damp.wf()
        &&& FX_ONE <= self.base_samps <= FX_LIMIT
        &&& self.lfo_phase < PHASE_ONE
        &&& self.lfo_inc < PHASE_ONE
        &&& 0 <= self.mod_depth <= FX_LIMIT
    }

    /// The modulated tap length in Q16 samples, floored to one sample.
    pub open spec fn tap_len_spec(&self) -> int {
        let wobble = fx_mul_spec(sin_fx_spec(self.lfo_phase as int), self.mod_depth as int);
        let fr = fx_add_spec(self.base_samps as int, wobble);
        if fr < FX_ONE {
            FX_ONE as int
        } else {
            fr
        }
    }

    /// The voice output: the delay tapped at the modulated length.
    pub open spec fn out_spec(&self) -> int {
        read_frac_spec(self.delay.buf@, self.delay.widx as int, self.tap_len_spec())
    }

    /// The damped feedback sample before scaling.
    pub open spec fn damped_spec(&self) -> int {
        self.damp.process_spec(self.out_spec())
    }

    /// The sample written back into the delay for a given input.
    pub open spec fn written_spec(&self, input: int) -> int {
        fx_add_spec(input, fx_mul_spec(self.damped_spec(), self.feedback as int))
    }

    /// A fresh comb voice from a delay length in tenths of
    /// milliseconds, a feedback gain, a damping cutoff, and a
    /// modulation rate in thousandths of a hertz.
    pub fn new(
        sample_rate: u32,
        tenth_ms: u32,
        feedback: i64,
        damp_hz: u32,
        lfo_rate_mhz: u32,
    ) -> (r: CombLpf)
        requires
            1000 <= sample_rate <= 1000000,
            tenth_ms <= 10000,
            0 <= feedback <= FX_ONE,
            lfo_rate_mhz <= 1000000,
        ensures
            r.wf(),
            r.feedback == feedback,
            r.lfo_phase == 0,
            r.damp.b == lpf_coeff_spec(sample_rate as int, damp_hz as int),
            r.damp.a == FX_ONE - r.damp.b,
            r.damp.z == 0,
            r.base_samps as int == voice_base_spec(sample_rate as int, tenth_ms as int),
            r.mod_depth == ((sample_rate as int) * 65536) / 1000,
            r.lfo_inc as int == (((lfo_rate_mhz as int) * (PHASE_ONE as int)) / (
            1000 * (sample_rate as int))) % (PHASE_ONE as int),
            r.delay.buf@.len() == delay_cap_spec(sample_rate as int, tenth_ms as int),
            forall|i: int| 0 <= i < r.delay.buf@.len() ==> r.delay.buf@[i] == 0,
            r.delay.widx == 0,
    {
        let delay = DelayLine::with_tenth_ms(sample_rate, tenth_ms);
        let damp = OnePoleLpf::new(sample_rate, damp_hz);
        assert((tenth_ms as int) * (sample_rate as int) <= 10000000000) by (nonlinear_arith)
            requires
                0 <= tenth_ms <= 10000,
                0 <= sample_rate <= 1000000,
        ;
        assert(((tenth_ms as u64) * (sample_rate as u64)) * 65536
            == (tenth_ms as int) * (sample_rate as int) * 65536) by (nonlinear_arith)
            requires
                0 <= (tenth_ms as int) * (sample_rate as int) <= 10000000000,
        ;
        let base_raw: u64 = ((tenth_ms as u64) * (sample_rate as u64)) * 65536 / 10000;
        proof {
            vstd::arithmetic::div_mod::lemma_div_is_ordered(
                (((tenth_ms as u64) * (sample_rate as u64)) * 65536) as int,
                655360000000000,
                10000,
            );
            vstd::arithmetic::div_mod::lemma_fundamental_div_mod_converse(
                655360000000000,
                10000,
                65536000000,
                0,
            );
            vstd::arithmetic::div_mod::lemma_div_pos_is_pos(
                (((tenth_ms as u64) * (sample_rate as u64)) * 65536) as int,
                10000,
            );
        }
        let base_samps: i64 = if base_raw >= FX_ONE as u64 {
            base_raw as i64
        } else {
            FX_ONE
        };
        let depth: u64 = ((sample_rate as u64) * 65536) / 1000;
        proof {
            vstd::arithmetic::div_mod::lemma_div_is_ordered(
                ((sample_rate as u64) * 65536) as int,
                65536000000,
                1000,
            );
            vstd::arithmetic::div_mod::lemma_fundamental_div_mod_converse(
                65536000000,
                1000,
                65536000,
                0,
            );
            vstd::arithmetic::div_mod::lemma_div_pos_is_pos(
                ((sample_rate as u64) * 65536) as int,
                1000,
            );
        }
        let inc: u64 = (((lfo_rate_mhz as u64) * PHASE_ONE) / (1000 * (sample_rate as u64)))
            % PHASE_ONE;
        proof {
            vstd::arithmetic::div_mod::lemma_mod_division_less_than_divisor(
                (((lfo_rate_mhz as u64) * PHASE_ONE) / (1000 * (sample_rate as u64))) as int,
                PHASE_ONE as int,
            );
        }
        CombLpf {
            delay,
            feedback,
            damp,
            base_samps,
            lfo_phase: 0,
            lfo_inc: inc,
            mod_depth: depth as i64,
        }
    }

    /// Redraw the feedback gain in `[0.68, 0.9]`, the damping cutoff in
    /// `[900, 9000]` hertz, and scale the base delay length by a factor
    /// in `[0.85, 1.2]`, floored to one sample; three draws, each
    /// pinned to the random stream.
    pub fn randomize(&mut self, sample_rate: u32, rng: &mut Rand64)
        requires
            old(self).wf(),
            1000 <= sample_rate <= 1000000,
        ensures
            final(self).wf(),
            comb_redrawn(*old(self), *final(self), sample_rate as int),
            comb_drawn_at(*old(self), *final(self), sample_rate as int, old(rng).state),
            44565 <= final(self).feedback <= 58982,
            final(rng).state == rng_step(rng_step(rng_step(old(rng).state))),
    {
        let fb = rng.next_range(44565, 58982);
        self.feedback = fb;
        let cutoff = rng.next_range(900, 9000);
        self.damp.set_cutoff(sample_rate, cutoff as u32);
        let factor = rng.next_range(55706, 78643);
        let nb = fx_mul(self.base_samps, factor);
        self.base_samps = if nb < FX_ONE {
            FX_ONE
        } else {
            nb
        };
        proof {
            reveal(comb_redrawn);
            reveal(comb_drawn_at);
            assert(self.damp.b == lpf_coeff_spec(sample_rate as int, cutoff as int));
            assert(fx_mul_spec(old(self).base_samps as int, factor as int) == nb as int);
        }
    }

    /// Run one sample through the voice: tap the delay at the modulated
    /// length, advance the modulation phase, damp and scale the tap,
    /// and write input plus feedback back into the delay. Returns the
    /// tap, taken before the feedback injection.
    pub fn process(&mut self, input: i64) -> (r: i64)
        requires
            old(self).wf(),
            fx_fits(input as int),
        ensures
            final(self).wf(),
            comb_next(*old(self), *final(self), input as int),
            r == old(self).out_spec(),
            fx_fits(r as int),
            final(self).lfo_phase as int == ((old(self).lfo_phase + old(self).lfo_inc) as int)
                % (PHASE_ONE as int),
            final(self).damp.z == old(self).damped_spec(),
            final(self).delay.buf@.len() == old(self).delay.buf@.len(),
            final(self).delay.buf@[old(self).delay.widx as int] as int == old(self).written_spec(
                input as int,
            ),
            forall|i: int|
                0 <= i < old(self).delay.buf@.len() && i != old(self).delay.widx as int
                    ==> final(self).delay.buf@[i] == old(self).delay.buf@[i],
            final(self).delay.widx as int == (old(self).delay.widx + 1) % (
            old(self).delay.buf@.len() as int),
            final(self).feedback == old(self).feedback,
            final(self).base_samps == old(self).base_samps,
            final(self).lfo_inc == old(self).lfo_inc,
            final(self).mod_depth == old(self).mod_depth,
            final(self).damp.a == old(self).damp.a,
            final(self).damp.b == old(self).damp.b,
    {
        let lfo = sin_fx(self.lfo_phase);
        self.lfo_phase = (self.lfo_phase + self.lfo_inc) % PHASE_ONE;
        proof {
            vstd::arithmetic::div_mod::lemma_mod_division_less_than_divisor(
                (old(self).lfo_phase + old(self).lfo_inc) as int,
                PHASE_ONE as int,
            );
        }
        let wobble = fx_mul(lfo, self.mod_depth);
        let mixed = fx_add(self.base_samps, wobble);
        let frac: i64 = if mixed < FX_ONE {
            FX_ONE
        } else {
            mixed
        };
        let y = self.delay.read_frac(frac as u64);
        let damped = self.damp.process(y);
        let fb = fx_mul(damped, self.feedback);
        let written = fx_add(input, fb);
        self.delay.write(written);
        proof {
            reveal(comb_next);
        }
        y
    }
}

/// What one processed sample does to a comb voice's state: the
/// modulation phase advances and wraps, the damping state takes the
/// damped tap, the delay stores input plus scaled feedback at the old
/// cursor, the cursor steps circularly, and the tuning is untouched.
#[verifier::opaque]
pub open spec fn comb_next(pre: CombLpf, post: CombLpf, input: int) -> bool {
    &&& post.lfo_phase as int == ((pre.lfo_phase + pre.lfo_inc) as int) % (PHASE_ONE as int)
    &&& post.damp.z == pre.damped_spec()
    &&& post.damp.a == pre.damp.a
    &&& post.damp.b == pre.damp.b
    &&& post.delay.buf@.len() == pre.delay.buf@.len()
    &&& post.delay.buf@[pre.delay.widx as int] as int == pre.written_spec(input)
    &&& forall|i: int|
        0 <= i < pre.delay.buf@.len() && i != pre.delay.widx as int
            ==> post.delay.buf@[i] == pre.delay.buf@[i]
    &&& post.delay.widx as int == (pre.delay.widx + 1) % (pre.delay.buf@.len() as int)
    &&& post.feedback == pre.feedback
    &&& post.base_samps == pre.base_samps
    &&& post.lfo_inc == pre.lfo_inc
    &&& post.mod_depth == pre.mod_depth
}

/// What one processed sample does to an allpass voice's state: the
/// delay stores input minus the scaled tap at the old cursor, the
/// cursor steps circularly, and the tuning is untouched.
#[verifier::opaque]
pub open spec fn allpass_next(pre: Allpass, post: Allpass, input: int) -> bool {
    &&& post.delay.buf@.len() == pre.delay.buf@.len()
    &&& post.delay.buf@[pre.delay.widx as int] as int == pre.inner_spec(input)
    &&& forall|i: int|
        0 <= i < pre.delay.buf@.len() && i != pre.delay.widx as int
            ==> post.delay.buf@[i] == pre.delay.buf@[i]
    &&& post.delay.widx as int == (pre.delay.widx + 1) % (pre.delay.buf@.len() as int)
    &&& post.g == pre.g
    &&& post.base_samps == pre.base_samps
}

/// What one redraw does to a comb voice, pinned to the random stream
/// from state `s`: three successive draws set the feedback gain, the
/// damping cutoff and the delay-scale factor exactly; everything else
/// is untouched.
#[verifier::opaque]
pub open spec fn comb_drawn_at(pre: CombLpf, post: CombLpf, fs: int, s: u64) -> bool {
    &&& post.feedback == 44565 + (rng_out(s) as int) % 14418
    &&& post.damp.b == lpf_coeff_spec(fs, 900 + (rng_out(rng_step(s)) as int) % 8101)
    &&& post.damp.a == FX_ONE - post.damp.b
    &&& post.damp.z == pre.damp.z
    &&& post.base_samps as int == ({
        let factor = 55706 + (rng_out(rng_step(rng_step(s))) as int) % 22938;
        if fx_mul_spec(pre.base_samps as int, factor) < FX_ONE {
            FX_ONE as int
        } else {
            fx_mul_spec(pre.base_samps as int, factor)
        }
    })
    &&& post.delay == pre.delay
    &&& post.lfo_phase == pre.lfo_phase
    &&& post.lfo_inc == pre.lfo_inc
    &&& post.mod_depth == pre.mod_depth
}

/// What one redraw does to a comb voice: the feedback gain lands in
/// `[0.68, 0.9]`, the damping cutoff is drawn in `[900, 9000]` hertz,
/// the base delay length is scaled by a drawn factor in `[0.85, 1.2]`
/// and floored to one sample, and everything else — the delay buffer
/// and cursor, the damping state, the modulation phase, rate and depth
/// — is untouched.
#[verifier::opaque]
pub open spec fn comb_redrawn(pre: CombLpf, post: CombLpf, fs: int) -> bool {
    &&& 44565 <= post.feedback <= 58982
    &&& exists|c: int|
        900 <= c <= 9000 && post.damp.b == #[trigger] lpf_coeff_spec(fs, c)
    &&& post.damp.a == FX_ONE - post.damp.b
    &&& post.damp.z == pre.damp.z
    &&& exists|f: int|
        #![trigger fx_mul_spec(pre.base_samps as int, f)]
        55706 <= f <= 78643 && post.base_samps as int == (if fx_mul_spec(
            pre.base_samps as int,
            f,
        ) < FX_ONE {
            FX_ONE as int
        } else {
            fx_mul_spec(pre.base_samps as int, f)
        })
    &&& post.delay == pre.delay
    &&& post.lfo_phase == pre.lfo_phase
    &&& post.lfo_inc == pre.lfo_inc
    &&& post.mod_depth == pre.mod_depth
}

/// An allpass voice with a fixed coefficient and unmodulated length.
pub struct Allpass {
    pub delay: DelayLine,
    pub g: i64,
    pub base_samps: i64,
}

impl Allpass {
    /// Well-formed allpass state.
    pub open spec fn wf(&self) -> bool {
        &&& self.delay.wf()
        &&& 0 <= self.g <= FX_ONE
        &&& FX_ONE <= self.base_samps <= FX_LIMIT
    }

    /// The delayed sample the voice reads.
    pub open spec fn y_spec(&self) -> int {
        read_frac_spec(self.delay.buf@, self.delay.widx as int, self.base_samps as int)
    }

    /// The sample written back: input minus the scaled tap.
    pub open spec fn inner_spec(&self, input: int) -> int {
        fx_sub_spec(input, fx_mul_spec(self.g as int, self.y_spec()))
    }

    /// The voice output: the tap plus the scaled written sample.
    pub open spec fn out_spec(&self, input: int) -> int {
        fx_add_spec(self.y_spec(), fx_mul_spec(self.g as int, self.inner_spec(input)))
    }

    /// A fresh allpass from a delay length in tenths of milliseconds.
    pub fn new(sample_rate: u32, tenth_ms: u32, g: i64) -> (r: Allpass)
        requires
            1000 <= sample_rate <= 1000000,
            tenth_ms <= 10000,
            0 <= g <= FX_ONE,
        ensures
            r.wf(),
            r.g == g,
            r.base_samps as int == voice_base_spec(sample_rate as int, tenth_ms as int),
            r.delay.buf@.len() == delay_cap_spec(sample_rate as int, tenth_ms as int),
            forall|i: int| 0 <= i < r.delay.buf@.len() ==> r.delay.buf@[i] == 0,
            r.delay.widx == 0,
    {
        let delay = DelayLine::with_tenth_ms(sample_rate, tenth_ms);
        assert((tenth_ms as int) * (sample_rate as int) <= 10000000000) by (nonlinear_arith)
            requires
                0 <= tenth_ms <= 10000,
                0 <= sample_rate <= 1000000,
        ;
        assert(((tenth_ms as u64) * (sample_rate as u64)) * 65536
            == (tenth_ms as int) * (sample_rate as int) * 65536) by (nonlinear_arith)
            requires
                0 <= (tenth_ms as int) * (sample_rate as int) <= 10000000000,
        ;
        let base_raw: u64 = ((tenth_ms as u64) * (sample_rate as u64)) * 65536 / 10000;
        proof {
            vstd::arithmetic::div_mod::lemma_div_is_ordered(
                (((tenth_ms as u64) * (sample_rate as u64)) * 65536) as int,
                655360000000000,
                10000,
            );
            vstd::arithmetic::div_mod::lemma_fundamental_div_mod_converse(
                655360000000000,
                10000,
                65536000000,
                0,
            );
            vstd::arithmetic::div_mod::lemma_div_pos_is_pos(
                (((tenth_ms as u64) * (sample_rate as u64)) * 65536) as int,
                10000,
            );
        }
        let base_samps: i64 = if base_raw >= FX_ONE as u64 {
            base_raw as i64
        } else {
            FX_ONE
        };
        Allpass { delay, g, base_samps }
    }

    /// Run one sample through the voice.
    pub fn process(&mut self, input: i64) -> (r: i64)
        requires
            old(self).wf(),
            fx_fits(input as int),
        ensures
            final(self).wf(),
            allpass_next(*old(self), *final(self), input as int),
            r == old(self).out_spec(input as int),
            fx_fits(r as int),
            final(self).delay.buf@.len() == old(self).delay.buf@.len(),
            final(self).delay.buf@[old(self).delay.widx as int] as int == old(self).inner_spec(
                input as int,
            ),
            forall|i: int|
                0 <= i < old(self).delay.buf@.len() && i != old(self).delay.widx as int
                    ==> final(self).delay.buf@[i] == old(self).delay.buf@[i],
            final(self).delay.widx as int == (old(self).delay.widx + 1) % (
            old(self).delay.buf@.len() as int),
            final(self).g == old(self).g,
            final(self).base_samps == old(self).base_samps,
    {
        let y = self.delay.read_frac(self.base_samps as u64);
        let x = fx_sub(input, fx_mul(self.g, y));
        self.delay.write(x);
        proof {
            reveal(allpass_next);
        }
        fx_add(y, fx_mul(self.g, x))
    }
}

} // verus!
