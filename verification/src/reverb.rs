//! A Freeverb-style stereo reverb: eight parallel comb voices per
//! channel averaged, then three serial allpass voices, with stereo
//! width mixing. The two channels use distinct, mutually prime-ish
//! delay tables so they never resonate together.

use vstd::prelude::*;
use crate::fixed::{
    clamp01_spec, fx_add, fx_add_spec, fx_clamp01, fx_fits, fx_mul, fx_mul_spec, FX_ONE,
};
use crate::filter::{
    allpass_next, comb_drawn_at, comb_next, comb_redrawn, voice_base_spec, Allpass, CombLpf,
    lpf_coeff_spec,
};
use crate::delay::delay_cap_spec;
use crate::sine::PHASE_ONE;
use crate::rng::{rng_step, Rand64};

verus! {

/// Default comb feedback: 0.82 in Q16.
pub const COMB_FEEDBACK: i64 = 53740;

/// Default damping cutoff in hertz.
pub const COMB_DAMP_HZ: u32 = 4800;

/// Delay-length modulation rate in thousandths of a hertz.
pub const COMB_LFO_MHZ: u32 = 130;

/// Allpass coefficient: 0.53 in Q16.
pub const ALLPASS_G: i64 = 34734;

/// Lower comb feedback bound drawn by randomize: at least 0.68 in Q16.
pub const FEEDBACK_LO: i64 = 44565;

/// Upper comb feedback bound drawn by randomize: at most 0.9 in Q16.
pub const FEEDBACK_HI: i64 = 58982;

/// Lower damping cutoff drawn by randomize, in hertz.
pub const DAMP_LO: i64 = 900;

/// Upper damping cutoff drawn by randomize, in hertz.
pub const DAMP_HI: i64 = 9000;

/// Lower delay-scale factor drawn by randomize: at least 0.85 in Q16.
pub const SCALE_LO: i64 = 55706;

/// Upper delay-scale factor drawn by randomize: at most 1.2 in Q16.
pub const SCALE_HI: i64 = 78643;

/// A comb voice exactly as the tuned tables build it: fresh and
/// zeroed, with the default feedback, damping and modulation, at the
/// given delay length in tenths of milliseconds.
pub open spec fn comb_tuned(c: CombLpf, fs: int, tenth_ms: int) -> bool {
    &&& c.feedback == COMB_FEEDBACK
    &&& c.damp.b == lpf_coeff_spec(fs, COMB_DAMP_HZ as int)
    &&& c.damp.a == 65536 - c.damp.b
    &&& c.damp.z == 0
    &&& c.base_samps as int == voice_base_spec(fs, tenth_ms)
    &&& c.mod_depth == (fs * 65536) / 1000
    &&& c.lfo_phase == 0
    &&& c.lfo_inc as int == (((COMB_LFO_MHZ as int) * (PHASE_ONE as int)) / (1000 * fs)) % (
    PHASE_ONE as int)
    &&& c.delay.widx == 0
    &&& c.delay.buf@.len() == delay_cap_spec(fs, tenth_ms)
    &&& forall|i: int| 0 <= i < c.delay.buf@.len() ==> c.delay.buf@[i] == 0
}

/// An allpass voice exactly as the tuned tables build it: fresh and
/// zeroed, with the default coefficient, at the given delay length.
pub open spec fn allpass_tuned(a: Allpass, fs: int, tenth_ms: int) -> bool {
    &&& a.g == ALLPASS_G
    &&& a.base_samps as int == voice_base_spec(fs, tenth_ms)
    &&& a.delay.widx == 0
    &&& a.delay.buf@.len() == delay_cap_spec(fs, tenth_ms)
    &&& forall|i: int| 0 <= i < a.delay.buf@.len() ==> a.delay.buf@[i] == 0
}

/// The left-channel share of the wet mix: `wet * (width / 2 + 1 / 2)`,
/// rounded down on the Q16 grid.
pub open spec fn wet1_spec(wet: int, width: int) -> int {
    (wet * (65536 + width)) / 131072
}

/// The crossed share of the wet mix: `wet * ((1 - width) / 2)`, rounded
/// up on the Q16 grid so both shares sum to `wet` exactly.
pub open spec fn wet2_spec(wet: int, width: int) -> int {
    (wet * (65536 - width) + 131071) / 131072
}

/// The two wet shares always sum to the wet level exactly, and neither
/// is negative.
pub proof fn lemma_wet_mix_sum(wet: int, width: int)
    requires
        0 <= wet <= 65536,
        0 <= width <= 65536,
    ensures
        wet1_spec(wet, width) + wet2_spec(wet, width) == wet,
        0 <= wet1_spec(wet, width) <= wet,
        0 <= wet2_spec(wet, width) <= wet,
{
    let n1 = wet * (65536 + width);
    let n2 = wet * (65536 - width);
    assert(n1 >= 0 && n2 >= 0 && n1 + n2 == 131072 * wet && n1 <= 131072 * wet)
        by (nonlinear_arith)
        requires
            0 <= wet <= 65536,
            0 <= width <= 65536,
            n1 == wet * (65536 + width),
            n2 == wet * (65536 - width),
    ;
    let q1 = n1 / 131072;
    let r1 = n1 % 131072;
    vstd::arithmetic::div_mod::lemma_fundamental_div_mod(n1, 131072);
    assert(n2 + 131071 == 131072 * (wet - q1) + (131071 - r1)) by (nonlinear_arith)
        requires
            n1 + n2 == 131072 * wet,
            n1 == 131072 * q1 + r1,
    ;
    vstd::arithmetic::div_mod::lemma_fundamental_div_mod_converse(
        n2 + 131071,
        131072,
        wet - q1,
        131071 - r1,
    );
    vstd::arithmetic::div_mod::lemma_div_pos_is_pos(n1, 131072);
    vstd::arithmetic::div_mod::lemma_div_is_ordered(n1, 131072 * wet, 131072);
    vstd::arithmetic::div_mod::lemma_div_multiples_vanish(wet, 131072);
}

/// The left and right wet samples for the two diffused accumulators.
pub open spec fn wet_mix_spec(acc_l: int, acc_r: int, wet: int, width: int) -> (int, int) {
    let w1 = wet1_spec(wet, width);
    let w2 = wet2_spec(wet, width);
    (
        fx_add_spec(fx_mul_spec(acc_l, w1), fx_mul_spec(acc_r, w2)),
        fx_add_spec(fx_mul_spec(acc_r, w1), fx_mul_spec(acc_l, w2)),
    )
}

/// Eight comb voices and three allpass voices per channel, with wet
/// level and stereo width, both in `[0, 1]` Q16.
pub struct StereoReverb {
    pub sample_rate: u32,
    pub c_l0: CombLpf,
    pub c_l1: CombLpf,
    pub c_l2: CombLpf,
    pub c_l3: CombLpf,
    pub c_l4: CombLpf,
    pub c_l5: CombLpf,
    pub c_l6: CombLpf,
    pub c_l7: CombLpf,
    pub c_r0: CombLpf,
    pub c_r1: CombLpf,
    pub c_r2: CombLpf,
    pub c_r3: CombLpf,
    pub c_r4: CombLpf,
    pub c_r5: CombLpf,
    pub c_r6: CombLpf,
    pub c_r7: CombLpf,
    pub a_l0: Allpass,
    pub a_l1: Allpass,
    pub a_l2: Allpass,
    pub a_r0: Allpass,
    pub a_r1: Allpass,
    pub a_r2: Allpass,
    pub wet: i64,
    pub width: i64,
}

impl StereoReverb {
    /// Well-formed reverb state.
    pub open spec fn wf(&self) -> bool {
        &&& 1000 <= self.sample_rate <= 1000000
        &&& self.c_l0.wf() && self.c_l1.wf() && self.c_l2.wf() && self.c_l3.wf()
        &&& self.c_l4.wf() && self.c_l5.wf() && self.c_l6.wf() && self.c_l7.wf()
        &&& self.c_r0.wf() && self.c_r1.wf() && self.c_r2.wf() && self.c_r3.wf()
        &&& self.c_r4.wf() && self.c_r5.wf() && self.c_r6.wf() && self.c_r7.wf()
        &&& self.a_l0.wf() && self.a_l1.wf() && self.a_l2.wf()
        &&& self.a_r0.wf() && self.a_r1.wf() && self.a_r2.wf()
        &&& 0 <= self.wet <= FX_ONE
        &&& 0 <= self.width <= FX_ONE
    }

    /// The averaged left comb bank output, before diffusion.
    pub open spec fn comb_avg_l_spec(&self) -> int {
        let s = fx_add_spec(
            fx_add_spec(
                fx_add_spec(self.c_l0.out_spec(), self.c_l1.out_spec()),
                fx_add_spec(self.c_l2.out_spec(), self.c_l3.out_spec()),
            ),
            fx_add_spec(
                fx_add_spec(self.c_l4.out_spec(), self.c_l5.out_spec()),
                fx_add_spec(self.c_l6.out_spec(), self.c_l7.out_spec()),
            ),
        );
        fx_mul_spec(s, 8192)
    }

    /// The averaged right comb bank output, before diffusion.
    pub open spec fn comb_avg_r_spec(&self) -> int {
        let s = fx_add_spec(
            fx_add_spec(
                fx_add_spec(self.c_r0.out_spec(), self.c_r1.out_spec()),
                fx_add_spec(self.c_r2.out_spec(), self.c_r3.out_spec()),
            ),
            fx_add_spec(
                fx_add_spec(self.c_r4.out_spec(), self.c_r5.out_spec()),
                fx_add_spec(self.c_r6.out_spec(), self.c_r7.out_spec()),
            ),
        );
        fx_mul_spec(s, 8192)
    }

    /// The left accumulator after the serial allpass chain.
    pub open spec fn diffused_l_spec(&self) -> int {
        self.a_l2.out_spec(self.a_l1.out_spec(self.a_l0.out_spec(self.comb_avg_l_spec())))
    }

    /// The right accumulator after the serial allpass chain.
    pub open spec fn diffused_r_spec(&self) -> int {
        self.a_r2.out_spec(self.a_r1.out_spec(self.a_r0.out_spec(self.comb_avg_r_spec())))
    }

    /// The stereo wet pair this state will emit.
    pub open spec fn out_spec(&self) -> (int, int) {
        wet_mix_spec(self.diffused_l_spec(), self.diffused_r_spec(), self.wet as int,
            self.width as int)
    }

    /// Every voice as the tuned delay tables make it, bit for bit: the
    /// two channels' distinct comb and allpass lengths in tenths of
    /// milliseconds, the default feedback, damping and diffusion
    /// coefficients, and the default mix.
    pub open spec fn tuned(&self, fs: int) -> bool {
        &&& comb_tuned(self.c_l0, fs, 503) && comb_tuned(self.c_l1, fs, 567)
        &&& comb_tuned(self.c_l2, fs, 611) && comb_tuned(self.c_l3, fs, 683)
        &&& comb_tuned(self.c_l4, fs, 731) && comb_tuned(self.c_l5, fs, 799)
        &&& comb_tuned(self.c_l6, fs, 867) && comb_tuned(self.c_l7, fs, 901)
        &&& comb_tuned(self.c_r0, fs, 531) && comb_tuned(self.c_r1, fs, 593)
        &&& comb_tuned(self.c_r2, fs, 637) && comb_tuned(self.c_r3, fs, 709)
        &&& comb_tuned(self.c_r4, fs, 759) && comb_tuned(self.c_r5, fs, 827)
        &&& comb_tuned(self.c_r6, fs, 883) && comb_tuned(self.c_r7, fs, 937)
        &&& allpass_tuned(self.a_l0, fs, 51) && allpass_tuned(self.a_l1, fs, 17)
        &&& allpass_tuned(self.a_l2, fs, 35)
        &&& allpass_tuned(self.a_r0, fs, 58) && allpass_tuned(self.a_r1, fs, 22)
        &&& allpass_tuned(self.a_r2, fs, 41)
        &&& self.wet == 32768
        &&& self.width == 58982
    }

    /// A fresh reverb with the tuned delay tables, a wet level of one
    /// half and a width of nine tenths.
    #[verifier::rlimit(100)]
    pub fn new(sample_rate: u32) -> (r: StereoReverb)
        requires
            1000 <= sample_rate <= 1000000,
        ensures
            r.wf(),
            r.sample_rate == sample_rate,
            r.tuned(sample_rate as int),
            r.wet == 32768,
            r.width == 58982,
    {
        StereoReverb {
            sample_rate,
            c_l0: CombLpf::new(sample_rate, 503, COMB_FEEDBACK, COMB_DAMP_HZ, COMB_LFO_MHZ),
            c_l1: CombLpf::new(sample_rate, 567, COMB_FEEDBACK, COMB_DAMP_HZ, COMB_LFO_MHZ),
            c_l2: CombLpf::new(sample_rate, 611, COMB_FEEDBACK, COMB_DAMP_HZ, COMB_LFO_MHZ),
            c_l3: CombLpf::new(sample_rate, 683, COMB_FEEDBACK, COMB_DAMP_HZ, COMB_LFO_MHZ),
            c_l4: CombLpf::new(sample_rate, 731, COMB_FEEDBACK, COMB_DAMP_HZ, COMB_LFO_MHZ),
            c_l5: CombLpf::new(sample_rate, 799, COMB_FEEDBACK, COMB_DAMP_HZ, COMB_LFO_MHZ),
            c_l6: CombLpf::new(sample_rate, 867, COMB_FEEDBACK, COMB_DAMP_HZ, COMB_LFO_MHZ),
            c_l7: CombLpf::new(sample_rate, 901, COMB_FEEDBACK, COMB_DAMP_HZ, COMB_LFO_MHZ),
            c_r0: CombLpf::new(sample_rate, 531, COMB_FEEDBACK, COMB_DAMP_HZ, COMB_LFO_MHZ),
            c_r1: CombLpf::new(sample_rate, 593, COMB_FEEDBACK, COMB_DAMP_HZ, COMB_LFO_MHZ),
            c_r2: CombLpf::new(sample_rate, 637, COMB_FEEDBACK, COMB_DAMP_HZ, COMB_LFO_MHZ),
            c_r3: CombLpf::new(sample_rate, 709, COMB_FEEDBACK, COMB_DAMP_HZ, COMB_LFO_MHZ),
            c_r4: CombLpf::new(sample_rate, 759, COMB_FEEDBACK, COMB_DAMP_HZ, COMB_LFO_MHZ),
            c_r5: CombLpf::new(sample_rate, 827, COMB_FEEDBACK, COMB_DAMP_HZ, COMB_LFO_MHZ),
            c_r6: CombLpf::new(sample_rate, 883, COMB_FEEDBACK, COMB_DAMP_HZ, COMB_LFO_MHZ),
            c_r7: CombLpf::new(sample_rate, 937, COMB_FEEDBACK, COMB_DAMP_HZ, COMB_LFO_MHZ),
            a_l0: Allpass::new(sample_rate, 51, ALLPASS_G),
            a_l1: Allpass::new(sample_rate, 17, ALLPASS_G),
            a_l2: Allpass::new(sample_rate, 35, ALLPASS_G),
            a_r0: Allpass::new(sample_rate, 58, ALLPASS_G),
            a_r1: Allpass::new(sample_rate, 22, ALLPASS_G),
            a_r2: Allpass::new(sample_rate, 41, ALLPASS_G),
            wet: 32768,
            width: 58982,
        }
    }

    /// Set the wet level and stereo width, both clamped into `[0, 1]`.
    pub fn set_mix(&mut self, wet: i64, width: i64)
        requires
            old(self).wf(),
        ensures
            final(self).wf(),
            final(self).wet == clamp01_spec(wet as int),
            final(self).width == clamp01_spec(width as int),
            *final(self) == (StereoReverb {
                wet: final(self).wet,
                width: final(self).width,
                ..*old(self)
            }),
    {
        self.wet = fx_clamp01(wet);
        self.width = fx_clamp01(width);
    }

    /// Run the left comb bank on one sample and average the taps.
    fn comb_bank_l(&mut self, input: i64) -> (s: i64)
        requires
            old(self).wf(),
            fx_fits(input as int),
        ensures
            final(self).wf(),
            s as int == old(self).comb_avg_l_spec(),
            fx_fits(s as int),
            comb_next(old(self).c_l0, final(self).c_l0, input as int),
            comb_next(old(self).c_l1, final(self).c_l1, input as int),
            comb_next(old(self).c_l2, final(self).c_l2, input as int),
            comb_next(old(self).c_l3, final(self).c_l3, input as int),
            comb_next(old(self).c_l4, final(self).c_l4, input as int),
            comb_next(old(self).c_l5, final(self).c_l5, input as int),
            comb_next(old(self).c_l6, final(self).c_l6, input as int),
            comb_next(old(self).c_l7, final(self).c_l7, input as int),
            final(self).c_r0 == old(self).c_r0,
            final(self).c_r1 == old(self).c_r1,
            final(self).c_r2 == old(self).c_r2,
            final(self).c_r3 == old(self).c_r3,
            final(self).c_r4 == old(self).c_r4,
            final(self).c_r5 == old(self).c_r5,
            final(self).c_r6 == old(self).c_r6,
            final(self).c_r7 == old(self).c_r7,
            final(self).a_l0 == old(self).a_l0,
            final(self).a_l1 == old(self).a_l1,
            final(self).a_l2 == old(self).a_l2,
            final(self).a_r0 == old(self).a_r0,
            final(self).a_r1 == old(self).a_r1,
            final(self).a_r2 == old(self).a_r2,
            final(self).wet == old(self).wet,
            final(self).width == old(self).width,
            final(self).sample_rate == old(self).sample_rate,
    {
        let o0 = self.c_l0.process(input);
        let o1 = self.c_l1.process(input);
        let o2 = self.c_l2.process(input);
        let o3 = self.c_l3.process(input);
        let o4 = self.c_l4.process(input);
        let o5 = self.c_l5.process(input);
        let o6 = self.c_l6.process(input);
        let o7 = self.c_l7.process(input);
        let sum = fx_add(
            fx_add(fx_add(o0, o1), fx_add(o2, o3)),
            fx_add(fx_add(o4, o5), fx_add(o6, o7)),
        );
        fx_mul(sum, 8192)
    }

    /// Run the right comb bank on one sample and average the taps.
    fn comb_bank_r(&mut self, input: i64) -> (s: i64)
        requires
            old(self).wf(),
            fx_fits(input as int),
        ensures
            final(self).wf(),
            s as int == old(self).comb_avg_r_spec(),
            fx_fits(s as int),
            comb_next(old(self).c_r0, final(self).c_r0, input as int),
            comb_next(old(self).c_r1, final(self).c_r1, input as int),
            comb_next(old(self).c_r2, final(self).c_r2, input as int),
            comb_next(old(self).c_r3, final(self).c_r3, input as int),
            comb_next(old(self).c_r4, final(self).c_r4, input as int),
            comb_next(old(self).c_r5, final(self).c_r5, input as int),
            comb_next(old(self).c_r6, final(self).c_r6, input as int),
            comb_next(old(self).c_r7, final(self).c_r7, input as int),
            final(self).c_l0 == old(self).c_l0,
            final(self).c_l1 == old(self).c_l1,
            final(self).c_l2 == old(self).c_l2,
            final(self).c_l3 == old(self).c_l3,
            final(self).c_l4 == old(self).c_l4,
            final(self).c_l5 == old(self).c_l5,
            final(self).c_l6 == old(self).c_l6,
            final(self).c_l7 == old(self).c_l7,
            final(self).a_l0 == old(self).a_l0,
            final(self).a_l1 == old(self).a_l1,
            final(self).a_l2 == old(self).a_l2,
            final(self).a_r0 == old(self).a_r0,
            final(self).a_r1 == old(self).a_r1,
            final(self).a_r2 == old(self).a_r2,
            final(self).wet == old(self).wet,
            final(self).width == old(self).width,
            final(self).sample_rate == old(self).sample_rate,
    {
        let p0 = self.c_r0.process(input);
        let p1 = self.c_r1.process(input);
        let p2 = self.c_r2.process(input);
        let p3 = self.c_r3.process(input);
        let p4 = self.c_r4.process(input);
        let p5 = self.c_r5.process(input);
        let p6 = self.c_r6.process(input);
        let p7 = self.c_r7.process(input);
        let sum = fx_add(
            fx_add(fx_add(p0, p1), fx_add(p2, p3)),
            fx_add(fx_add(p4, p5), fx_add(p6, p7)),
        );
        fx_mul(sum, 8192)
    }

    /// Run one mono sample per channel through the reverb and return
    /// the stereo wet pair, exactly as `out_spec` of the entry state.
    #[verifier::rlimit(100)]
    pub fn process(&mut self, input_l: i64, input_r: i64) -> (r: (i64, i64))
        requires
            old(self).wf(),
            fx_fits(input_l as int),
            fx_fits(input_r as int),
        ensures
            final(self).wf(),
            (r.0 as int, r.1 as int) == old(self).out_spec(),
            fx_fits(r.0 as int),
            fx_fits(r.1 as int),
            comb_next(old(self).c_l0, final(self).c_l0, input_l as int),
            comb_next(old(self).c_l1, final(self).c_l1, input_l as int),
            comb_next(old(self).c_l2, final(self).c_l2, input_l as int),
            comb_next(old(self).c_l3, final(self).c_l3, input_l as int),
            comb_next(old(self).c_l4, final(self).c_l4, input_l as int),
            comb_next(old(self).c_l5, final(self).c_l5, input_l as int),
            comb_next(old(self).c_l6, final(self).c_l6, input_l as int),
            comb_next(old(self).c_l7, final(self).c_l7, input_l as int),
            comb_next(old(self).c_r0, final(self).c_r0, input_r as int),
            comb_next(old(self).c_r1, final(self).c_r1, input_r as int),
            comb_next(old(self).c_r2, final(self).c_r2, input_r as int),
            comb_next(old(self).c_r3, final(self).c_r3, input_r as int),
            comb_next(old(self).c_r4, final(self).c_r4, input_r as int),
            comb_next(old(self).c_r5, final(self).c_r5, input_r as int),
            comb_next(old(self).c_r6, final(self).c_r6, input_r as int),
            comb_next(old(self).c_r7, final(self).c_r7, input_r as int),
            allpass_next(old(self).a_l0, final(self).a_l0, old(self).comb_avg_l_spec()),
            allpass_next(
                old(self).a_l1,
                final(self).a_l1,
                old(self).a_l0.out_spec(old(self).comb_avg_l_spec()),
            ),
            allpass_next(
                old(self).a_l2,
                final(self).a_l2,
                old(self).a_l1.out_spec(old(self).a_l0.out_spec(old(self).comb_avg_l_spec())),
            ),
            allpass_next(old(self).a_r0, final(self).a_r0, old(self).comb_avg_r_spec()),
            allpass_next(
                old(self).a_r1,
                final(self).a_r1,
                old(self).a_r0.out_spec(old(self).comb_avg_r_spec()),
            ),
            allpass_next(
                old(self).a_r2,
                final(self).a_r2,
                old(self).a_r1.out_spec(old(self).a_r0.out_spec(old(self).comb_avg_r_spec())),
            ),
            final(self).wet == old(self).wet,
            final(self).width == old(self).width,
            final(self).sample_rate == old(self).sample_rate,
    {
        let mut acc_l = self.comb_bank_l(input_l);
        let mut acc_r = self.comb_bank_r(input_r);
        acc_l = self.a_l0.process(acc_l);
        acc_l = self.a_l1.process(acc_l);
        acc_l = self.a_l2.process(acc_l);
        acc_r = self.a_r0.process(acc_r);
        acc_r = self.a_r1.process(acc_r);
        acc_r = self.a_r2.process(acc_r);
        assert(acc_l as int == old(self).diffused_l_spec());
        assert(acc_r as int == old(self).diffused_r_spec());
        let wu: u64 = self.wet as u64;
        let du: u64 = self.width as u64;
        assert(wu * (65536 + du) <= 8590000000 && wu * (65536 - du) <= 8590000000)
            by (nonlinear_arith)
            requires
                0 <= wu <= 65536,
                0 <= du <= 65536,
        ;
        let w1: i64 = ((wu * (65536 + du)) / 131072) as i64;
        let w2: i64 = ((wu * (65536 - du) + 131071) / 131072) as i64;
        proof {
            lemma_wet_mix_sum(self.wet as int, self.width as int);
        }
        let out_l = fx_add(fx_mul(acc_l, w1), fx_mul(acc_r, w2));
        let out_r = fx_add(fx_mul(acc_r, w1), fx_mul(acc_l, w2));
        (out_l, out_r)
    }

    /// Redraw every comb voice's feedback, damping cutoff, and delay
    /// scale, left and right independently — three draws per voice,
    /// left bank first, each voice pinned exactly to its place in the
    /// random stream; the allpass voices and the mix are untouched.
    pub fn randomize(&mut self, rng: &mut Rand64)
        requires
            old(self).wf(),
        ensures
            final(self).wf(),
            ({
                let fs = old(self).sample_rate as int;
                let s0 = old(rng).state;
                let s1 = rng_step(rng_step(rng_step(s0)));
                let s2 = rng_step(rng_step(rng_step(s1)));
                let s3 = rng_step(rng_step(rng_step(s2)));
                let s4 = rng_step(rng_step(rng_step(s3)));
                let s5 = rng_step(rng_step(rng_step(s4)));
                let s6 = rng_step(rng_step(rng_step(s5)));
                let s7 = rng_step(rng_step(rng_step(s6)));
                let s8 = rng_step(rng_step(rng_step(s7)));
                let s9 = rng_step(rng_step(rng_step(s8)));
                let s10 = rng_step(rng_step(rng_step(s9)));
                let s11 = rng_step(rng_step(rng_step(s10)));
                let s12 = rng_step(rng_step(rng_step(s11)));
                let s13 = rng_step(rng_step(rng_step(s12)));
                let s14 = rng_step(rng_step(rng_step(s13)));
                let s15 = rng_step(rng_step(rng_step(s14)));
                let s16 = rng_step(rng_step(rng_step(s15)));
                &&& comb_drawn_at(old(self).c_l0, final(self).c_l0, fs, s0)
                &&& comb_drawn_at(old(self).c_l1, final(self).c_l1, fs, s1)
                &&& comb_drawn_at(old(self).c_l2, final(self).c_l2, fs, s2)
                &&& comb_drawn_at(old(self).c_l3, final(self).c_l3, fs, s3)
                &&& comb_drawn_at(old(self).c_l4, final(self).c_l4, fs, s4)
                &&& comb_drawn_at(old(self).c_l5, final(self).c_l5, fs, s5)
                &&& comb_drawn_at(old(self).c_l6, final(self).c_l6, fs, s6)
                &&& comb_drawn_at(old(self).c_l7, final(self).c_l7, fs, s7)
                &&& comb_drawn_at(old(self).c_r0, final(self).c_r0, fs, s8)
                &&& comb_drawn_at(old(self).c_r1, final(self).c_r1, fs, s9)
                &&& comb_drawn_at(old(self).c_r2, final(self).c_r2, fs, s10)
                &&& comb_drawn_at(old(self).c_r3, final(self).c_r3, fs, s11)
                &&& comb_drawn_at(old(self).c_r4, final(self).c_r4, fs, s12)
                &&& comb_drawn_at(old(self).c_r5, final(self).c_r5, fs, s13)
                &&& comb_drawn_at(old(self).c_r6, final(self).c_r6, fs, s14)
                &&& comb_drawn_at(old(self).c_r7, final(self).c_r7, fs, s15)
                &&& final(rng).state == s16
            }),
            comb_redrawn(old(self).c_l0, final(self).c_l0, old(self).sample_rate as int),
            comb_redrawn(old(self).c_l1, final(self).c_l1, old(self).sample_rate as int),
            comb_redrawn(old(self).c_l2, final(self).c_l2, old(self).sample_rate as int),
            comb_redrawn(old(self).c_l3, final(self).c_l3, old(self).sample_rate as int),
            comb_redrawn(old(self).c_l4, final(self).c_l4, old(self).sample_rate as int),
            comb_redrawn(old(self).c_l5, final(self).c_l5, old(self).sample_rate as int),
            comb_redrawn(old(self).c_l6, final(self).c_l6, old(self).sample_rate as int),
            comb_redrawn(old(self).c_l7, final(self).c_l7, old(self).sample_rate as int),
            comb_redrawn(old(self).c_r0, final(self).c_r0, old(self).sample_rate as int),
            comb_redrawn(old(self).c_r1, final(self).c_r1, old(self).sample_rate as int),
            comb_redrawn(old(self).c_r2, final(self).c_r2, old(self).sample_rate as int),
            comb_redrawn(old(self).c_r3, final(self).c_r3, old(self).sample_rate as int),
            comb_redrawn(old(self).c_r4, final(self).c_r4, old(self).sample_rate as int),
            comb_redrawn(old(self).c_r5, final(self).c_r5, old(self).sample_rate as int),
            comb_redrawn(old(self).c_r6, final(self).c_r6, old(self).sample_rate as int),
            comb_redrawn(old(self).c_r7, final(self).c_r7, old(self).sample_rate as int),
            final(self).a_l0 == old(self).a_l0,
            final(self).a_l1 == old(self).a_l1,
            final(self).a_l2 == old(self).a_l2,
            final(self).a_r0 == old(self).a_r0,
            final(self).a_r1 == old(self).a_r1,
            final(self).a_r2 == old(self).a_r2,
            FEEDBACK_LO <= final(self).c_l0.feedback <= FEEDBACK_HI,
            FEEDBACK_LO <= final(self).c_l1.feedback <= FEEDBACK_HI,
            FEEDBACK_LO <= final(self).c_l2.feedback <= FEEDBACK_HI,
            FEEDBACK_LO <= final(self).c_l3.feedback <= FEEDBACK_HI,
            FEEDBACK_LO <= final(self).c_l4.feedback <= FEEDBACK_HI,
            FEEDBACK_LO <= final(self).c_l5.feedback <= FEEDBACK_HI,
            FEEDBACK_LO <= final(self).c_l6.feedback <= FEEDBACK_HI,
            FEEDBACK_LO <= final(self).c_l7.feedback <= FEEDBACK_HI,
            FEEDBACK_LO <= final(self).c_r0.feedback <= FEEDBACK_HI,
            FEEDBACK_LO <= final(self).c_r1.feedback <= FEEDBACK_HI,
            FEEDBACK_LO <= final(self).c_r2.feedback <= FEEDBACK_HI,
            FEEDBACK_LO <= final(self).c_r3.feedback <= FEEDBACK_HI,
            FEEDBACK_LO <= final(self).c_r4.feedback <= FEEDBACK_HI,
            FEEDBACK_LO <= final(self).c_r5.feedback <= FEEDBACK_HI,
            FEEDBACK_LO <= final(self).c_r6.feedback <= FEEDBACK_HI,
            FEEDBACK_LO <= final(self).c_r7.feedback <= FEEDBACK_HI,
            final(self).wet == old(self).wet,
            final(self).width == old(self).width,
            final(self).sample_rate == old(self).sample_rate,
    {
        let fs = self.sample_rate;
        self.c_l0.randomize(fs, rng);
        self.c_l1.randomize(fs, rng);
        self.c_l2.randomize(fs, rng);
        self.c_l3.randomize(fs, rng);
        self.c_l4.randomize(fs, rng);
        self.c_l5.randomize(fs, rng);
        self.c_l6.randomize(fs, rng);
        self.c_l7.randomize(fs, rng);
        self.c_r0.randomize(fs, rng);
        self.c_r1.randomize(fs, rng);
        self.c_r2.randomize(fs, rng);
        self.c_r3.randomize(fs, rng);
        self.c_r4.randomize(fs, rng);
        self.c_r5.randomize(fs, rng);
        self.c_r6.randomize(fs, rng);
        self.c_r7.randomize(fs, rng);
    }
}

} // verus!
