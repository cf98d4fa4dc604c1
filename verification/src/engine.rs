//! The engine: owns every voice, runs the per-sample pipeline, and
//! keeps the growable interleaved stereo output buffer.
//!
//! A caller constructs the engine once with a sample rate and a seed
//! for the injectable random source, then drives it through the
//! parameter setters and `render`. Rendering is pure integer
//! arithmetic, so equal seeds and equal call sequences give equal
//! output.

use vstd::prelude::*;
use crate::fixed::{
    clamp01_spec, fx_add, fx_add_spec, fx_clamp01, fx_fits, fx_mul, fx_mul_spec, fx_sub,
    fx_sub_spec, lemma_fx_mul_nonneg, soft_clip, soft_clip_spec, FX_LIMIT, FX_ONE,
};
use crate::filter::{lpf_coeff_spec, OnePoleLpf};
use crate::osc::{
    drone_next, lfo_inc_spec, pink_b0_spec, pink_b1_spec, pink_b2_spec, pink_out_spec, DroneOsc,
    Lfo, PinkNoise,
};
use crate::filter::{allpass_next, comb_drawn_at, comb_next, comb_redrawn};
use crate::reverb::{StereoReverb, FEEDBACK_HI, FEEDBACK_LO};
use crate::rng::{rng_out, rng_skip, rng_step, Rand64};
use crate::sequencer::{clock_spec, StepSequencer, BPM_MAX, BPM_MIN};
use crate::sine::{sin_fx_spec, PHASE_ONE};

verus! {

/// The default output capacity: one host block of stereo frames.
pub const BLOCK_FRAMES: usize = 128;

/// The tempo a setter stores: the argument clamped to `[20, 300]`
/// beats per minute on the Q16 grid.
pub open spec fn clamp_bpm_spec(bpm: int) -> int {
    if bpm < BPM_MIN {
        BPM_MIN as int
    } else if bpm > BPM_MAX {
        BPM_MAX as int
    } else {
        bpm
    }
}

/// The generative audio engine.
pub struct Engine {
    pub sample_rate: u32,
    pub rng: Rand64,
    pub reverb: StereoReverb,
    pub drone0: DroneOsc,
    pub drone1: DroneOsc,
    pub drone2: DroneOsc,
    pub drone3: DroneOsc,
    pub noise: PinkNoise,
    pub noise_filter: OnePoleLpf,
    pub pan_lfo: Lfo,
    pub seq: StepSequencer,
    pub out: Vec<i64>,
}

impl Engine {
    /// Well-formed engine state.
    pub open spec fn wf(&self) -> bool {
        &&& 1000 <= self.sample_rate <= 1000000
        &&& self.reverb.wf()
        &&& self.reverb.sample_rate == self.sample_rate
        &&& self.drone0.wf() && self.drone1.wf() && self.drone2.wf() && self.drone3.wf()
        &&& self.noise.wf()
        &&& self.noise_filter.wf()
        &&& self.pan_lfo.wf()
        &&& self.seq.wf()
        &&& self.seq.sample_rate == self.sample_rate
    }

    /// A fresh engine: four drones a perfect chord over a 55 hertz
    /// base, the tuned reverb, the default pattern and tempo, timing
    /// already derived, and every phase, envelope and pole zeroed.
    pub fn new(sample_rate: u32, seed: u64) -> (r: Engine)
        requires
            1000 <= sample_rate <= 1000000,
        ensures
            r.wf(),
            r.sample_rate == sample_rate,
            r.seq.timing_ok(),
            r.seq.mask == 0xA051u16,
            r.seq.step == 0,
            r.seq.bpm == 6553600,
            r.seq.accum == 0,
            r.seq.hit_env == 0 && r.seq.gate_env == 0 && r.seq.perc_env == 0,
            r.seq.perc_phase == 0,
            r.seq.perc_freq_hz == 1000,
            r.seq.perc_inc == 0,
            r.reverb.tuned(sample_rate as int),
            r.drone0.freq == 3604480 && r.drone1.freq == 4505600 && r.drone2.freq == 5406720
                && r.drone3.freq == 7208960,
            r.drone0.phase == 0 && r.drone1.phase == 0 && r.drone2.phase == 0 && r.drone3.phase
                == 0,
            r.drone0.lfo.phase == 0 && r.drone1.lfo.phase == 0 && r.drone2.lfo.phase == 0
                && r.drone3.lfo.phase == 0,
            r.drone0.lfo.inc == lfo_inc_spec(30, sample_rate as int),
            r.drone1.lfo.inc == lfo_inc_spec(30, sample_rate as int),
            r.drone2.lfo.inc == lfo_inc_spec(30, sample_rate as int),
            r.drone3.lfo.inc == lfo_inc_spec(30, sample_rate as int),
            r.noise.b0 == 0 && r.noise.b1 == 0 && r.noise.b2 == 0,
            r.noise_filter.b == lpf_coeff_spec(sample_rate as int, 1200),
            r.noise_filter.a == FX_ONE - r.noise_filter.b,
            r.noise_filter.z == 0,
            r.pan_lfo.inc == lfo_inc_spec(11, sample_rate as int),
            r.pan_lfo.phase == 0,
            r.out@.len() == 2 * BLOCK_FRAMES,
            forall|i: int| 0 <= i < r.out@.len() ==> r.out@[i] == 0,
            r.rng.state == if seed == 0 {
                crate::rng::RNG_DEFAULT_STATE
            } else {
                seed
            },
    {
        let mut out: Vec<i64> = Vec::new();
        let mut i: usize = 0;
        while i < 2 * BLOCK_FRAMES
            invariant
                i <= 2 * BLOCK_FRAMES,
                out@.len() == i,
                forall|j: int| 0 <= j < i ==> out@[j] == 0,
            decreases 2 * BLOCK_FRAMES - i,
        {
            out.push(0);
            i = i + 1;
        }
        Engine {
            sample_rate,
            rng: Rand64::new(seed),
            reverb: StereoReverb::new(sample_rate),
            drone0: DroneOsc::new(3604480, sample_rate),
            drone1: DroneOsc::new(4505600, sample_rate),
            drone2: DroneOsc::new(5406720, sample_rate),
            drone3: DroneOsc::new(7208960, sample_rate),
            noise: PinkNoise::new(),
            noise_filter: OnePoleLpf::new(sample_rate, 1200),
            pan_lfo: Lfo::new(11, sample_rate),
            seq: StepSequencer::new(sample_rate),
            out,
        }
    }

    /// Set the reverb wet level and stereo width, clamped to `[0, 1]`.
    pub fn set_reverb(&mut self, wet: i64, width: i64)
        requires
            old(self).wf(),
        ensures
            final(self).wf(),
            final(self).reverb.wet == clamp01_spec(wet as int),
            final(self).reverb.width == clamp01_spec(width as int),
            final(self).reverb == (StereoReverb {
                wet: final(self).reverb.wet,
                width: final(self).reverb.width,
                ..old(self).reverb
            }),
            *final(self) == (Engine { reverb: final(self).reverb, ..*old(self) }),
    {
        self.reverb.set_mix(wet, width);
    }

    /// Set the tempo, clamped to `[20, 300]` beats per minute in Q16,
    /// and recompute the step and envelope timing.
    pub fn set_bpm(&mut self, bpm: i64)
        requires
            old(self).wf(),
        ensures
            final(self).wf(),
            final(self).seq.bpm == clamp_bpm_spec(bpm as int),
            final(self).seq.timing_ok(),
            final(self).seq.mask == old(self).seq.mask,
            final(self).seq.step == old(self).seq.step,
            final(self).seq.accum == old(self).seq.accum,
            final(self).seq.hit_env == old(self).seq.hit_env,
            final(self).seq.gate_env == old(self).seq.gate_env,
            final(self).seq.perc_env == old(self).seq.perc_env,
            final(self).seq.perc_phase == old(self).seq.perc_phase,
            final(self).seq.perc_freq_hz == old(self).seq.perc_freq_hz,
            final(self).seq.perc_inc == old(self).seq.perc_inc,
            *final(self) == (Engine { seq: final(self).seq, ..*old(self) }),
    {
        self.seq.bpm = if bpm < BPM_MIN {
            BPM_MIN
        } else if bpm > BPM_MAX {
            BPM_MAX
        } else {
            bpm
        };
        self.seq.update_timing();
    }

    /// The current tempo in Q16 beats per minute.
    pub fn get_bpm(&self) -> (r: i64)
        ensures
            r == self.seq.bpm,
    {
        self.seq.bpm
    }

    /// Replace the sixteen-step pattern; bit `i` is step `i`.
    pub fn set_sequence_mask(&mut self, mask: u16)
        requires
            old(self).wf(),
        ensures
            final(self).wf(),
            final(self).seq.mask == mask,
            final(self).seq == (StepSequencer { mask, ..old(self).seq }),
            *final(self) == (Engine { seq: final(self).seq, ..*old(self) }),
    {
        self.seq.mask = mask;
    }

    /// The current sixteen-step pattern.
    pub fn get_sequence_mask(&self) -> (r: u16)
        ensures
            r == self.seq.mask,
    {
        self.seq.mask
    }

    /// The step the sequencer stands on, always below sixteen.
    pub fn get_current_step(&self) -> (r: u32)
        requires
            self.wf(),
        ensures
            r == self.seq.step,
            r < 16,
    {
        self.seq.step
    }

    /// A drone frequency scaled by a chord ratio and a jitter factor.
    fn scaled_freq(base: i64, ratio: i64, jitter: i64) -> (r: i64)
        requires
            0 <= base <= FX_LIMIT,
            0 <= ratio <= FX_LIMIT,
            0 <= jitter <= FX_LIMIT,
        ensures
            r == fx_mul_spec(fx_mul_spec(base as int, ratio as int), jitter as int),
            0 <= r <= FX_LIMIT,
    {
        proof {
            lemma_fx_mul_nonneg(base as int, ratio as int);
            lemma_fx_mul_nonneg(fx_mul_spec(base as int, ratio as int), jitter as int);
        }
        fx_mul(fx_mul(base, ratio), jitter)
    }

    /// The pattern bits after `k` of the sixteen double draws from
    /// state `s`: bit `k - 1` is set when the first draw of its pair
    /// falls under the second, a threshold between roughly one third
    /// and two thirds.
    pub open spec fn mask_bits_spec(s: u64, k: nat) -> u16
        decreases k,
    {
        if k == 0 {
            0u16
        } else {
            let m = Self::mask_bits_spec(s, (k - 1) as nat);
            let p = (rng_out(rng_skip(s, 2 * ((k - 1) as nat))) as int) % 65537;
            let q = 22938 + (rng_out(rng_skip(s, 2 * ((k - 1) as nat) + 1)) as int) % 19661;
            if p < q {
                m | (1u16 << ((k - 1) as u16))
            } else {
                m
            }
        }
    }

    /// Draw a pattern of roughly one-third to two-thirds density; a
    /// draw of all zeroes falls back to the first step alone. The
    /// thirty-two draws are pinned to the random stream.
    fn draw_mask(rng: &mut Rand64) -> (mask: u16)
        ensures
            mask != 0,
            mask == ({
                let m = Self::mask_bits_spec(old(rng).state, 16);
                if m == 0 {
                    1u16
                } else {
                    m
                }
            }),
            final(rng).state == rng_skip(old(rng).state, 32),
    {
        let mut mask: u16 = 0;
        let mut i: u32 = 0;
        while i < 16
            invariant
                i <= 16,
                rng.state == rng_skip(old(rng).state, (2 * i) as nat),
                mask == Self::mask_bits_spec(old(rng).state, i as nat),
            decreases 16 - i,
        {
            let p = rng.next_range(0, 65536);
            let q = rng.next_range(22938, 42598);
            proof {
                assert(rng_skip(old(rng).state, (2 * i + 1) as nat) == rng_step(
                    rng_skip(old(rng).state, (2 * i) as nat),
                ));
                assert(rng_skip(old(rng).state, (2 * i + 2) as nat) == rng_step(
                    rng_skip(old(rng).state, (2 * i + 1) as nat),
                ));
            }
            if p < q {
                mask = mask | (1u16 << (i as u16));
            }
            proof {
                assert(mask == Self::mask_bits_spec(old(rng).state, (i + 1) as nat));
            }
            i = i + 1;
        }
        if mask == 0 {
            mask = 1;
        }
        mask
    }

    /// Redraw the timbral and rhythmic parameters: a drone chord over a
    /// fresh base in 40 to 110 hertz with per-voice jitter of 0.95 to
    /// 1.08, noise cutoff in 600 to 6000 hertz, pan rate in five to
    /// fifty thousandths of a hertz, every reverb comb voice, a tempo
    /// drawn in `[70, 140]` beats per minute with timing recomputed,
    /// and a pattern of roughly one-third to two-thirds density that is
    /// never all off. The first seven draws are pinned to the random
    /// stream.
    #[verifier::rlimit(100)]
    pub fn randomize(&mut self)
        requires
            old(self).wf(),
        ensures
            final(self).wf(),
            final(self).seq.mask != 0,
            final(self).seq.timing_ok(),
            4587520 <= final(self).seq.bpm <= 9175040,
            ({
                let s0 = old(self).rng.state;
                let s1 = rng_step(s0);
                let s2 = rng_step(s1);
                let s3 = rng_step(s2);
                let s4 = rng_step(s3);
                let s5 = rng_step(s4);
                let s6 = rng_step(s5);
                let fs = old(self).sample_rate as int;
                let base = 2621440 + (rng_out(s0) as int) % 4587521;
                &&& final(self).drone0.freq == fx_mul_spec(
                    fx_mul_spec(base, 65536),
                    62260 + (rng_out(s1) as int) % 8519,
                )
                &&& final(self).drone1.freq == fx_mul_spec(
                    fx_mul_spec(base, 81920),
                    62260 + (rng_out(s2) as int) % 8519,
                )
                &&& final(self).drone2.freq == fx_mul_spec(
                    fx_mul_spec(base, 98304),
                    62260 + (rng_out(s3) as int) % 8519,
                )
                &&& final(self).drone3.freq == fx_mul_spec(
                    fx_mul_spec(base, 131072),
                    62260 + (rng_out(s4) as int) % 8519,
                )
                &&& final(self).noise_filter.b == lpf_coeff_spec(
                    fs,
                    600 + (rng_out(s5) as int) % 5401,
                )
                &&& final(self).pan_lfo.inc == lfo_inc_spec(5 + (rng_out(s6) as int) % 46, fs)
            }),
            ({
                let fs = old(self).sample_rate as int;
                let t0 = rng_skip(old(self).rng.state, 7);
                let t1 = rng_step(rng_step(rng_step(t0)));
                let t2 = rng_step(rng_step(rng_step(t1)));
                let t3 = rng_step(rng_step(rng_step(t2)));
                let t4 = rng_step(rng_step(rng_step(t3)));
                let t5 = rng_step(rng_step(rng_step(t4)));
                let t6 = rng_step(rng_step(rng_step(t5)));
                let t7 = rng_step(rng_step(rng_step(t6)));
                let t8 = rng_step(rng_step(rng_step(t7)));
                let t9 = rng_step(rng_step(rng_step(t8)));
                let t10 = rng_step(rng_step(rng_step(t9)));
                let t11 = rng_step(rng_step(rng_step(t10)));
                let t12 = rng_step(rng_step(rng_step(t11)));
                let t13 = rng_step(rng_step(rng_step(t12)));
                let t14 = rng_step(rng_step(rng_step(t13)));
                let t15 = rng_step(rng_step(rng_step(t14)));
                let t16 = rng_step(rng_step(rng_step(t15)));
                &&& comb_drawn_at(old(self).reverb.c_l0, final(self).reverb.c_l0, fs, t0)
                &&& comb_drawn_at(old(self).reverb.c_l1, final(self).reverb.c_l1, fs, t1)
                &&& comb_drawn_at(old(self).reverb.c_l2, final(self).reverb.c_l2, fs, t2)
                &&& comb_drawn_at(old(self).reverb.c_l3, final(self).reverb.c_l3, fs, t3)
                &&& comb_drawn_at(old(self).reverb.c_l4, final(self).reverb.c_l4, fs, t4)
                &&& comb_drawn_at(old(self).reverb.c_l5, final(self).reverb.c_l5, fs, t5)
                &&& comb_drawn_at(old(self).reverb.c_l6, final(self).reverb.c_l6, fs, t6)
                &&& comb_drawn_at(old(self).reverb.c_l7, final(self).reverb.c_l7, fs, t7)
                &&& comb_drawn_at(old(self).reverb.c_r0, final(self).reverb.c_r0, fs, t8)
                &&& comb_drawn_at(old(self).reverb.c_r1, final(self).reverb.c_r1, fs, t9)
                &&& comb_drawn_at(old(self).reverb.c_r2, final(self).reverb.c_r2, fs, t10)
                &&& comb_drawn_at(old(self).reverb.c_r3, final(self).reverb.c_r3, fs, t11)
                &&& comb_drawn_at(old(self).reverb.c_r4, final(self).reverb.c_r4, fs, t12)
                &&& comb_drawn_at(old(self).reverb.c_r5, final(self).reverb.c_r5, fs, t13)
                &&& comb_drawn_at(old(self).reverb.c_r6, final(self).reverb.c_r6, fs, t14)
                &&& comb_drawn_at(old(self).reverb.c_r7, final(self).reverb.c_r7, fs, t15)
                &&& final(self).seq.bpm == 4587520 + (rng_out(t16) as int) % 4587521
                &&& final(self).seq.mask == ({
                    let m = Self::mask_bits_spec(rng_step(t16), 16);
                    if m == 0 {
                        1u16
                    } else {
                        m
                    }
                })
                &&& final(self).rng.state == rng_skip(rng_step(t16), 32)
            }),
            final(self).seq.step == old(self).seq.step,
            final(self).seq.accum == old(self).seq.accum,
            final(self).seq.hit_env == old(self).seq.hit_env,
            final(self).seq.gate_env == old(self).seq.gate_env,
            final(self).seq.perc_env == old(self).seq.perc_env,
            final(self).seq.perc_phase == old(self).seq.perc_phase,
            final(self).seq.perc_freq_hz == old(self).seq.perc_freq_hz,
            final(self).seq.perc_inc == old(self).seq.perc_inc,
            final(self).reverb.wet == old(self).reverb.wet,
            final(self).reverb.width == old(self).reverb.width,
            final(self).reverb.a_l0 == old(self).reverb.a_l0,
            final(self).reverb.a_l1 == old(self).reverb.a_l1,
            final(self).reverb.a_l2 == old(self).reverb.a_l2,
            final(self).reverb.a_r0 == old(self).reverb.a_r0,
            final(self).reverb.a_r1 == old(self).reverb.a_r1,
            final(self).reverb.a_r2 == old(self).reverb.a_r2,
            final(self).drone0.phase == old(self).drone0.phase,
            final(self).drone1.phase == old(self).drone1.phase,
            final(self).drone2.phase == old(self).drone2.phase,
            final(self).drone3.phase == old(self).drone3.phase,
            final(self).drone0.lfo == old(self).drone0.lfo,
            final(self).drone1.lfo == old(self).drone1.lfo,
            final(self).drone2.lfo == old(self).drone2.lfo,
            final(self).drone3.lfo == old(self).drone3.lfo,
            final(self).noise == old(self).noise,
            final(self).pan_lfo.phase == old(self).pan_lfo.phase,
            final(self).out == old(self).out,
            final(self).sample_rate == old(self).sample_rate,
            final(self).noise_filter.z == old(self).noise_filter.z,
            comb_redrawn(old(self).reverb.c_l0, final(self).reverb.c_l0, old(
            self).sample_rate as int),
            comb_redrawn(old(self).reverb.c_l1, final(self).reverb.c_l1, old(
            self).sample_rate as int),
            comb_redrawn(old(self).reverb.c_l2, final(self).reverb.c_l2, old(
            self).sample_rate as int),
            comb_redrawn(old(self).reverb.c_l3, final(self).reverb.c_l3, old(
            self).sample_rate as int),
            comb_redrawn(old(self).reverb.c_l4, final(self).reverb.c_l4, old(
            self).sample_rate as int),
            comb_redrawn(old(self).reverb.c_l5, final(self).reverb.c_l5, old(
            self).sample_rate as int),
            comb_redrawn(old(self).reverb.c_l6, final(self).reverb.c_l6, old(
            self).sample_rate as int),
            comb_redrawn(old(self).reverb.c_l7, final(self).reverb.c_l7, old(
            self).sample_rate as int),
            comb_redrawn(old(self).reverb.c_r0, final(self).reverb.c_r0, old(
            self).sample_rate as int),
            comb_redrawn(old(self).reverb.c_r1, final(self).reverb.c_r1, old(
            self).sample_rate as int),
            comb_redrawn(old(self).reverb.c_r2, final(self).reverb.c_r2, old(
            self).sample_rate as int),
            comb_redrawn(old(self).reverb.c_r3, final(self).reverb.c_r3, old(
            self).sample_rate as int),
            comb_redrawn(old(self).reverb.c_r4, final(self).reverb.c_r4, old(
            self).sample_rate as int),
            comb_redrawn(old(self).reverb.c_r5, final(self).reverb.c_r5, old(
            self).sample_rate as int),
            comb_redrawn(old(self).reverb.c_r6, final(self).reverb.c_r6, old(
            self).sample_rate as int),
            comb_redrawn(old(self).reverb.c_r7, final(self).reverb.c_r7, old(
            self).sample_rate as int),
            FEEDBACK_LO <= final(self).reverb.c_l0.feedback <= FEEDBACK_HI,
            FEEDBACK_LO <= final(self).reverb.c_l1.feedback <= FEEDBACK_HI,
            FEEDBACK_LO <= final(self).reverb.c_l2.feedback <= FEEDBACK_HI,
            FEEDBACK_LO <= final(self).reverb.c_l3.feedback <= FEEDBACK_HI,
            FEEDBACK_LO <= final(self).reverb.c_l4.feedback <= FEEDBACK_HI,
            FEEDBACK_LO <= final(self).reverb.c_l5.feedback <= FEEDBACK_HI,
            FEEDBACK_LO <= final(self).reverb.c_l6.feedback <= FEEDBACK_HI,
            FEEDBACK_LO <= final(self).reverb.c_l7.feedback <= FEEDBACK_HI,
            FEEDBACK_LO <= final(self).reverb.c_r0.feedback <= FEEDBACK_HI,
            FEEDBACK_LO <= final(self).reverb.c_r1.feedback <= FEEDBACK_HI,
            FEEDBACK_LO <= final(self).reverb.c_r2.feedback <= FEEDBACK_HI,
            FEEDBACK_LO <= final(self).reverb.c_r3.feedback <= FEEDBACK_HI,
            FEEDBACK_LO <= final(self).reverb.c_r4.feedback <= FEEDBACK_HI,
            FEEDBACK_LO <= final(self).reverb.c_r5.feedback <= FEEDBACK_HI,
            FEEDBACK_LO <= final(self).reverb.c_r6.feedback <= FEEDBACK_HI,
            FEEDBACK_LO <= final(self).reverb.c_r7.feedback <= FEEDBACK_HI,
    {
        let base = self.rng.next_range(2621440, 7208960);
        let j0 = self.rng.next_range(62260, 70778);
        let j1 = self.rng.next_range(62260, 70778);
        let j2 = self.rng.next_range(62260, 70778);
        let j3 = self.rng.next_range(62260, 70778);
        self.drone0.freq = Self::scaled_freq(base, 65536, j0);
        self.drone1.freq = Self::scaled_freq(base, 81920, j1);
        self.drone2.freq = Self::scaled_freq(base, 98304, j2);
        self.drone3.freq = Self::scaled_freq(base, 131072, j3);
        let cutoff = self.rng.next_range(600, 6000);
        self.noise_filter.set_cutoff(self.sample_rate, cutoff as u32);
        let pan_mhz = self.rng.next_range(5, 50);
        self.pan_lfo.set_freq(pan_mhz as u32, self.sample_rate);
        proof {
            let s0 = old(self).rng.state;
            assert(rng_skip(s0, 1) == rng_step(rng_skip(s0, 0)));
            assert(rng_skip(s0, 2) == rng_step(rng_skip(s0, 1)));
            assert(rng_skip(s0, 3) == rng_step(rng_skip(s0, 2)));
            assert(rng_skip(s0, 4) == rng_step(rng_skip(s0, 3)));
            assert(rng_skip(s0, 5) == rng_step(rng_skip(s0, 4)));
            assert(rng_skip(s0, 6) == rng_step(rng_skip(s0, 5)));
            assert(rng_skip(s0, 7) == rng_step(rng_skip(s0, 6)));
        }
        self.reverb.randomize(&mut self.rng);
        let bpm = self.rng.next_range(4587520, 9175040);
        self.seq.bpm = bpm;
        self.seq.update_timing();
        let mask = Self::draw_mask(&mut self.rng);
        self.seq.mask = mask;
    }

    /// The white-noise sample drawn while stepping away from state `s`.
    pub open spec fn white_spec(s: u64) -> int {
        -65536 + (rng_out(s) as int) % 131073
    }

    /// The mono signal one sample drives into the autopan and the
    /// reverb, as a function of the entry state alone: the sequencer is
    /// clocked, the gated drone chord is summed with the filtered noise
    /// bed and burst and the blip, and the mix is driven and
    /// soft-clipped.
    pub open spec fn clipped_spec(&self) -> int {
        let rs1 = self.seq.rng_after_spec(self.rng.state);
        let fs = self.sample_rate as int;
        let d0 = fx_mul_spec(self.drone0.next_out_spec(fs), 11796);
        let d1 = fx_mul_spec(self.drone1.next_out_spec(fs), 11796);
        let d2 = fx_mul_spec(self.drone2.next_out_spec(fs), 11796);
        let d3 = fx_mul_spec(self.drone3.next_out_spec(fs), 11796);
        let drones = fx_add_spec(fx_add_spec(d0, d1), fx_add_spec(d2, d3));
        let gated = fx_mul_spec(
            drones,
            fx_add_spec(36045, fx_mul_spec(55706, self.seq.gate_after_spec())),
        );
        let white = Self::white_spec(rs1);
        let pn = pink_out_spec(
            self.noise.b0 as int,
            self.noise.b1 as int,
            self.noise.b2 as int,
            white,
        );
        let filtered = self.noise_filter.process_spec(pn);
        let with_noise = fx_add_spec(
            gated,
            fx_mul_spec(filtered, fx_add_spec(3277, fx_mul_spec(39322, self.seq.hit_after_spec()))),
        );
        let perc = fx_mul_spec(
            sin_fx_spec(self.seq.perc_phase_after_spec()),
            self.seq.perc_env_after_spec(),
        );
        let mixed = fx_add_spec(with_noise, fx_mul_spec(perc, 13107));
        soft_clip_spec(fx_mul_spec(mixed, 104858))
    }

    /// The stereo pair one sample of the pipeline will emit, as a
    /// function of the entry state alone: the soft-clipped mono signal,
    /// split into an autopanned dry pair and joined by the reverb's wet
    /// pair.
    #[verifier::opaque]
    pub open spec fn sample_spec(&self) -> (int, int) {
        let clipped = self.clipped_spec();
        let pan = clamp01_spec(
            fx_add_spec(fx_mul_spec(sin_fx_spec(self.pan_lfo.phase as int), 32768), 32768),
        );
        let wet = self.reverb.out_spec();
        (
            fx_add_spec(fx_mul_spec(fx_mul_spec(clipped, fx_sub_spec(65536, pan)), 26214), wet.0),
            fx_add_spec(fx_mul_spec(fx_mul_spec(clipped, pan), 26214), wet.1),
        )
    }

    /// What one sample of the pipeline does to every part of the engine
    /// state other than the output buffer: the sequencer clock, the
    /// envelopes and the blip, one random draw for the noise (plus one
    /// on a trigger), the drone wander, the pink poles, the noise
    /// filter state, the pan phase, and each reverb voice fed by the
    /// soft-clipped mono signal.
    #[verifier::opaque]
    pub open spec fn engine_next(pre: Engine, post: Engine) -> bool {
        let fs = pre.sample_rate as int;
        let rs1 = pre.seq.rng_after_spec(pre.rng.state);
        let white = Self::white_spec(rs1);
        let clipped = pre.clipped_spec();
        let avg_l = pre.reverb.comb_avg_l_spec();
        let avg_r = pre.reverb.comb_avg_r_spec();
        &&& post.sample_rate == pre.sample_rate
        &&& post.seq.step as int == clock_spec(
            pre.seq.step as int,
            pre.seq.accum as int,
            pre.seq.spp as int,
        ).0
        &&& post.seq.accum as int == clock_spec(
            pre.seq.step as int,
            pre.seq.accum as int,
            pre.seq.spp as int,
        ).1
        &&& post.seq.hit_env as int == pre.seq.hit_after_spec()
        &&& post.seq.gate_env as int == pre.seq.gate_after_spec()
        &&& post.seq.perc_env as int == pre.seq.perc_env_after_spec()
        &&& post.seq.perc_freq_hz as int == if pre.seq.trig_spec() {
            700 + (rng_out(pre.rng.state) as int) % 801
        } else {
            pre.seq.perc_freq_hz as int
        }
        &&& post.seq.perc_inc as int == if pre.seq.trig_spec() {
            (post.seq.perc_freq_hz as int) * (PHASE_ONE as int) / fs
        } else {
            pre.seq.perc_inc as int
        }
        &&& post.seq.perc_phase as int == (pre.seq.perc_phase_after_spec()
            + post.seq.perc_inc as int) % (PHASE_ONE as int)
        &&& post.seq.mask == pre.seq.mask
        &&& post.seq.bpm == pre.seq.bpm
        &&& post.seq.spp == pre.seq.spp
        &&& post.seq.hit_decay == pre.seq.hit_decay
        &&& post.seq.gate_decay == pre.seq.gate_decay
        &&& post.seq.perc_decay == pre.seq.perc_decay
        &&& post.seq.sample_rate == pre.seq.sample_rate
        &&& post.rng.state == rng_step(rs1)
        &&& drone_next(pre.drone0, post.drone0, fs)
        &&& drone_next(pre.drone1, post.drone1, fs)
        &&& drone_next(pre.drone2, post.drone2, fs)
        &&& drone_next(pre.drone3, post.drone3, fs)
        &&& post.noise.b0 as int == pink_b0_spec(pre.noise.b0 as int, white)
        &&& post.noise.b1 as int == pink_b1_spec(pre.noise.b1 as int, white)
        &&& post.noise.b2 as int == pink_b2_spec(pre.noise.b2 as int, white)
        &&& post.noise_filter.a == pre.noise_filter.a
        &&& post.noise_filter.b == pre.noise_filter.b
        &&& post.noise_filter.z as int == pre.noise_filter.process_spec(
            pink_out_spec(
                pre.noise.b0 as int,
                pre.noise.b1 as int,
                pre.noise.b2 as int,
                white,
            ),
        )
        &&& post.pan_lfo.inc == pre.pan_lfo.inc
        &&& post.pan_lfo.phase as int == ((pre.pan_lfo.phase + pre.pan_lfo.inc) as int) % (
        PHASE_ONE as int)
        &&& comb_next(pre.reverb.c_l0, post.reverb.c_l0, clipped)
        &&& comb_next(pre.reverb.c_l1, post.reverb.c_l1, clipped)
        &&& comb_next(pre.reverb.c_l2, post.reverb.c_l2, clipped)
        &&& comb_next(pre.reverb.c_l3, post.reverb.c_l3, clipped)
        &&& comb_next(pre.reverb.c_l4, post.reverb.c_l4, clipped)
        &&& comb_next(pre.reverb.c_l5, post.reverb.c_l5, clipped)
        &&& comb_next(pre.reverb.c_l6, post.reverb.c_l6, clipped)
        &&& comb_next(pre.reverb.c_l7, post.reverb.c_l7, clipped)
        &&& comb_next(pre.reverb.c_r0, post.reverb.c_r0, clipped)
        &&& comb_next(pre.reverb.c_r1, post.reverb.c_r1, clipped)
        &&& comb_next(pre.reverb.c_r2, post.reverb.c_r2, clipped)
        &&& comb_next(pre.reverb.c_r3, post.reverb.c_r3, clipped)
        &&& comb_next(pre.reverb.c_r4, post.reverb.c_r4, clipped)
        &&& comb_next(pre.reverb.c_r5, post.reverb.c_r5, clipped)
        &&& comb_next(pre.reverb.c_r6, post.reverb.c_r6, clipped)
        &&& comb_next(pre.reverb.c_r7, post.reverb.c_r7, clipped)
        &&& allpass_next(pre.reverb.a_l0, post.reverb.a_l0, avg_l)
        &&& allpass_next(pre.reverb.a_l1, post.reverb.a_l1, pre.reverb.a_l0.out_spec(avg_l))
        &&& allpass_next(
            pre.reverb.a_l2,
            post.reverb.a_l2,
            pre.reverb.a_l1.out_spec(pre.reverb.a_l0.out_spec(avg_l)),
        )
        &&& allpass_next(pre.reverb.a_r0, post.reverb.a_r0, avg_r)
        &&& allpass_next(pre.reverb.a_r1, post.reverb.a_r1, pre.reverb.a_r0.out_spec(avg_r))
        &&& allpass_next(
            pre.reverb.a_r2,
            post.reverb.a_r2,
            pre.reverb.a_r1.out_spec(pre.reverb.a_r0.out_spec(avg_r)),
        )
        &&& post.reverb.wet == pre.reverb.wet
        &&& post.reverb.width == pre.reverb.width
        &&& post.reverb.sample_rate == pre.reverb.sample_rate
    }

    /// One sample of the pipeline: clock the sequencer, sum the gated
    /// drones, add the filtered pink-noise bed and burst, add the blip,
    /// soft-clip, autopan the dry pair, and mix in the reverb. The pair
    /// is exactly `sample_spec` of the entry state.
    #[verifier::rlimit(100)]
    fn step_sample(&mut self) -> (lr: (i64, i64))
        requires
            old(self).wf(),
        ensures
            final(self).wf(),
            (lr.0 as int, lr.1 as int) == old(self).sample_spec(),
            Self::engine_next(*old(self), *final(self)),
            fx_fits(lr.0 as int),
            fx_fits(lr.1 as int),
            final(self).out == old(self).out,
            final(self).sample_rate == old(self).sample_rate,
    {
        let _trig = self.seq.tick(&mut self.rng);
        proof {
            vstd::arithmetic::div_mod::lemma_mod_division_less_than_divisor(
                old(self).seq.step + 1,
                16,
            );
            assert(_trig == old(self).seq.trig_spec());
        }
        let d0 = fx_mul(self.drone0.next(self.sample_rate), 11796);
        let d1 = fx_mul(self.drone1.next(self.sample_rate), 11796);
        let d2 = fx_mul(self.drone2.next(self.sample_rate), 11796);
        let d3 = fx_mul(self.drone3.next(self.sample_rate), 11796);
        let drones = fx_add(fx_add(d0, d1), fx_add(d2, d3));
        let gate_amt = fx_add(36045, fx_mul(55706, self.seq.gate_env));
        let gated = fx_mul(drones, gate_amt);
        let white = self.rng.next_range(-65536, 65536);
        let pn = self.noise.next(white);
        let filtered = self.noise_filter.process(pn);
        let noise_amt = fx_add(3277, fx_mul(39322, self.seq.hit_env));
        let with_noise = fx_add(gated, fx_mul(filtered, noise_amt));
        let perc = self.seq.perc_sample();
        let mixed = fx_add(with_noise, fx_mul(perc, 13107));
        let clipped = soft_clip(fx_mul(mixed, 104858));
        let pan = fx_clamp01(fx_add(fx_mul(self.pan_lfo.next(), 32768), 32768));
        let dry_l = fx_mul(clipped, fx_sub(FX_ONE, pan));
        let dry_r = fx_mul(clipped, pan);
        let wet = self.reverb.process(clipped, clipped);
        let l = fx_add(fx_mul(dry_l, 26214), wet.0);
        let r = fx_add(fx_mul(dry_r, 26214), wet.1);
        proof {
            reveal(Engine::engine_next);
            reveal(Engine::sample_spec);
        }
        (l, r)
    }

    /// Two engine states that agree on everything but the output
    /// buffer.
    pub open spec fn same_dsp(a: Engine, b: Engine) -> bool {
        a == (Engine { out: a.out, ..b })
    }

    /// The per-sample transition ignores the output buffer, so it
    /// survives writes into it.
    proof fn lemma_engine_next_out(pre: Engine, post: Engine, post2: Engine)
        requires
            Self::engine_next(pre, post),
            Self::same_dsp(post, post2),
        ensures
            Self::engine_next(pre, post2),
    {
        reveal(Engine::engine_next);
    }

    /// A run of the pipeline: `tr` lists the engine states around each
    /// rendered frame, from the entry state (its buffer aside) to the
    /// final one, each step obeying the per-sample transition, and the
    /// final buffer holding exactly each step's stereo pair.
    #[verifier::opaque]
    pub open spec fn run_trace(tr: Seq<Engine>, first: Engine, last: Engine, frames: nat) -> bool {
        &&& tr.len() == frames + 1
        &&& Self::same_dsp(tr[0], first)
        &&& tr[frames as int] == last
        &&& forall|n: int| 0 <= n < frames ==> Self::engine_next(#[trigger] tr[n], tr[n + 1])
        &&& forall|n: int|
            0 <= n < frames ==> (last.out@[2 * n] as int, last.out@[2 * n + 1] as int) == (
            #[trigger] tr[n]).sample_spec()
    }

    /// Render the requested frame count into the engine's interleaved
    /// stereo buffer, growing it if needed; the buffer never shrinks,
    /// and after the call it holds at least two samples per frame. The
    /// rendered samples are exactly a run of the per-sample pipeline
    /// from the entry state.
    #[verifier::rlimit(100)]
    pub fn render(&mut self, frames: usize)
        requires
            old(self).wf(),
            frames <= 10000000,
        ensures
            final(self).wf(),
            final(self).out@.len() >= old(self).out@.len(),
            final(self).out@.len() >= 2 * frames,
            final(self).out@.len() == if old(self).out@.len() >= 2 * frames {
                old(self).out@.len() as int
            } else {
                2 * (frames as int)
            },
            final(self).sample_rate == old(self).sample_rate,
            forall|i: int|
                0 <= i < 2 * frames ==> fx_fits(#[trigger] final(self).out@[i] as int),
            forall|i: int|
                2 * frames <= i < old(self).out@.len() ==> final(self).out@[i] == old(
                self).out@[i],
            exists|tr: Seq<Engine>|
                #[trigger] Self::run_trace(tr, *old(self), *final(self), frames as nat),
    {
        while self.out.len() < 2 * frames
            invariant
                self.wf(),
                self.sample_rate == old(self).sample_rate,
                Self::same_dsp(*self, *old(self)),
                frames <= 10000000,
                self.out@.len() >= old(self).out@.len(),
                self.out@.len() <= 2 * frames || self.out@.len() == old(self).out@.len(),
                forall|i: int|
                    0 <= i < old(self).out@.len() ==> self.out@[i] == old(self).out@[i],
                forall|i: int|
                    old(self).out@.len() <= i < self.out@.len() ==> self.out@[i] == 0,
            decreases 2 * frames - self.out@.len(),
        {
            self.out.push(0);
        }
        let mut n: usize = 0;
        let ghost mut trace: Seq<Engine> = seq![*self];
        while n < frames
            invariant
                self.wf(),
                self.sample_rate == old(self).sample_rate,
                n <= frames,
                self.out@.len() >= 2 * frames,
                self.out@.len() >= old(self).out@.len(),
                self.out@.len() == if old(self).out@.len() >= 2 * frames {
                    old(self).out@.len() as int
                } else {
                    2 * (frames as int)
                },
                frames <= 10000000,
                forall|i: int| 0 <= i < 2 * n ==> fx_fits(#[trigger] self.out@[i] as int),
                forall|i: int|
                    2 * frames <= i < old(self).out@.len() ==> self.out@[i] == old(self).out@[i],
                trace.len() == n + 1,
                Self::same_dsp(trace[0], *old(self)),
                trace[n as int] == *self,
                forall|m: int| 0 <= m < n ==> Self::engine_next(#[trigger] trace[m], trace[m + 1]),
                forall|m: int|
                    0 <= m < n ==> (self.out@[2 * m] as int, self.out@[2 * m + 1] as int) == (
                    #[trigger] trace[m]).sample_spec(),
            decreases frames - n,
        {
            let ghost pre = *self;
            let lr = self.step_sample();
            let ghost mid = *self;
            self.out.set(2 * n, lr.0);
            self.out.set(2 * n + 1, lr.1);
            proof {
                Self::lemma_engine_next_out(pre, mid, *self);
                trace = trace.push(*self);
            }
            n = n + 1;
        }
        proof {
            reveal(Engine::run_trace);
            assert(Self::run_trace(trace, *old(self), *self, frames as nat));
        }
    }

    /// Render into a caller-supplied interleaved buffer: as many whole
    /// frames as the buffer holds pairs, copied from the front of the
    /// freshly rendered engine buffer. The buffer keeps its length.
    pub fn render_into(&mut self, out: &mut Vec<i64>)
        requires
            old(self).wf(),
            old(out)@.len() <= 20000000,
        ensures
            final(self).wf(),
            final(out)@.len() == old(out)@.len(),
            forall|i: int|
                0 <= i < 2 * ((old(out)@.len() as int) / 2) ==> final(out)@[i] == final(
                self).out@[i],
            forall|i: int|
                2 * ((old(out)@.len() as int) / 2) <= i < old(out)@.len() ==> final(out)@[i]
                    == old(out)@[i],
            exists|tr: Seq<Engine>|
                #[trigger] Self::run_trace(
                    tr,
                    *old(self),
                    *final(self),
                    (((old(out)@.len() as int) / 2) as nat),
                ),
    {
        let frames: usize = out.len() / 2;
        proof {
            vstd::arithmetic::div_mod::lemma_fundamental_div_mod(old(out)@.len() as int, 2);
        }
        self.render(frames);
        let ghost tr0 = choose|tr: Seq<Engine>|
            Self::run_trace(tr, *old(self), *self, frames as nat);
        proof {
            assert(Self::run_trace(tr0, *old(self), *self, frames as nat));
        }
        let mut i: usize = 0;
        while i < 2 * frames
            invariant
                self.wf(),
                frames <= 10000000,
                i <= 2 * frames,
                2 * frames <= self.out@.len(),
                2 * frames <= out@.len(),
                out@.len() == old(out)@.len(),
                frames == (old(out)@.len() as int) / 2,
                forall|j: int| 0 <= j < i ==> out@[j] == self.out@[j],
                forall|j: int| 2 * frames <= j < out@.len() ==> out@[j] == old(out)@[j],
                Self::run_trace(tr0, *old(self), *self, frames as nat),
            decreases 2 * frames - i,
        {
            let v = self.out[i];
            out.set(i, v);
            i = i + 1;
        }
        proof {
            assert(Self::run_trace(
                tr0,
                *old(self),
                *self,
                (((old(out)@.len() as int) / 2) as nat),
            ));
        }
    }
}

} // verus!
