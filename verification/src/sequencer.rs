//! The sixteen-step sequencer: a bitmask pattern clocked by tempo,
//! driving three independently timed decay envelopes and a percussive
//! blip oscillator.

use vstd::prelude::*;
use crate::fixed::{fx_mul, fx_mul_spec, FX_ONE};
use crate::exp::{exp_neg_q16, exp_neg_spec};
use crate::sine::{sin_fx, sin_fx_spec, PHASE_ONE};
use crate::rng::{rng_out, rng_step, Rand64};

verus! {

/// The natural logarithm of one thousand in Q16: the decay target is
/// one thousandth, sixty decibels down.
pub const LN_THOUSAND_Q16: u64 = 452710;

/// Lowest accepted tempo in Q16 beats per minute.
pub const BPM_MIN: i64 = 1310720;

/// Highest accepted tempo in Q16 beats per minute.
pub const BPM_MAX: i64 = 19660800;

/// Samples per sixteenth-note step in Q16 for a sample rate and a Q16
/// tempo: sixty seconds over four steps a beat, floored to one sample.
pub open spec fn spp_spec(fs: int, bpm: int) -> int {
    let raw = (fs * 15 * 65536 * 65536) / bpm;
    if raw < 65536 {
        65536
    } else {
        raw
    }
}

/// The per-sample decay multiplier that reaches one thousandth after
/// the given time: `fs * hundredths / 100` samples, at least one.
pub open spec fn env_decay_spec(fs: int, hundredths: int) -> int {
    let n0 = (fs * hundredths) / 100;
    let n = if n0 < 1 {
        1
    } else {
        n0
    };
    exp_neg_spec((452710 + n / 2) / n)
}

/// One tick of the step clock: the accumulator gains one sample and
/// rolls the step forward when it reaches the step length.
pub open spec fn clock_spec(step: int, accum: int, spp: int) -> (int, int) {
    let a2 = accum + 65536;
    if a2 >= spp {
        ((step + 1) % 16, a2 - spp)
    } else {
        (step, a2)
    }
}

/// The step clock iterated `k` times.
pub open spec fn clock_iter(step: int, accum: int, spp: int, k: nat) -> (int, int)
    decreases k,
{
    if k == 0 {
        (step, accum)
    } else {
        let p = clock_iter(step, accum, spp, (k - 1) as nat);
        clock_spec(p.0, p.1, spp)
    }
}

/// Closed form of the step clock: after `k` ticks the step index has
/// advanced by the whole number of step lengths the accumulator has
/// gathered, cyclically over sixteen steps. Over `16 * spp / 65536`
/// ticks from a reset accumulator, the sequencer therefore visits each
/// index exactly once, in increasing cyclic order.
pub proof fn lemma_clock_schedule(step: int, accum: int, spp: int, k: nat)
    requires
        0 <= step < 16,
        0 <= accum < spp,
        65536 <= spp,
    ensures
        clock_iter(step, accum, spp, k).0 == (step + (accum + k * 65536) / spp) % 16,
        clock_iter(step, accum, spp, k).1 == (accum + k * 65536) % spp,
    decreases k,
{
    if k == 0 {
        vstd::arithmetic::div_mod::lemma_basic_div(accum, spp);
        vstd::arithmetic::div_mod::lemma_small_mod(accum as nat, spp as nat);
        vstd::arithmetic::div_mod::lemma_small_mod(step as nat, 16);
    } else {
        lemma_clock_schedule(step, accum, spp, (k - 1) as nat);
        let a_prev = accum + (k - 1) * 65536;
        let a_now = accum + k * 65536;
        assert(a_now == a_prev + 65536) by (nonlinear_arith)
            requires
                a_prev == accum + (k - 1) * 65536,
                a_now == accum + k * 65536,
        ;
        let q = a_prev / spp;
        let r = a_prev % spp;
        vstd::arithmetic::div_mod::lemma_fundamental_div_mod(a_prev, spp);
        assert(a_prev >= 0) by (nonlinear_arith)
            requires
                accum >= 0,
                k >= 1,
                a_prev == accum + (k - 1) * 65536,
        ;
        vstd::arithmetic::div_mod::lemma_div_pos_is_pos(a_prev, spp);
        if r + 65536 >= spp {
            assert(a_now == spp * (q + 1) + (r + 65536 - spp)) by (nonlinear_arith)
                requires
                    a_prev == spp * q + r,
                    a_now == a_prev + 65536,
            ;
            vstd::arithmetic::div_mod::lemma_fundamental_div_mod_converse(
                a_now,
                spp,
                q + 1,
                r + 65536 - spp,
            );
            vstd::arithmetic::div_mod::lemma_add_mod_noop(step + q, 1, 16);
            vstd::arithmetic::div_mod::lemma_small_mod(1, 16);
            vstd::arithmetic::div_mod::lemma_mod_twice(step + q, 16);
        } else {
            assert(a_now == spp * q + (r + 65536)) by (nonlinear_arith)
                requires
                    a_prev == spp * q + r,
                    a_now == a_prev + 65536,
            ;
            vstd::arithmetic::div_mod::lemma_fundamental_div_mod_converse(
                a_now,
                spp,
                q,
                r + 65536,
            );
        }
    }
}

/// With a whole number `m` of samples per step and a reset
/// accumulator, tick `k` lands the sequencer on step `(step + k / m)`
/// modulo sixteen: every index is visited exactly once, in increasing
/// cyclic order, over any sixteen step lengths.
pub proof fn lemma_whole_step_schedule(step: int, m: int, k: nat)
    requires
        0 <= step < 16,
        1 <= m,
    ensures
        clock_iter(step, 0, m * 65536, k).0 == (step + (k as int) / m) % 16,
{
    lemma_clock_schedule(step, 0, m * 65536, k);
    let q = k as int / m;
    let r = k as int % m;
    vstd::arithmetic::div_mod::lemma_fundamental_div_mod(k as int, m);
    assert((k as int) * 65536 == (m * 65536) * q + r * 65536) by (nonlinear_arith)
        requires
            k as int == m * q + r,
    ;
    assert(0 <= r * 65536 < m * 65536) by (nonlinear_arith)
        requires
            0 <= r < m,
    ;
    vstd::arithmetic::div_mod::lemma_fundamental_div_mod_converse(
        (k as int) * 65536,
        m * 65536,
        q,
        r * 65536,
    );
}

/// Sixteen cyclic steps, three decay envelopes, and the percussive
/// blip state, clocked by tempo.
pub struct StepSequencer {
    pub sample_rate: u32,
    pub mask: u16,
    pub step: u32,
    pub bpm: i64,
    pub spp: u64,
    pub accum: u64,
    pub hit_env: i64,
    pub gate_env: i64,
    pub perc_env: i64,
    pub hit_decay: i64,
    pub gate_decay: i64,
    pub perc_decay: i64,
    pub perc_phase: u64,
    pub perc_freq_hz: u32,
    pub perc_inc: u64,
}

impl StepSequencer {
    /// Well-formed sequencer state.
    pub open spec fn wf(&self) -> bool {
        &&& 1000 <= self.sample_rate <= 1000000
        &&& self.step < 16
        &&& BPM_MIN <= self.bpm <= BPM_MAX
        &&& FX_ONE <= self.spp <= 0x10000000000
        &&& self.accum <= 0x10000000000
        &&& 0 <= self.hit_env <= FX_ONE && 0 <= self.gate_env <= FX_ONE && 0 <= self.perc_env
            <= FX_ONE
        &&& 0 <= self.hit_decay <= FX_ONE && 0 <= self.gate_decay <= FX_ONE && 0
            <= self.perc_decay <= FX_ONE
        &&& self.perc_phase < PHASE_ONE
        &&& 700 <= self.perc_freq_hz <= 1500
        &&& self.perc_inc <= 0x100000000000
    }

    /// The timing fields agree with the tempo and the sample rate.
    pub open spec fn timing_ok(&self) -> bool {
        &&& self.spp == spp_spec(self.sample_rate as int, self.bpm as int)
        &&& self.hit_decay == env_decay_spec(self.sample_rate as int, 12)
        &&& self.gate_decay == env_decay_spec(self.sample_rate as int, 8)
        &&& self.perc_decay == env_decay_spec(self.sample_rate as int, 3)
    }

    /// Whether this sample's clock tick lands on an active step.
    pub open spec fn trig_spec(&self) -> bool {
        let c = clock_spec(self.step as int, self.accum as int, self.spp as int);
        c.0 != self.step as int && ((self.mask as u32) >> (c.0 as u32)) & 1 == 1
    }

    /// The hit envelope after this sample's tick.
    pub open spec fn hit_after_spec(&self) -> int {
        if self.trig_spec() {
            65536
        } else {
            fx_mul_spec(self.hit_env as int, self.hit_decay as int)
        }
    }

    /// The drone-boost envelope after this sample, decayed or retriggered.
    pub open spec fn gate_after_spec(&self) -> int {
        if self.trig_spec() {
            65536
        } else {
            fx_mul_spec(self.gate_env as int, self.gate_decay as int)
        }
    }

    /// The blip envelope after this sample's tick.
    pub open spec fn perc_env_after_spec(&self) -> int {
        if self.trig_spec() {
            65536
        } else {
            fx_mul_spec(self.perc_env as int, self.perc_decay as int)
        }
    }

    /// The blip phase after this sample's tick.
    pub open spec fn perc_phase_after_spec(&self) -> int {
        if self.trig_spec() {
            0
        } else {
            self.perc_phase as int
        }
    }

    /// The random state after this sample's tick: one draw on a
    /// trigger, untouched otherwise.
    pub open spec fn rng_after_spec(&self, state: u64) -> u64 {
        if self.trig_spec() {
            rng_step(state)
        } else {
            state
        }
    }

    /// The decay multiplier for a time constant in hundredths of a
    /// second, computed exactly as `env_decay_spec` says.
    fn decay_for(sample_rate: u32, hundredths: u64) -> (r: i64)
        requires
            1000 <= sample_rate <= 1000000,
            1 <= hundredths <= 100,
        ensures
            r == env_decay_spec(sample_rate as int, hundredths as int),
            0 <= r <= FX_ONE,
    {
        assert((sample_rate as int) * (hundredths as int) <= 100000000) by (nonlinear_arith)
            requires
                0 <= sample_rate <= 1000000,
                0 <= hundredths <= 100,
        ;
        let n0: u64 = (sample_rate as u64) * hundredths / 100;
        let n: u64 = if n0 < 1 {
            1
        } else {
            n0
        };
        proof {
            vstd::arithmetic::div_mod::lemma_div_is_ordered(
                ((sample_rate as u64) * hundredths) as int,
                100000000,
                100,
            );
            vstd::arithmetic::div_mod::lemma_fundamental_div_mod_converse(
                100000000,
                100,
                1000000,
                0,
            );
        }
        let u: u64 = (LN_THOUSAND_Q16 + n / 2) / n;
        assert(452710 + n / 2 <= n * 452711) by (nonlinear_arith)
            requires
                1 <= n,
        ;
        proof {
            vstd::arithmetic::div_mod::lemma_div_is_ordered(
                (LN_THOUSAND_Q16 + n / 2) as int,
                (n as int) * 452711,
                n as int,
            );
            vstd::arithmetic::mul::lemma_mul_is_commutative(n as int, 452711);
            vstd::arithmetic::div_mod::lemma_div_multiples_vanish(452711, n as int);
        }
        exp_neg_q16(u)
    }

    /// A fresh sequencer with the default pattern and tempo, timing
    /// derived from the sample rate.
    pub fn new(sample_rate: u32) -> (r: StepSequencer)
        requires
            1000 <= sample_rate <= 1000000,
        ensures
            r.wf(),
            r.timing_ok(),
            r.sample_rate == sample_rate,
            r.mask == 0xA051u16,
            r.step == 0,
            r.bpm == 6553600,
            r.accum == 0,
            r.hit_env == 0 && r.gate_env == 0 && r.perc_env == 0,
            r.perc_phase == 0,
            r.perc_freq_hz == 1000,
            r.perc_inc == 0,
    {
        let mut s = StepSequencer {
            sample_rate,
            mask: 0xA051,
            step: 0,
            bpm: 6553600,
            spp: FX_ONE as u64,
            accum: 0,
            hit_env: 0,
            gate_env: 0,
            perc_env: 0,
            hit_decay: 0,
            gate_decay: 0,
            perc_decay: 0,
            perc_phase: 0,
            perc_freq_hz: 1000,
            perc_inc: 0,
        };
        s.update_timing();
        s
    }

    /// Recompute the step length and the three decay multipliers from
    /// the tempo and the sample rate. Nothing else changes: the step
    /// accumulator is kept, so after a tempo speed-up any surplus it
    /// holds drains through the per-sample tick, one step length per
    /// sample, exactly as the clock has always counted.
    pub fn update_timing(&mut self)
        requires
            old(self).wf(),
        ensures
            final(self).wf(),
            final(self).timing_ok(),
            final(self).mask == old(self).mask,
            final(self).step == old(self).step,
            final(self).bpm == old(self).bpm,
            final(self).sample_rate == old(self).sample_rate,
            final(self).hit_env == old(self).hit_env,
            final(self).gate_env == old(self).gate_env,
            final(self).perc_env == old(self).perc_env,
            final(self).perc_phase == old(self).perc_phase,
            final(self).perc_freq_hz == old(self).perc_freq_hz,
            final(self).perc_inc == old(self).perc_inc,
            final(self).accum == old(self).accum,
    {
        let num: u64 = (self.sample_rate as u64) * 64424509440;
        let raw: u64 = num / (self.bpm as u64);
        proof {
            vstd::arithmetic::div_mod::lemma_div_is_ordered(
                num as int,
                64424509440000000,
                self.bpm as int,
            );
            vstd::arithmetic::div_mod::lemma_div_is_ordered_by_denominator(
                64424509440000000,
                BPM_MIN as int,
                self.bpm as int,
            );
            vstd::arithmetic::div_mod::lemma_fundamental_div_mod_converse(
                64424509440000000,
                1310720,
                49152000000,
                0,
            );
            assert((self.sample_rate as int) * 15 * 65536 * 65536 == (self.sample_rate as int)
                * 64424509440) by (nonlinear_arith);
        }
        self.spp = if raw < FX_ONE as u64 {
            FX_ONE as u64
        } else {
            raw
        };
        self.hit_decay = Self::decay_for(self.sample_rate, 12);
        self.gate_decay = Self::decay_for(self.sample_rate, 8);
        self.perc_decay = Self::decay_for(self.sample_rate, 3);
    }

    /// One sample of the sequencer: decay the three envelopes, tick the
    /// step clock, and on an active new step reset the envelopes to
    /// one, reset the blip phase, and draw a fresh blip frequency in
    /// `[700, 1500]` hertz. Returns whether a step triggered.
    pub fn tick(&mut self, rng: &mut Rand64) -> (trig: bool)
        requires
            old(self).wf(),
        ensures
            final(self).wf(),
            ({
                let c = clock_spec(old(self).step as int, old(self).accum as int,
                    old(self).spp as int);
                &&& final(self).step == c.0
                &&& final(self).accum == c.1
                &&& trig == (final(self).step != old(self).step && ((old(self).mask as u32) >> (
                final(self).step as u32)) & 1 == 1)
            }),
            final(self).hit_env as int == if trig {
                FX_ONE as int
            } else {
                fx_mul_spec(old(self).hit_env as int, old(self).hit_decay as int)
            },
            final(self).gate_env as int == if trig {
                FX_ONE as int
            } else {
                fx_mul_spec(old(self).gate_env as int, old(self).gate_decay as int)
            },
            final(self).perc_env as int == if trig {
                FX_ONE as int
            } else {
                fx_mul_spec(old(self).perc_env as int, old(self).perc_decay as int)
            },
            final(self).perc_phase == if trig {
                0
            } else {
                old(self).perc_phase
            },
            trig ==> final(self).perc_freq_hz == 700 + (rng_out(old(rng).state) as int) % 801,
            trig ==> 700 <= final(self).perc_freq_hz <= 1500,
            trig ==> final(self).perc_inc == (final(self).perc_freq_hz as int) * (
            PHASE_ONE as int) / (old(self).sample_rate as int),
            trig ==> final(rng).state == rng_step(old(rng).state),
            !trig ==> final(rng).state == old(rng).state,
            !trig ==> final(self).perc_freq_hz == old(self).perc_freq_hz,
            !trig ==> final(self).perc_inc == old(self).perc_inc,
            final(self).mask == old(self).mask,
            final(self).bpm == old(self).bpm,
            final(self).spp == old(self).spp,
            final(self).sample_rate == old(self).sample_rate,
            final(self).hit_decay == old(self).hit_decay,
            final(self).gate_decay == old(self).gate_decay,
            final(self).perc_decay == old(self).perc_decay,
    {
        self.hit_env = Self::env_mul(self.hit_env, self.hit_decay);
        self.gate_env = Self::env_mul(self.gate_env, self.gate_decay);
        self.perc_env = Self::env_mul(self.perc_env, self.perc_decay);
        self.accum = self.accum + FX_ONE as u64;
        let mut trig = false;
        if self.accum >= self.spp {
            self.accum = self.accum - self.spp;
            let ns: u32 = if self.step >= 15 {
                0
            } else {
                self.step + 1
            };
            proof {
                if old(self).step >= 15 {
                    assert((old(self).step + 1) % 16int == 0);
                } else {
                    vstd::arithmetic::div_mod::lemma_small_mod((old(self).step + 1) as nat, 16);
                }
            }
            self.step = ns;
            if ((self.mask as u32) >> ns) & 1 == 1 {
                trig = true;
                self.hit_env = FX_ONE;
                self.gate_env = FX_ONE;
                self.perc_env = FX_ONE;
                self.perc_phase = 0;
                let f = rng.next_range(700, 1500);
                self.perc_freq_hz = f as u32;
                let raw_inc: u64 = (f as u64) * PHASE_ONE / (self.sample_rate as u64);
                proof {
                    vstd::arithmetic::div_mod::lemma_div_is_ordered(
                        ((f as u64) * PHASE_ONE) as int,
                        6442450944000,
                        self.sample_rate as int,
                    );
                    vstd::arithmetic::div_mod::lemma_div_is_ordered_by_denominator(
                        6442450944000,
                        1000,
                        self.sample_rate as int,
                    );
                    vstd::arithmetic::div_mod::lemma_fundamental_div_mod_converse(
                        6442450944000,
                        1000,
                        6442450944,
                        0,
                    );
                }
                self.perc_inc = raw_inc;
            }
        }
        trig
    }

    /// Multiply an envelope by its decay, staying within `[0, 1]`.
    fn env_mul(e: i64, d: i64) -> (r: i64)
        requires
            0 <= e <= FX_ONE,
            0 <= d <= FX_ONE,
        ensures
            r == fx_mul_spec(e as int, d as int),
            0 <= r <= FX_ONE,
    {
        let r = fx_mul(e, d);
        proof {
            assert(0 <= (e as int) * (d as int) <= 65536 * 65536) by (nonlinear_arith)
                requires
                    0 <= e <= 65536,
                    0 <= d <= 65536,
            ;
            crate::fixed::lemma_tdiv_bound((e as int) * (d as int), 65536, 65536);
            vstd::arithmetic::div_mod::lemma_div_pos_is_pos((e as int) * (d as int), 65536);
        }
        r
    }

    /// The percussive blip for one sample: the sine of the blip phase
    /// scaled by the blip envelope; the phase then advances and wraps.
    pub fn perc_sample(&mut self) -> (r: i64)
        requires
            old(self).wf(),
        ensures
            final(self).wf(),
            r == fx_mul_spec(sin_fx_spec(old(self).perc_phase as int), old(self).perc_env as int),
            crate::fixed::fx_fits(r as int),
            final(self).perc_phase as int == ((old(self).perc_phase + old(self).perc_inc) as int)
                % (PHASE_ONE as int),
            *final(self) == (StepSequencer { perc_phase: final(self).perc_phase, ..*old(self) }),
    {
        let v = fx_mul(sin_fx(self.perc_phase), self.perc_env);
        self.perc_phase = (self.perc_phase + self.perc_inc) % PHASE_ONE;
        proof {
            vstd::arithmetic::div_mod::lemma_mod_division_less_than_divisor(
                (old(self).perc_phase + old(self).perc_inc) as int,
                PHASE_ONE as int,
            );
        }
        v
    }
}

} // verus!
