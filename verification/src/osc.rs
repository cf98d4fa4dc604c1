//! Oscillators and noise: a phase-accumulator LFO, a slowly wandering
//! drone oscillator, and a three-pole pink noise shaper.

use vstd::prelude::*;
use crate::fixed::{fx_add, fx_add_spec, fx_fits, fx_mul, fx_mul_spec, FX_LIMIT, FX_ONE};
use crate::sine::{sin_fx, sin_fx_spec, PHASE_ONE};

verus! {

/// The phase increment for a rate in thousandths of a hertz.
pub open spec fn lfo_inc_spec(freq_mhz: int, fs: int) -> int {
    ((freq_mhz * (PHASE_ONE as int)) / (1000 * fs)) % (PHASE_ONE as int)
}

/// A low-frequency sinusoid generator over a wrapping phase.
pub struct Lfo {
    pub phase: u64,
    pub inc: u64,
}

impl Lfo {
    /// Well-formed LFO state.
    pub open spec fn wf(&self) -> bool {
        &&& self.phase < PHASE_ONE
        &&& self.inc < PHASE_ONE
    }

    /// Compute the wrapped phase increment for a rate in thousandths of
    /// a hertz.
    fn compute_inc(freq_mhz: u32, sample_rate: u32) -> (r: u64)
        requires
            1000 <= sample_rate <= 1000000,
            freq_mhz <= 1000000,
        ensures
            r == lfo_inc_spec(freq_mhz as int, sample_rate as int),
            r < PHASE_ONE,
    {
        let inc: u64 = ((freq_mhz as u64) * PHASE_ONE / (1000 * (sample_rate as u64)))
            % PHASE_ONE;
        proof {
            vstd::arithmetic::div_mod::lemma_mod_division_less_than_divisor(
                ((freq_mhz as u64) * PHASE_ONE / (1000 * (sample_rate as u64))) as int,
                PHASE_ONE as int,
            );
        }
        inc
    }

    /// A fresh LFO at phase zero.
    pub fn new(freq_mhz: u32, sample_rate: u32) -> (r: Lfo)
        requires
            1000 <= sample_rate <= 1000000,
            freq_mhz <= 1000000,
        ensures
            r.wf(),
            r.phase == 0,
            r.inc == lfo_inc_spec(freq_mhz as int, sample_rate as int),
    {
        Lfo { phase: 0, inc: Self::compute_inc(freq_mhz, sample_rate) }
    }

    /// Change the rate; the phase is kept.
    pub fn set_freq(&mut self, freq_mhz: u32, sample_rate: u32)
        requires
            old(self).wf(),
            1000 <= sample_rate <= 1000000,
            freq_mhz <= 1000000,
        ensures
            final(self).wf(),
            final(self).phase == old(self).phase,
            final(self).inc == lfo_inc_spec(freq_mhz as int, sample_rate as int),
    {
        self.inc = Self::compute_inc(freq_mhz, sample_rate);
    }

    /// Emit the sine of the current phase, then advance and wrap.
    pub fn next(&mut self) -> (r: i64)
        requires
            old(self).wf(),
        ensures
            final(self).wf(),
            r == sin_fx_spec(old(self).phase as int),
            -FX_ONE <= r <= FX_ONE,
            final(self).phase as int == ((old(self).phase + old(self).inc) as int) % (
            PHASE_ONE as int),
            final(self).inc == old(self).inc,
    {
        let v = sin_fx(self.phase);
        self.phase = (self.phase + self.inc) % PHASE_ONE;
        proof {
            vstd::arithmetic::div_mod::lemma_mod_division_less_than_divisor(
                (old(self).phase + old(self).inc) as int,
                PHASE_ONE as int,
            );
        }
        v
    }
}

/// The wandered frequency after one sample: the old frequency scaled by
/// one plus a twentieth of the LFO output times five ten-thousandths,
/// floored at zero.
pub open spec fn drone_freq_spec(freq: int, lfo_phase: int) -> int {
    let drift = fx_mul_spec(sin_fx_spec(lfo_phase), 13107);
    let factor = fx_add_spec(65536, fx_mul_spec(drift, 33));
    let nf = fx_mul_spec(freq, factor);
    if nf < 0 {
        0
    } else {
        nf
    }
}

/// A drone oscillator whose frequency wanders under an internal LFO.
pub struct DroneOsc {
    pub freq: i64,
    pub phase: u64,
    pub lfo: Lfo,
}

impl DroneOsc {
    /// Well-formed drone state.
    pub open spec fn wf(&self) -> bool {
        &&& 0 <= self.freq <= FX_LIMIT
        &&& self.phase < PHASE_ONE
        &&& self.lfo.wf()
    }

    /// A fresh drone at the given Q16 frequency, with a three
    /// hundredths of a hertz wander.
    pub fn new(freq: i64, sample_rate: u32) -> (r: DroneOsc)
        requires
            0 <= freq <= FX_LIMIT,
            1000 <= sample_rate <= 1000000,
        ensures
            r.wf(),
            r.freq == freq,
            r.phase == 0,
            r.lfo.phase == 0,
            r.lfo.inc == lfo_inc_spec(30, sample_rate as int),
    {
        DroneOsc { freq, phase: 0, lfo: Lfo::new(30, sample_rate) }
    }

    /// The sample `next` will emit: the sine of the advanced phase
    /// under the wandered frequency.
    pub open spec fn next_out_spec(&self, fs: int) -> int {
        let nf = drone_freq_spec(self.freq as int, self.lfo.phase as int);
        sin_fx_spec((self.phase + nf * 65536 / fs) % (PHASE_ONE as int))
    }

    /// One sample: wander the frequency, advance the phase by frequency
    /// over sample rate, and emit the sine of the new phase.
    pub fn next(&mut self, sample_rate: u32) -> (r: i64)
        requires
            old(self).wf(),
            1000 <= sample_rate <= 1000000,
        ensures
            final(self).wf(),
            final(self).freq == drone_freq_spec(old(self).freq as int, old(self).lfo.phase as int),
            final(self).lfo.inc == old(self).lfo.inc,
            final(self).lfo.phase as int == ((old(self).lfo.phase + old(self).lfo.inc) as int) % (
            PHASE_ONE as int),
            final(self).phase as int == ((old(self).phase + (final(self).freq as int) * 65536 / (
            sample_rate as int)) as int) % (PHASE_ONE as int),
            r == sin_fx_spec(final(self).phase as int),
            -FX_ONE <= r <= FX_ONE,
    {
        let drift = fx_mul(self.lfo.next(), 13107);
        let factor = fx_add(FX_ONE, fx_mul(drift, 33));
        let nf = fx_mul(self.freq, factor);
        self.freq = if nf < 0 {
            0
        } else {
            nf
        };
        let inc: u64 = (self.freq as u64) * 65536 / (sample_rate as u64);
        self.phase = (self.phase + inc) % PHASE_ONE;
        proof {
            vstd::arithmetic::div_mod::lemma_mod_division_less_than_divisor(
                (old(self).phase + inc) as int,
                PHASE_ONE as int,
            );
        }
        sin_fx(self.phase)
    }
}

/// What one sample does to a drone oscillator's state: the internal
/// LFO advances, the frequency wanders under it, and the phase gains
/// the new frequency over the sample rate, wrapping.
pub open spec fn drone_next(pre: DroneOsc, post: DroneOsc, fs: int) -> bool {
    &&& post.freq == drone_freq_spec(pre.freq as int, pre.lfo.phase as int)
    &&& post.lfo.inc == pre.lfo.inc
    &&& post.lfo.phase as int == ((pre.lfo.phase + pre.lfo.inc) as int) % (PHASE_ONE as int)
    &&& post.phase as int == ((pre.phase + (post.freq as int) * 65536 / fs) as int) % (
    PHASE_ONE as int)
}

/// The three shaped poles and the direct share of the pink filter.
pub open spec fn pink_b0_spec(b0: int, white: int) -> int {
    fx_add_spec(fx_mul_spec(b0, 65382), fx_mul_spec(white, 6491))
}

/// Second pole of the pink filter.
pub open spec fn pink_b1_spec(b1: int, white: int) -> int {
    fx_add_spec(fx_mul_spec(b1, 63111), fx_mul_spec(white, 19433))
}

/// Third pole of the pink filter.
pub open spec fn pink_b2_spec(b2: int, white: int) -> int {
    fx_add_spec(fx_mul_spec(b2, 37355), fx_mul_spec(white, 68989))
}

/// The pink sample for a white input: the three new poles summed plus
/// a direct share of the white sample.
pub open spec fn pink_out_spec(b0: int, b1: int, b2: int, white: int) -> int {
    fx_add_spec(
        fx_add_spec(
            fx_add_spec(pink_b0_spec(b0, white), pink_b1_spec(b1, white)),
            pink_b2_spec(b2, white),
        ),
        fx_mul_spec(white, 12111),
    )
}

/// A three-pole pink-noise shaping filter over white noise.
pub struct PinkNoise {
    pub b0: i64,
    pub b1: i64,
    pub b2: i64,
}

impl PinkNoise {
    /// Well-formed pink filter state.
    pub open spec fn wf(&self) -> bool {
        &&& fx_fits(self.b0 as int)
        &&& fx_fits(self.b1 as int)
        &&& fx_fits(self.b2 as int)
    }

    /// A fresh filter with zeroed poles.
    pub fn new() -> (r: PinkNoise)
        ensures
            r.wf(),
            r.b0 == 0 && r.b1 == 0 && r.b2 == 0,
    {
        PinkNoise { b0: 0, b1: 0, b2: 0 }
    }

    /// Shape one white sample into pink noise.
    pub fn next(&mut self, white: i64) -> (r: i64)
        requires
            old(self).wf(),
            fx_fits(white as int),
        ensures
            final(self).wf(),
            final(self).b0 == pink_b0_spec(old(self).b0 as int, white as int),
            final(self).b1 == pink_b1_spec(old(self).b1 as int, white as int),
            final(self).b2 == pink_b2_spec(old(self).b2 as int, white as int),
            r == pink_out_spec(old(self).b0 as int, old(self).b1 as int, old(self).b2 as int,
                white as int),
            fx_fits(r as int),
    {
        self.b0 = fx_add(fx_mul(self.b0, 65382), fx_mul(white, 6491));
        self.b1 = fx_add(fx_mul(self.b1, 63111), fx_mul(white, 19433));
        self.b2 = fx_add(fx_mul(self.b2, 37355), fx_mul(white, 68989));
        fx_add(fx_add(fx_add(self.b0, self.b1), self.b2), fx_mul(white, 12111))
    }
}

} // verus!
