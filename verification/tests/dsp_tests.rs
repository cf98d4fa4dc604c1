use drone_dsp::delay::DelayLine;
use drone_dsp::exp::exp_neg_q16;
use drone_dsp::filter::OnePoleLpf;
use drone_dsp::fixed::{fx_add, fx_mul, fx_sub, soft_clip, FX_ONE};
use drone_dsp::rng::Rand64;
use drone_dsp::sine::sin_fx;

#[test]
fn soft_clip_fixes_zero() {
    assert_eq!(soft_clip(0), 0);
}

#[test]
fn soft_clip_exact_values() {
    // f(1.0) = 28/36 and f(2.0) = 62/63 on the Q16 grid.
    assert_eq!(soft_clip(65536), 50972);
    assert_eq!(soft_clip(2 * 65536), 64495);
}

#[test]
fn soft_clip_is_odd() {
    for x in [1i64, 7, 12345, 65536, 131072, 3 * 65536, 987654321] {
        assert_eq!(soft_clip(-x), -soft_clip(x));
    }
}

#[test]
fn soft_clip_is_monotone_on_three_units() {
    let mut prev = soft_clip(-3 * 65536);
    let mut x = -3i64 * 65536;
    while x <= 3 * 65536 {
        let y = soft_clip(x);
        assert!(prev <= y);
        prev = y;
        x += 4111;
    }
}

#[test]
fn sine_quarter_points() {
    assert_eq!(sin_fx(0), 0);
    assert_eq!(sin_fx(1 << 30), 65536);
    assert_eq!(sin_fx(1 << 31), 0);
    assert_eq!(sin_fx(3 << 30), -65536);
    assert_eq!(sin_fx(1 << 28), 25042);
}

#[test]
fn exp_exact_values() {
    assert_eq!(exp_neg_q16(0), 65536);
    // ln 2 in Q16 gives exactly one half.
    assert_eq!(exp_neg_q16(45426), 32768);
    // e to the minus one.
    assert_eq!(exp_neg_q16(65536), 24109);
}

#[test]
fn fixed_ops_saturate_and_truncate() {
    assert_eq!(fx_mul(65536, 65536), 65536);
    assert_eq!(fx_mul(32768, 32768), 16384);
    assert_eq!(fx_mul(-32768, 32768), -16384);
    assert_eq!(fx_add(1, 2), 3);
    assert_eq!(fx_sub(1, 2), -1);
    let limit = 1099511627776i64;
    assert_eq!(fx_add(limit, limit), limit);
    assert_eq!(fx_mul(limit, limit), limit);
}

#[test]
fn delay_read_back_just_written() {
    let mut d = DelayLine::with_len(8);
    d.write(12345);
    assert_eq!(d.read_frac(0), 12345);
    d.write(-777);
    assert_eq!(d.read_frac(0), -777);
    // One sample further back is the earlier write.
    assert_eq!(d.read_frac(65536), 12345);
}

#[test]
fn delay_wraps_at_capacity_one() {
    let mut d = DelayLine::with_len(1);
    d.write(42);
    assert_eq!(d.read_frac(0), 42);
    assert_eq!(d.read_frac(65536), 42);
}

#[test]
fn delay_interpolates_halfway() {
    let mut d = DelayLine::with_len(4);
    d.write(0);
    d.write(65536);
    // Halfway between the two most recent samples.
    assert_eq!(d.read_frac(32768), 32768);
}

#[test]
fn delay_capacity_from_milliseconds() {
    // 50.3 milliseconds at 48000 hertz rounds to 2414 samples.
    let d = DelayLine::with_tenth_ms(48000, 503);
    assert_eq!(d.buf.len(), 2414);
    // A tiny length is floored to one sample.
    let tiny = DelayLine::with_tenth_ms(1000, 1);
    assert_eq!(tiny.buf.len(), 1);
}

#[test]
fn one_pole_coefficients_sum_to_one() {
    let f = OnePoleLpf::new(48000, 1200);
    assert_eq!(f.b, 56009);
    assert_eq!(f.a + f.b, FX_ONE);
    assert_eq!(f.z, 0);
}

#[test]
fn one_pole_first_sample_is_a() {
    let mut f = OnePoleLpf::new(48000, 1200);
    let y = f.process(65536);
    assert_eq!(y, f.a);
}

#[test]
fn one_pole_cutoff_change_keeps_state() {
    let mut f = OnePoleLpf::new(48000, 1200);
    f.process(65536);
    let z = f.z;
    f.set_cutoff(48000, 4800);
    assert_eq!(f.b, 34962);
    assert_eq!(f.z, z);
}

#[test]
fn rng_is_deterministic_and_in_range() {
    let mut a = Rand64::new(99);
    let mut b = Rand64::new(99);
    for _ in 0..100 {
        assert_eq!(a.next_u64(), b.next_u64());
    }
    let mut c = Rand64::new(7);
    for _ in 0..200 {
        let v = c.next_range(700, 1500);
        assert!((700..=1500).contains(&v));
    }
}

#[test]
fn comb_voice_is_silent_until_the_delay_fills() {
    let mut c = drone_dsp::filter::CombLpf::new(48000, 503, 53740, 4800, 130);
    // The delay starts zeroed, so the first tap is exactly zero.
    assert_eq!(c.process(65536), 0);
    // The impulse comes back once the tap reaches the written cell.
    let mut heard = false;
    for _ in 0..2700 {
        if c.process(0) != 0 {
            heard = true;
        }
    }
    assert!(heard);
}

#[test]
fn allpass_passes_a_scaled_impulse_immediately() {
    let mut a = drone_dsp::filter::Allpass::new(48000, 51, 34734);
    // y is zero, x is the impulse, so the output is g times the input.
    assert_eq!(a.process(65536), 34734);
}

#[test]
fn reverb_first_sample_is_exactly_zero() {
    let mut r = drone_dsp::reverb::StereoReverb::new(48000);
    assert_eq!(r.process(65536, 65536), (0, 0));
    let mut heard = false;
    for _ in 0..2700 {
        let (l, rr) = r.process(0, 0);
        if l != 0 || rr != 0 {
            heard = true;
        }
    }
    assert!(heard);
}
