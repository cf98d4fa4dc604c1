use drone_dsp::engine::Engine;
use drone_dsp::reverb::StereoReverb;

fn comb_feedbacks(r: &StereoReverb) -> [i64; 16] {
    [
        r.c_l0.feedback,
        r.c_l1.feedback,
        r.c_l2.feedback,
        r.c_l3.feedback,
        r.c_l4.feedback,
        r.c_l5.feedback,
        r.c_l6.feedback,
        r.c_l7.feedback,
        r.c_r0.feedback,
        r.c_r1.feedback,
        r.c_r2.feedback,
        r.c_r3.feedback,
        r.c_r4.feedback,
        r.c_r5.feedback,
        r.c_r6.feedback,
        r.c_r7.feedback,
    ]
}

#[test]
fn wet_shares_sum_exactly() {
    // wet1 + wet2 == wet on the whole Q16 grid sampled coarsely.
    let mut wet: i64 = 0;
    while wet <= 65536 {
        let mut width: i64 = 0;
        while width <= 65536 {
            let w1 = wet * (65536 + width) / 131072;
            let w2 = (wet * (65536 - width) + 131071) / 131072;
            assert_eq!(w1 + w2, wet);
            width += 811;
        }
        wet += 677;
    }
}

#[test]
fn set_reverb_clamps_mix() {
    let mut e = Engine::new(48000, 1);
    e.set_reverb(-5, 70000);
    assert_eq!(e.reverb.wet, 0);
    assert_eq!(e.reverb.width, 65536);
    e.set_reverb(32768, 16384);
    assert_eq!(e.reverb.wet, 32768);
    assert_eq!(e.reverb.width, 16384);
}

#[test]
fn timing_at_120_bpm_is_6000_samples() {
    let mut e = Engine::new(48000, 1);
    e.set_bpm(120 * 65536);
    assert_eq!(e.get_bpm(), 120 * 65536);
    assert_eq!(e.seq.spp, 6000 * 65536);
}

#[test]
fn bpm_is_clamped() {
    let mut e = Engine::new(48000, 1);
    e.set_bpm(1);
    assert_eq!(e.get_bpm(), 20 * 65536);
    e.set_bpm(1000 * 65536);
    assert_eq!(e.get_bpm(), 300 * 65536);
}

#[test]
fn sequencer_visits_all_steps_in_cyclic_order() {
    let mut e = Engine::new(48000, 5);
    e.set_bpm(120 * 65536);
    e.set_sequence_mask(0);
    assert_eq!(e.get_current_step(), 0);
    for j in 0..16u32 {
        e.render(6000);
        assert_eq!(e.get_current_step(), (j + 1) % 16);
    }
}

#[test]
fn step_advances_once_over_one_step_length() {
    let mut e = Engine::new(48000, 5);
    e.set_bpm(120 * 65536);
    e.set_sequence_mask(1);
    e.render(5999);
    assert_eq!(e.get_current_step(), 0);
    assert_eq!(e.seq.hit_env, 0);
    e.render(1);
    assert_eq!(e.get_current_step(), 1);
    // Bit zero is not bit one, so the step did not trigger.
    assert_eq!(e.seq.hit_env, 0);
}

#[test]
fn trigger_resets_envelope_then_decays_geometrically() {
    let mut e = Engine::new(48000, 5);
    e.set_bpm(120 * 65536);
    e.set_sequence_mask(0b10);
    e.render(6000);
    assert_eq!(e.get_current_step(), 1);
    assert_eq!(e.seq.hit_env, 65536);
    assert_eq!(e.seq.gate_env, 65536);
    assert_eq!(e.seq.perc_env, 65536);
    let d = e.seq.hit_decay;
    let mut expected: i64 = 65536;
    for _ in 0..32 {
        e.render(1);
        expected = ((expected as i128 * d as i128) / 65536) as i64;
        assert_eq!(e.seq.hit_env, expected);
    }
}

#[test]
fn decay_rates_reach_the_target_in_their_time() {
    let e = Engine::new(48000, 1);
    let cases = [
        (e.seq.hit_decay, 0.12f64),
        (e.seq.gate_decay, 0.08f64),
        (e.seq.perc_decay, 0.03f64),
    ];
    for (decay, t) in cases {
        let d = decay as f64 / 65536.0;
        let reached = d.powf(48000.0 * t);
        assert!((reached - 0.001).abs() < 0.0002, "reached {reached}");
    }
}

#[test]
fn randomize_keeps_documented_ranges() {
    let mut e = Engine::new(48000, 12345);
    for _ in 0..20 {
        e.randomize();
        assert_ne!(e.get_sequence_mask(), 0);
        let bpm = e.get_bpm();
        assert!(bpm >= 70 * 65536 && bpm <= 140 * 65536);
        for fb in comb_feedbacks(&e.reverb) {
            assert!(fb >= 44565 && fb <= 58982);
            assert!((fb as f64) / 65536.0 >= 0.68);
            assert!((fb as f64) / 65536.0 <= 0.9);
        }
    }
}

#[test]
fn render_output_length_is_two_per_frame() {
    let mut e = Engine::new(48000, 3);
    assert_eq!(e.out.len(), 256);
    e.render(100);
    assert_eq!(e.out.len(), 256);
    e.render(512);
    assert_eq!(e.out.len(), 1024);
    // The buffer never shrinks.
    e.render(10);
    assert_eq!(e.out.len(), 1024);
}

#[test]
fn render_into_fills_the_caller_buffer() {
    let mut e = Engine::new(48000, 3);
    let mut buf = vec![0i64; 128];
    e.render_into(&mut buf);
    assert_eq!(buf.len(), 128);
    for i in 0..128 {
        assert_eq!(buf[i], e.out[i]);
    }
}

#[test]
fn equal_seeds_render_identical_audio() {
    let mut a = Engine::new(48000, 424242);
    let mut b = Engine::new(48000, 424242);
    for e in [&mut a, &mut b] {
        e.set_bpm(110 * 65536);
        e.set_sequence_mask(0x9292);
        e.set_reverb(40000, 50000);
        e.randomize();
        e.render(512);
    }
    assert_eq!(a.out.len(), b.out.len());
    for i in 0..a.out.len() {
        assert_eq!(a.out[i], b.out[i]);
    }
    // The signal is not silence.
    assert!(a.out.iter().any(|&s| s != 0));
}

#[test]
fn default_pattern_and_state() {
    let e = Engine::new(48000, 9);
    assert_eq!(e.get_sequence_mask(), 0xA051);
    assert_eq!(e.get_current_step(), 0);
    assert_eq!(e.get_bpm(), 100 * 65536);
}

#[test]
fn bpm_change_keeps_step_progress() {
    let mut e = Engine::new(48000, 5);
    e.set_bpm(120 * 65536);
    e.set_sequence_mask(0);
    e.render(4000);
    assert_eq!(e.seq.accum, 4000 * 65536);
    // Retiming never touches the gathered progress toward the next step.
    e.set_bpm(60 * 65536);
    assert_eq!(e.seq.spp, 12000 * 65536);
    assert_eq!(e.seq.accum, 4000 * 65536);
    // After a speed-up past the gathered progress, the pending step
    // fires on the very next sample and the surplus is carried over.
    e.set_bpm(240 * 65536);
    assert_eq!(e.seq.spp, 3000 * 65536);
    assert_eq!(e.seq.accum, 4000 * 65536);
    e.render(1);
    assert_eq!(e.get_current_step(), 1);
    assert_eq!(e.seq.accum, 1001 * 65536);
}
