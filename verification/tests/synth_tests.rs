use am_synth::am::AmBridge;
use am_synth::engine::{Engine, NoteEvent};
use am_synth::envelope::{Envelope, EnvelopeStage};
use am_synth::filter::{FilterTopology, ResonantFilter};
use am_synth::fixed::SCALE;
use am_synth::osc::SineOscillator;
use am_synth::params::{AmSynthParams, EnvVariant};
use am_synth::staged::StagedEnvelope;
use am_synth::util::midi_note_to_freq;
use am_synth::voice::Voice;

const FULL: i64 = SCALE; // 65536
const HALF: i64 = SCALE / 2;

/// The exact fixed-point AM law, recomputed independently of the library.
fn am_expected(c: i64, m: i64, d: i64) -> i64 {
    let wide = (c as i128) * ((1i128 << 32) + (m as i128) * (d as i128));
    let q = wide.unsigned_abs() / (1u128 << 32);
    if wide < 0 {
        -(q as i64)
    } else {
        q as i64
    }
}

#[test]
fn oscillator_phase_and_output_stay_in_range() {
    // Frequencies spanning the audible band, rates spanning the session band.
    for &freq_millihz in &[20_000u64, 440_000, 2_000_000, 20_000_000] {
        for &rate in &[44_100u64, 48_000, 96_000, 192_000] {
            let mut osc = SineOscillator::new(rate);
            osc.set_frequency(freq_millihz);
            for _ in 0..1000 {
                let s = osc.generate();
                assert!(osc.phase < (1u64 << 32));
                assert!(-FULL <= s && s <= FULL);
            }
        }
    }
}

#[test]
fn oscillator_sine_known_points() {
    let mut osc = SineOscillator::new(44_100);
    // A quarter of the sample rate advances a quarter turn per sample:
    // the sine peaks at exactly one unit on the first sample.
    osc.set_frequency(11_025_000);
    let s = osc.generate();
    assert_eq!(s, FULL);
    let s2 = osc.generate(); // half turn: sine is zero again
    assert_eq!(s2, 0);
    let s3 = osc.generate(); // three quarters: the negative peak
    assert_eq!(s3, -FULL);
}

#[test]
fn oscillator_zero_frequency_is_dc() {
    let mut osc = SineOscillator::new(48_000);
    osc.set_frequency(0);
    for _ in 0..10 {
        assert_eq!(osc.generate(), 0);
        assert_eq!(osc.phase, 0);
    }
}

#[test]
fn oscillator_retune_keeps_phase() {
    let mut osc = SineOscillator::new(44_100);
    osc.set_frequency(440_000);
    for _ in 0..100 {
        osc.generate();
    }
    let phase_before = osc.phase;
    osc.set_frequency(880_000);
    assert_eq!(osc.phase, phase_before);
}

#[test]
fn adsr_reaches_and_holds_sustain() {
    let mut env = Envelope::new(44_100);
    env.set_params(10, 100, HALF, 100);
    let attack = env.attack; // samples
    let decay = env.decay;
    env.trigger();
    let mut peak: i64 = 0;
    let mut low: i64 = i64::MAX;
    for _ in 0..(attack + decay) {
        let v = env.process();
        peak = peak.max(v);
        low = low.min(v);
    }
    assert!(peak <= FULL);
    assert!(low >= 0);
    // Exactly the sustain level from here on.
    for _ in 0..200 {
        assert_eq!(env.process(), HALF);
    }
}

#[test]
fn adsr_attack_ramp_exact_value() {
    let mut env = Envelope::new(44_100);
    env.set_params(10, 100, HALF, 100);
    assert_eq!(env.attack, 441); // 10 ms at 44.1 kHz
    env.trigger();
    // After one sample the linear ramp reads 1 * SCALE / 441.
    assert_eq!(env.process(), FULL / 441);
}

#[test]
fn adsr_release_returns_to_zero_within_release_time() {
    let mut env = Envelope::new(44_100);
    env.set_params(10, 100, HALF, 50);
    env.trigger();
    for _ in 0..1000 {
        env.process();
    }
    env.release();
    let release = env.release; // samples (50 ms -> 2205)
    let mut v: i64 = i64::MAX;
    for _ in 0..release {
        v = env.process();
    }
    assert_eq!(v, 0);
    assert!(env.is_idle());
    for _ in 0..100 {
        assert_eq!(env.process(), 0);
    }
}

#[test]
fn adsr_release_from_low_level_still_reaches_zero() {
    let mut env = Envelope::new(44_100);
    env.set_params(1000, 100, HALF, 100);
    env.trigger();
    env.process(); // barely off the ground
    env.release();
    let release = env.release;
    for _ in 0..release {
        env.process();
    }
    assert!(env.is_idle());
    assert_eq!(env.process(), 0);
}

#[test]
fn adsr_zero_attack_is_clamped_to_one_sample() {
    let mut env = Envelope::new(44_100);
    env.set_params(0, 100, FULL, 100);
    assert_eq!(env.attack, 1);
    env.trigger();
    assert_eq!(env.process(), FULL);
}

#[test]
fn staged_envelope_visits_stages_in_order() {
    let mut env = StagedEnvelope::new();
    env.set_params([FULL, HALF, 49152, 0], [655, 655, 655, 655]);
    env.note_on();
    assert_eq!(env.stage, 0);
    let mut last_stage = 0u8;
    for _ in 0..300_000 {
        let stage_before = env.stage;
        let out_before = env.output;
        let target = match stage_before {
            0 => FULL,
            1 => HALF,
            2 => 49152,
            _ => 0,
        };
        env.process();
        // Stages move forward only, one at a time.
        assert!(env.stage >= stage_before);
        assert!(env.stage <= stage_before + 1);
        if env.stage == stage_before {
            // Monotone approach within a stage.
            let before = (target - out_before).abs();
            let after = (target - env.output).abs();
            assert!(after <= before);
        }
        last_stage = env.stage;
        if last_stage == 3 && env.output == 0 {
            break;
        }
    }
    assert_eq!(last_stage, 3);
    assert_eq!(env.output, 0);
}

#[test]
fn staged_envelope_note_off_jumps_to_final_stage() {
    let mut env = StagedEnvelope::new();
    env.set_params([FULL, HALF, 49152, 0], [655, 655, 655, 655]);
    env.note_on();
    for _ in 0..5 {
        env.process(); // still climbing stage 0
    }
    assert_eq!(env.stage, 0);
    env.note_off();
    assert_eq!(env.stage, 3);
}

#[test]
fn am_bridge_zero_depth_is_identity() {
    let bridge = AmBridge::new();
    for &c in &[0i64, 1, -1, 12345, -65536, 65536] {
        for &m in &[0i64, 500, -65536, 65536] {
            assert_eq!(bridge.process(c, m, 0), c);
        }
    }
}

#[test]
fn am_bridge_matches_exact_law() {
    let bridge = AmBridge::new();
    let cases = [
        (65536i64, 65536i64, 32768i64),
        (-65536, 65536, 65536),
        (40000, -30000, 20000),
        (-1, -1, 65536),
        (12345, 54321, 11111),
    ];
    for &(c, m, d) in &cases {
        assert_eq!(bridge.process(c, m, d), am_expected(c, m, d));
    }
}

#[test]
fn am_bridge_linear_in_depth_up_to_quantization() {
    let bridge = AmBridge::new();
    let (c, m) = (50000i64, -40000i64);
    for &(d1, d2) in &[(10000i64, 20000i64), (1, 65535), (32768, 32768)] {
        let lhs = bridge.process(c, m, d1 + d2) + bridge.process(c, m, 0);
        let rhs = bridge.process(c, m, d1) + bridge.process(c, m, d2);
        // The exact law is linear; truncation leaves at most two units.
        assert!((lhs - rhs).abs() <= 2);
    }
}

#[test]
fn filter_silence_decays_to_zero_and_never_diverges() {
    for &topology in &[FilterTopology::Moog, FilterTopology::Roland] {
        let mut filter = ResonantFilter::new();
        filter.set_params(1000, FULL); // full resonance must stay stable
        filter.set_topology(topology);
        for _ in 0..50 {
            let out = filter.process(FULL, 44_100);
            assert!(out.abs() <= 9 * 262_144);
        }
        let mut reached_zero = false;
        for _ in 0..600_000 {
            let out = filter.process(0, 44_100);
            assert!(out.abs() <= 9 * 262_144);
            if out == 0 && filter.y1 == 0 && filter.y2 == 0 {
                reached_zero = true;
                break;
            }
        }
        assert!(reached_zero);
        for _ in 0..100 {
            assert_eq!(filter.process(0, 44_100), 0);
        }
    }
}

#[test]
fn filter_first_sample_exact_value() {
    // At 1 kHz cutoff and 44.1 kHz the approach fraction is 8172/65536;
    // without resonance the first full-scale input leaves the two cascaded
    // poles at 8172 and 1019, and the output is the second pole alone.
    let mut filter = ResonantFilter::new();
    filter.set_params(1000, 0);
    let out = filter.process(FULL, 44_100);
    assert_eq!(filter.y1, 8172);
    assert_eq!(filter.y2, 1019);
    assert_eq!(out, 1019);
}

#[test]
fn filter_parameter_sweep_keeps_state() {
    let mut filter = ResonantFilter::new();
    for _ in 0..20 {
        filter.process(FULL, 48_000);
    }
    let (y1, y2) = (filter.y1, filter.y2);
    filter.set_params(5, 2 * FULL); // clamped to 20 Hz and full resonance
    assert_eq!(filter.cutoff, 20);
    assert_eq!(filter.resonance, FULL);
    assert_eq!(filter.y1, y1);
    assert_eq!(filter.y2, y2);
}

#[test]
fn voice_manager_allocates_exactly_the_pool() {
    let mut engine = Engine::new(44_100);
    engine.note_on(60, FULL);
    engine.note_off(60); // releasing, but still occupying its slot
    for n in 61..68u8 {
        engine.note_on(n, FULL);
    }
    assert_eq!(engine.voices.len(), 8);
    let active = engine.voices.iter().filter(|v| v.active).count();
    assert_eq!(active, 8);
    // The pool is exhausted: a ninth note is dropped without any effect.
    engine.note_on(70, FULL);
    assert_eq!(engine.voices.len(), 8);
    assert_eq!(engine.voices.iter().filter(|v| v.active).count(), 8);
    assert!(engine.voices.iter().all(|v| v.note != 70));
}

#[test]
fn voice_manager_note_off_releases_first_match_only() {
    let mut engine = Engine::new(44_100);
    engine.note_on(60, FULL);
    engine.note_on(60, FULL); // retrigger before release
    engine.note_off(60);
    // Only the first matching voice is released; both remain active.
    assert_eq!(engine.voices.iter().filter(|v| v.active).count(), 2);
    assert_eq!(engine.voices[0].envelope.conventional.stage, EnvelopeStage::Release);
    assert_eq!(engine.voices[1].envelope.conventional.stage, EnvelopeStage::Attack);
}

#[test]
fn engine_reset_clears_every_voice() {
    let mut engine = Engine::new(48_000);
    for n in 60..66u8 {
        engine.note_on(n, HALF);
    }
    let events = Vec::new();
    engine.render_block(64, &events); // move envelopes and filters off zero
    engine.reset();
    assert_eq!(engine.voices.len(), 8);
    for v in engine.voices.iter() {
        // Every voice is back in its terminal resting state.
        assert!(!v.active);
        assert_eq!(v.envelope.conventional.stage, EnvelopeStage::Idle);
        assert_eq!(v.envelope.conventional.output, 0);
        assert_eq!(v.carrier.phase, 0);
        assert_eq!(v.carrier_filter.y1, 0);
        assert_eq!(v.carrier_filter.y2, 0);
        assert_eq!(v.global_filter.y1, 0);
    }
}

#[test]
fn fresh_voice_filters_start_silent() {
    let voice = Voice::new(44_100);
    assert_eq!(voice.carrier_filter.y1, 0);
    assert_eq!(voice.carrier_filter.y2, 0);
    assert_eq!(voice.modulator_filter.y1, 0);
    assert_eq!(voice.modulator_filter.y2, 0);
    assert_eq!(voice.global_filter.y1, 0);
    assert_eq!(voice.global_filter.y2, 0);
    assert_eq!(voice.carrier.step, 0);
}

#[test]
fn first_rendered_sample_matches_am_formula() {
    let mut engine = Engine::new(44_100);
    let mut p = AmSynthParams::default();
    p.carrier_keyboard = false;
    p.carrier_freq = 440_000; // 440 Hz
    p.modulator_freq = 2_000; // 2 Hz
    p.mod_depth = HALF; // 0.5
    p.attack_ms = 0; // clamped to one sample: full level immediately
    p.sustain = FULL;
    engine.set_params(&p);
    engine.note_on(69, FULL);
    let events: Vec<NoteEvent> = Vec::new();
    let out = engine.render_block(4, &events);
    assert_eq!(out.len(), 4);
    let got = out[0] as f64 / 65536.0;
    let pi = std::f64::consts::PI;
    let expected = (2.0 * pi * 440.0 / 44100.0).sin() * (1.0 + 0.5 * (2.0 * pi * 2.0 / 44100.0).sin());
    // The engine's rational sine is within a fraction of a percent of the
    // transcendental one.
    assert!((got - expected).abs() < 0.01, "got {got}, expected {expected}");
}

#[test]
fn render_peak_sample_is_exact_at_quarter_rate() {
    // Carrier at a quarter of the sample rate peaks on the first sample;
    // with zero depth, full velocity and the envelope bypassed the engine
    // must deliver exactly one full unit.
    let mut engine = Engine::new(44_100);
    let mut p = AmSynthParams::default();
    p.carrier_keyboard = false;
    p.carrier_freq = 11_025_000;
    p.mod_depth = 0;
    p.envelope_bypass = true;
    engine.set_params(&p);
    engine.note_on(69, FULL);
    let events: Vec<NoteEvent> = Vec::new();
    let out = engine.render_block(1, &events);
    assert_eq!(out[0], FULL);
}

#[test]
fn render_block_applies_events_at_their_offsets() {
    let mut engine = Engine::new(44_100);
    let mut p = AmSynthParams::default();
    p.attack_ms = 0;
    p.sustain = FULL;
    p.carrier_keyboard = false;
    p.carrier_freq = 440_000;
    p.mod_depth = 0;
    engine.set_params(&p);
    let events = vec![NoteEvent { offset: 2, is_on: true, note: 69, velocity: FULL }];
    let out = engine.render_block(4, &events);
    // Silence before the event lands, sound from its sample on.
    assert_eq!(out[0], 0);
    assert_eq!(out[1], 0);
    assert_ne!(out[2], 0);
}

#[test]
fn midi_note_to_freq_known_notes() {
    assert_eq!(midi_note_to_freq(69, 440_000), 440_000);
    assert_eq!(midi_note_to_freq(81, 440_000), 880_000);
    assert_eq!(midi_note_to_freq(57, 440_000), 220_000);
    assert_eq!(midi_note_to_freq(69, 432_000), 432_000);
    // A fifth above the reference: within a cent of 3/2.
    let g = midi_note_to_freq(76, 440_000) as f64;
    assert!((g / 659_255.0 - 1.0).abs() < 0.001);
}

#[test]
fn midi_note_to_freq_clamps_tuning() {
    assert_eq!(midi_note_to_freq(69, 0), 415_000);
    assert_eq!(midi_note_to_freq(69, 1_000_000), 465_000);
}

#[test]
fn voice_retires_after_release_completes() {
    let mut voice = Voice::new(44_100);
    let p = AmSynthParams::default();
    voice.note_on(64, FULL);
    assert!(voice.is_active());
    voice.note_off();
    assert!(voice.is_active()); // still sounding through its release
    for _ in 0..50_000 {
        voice.render_sample(&p);
        if !voice.is_active() {
            break;
        }
    }
    assert!(!voice.is_active());
}

#[test]
fn staged_variant_swap_reinitializes_state() {
    let mut voice = Voice::new(44_100);
    let mut p = AmSynthParams::default();
    voice.note_on(60, FULL);
    for _ in 0..100 {
        voice.render_sample(&p);
    }
    p.env_variant = EnvVariant::Staged;
    voice.apply_params(&p);
    assert_eq!(voice.envelope.variant, EnvVariant::Staged);
    assert_eq!(voice.envelope.staged.stage, 3);
    assert_eq!(voice.envelope.staged.output, 0);
}

#[test]
fn rendered_output_is_always_bounded() {
    let mut engine = Engine::new(192_000);
    let mut p = AmSynthParams::default();
    p.carrier_filter_enabled = true;
    p.modulator_filter_enabled = true;
    p.global_filter_enabled = true;
    p.carrier_filter_resonance = FULL;
    p.global_filter_resonance = FULL;
    p.envelope_bypass = true;
    p.mod_depth = FULL;
    engine.set_params(&p);
    for n in 30..38u8 {
        engine.note_on(n, FULL);
    }
    let events: Vec<NoteEvent> = Vec::new();
    let out = engine.render_block(2000, &events);
    for s in &out {
        assert!(s.abs() <= 18_874_368);
    }
}
