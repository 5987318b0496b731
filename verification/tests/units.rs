//! Unit-level checks: tuning math, sample stepping, envelopes, effect
//! state machines and the mixing gains, on concrete values.

use xmrsplayer::channel::{mixing_gains, Channel};
use xmrsplayer::effect_arpeggio::EffectArpeggio;
use xmrsplayer::effect_multi_retrig_note::EffectMultiRetrigNote;
use xmrsplayer::effect_portamento::EffectPortamento;
use xmrsplayer::effect_vibrato_tremolo::EffectVibratoTremolo;
use xmrsplayer::effect_volume_panning_slide::EffectVolumePanningSlide;
use xmrsplayer::effect_tremor::EffectTremor;
use xmrsplayer::historical_helper::HistoricalHelper;
use xmrsplayer::module::{
    Envelope, EnvelopePoint, FrequencyType, InstrDefault, Instrument, InstrumentType,
    InstrVibrato, LoopType, Module, Note, PatternSlot, Sample, Waveform,
};
use xmrsplayer::period_helper::PeriodHelper;
use xmrsplayer::state_auto_vibrato::StateAutoVibrato;
use xmrsplayer::state_envelope::StateEnvelope;
use xmrsplayer::state_sample::StateSample;
use xmrsplayer::triggerkeep::{contains, TRIGGER_KEEP_PERIOD, TRIGGER_KEEP_VOLUME};

const ONE: i64 = 65536;

#[test]
fn linear_note_period_round_trip_is_exact() {
    let ph = PeriodHelper::new(FrequencyType::LinearFrequencies, false);
    for n in [0i64, 1, 12, 60, 95, 119] {
        let note = n * ONE;
        let period = ph.note_to_period(note);
        assert_eq!(period, 7680 * ONE - 64 * note);
        assert_eq!(ph.period_to_note(period), note);
    }
    // A fractional (finetuned) note round-trips exactly too.
    let note = 60 * ONE + 12345;
    assert_eq!(ph.period_to_note(ph.note_to_period(note)), note);
}

#[test]
fn amiga_note_period_round_trip_is_close() {
    let ph = PeriodHelper::new(FrequencyType::AmigaFrequencies, false);
    for n in [12i64, 24, 48, 60] {
        let note = n * ONE;
        let back = ph.period_to_note(ph.note_to_period(note));
        let err = (back - note).abs();
        // Within a few thousandths of a semitone at these notes.
        assert!(err <= 300, "note {} err {}", n, err);
    }
}

#[test]
fn linear_frequency_at_center_period() {
    let ph = PeriodHelper::new(FrequencyType::LinearFrequencies, false);
    // At period 4608 the exponent is zero: exactly 8363 Hz.
    assert_eq!(ph.period_to_frequency(4608 * ONE), 8363 * ONE);
}

#[test]
fn amiga_frequency_is_reciprocal() {
    let ph = PeriodHelper::new(FrequencyType::AmigaFrequencies, false);
    // 7093789.2 / (2 * 1712) scaled to Q16.16, truncated.
    assert_eq!(ph.period_to_frequency(1712 * ONE), 135776451);
}

#[test]
fn adjust_period_applies_arpeggio() {
    let ph = PeriodHelper::new(FrequencyType::LinearFrequencies, false);
    let period = ph.note_to_period(60 * ONE);
    // Up four semitones: 64 period units per semitone.
    let adjusted = ph.adjust_period(period, 4 * ONE, 0, false);
    assert_eq!(adjusted, period - 4 * 64 * ONE);
    // The result never drops below one period unit.
    let low = ph.adjust_period(ONE, 16 * ONE, 0, false);
    assert!(low >= ONE);
}

#[test]
fn sample_forward_loop_wraps_phase() {
    let sample = Sample {
        pcm: vec![0; 10],
        loop_type: LoopType::Forward,
        loop_start: 2,
        loop_length: 6,
        volume: ONE,
        panning: ONE / 2,
        relative_note: 0,
        finetune: 0,
    };
    let mut ss = StateSample::new(&sample, 1);
    ss.set_step(5 * ONE / 2);
    // 0, 2.5, 5, 7.5, then 10 wraps to 2 + (10 - 8) % 6 = 4.
    for _ in 0..4 {
        ss.next(&sample).unwrap();
    }
    assert_eq!(ss.position, 4 * ONE);
    assert!(ss.enabled);
}

#[test]
fn sample_ping_pong_reflects_both_ends() {
    let sample = Sample {
        pcm: vec![0; 10],
        loop_type: LoopType::PingPong,
        loop_start: 2,
        loop_length: 6,
        volume: ONE,
        panning: ONE / 2,
        relative_note: 0,
        finetune: 0,
    };
    let mut ss = StateSample::new(&sample, 1);
    ss.set_step(5 * ONE / 2);
    // 0, 2.5, 5, 7.5 forward; 10 reflects off 8 to 6 heading back;
    // 3.5; then 1 reflects off 2 back to 3 heading forward.
    for _ in 0..4 {
        ss.next(&sample).unwrap();
    }
    assert_eq!(ss.position, 6 * ONE);
    assert!(!ss.ping);
    ss.next(&sample).unwrap();
    assert_eq!(ss.position, 7 * ONE / 2);
    ss.next(&sample).unwrap();
    assert_eq!(ss.position, 3 * ONE);
    assert!(ss.ping);
}

#[test]
fn sample_without_loop_disables_past_end() {
    let sample = Sample {
        pcm: vec![ONE, ONE / 2, 0, -ONE / 2],
        loop_type: LoopType::No,
        loop_start: 0,
        loop_length: 0,
        volume: ONE,
        panning: ONE / 2,
        relative_note: 0,
        finetune: 0,
    };
    let mut ss = StateSample::new(&sample, 1);
    ss.set_step(2 * ONE);
    assert_eq!(ss.next(&sample), Some(ONE));
    assert_eq!(ss.next(&sample), Some(0));
    // Position ran past the body: disabled, no more output.
    assert_eq!(ss.next(&sample), None);
    assert!(!ss.enabled);
}

#[test]
fn sample_interpolates_between_frames() {
    let sample = Sample {
        pcm: vec![0, ONE, 0, 0],
        loop_type: LoopType::No,
        loop_start: 0,
        loop_length: 0,
        volume: ONE,
        panning: ONE / 2,
        relative_note: 0,
        finetune: 0,
    };
    let mut ss = StateSample::new(&sample, 1);
    ss.set_step(ONE / 2);
    assert_eq!(ss.next(&sample), Some(0));
    // Halfway between frame 0 (0) and frame 1 (1.0).
    assert_eq!(ss.next(&sample), Some(ONE / 2));
    assert_eq!(ss.next(&sample), Some(ONE));
}

fn three_point_envelope() -> Envelope {
    Envelope {
        point: vec![
            EnvelopePoint { frame: 0, value: 0 },
            EnvelopePoint { frame: 10, value: ONE },
            EnvelopePoint { frame: 20, value: 0 },
        ],
        enabled: true,
        sustain_enabled: true,
        sustain_point: 1,
        loop_enabled: false,
        loop_start_point: 0,
        loop_end_point: 0,
    }
}

#[test]
fn envelope_sustains_then_releases() {
    let env = three_point_envelope();
    let mut se = StateEnvelope::new(ONE);
    for _ in 0..30 {
        se.tick(&env, true);
    }
    // The counter froze on the sustain point's frame: full volume.
    assert_eq!(se.value, ONE);
    assert_eq!(se.counter, 10);
    for _ in 0..20 {
        se.tick(&env, false);
    }
    // Twenty ticks after key-off the second segment has run out.
    assert_eq!(se.value, 0);
}

#[test]
fn envelope_interpolates_mid_segment() {
    let env = three_point_envelope();
    let mut se = StateEnvelope::new(ONE);
    for _ in 0..6 {
        se.tick(&env, false);
    }
    // Counter 5 sits halfway up the first segment.
    assert_eq!(se.counter, 6);
    assert_eq!(se.value, ONE / 2);
}

#[test]
fn envelope_with_no_points_is_zero() {
    let env = Envelope {
        point: vec![],
        enabled: true,
        sustain_enabled: false,
        sustain_point: 0,
        loop_enabled: false,
        loop_start_point: 0,
        loop_end_point: 0,
    };
    let mut se = StateEnvelope::new(ONE);
    se.tick(&env, true);
    assert_eq!(se.value, 0);
}

#[test]
fn equal_power_gains_bracket_the_volume() {
    for &(v, p) in &[(ONE, ONE / 2), (ONE, 0), (ONE, ONE), (ONE / 3, ONE / 4), (12345, 54321)] {
        let (l, r) = mixing_gains(v, p);
        assert!((0..=ONE).contains(&l) && (0..=ONE).contains(&r));
        let low = (256 * l) * (256 * l) + (256 * r) * (256 * r);
        let high = (256 * l + 256) * (256 * l + 256) + (256 * r + 256) * (256 * r + 256);
        assert!(low <= v * v * ONE, "low {} vs {}", low, v * v * ONE);
        assert!(v * v * ONE < high, "high {} vs {}", high, v * v * ONE);
    }
    // Full volume, hard left: everything on the left gain.
    let (l, r) = mixing_gains(ONE, ONE);
    assert_eq!(l, ONE);
    assert_eq!(r, 0);
}

#[test]
fn portamento_clamp_stays_above_one_unit() {
    let mut p = EffectPortamento::default();
    p.xm_update_effect(0xFF, 0, true, 4);
    // Sliding up from a tiny period pins at the floor, never below.
    assert_eq!(p.clamp(2 * ONE), ONE);
    p.xm_update_effect(0x01, 0, false, 4);
    assert_eq!(p.clamp(2 * ONE), 2 * ONE + 4 * ONE);
}

#[test]
fn tremor_cycle_matches_nibbles() {
    // T12: on for 2 ticks, off for 3, cycle length 5, from tick 1.
    let mut t = EffectTremor::default();
    t.xm_update_effect(0x12);
    let mut pattern = vec![];
    for _ in 0..10 {
        t.tick();
        pattern.push(t.in_progress());
    }
    assert_eq!(
        pattern,
        vec![false, false, true, true, true, false, false, true, true, true]
    );
}

#[test]
fn historical_arpeggio_table() {
    let h = HistoricalHelper::new(6);
    // Tempo 6: reverse ticks 5..0 select offsets by modulo three.
    let got: Vec<u8> = (0..6).map(|t| h.arpeggio_tick(t)).collect();
    assert_eq!(got, vec![2, 1, 0, 2, 1, 0]);
    // A zero tempo selects the base note instead of failing.
    let h0 = HistoricalHelper::new(0);
    assert_eq!(h0.arpeggio_tick(3), 0);
}

#[test]
fn historical_retrig_volume_table() {
    // Selector 6/16: volume scaled by two thirds.
    let v = HistoricalHelper::value_historical_computers(ONE, 6 * ONE / 16);
    assert_eq!(v, 2 * ONE / 3);
    // Selector 15/16: volume doubled.
    let v2 = HistoricalHelper::value_historical_computers(ONE / 2, 15 * ONE / 16);
    assert_eq!(v2, ONE);
}

#[test]
fn trigger_keep_flags() {
    assert!(contains(
        TRIGGER_KEEP_VOLUME | TRIGGER_KEEP_PERIOD,
        TRIGGER_KEEP_PERIOD
    ));
    assert!(!contains(TRIGGER_KEEP_VOLUME, TRIGGER_KEEP_PERIOD));
}

fn tiny_module() -> Module {
    let sample = Sample {
        pcm: vec![ONE; 16],
        loop_type: LoopType::No,
        loop_start: 0,
        loop_length: 0,
        volume: ONE,
        panning: ONE / 2,
        relative_note: 0,
        finetune: 0,
    };
    let instr = Instrument {
        instr_type: InstrumentType::Default(InstrDefault {
            sample: vec![sample],
            sample_for_note: vec![0u8; 96],
            volume_envelope: Envelope {
                point: vec![],
                enabled: false,
                sustain_enabled: false,
                sustain_point: 0,
                loop_enabled: false,
                loop_start_point: 0,
                loop_end_point: 0,
            },
            panning_envelope: Envelope {
                point: vec![],
                enabled: false,
                sustain_enabled: false,
                sustain_point: 0,
                loop_enabled: false,
                loop_start_point: 0,
                loop_end_point: 0,
            },
            vibrato: InstrVibrato { waveform: Waveform::Sine, speed: 0, depth: 0, sweep: 0 },
            volume_fadeout: 0,
            midi_mute_computer: false,
        }),
    };
    Module {
        frequency_type: FrequencyType::LinearFrequencies,
        default_tempo: 6,
        default_bpm: 125,
        restart_position: 0,
        pattern_order: vec![0],
        pattern: vec![vec![vec![PatternSlot {
            note: Note::Empty,
            instrument: 0,
            volume: 0,
            effect_type: 0,
            effect_parameter: 0,
        }]]],
        instrument: vec![instr],
        num_channels: 1,
    }
}

#[test]
fn tone_portamento_converges_exactly() {
    // Row 0 keys C-5; row 1 aims G-5 through effect 302. The period
    // walks down 8 units per tick and lands on the target exactly.
    let m = tiny_module();
    let mut ch = Channel::new(&m, 48000, None);
    let key = PatternSlot {
        note: Note::On(61),
        instrument: 1,
        volume: 0,
        effect_type: 0,
        effect_parameter: 0,
    };
    ch.tick0(&m, &key);
    assert_eq!(ch.period, 3840 * ONE);
    let slide = PatternSlot {
        note: Note::On(68),
        instrument: 0,
        volume: 0,
        effect_type: 3,
        effect_parameter: 2,
    };
    ch.tick0(&m, &slide);
    let goal = 3392 * ONE;
    let mut ticks = 0;
    while ch.period != goal {
        ch.tick(&m, 1);
        ticks += 1;
        assert!(ticks <= 57, "did not converge");
    }
    assert_eq!(ticks, 56);
    assert_eq!(ch.period, goal);
}

#[test]
fn channel_volume_effects_stay_in_range() {
    // A full-speed volume slide down clamps at silence, and a set
    // volume above the maximum clamps at full.
    let m = tiny_module();
    let mut ch = Channel::new(&m, 48000, None);
    let key = PatternSlot {
        note: Note::On(61),
        instrument: 1,
        volume: 0,
        effect_type: 0xA,
        effect_parameter: 0x0F,
    };
    ch.tick0(&m, &key);
    for t in 1..40 {
        ch.tick(&m, t);
        assert!((0..=ONE).contains(&ch.volume));
        assert!((0..=ONE).contains(&ch.panning));
    }
    assert_eq!(ch.volume, 0);
    let set = PatternSlot {
        note: Note::Empty,
        instrument: 0,
        volume: 0,
        effect_type: 0xC,
        effect_parameter: 0xFF,
    };
    ch.tick0(&m, &set);
    assert_eq!(ch.volume, ONE);
}

#[test]
fn note_cut_zeroes_volume_at_its_tick() {
    let m = tiny_module();
    let mut ch = Channel::new(&m, 48000, None);
    let key = PatternSlot {
        note: Note::On(61),
        instrument: 1,
        volume: 0,
        effect_type: 0xE,
        effect_parameter: 0xC3,
    };
    ch.tick0(&m, &key);
    assert_eq!(ch.volume, ONE);
    ch.tick(&m, 1);
    ch.tick(&m, 2);
    assert_eq!(ch.volume, ONE);
    ch.tick(&m, 3);
    assert_eq!(ch.volume, 0);
}

#[test]
fn amiga_note_to_period_value() {
    let ph = PeriodHelper::new(FrequencyType::AmigaFrequencies, false);
    // One octave up from C-0: half the fitted base period, plus the
    // constant offset, within the Q16.16 model.
    assert_eq!(ph.note_to_period(12 * ONE), 224303928);
}

#[test]
fn vibrato_effect_waveforms() {
    let ph = PeriodHelper::new(FrequencyType::LinearFrequencies, false);
    let mut v = EffectVibratoTremolo::vibrato(&ph);
    // 4x0 with depth f: speed nibble 4 -> 4/64 of a period per tick,
    // depth nibble 15 -> 15/16.
    v.xm_update_effect(0x4F, 0);
    assert_eq!(v.data.speed, 4 * 1024);
    assert_eq!(v.data.depth, 15 * 4096);
    // First tick samples the sine at phase 0: no offset yet.
    assert_eq!(v.tick(), 0);
    // Phase advanced: the inverted sine goes negative, scaled by 8.
    let second = v.tick();
    assert!(second < 0, "inverted sine should dip first, got {}", second);
    assert!(second >= -8 * ONE);
}

#[test]
fn tremolo_is_unscaled() {
    let mut t = EffectVibratoTremolo::tremolo();
    t.xm_update_effect(0x4F, 0);
    t.tick();
    let second = t.tick();
    assert!(second < 0 && second >= -ONE);
}

#[test]
fn volume_slide_decoding() {
    let mut s = EffectVolumePanningSlide::default();
    // High nibble: up 3 volume steps of 1/64 per tick.
    s.xm_update_effect(0x30, 0, 64);
    assert_eq!(s.tick(), 3 * 1024);
    // Low nibble: down 2 steps.
    s.xm_update_effect(0x02, 0, 64);
    assert_eq!(s.tick(), -2 * 1024);
    // Both nibbles set: illegal, the memory stays.
    s.xm_update_effect(0x33, 0, 64);
    assert_eq!(s.tick(), -2 * 1024);
}

#[test]
fn arpeggio_cycles_over_three_ticks() {
    let mut a = EffectArpeggio::new(None);
    a.xm_update_effect(0x37);
    // Offsets three and seven semitones; tick 0 is the base note.
    assert_eq!(a.value(), 0);
    assert_eq!(a.tick(), 3 * ONE);
    assert_eq!(a.tick(), 7 * ONE);
    assert_eq!(a.tick(), 0);
}

#[test]
fn multi_retrig_smooth_curve() {
    let mut r = EffectMultiRetrigNote::new(None, 0, 0);
    // Speed 1, selector 6/16 (<= one half): volume shrinks along the
    // arcsine branch of the curve and stays in range.
    r.xm_update_effect(0x61);
    r.tick0(1, 6 * ONE / 16);
    r.retrigger();
    let v = r.clamp(ONE / 2);
    assert!((0..=ONE).contains(&v));
    // Selector 15/16 (> one half): the pi branch saturates the clamp.
    let mut r2 = EffectMultiRetrigNote::new(None, 1, 15 * ONE / 16);
    r2.retrigger();
    assert_eq!(r2.clamp(ONE / 2), ONE);
}

#[test]
fn auto_vibrato_sweeps_in() {
    let v = InstrVibrato {
        waveform: Waveform::Square,
        speed: ONE / 4,
        depth: 4 * ONE,
        sweep: 2 * ONE,
    };
    let ph = PeriodHelper::new(FrequencyType::LinearFrequencies, false);
    let mut sv = StateAutoVibrato::new(&v, ph);
    assert_eq!(sv.amp, 0);
    sv.tick(&v, true);
    // One sustained tick ramps half of the depth in; the square wave
    // sits at +1 over the first half period.
    assert_eq!(sv.amp, 2 * ONE);
    assert_eq!(sv.period_offset, 2 * ONE);
    sv.tick(&v, true);
    assert_eq!(sv.amp, 4 * ONE);
    // The depth never grows past the instrument's value.
    sv.tick(&v, true);
    assert_eq!(sv.amp, 4 * ONE);
}

#[test]
fn key_off_without_envelope_cuts() {
    let m = tiny_module();
    let mut ch = Channel::new(&m, 48000, None);
    let key = PatternSlot {
        note: Note::On(61),
        instrument: 1,
        volume: 0,
        effect_type: 0,
        effect_parameter: 0,
    };
    ch.tick0(&m, &key);
    assert_eq!(ch.volume, ONE);
    let off = PatternSlot {
        note: Note::KeyOff,
        instrument: 0,
        volume: 0,
        effect_type: 0,
        effect_parameter: 0,
    };
    // No volume envelope and no fadeout: the key-off silences the
    // instrument's voice at once.
    ch.tick0(&m, &off);
    match &ch.instr {
        Some(i) => {
            assert!(!i.sustained);
            assert_eq!(i.volume, 0);
        }
        None => panic!("instrument should remain bound"),
    }
}

#[test]
fn invalid_instrument_number_cuts_note() {
    let m = tiny_module();
    let mut ch = Channel::new(&m, 48000, None);
    let bad = PatternSlot {
        note: Note::On(61),
        instrument: 5,
        volume: 0,
        effect_type: 0,
        effect_parameter: 0,
    };
    // The module has one instrument; number five is out of range, so
    // the row cuts the voice and drops the instrument binding.
    ch.tick0(&m, &bad);
    assert_eq!(ch.volume, 0);
    assert!(ch.instr.is_none());
}
