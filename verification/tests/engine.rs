//! End-to-end scenarios: the player over small hand-built modules.

use xmrsplayer::module::{
    Envelope, FrequencyType, InstrDefault, Instrument, InstrumentType, InstrVibrato, LoopType,
    Module, Note, PatternSlot, Sample, Waveform,
};
use xmrsplayer::xmrsplayer::XmrsPlayer;

const ONE: i64 = 65536;

fn empty_slot() -> PatternSlot {
    PatternSlot { note: Note::Empty, instrument: 0, volume: 0, effect_type: 0, effect_parameter: 0 }
}

fn empty_envelope() -> Envelope {
    Envelope {
        point: vec![],
        enabled: false,
        sustain_enabled: false,
        sustain_point: 0,
        loop_enabled: false,
        loop_start_point: 0,
        loop_end_point: 0,
    }
}

fn no_vibrato() -> InstrVibrato {
    InstrVibrato { waveform: Waveform::Sine, speed: 0, depth: 0, sweep: 0 }
}

fn one_sample_instrument(pcm: Vec<i64>) -> Instrument {
    let sample = Sample {
        pcm,
        loop_type: LoopType::No,
        loop_start: 0,
        loop_length: 0,
        volume: ONE,
        panning: ONE / 2,
        relative_note: 0,
        finetune: 0,
    };
    Instrument {
        instr_type: InstrumentType::Default(InstrDefault {
            sample: vec![sample],
            sample_for_note: vec![0u8; 96],
            volume_envelope: empty_envelope(),
            panning_envelope: empty_envelope(),
            vibrato: no_vibrato(),
            volume_fadeout: 0,
            midi_mute_computer: false,
        }),
    }
}

fn module_of(patterns: Vec<Vec<Vec<PatternSlot>>>, instruments: Vec<Instrument>) -> Module {
    let order: Vec<usize> = (0..patterns.len()).collect();
    Module {
        frequency_type: FrequencyType::LinearFrequencies,
        default_tempo: 1,
        default_bpm: 125,
        restart_position: 0,
        pattern_order: order,
        pattern: patterns,
        instrument: instruments,
        num_channels: 1,
    }
}

#[test]
fn silence_with_no_instruments() {
    let m = module_of(vec![vec![vec![empty_slot()]]], vec![]);
    let mut player = XmrsPlayer::new(m, 48000, false);
    for _ in 0..1024 {
        let s = player.sample().expect("stream should continue");
        assert_eq!(s, (0, 0));
    }
    assert_eq!(player.generated_samples, 1024);
}

#[test]
fn pattern_loop_replays_origin() {
    // Four rows; row 0 marks the loop origin (E60), row 3 loops three
    // more times (E63): sixteen rows play before the pattern advances.
    let e60 = PatternSlot {
        note: Note::Empty,
        instrument: 0,
        volume: 0,
        effect_type: 0xE,
        effect_parameter: 0x60,
    };
    let e63 = PatternSlot {
        note: Note::Empty,
        instrument: 0,
        volume: 0,
        effect_type: 0xE,
        effect_parameter: 0x63,
    };
    let rows = vec![vec![e60], vec![empty_slot()], vec![empty_slot()], vec![e63]];
    let m = module_of(vec![rows, vec![vec![empty_slot()]]], vec![]);
    let mut player = XmrsPlayer::new(m, 1000, false);
    let mut samples: u64 = 0;
    while player.get_current_table_index() == 0 {
        player.sample().expect("stream should continue");
        samples += 1;
        assert!(samples < 10_000, "pattern never advanced");
    }
    // One tick per row (tempo 1), 20 output frames per tick at 125 BPM
    // and 1 kHz: the sixteenth row fires at frame 1 + 15 * 20.
    assert_eq!(samples, 301);
}

#[test]
fn tempo_change_mid_song_keeps_bpm() {
    // F1F sets the tempo (ticks per row) to 31 without touching the
    // BPM, so the tick counter wraps at 31 and the per-tick frame count
    // stays the same.
    let f1f = PatternSlot {
        note: Note::Empty,
        instrument: 0,
        volume: 0,
        effect_type: 0xF,
        effect_parameter: 0x1F,
    };
    let rows = vec![vec![f1f], vec![empty_slot()]];
    let m = module_of(vec![rows], vec![]);
    let mut player = XmrsPlayer::new(m, 1000, false);
    player.sample().expect("stream");
    assert_eq!(player.tempo, 31);
    assert_eq!(player.bpm, 125);
    let mut max_tick: u32 = 0;
    for _ in 0..(31 * 20 + 10) {
        player.sample().expect("stream");
        if player.current_tick > max_tick {
            max_tick = player.current_tick;
        }
        assert!(player.current_tick < 31 + player.extra_ticks as u32 || player.current_tick == 0);
    }
    assert_eq!(max_tick, 30);
}

#[test]
fn bpm_change_for_large_parameter() {
    // F40 (64, at or above 32) sets the BPM, not the tempo.
    let f40 = PatternSlot {
        note: Note::Empty,
        instrument: 0,
        volume: 0,
        effect_type: 0xF,
        effect_parameter: 0x40,
    };
    let rows = vec![vec![f40], vec![empty_slot()]];
    let m = module_of(vec![rows], vec![]);
    let mut player = XmrsPlayer::new(m, 1000, false);
    player.sample().expect("stream");
    assert_eq!(player.bpm, 64);
    assert_eq!(player.tempo, 1);
}

#[test]
fn end_of_stream_after_max_loop_count() {
    let m = module_of(vec![vec![vec![empty_slot()]]], vec![]);
    let mut player = XmrsPlayer::new(m, 1000, false);
    player.set_max_loop_count(2);
    let mut produced: u64 = 0;
    loop {
        match player.sample() {
            Some(_) => {
                produced += 1;
                assert!(produced < 100_000, "never reached the loop bound");
            }
            None => break,
        }
    }
    assert!(player.get_loop_count() >= 2);
}

#[test]
fn pause_emits_silence_and_holds_position() {
    let m = module_of(vec![vec![vec![empty_slot()], vec![empty_slot()]]], vec![]);
    let mut player = XmrsPlayer::new(m, 1000, false);
    player.pause(true);
    let row = player.get_current_row();
    for _ in 0..100 {
        assert_eq!(player.sample(), Some((0, 0)));
    }
    assert_eq!(player.get_current_row(), row);
    player.pause(false);
}

#[test]
fn goto_checks_bounds() {
    let m = module_of(vec![vec![vec![empty_slot()], vec![empty_slot()]]], vec![]);
    let mut player = XmrsPlayer::new(m, 1000, false);
    assert!(!player.goto(5, 0, 0));
    assert!(!player.goto(0, 2, 0));
    assert!(player.goto(0, 1, 0));
}

#[test]
fn muted_channel_contributes_silence() {
    // A one-sample instrument playing a note on a muted channel mixes
    // to zero.
    let mut note_slot = empty_slot();
    note_slot.note = Note::On(61);
    note_slot.instrument = 1;
    let rows = vec![vec![note_slot], vec![empty_slot()]];
    let m = module_of(
        vec![rows],
        vec![one_sample_instrument(vec![ONE; 64])],
    );
    let mut player = XmrsPlayer::new(m, 1000, false);
    player.set_mute_channel(0, true);
    for _ in 0..64 {
        assert_eq!(player.sample(), Some((0, 0)));
    }
}

#[test]
fn position_jump_and_global_volume() {
    // Row 0 sets the global volume to half (G20) and jumps to order
    // position 1 (B01).
    let g20 = PatternSlot {
        note: Note::Empty,
        instrument: 0,
        volume: 0,
        effect_type: 0x10,
        effect_parameter: 0x20,
    };
    let b01 = PatternSlot {
        note: Note::Empty,
        instrument: 0,
        volume: 0,
        effect_type: 0xB,
        effect_parameter: 0x01,
    };
    let pat0 = vec![vec![g20], vec![b01], vec![empty_slot()]];
    let pat1 = vec![vec![empty_slot()], vec![empty_slot()]];
    let m = module_of(vec![pat0, pat1], vec![]);
    let mut player = XmrsPlayer::new(m, 1000, false);
    // Row 0 fires on the first sample; its tick also plays row 1's
    // jump one tick later (tempo 1).
    player.sample().expect("stream");
    assert_eq!(player.global_volume, 0x20 as i64 * 1024);
    let mut seen_table_1 = false;
    for _ in 0..100 {
        player.sample().expect("stream");
        if player.get_current_table_index() == 1 {
            seen_table_1 = true;
            break;
        }
    }
    assert!(seen_table_1, "position jump never landed");
}

#[test]
fn interleaved_stream_pairs_left_then_right() {
    let m = module_of(vec![vec![vec![empty_slot()]]], vec![]);
    let mut player = XmrsPlayer::new(m, 1000, false);
    // The paired and interleaved streams agree: each pair of
    // interleaved samples is one stereo frame.
    for _ in 0..10 {
        let l = player.sample_one().expect("left");
        let r = player.sample_one().expect("right");
        assert_eq!((l, r), (0, 0));
    }
    assert_eq!(player.generated_samples, 10);
}
