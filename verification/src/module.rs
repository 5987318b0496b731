//! The engine's immutable input: a parsed tracker module. All continuous
//! quantities (volumes, pannings, envelope values, finetune) are Q16.16
//! fixed point; the PCM bodies are normalised Q16.16 amplitudes in [-1, 1].

use vstd::prelude::*;
use crate::fixed::ONE;

verus! {

/// Largest sample body the engine accepts, in frames.
pub const MAX_SAMPLE_LEN: usize = 0x1000_0000;

/// Largest pattern height the engine accepts, in rows.
pub const MAX_NUM_ROWS: usize = 256;

/// Largest channel count the engine accepts.
pub const MAX_CHANNELS: usize = 256;

/// Largest pattern-order table the engine accepts.
pub const MAX_ORDER: usize = 256;

/// The tuning model of the module.
#[derive(Clone, Copy, PartialEq, Eq, Structural, Debug)]
pub enum FrequencyType {
    LinearFrequencies,
    AmigaFrequencies,
}

/// How a sample body repeats.
#[derive(Clone, Copy, PartialEq, Eq, Structural, Debug)]
pub enum LoopType {
    No,
    Forward,
    PingPong,
}

/// The auto-vibrato waveforms an instrument can carry.
#[derive(Clone, Copy, PartialEq, Eq, Structural, Debug)]
pub enum Waveform {
    Sine,
    Square,
    RampDown,
    RampUp,
}

/// The note field of a pattern cell.
#[derive(Clone, Copy, PartialEq, Eq, Structural, Debug)]
pub enum Note {
    /// An empty cell: nothing is triggered.
    Empty,
    /// The key-off pseudo-note.
    KeyOff,
    /// A keyed note, valid when in 1..=96 (C-0 .. B-7).
    On(u8),
}

impl Note {
    /// A playable note: 1..=96.
    pub open spec fn is_valid_spec(self) -> bool {
        match self {
            Note::On(v) => 1 <= v <= 96,
            _ => false,
        }
    }

    pub fn is_valid(&self) -> (r: bool)
        ensures
            r == self.is_valid_spec(),
    {
        match self {
            Note::On(v) => 1 <= *v && *v <= 96,
            _ => false,
        }
    }

    pub open spec fn is_keyoff_spec(self) -> bool {
        self is KeyOff
    }

    pub fn is_keyoff(&self) -> (r: bool)
        ensures
            r == self.is_keyoff_spec(),
    {
        matches!(self, Note::KeyOff)
    }

    /// The numeric value of a keyed note, 0 otherwise.
    pub open spec fn value_spec(self) -> u8 {
        match self {
            Note::On(v) => v,
            _ => 0,
        }
    }

    pub fn value(&self) -> (r: u8)
        ensures
            r == self.value_spec(),
    {
        match self {
            Note::On(v) => *v,
            _ => 0,
        }
    }
}

/// One pattern cell: note, instrument number (0 = none), volume column,
/// effect column.
#[derive(Clone, Copy, PartialEq, Eq, Structural, Debug)]
pub struct PatternSlot {
    pub note: Note,
    pub instrument: u8,
    pub volume: u8,
    pub effect_type: u8,
    pub effect_parameter: u8,
}

impl PatternSlot {
    /// The empty cell.
    pub fn new_empty() -> (r: PatternSlot)
        ensures
            r == PatternSlot::empty_spec(),
    {
        PatternSlot {
            note: Note::Empty,
            instrument: 0,
            volume: 0,
            effect_type: 0,
            effect_parameter: 0,
        }
    }

    pub open spec fn empty_spec() -> PatternSlot {
        PatternSlot {
            note: Note::Empty,
            instrument: 0,
            volume: 0,
            effect_type: 0,
            effect_parameter: 0,
        }
    }

    pub open spec fn has_arpeggio_spec(self) -> bool {
        self.effect_type == 0 && self.effect_parameter != 0
    }

    pub fn has_arpeggio(&self) -> (r: bool)
        ensures
            r == self.has_arpeggio_spec(),
    {
        self.effect_type == 0 && self.effect_parameter != 0
    }

    pub open spec fn has_note_delay_spec(self) -> bool {
        self.effect_type == 0xE && self.effect_parameter / 16 == 0xD
    }

    pub fn has_note_delay(&self) -> (r: bool)
        ensures
            r == self.has_note_delay_spec(),
    {
        self.effect_type == 0xE && self.effect_parameter / 16 == 0xD
    }

    pub open spec fn has_tone_portamento_spec(self) -> bool {
        self.effect_type == 3 || self.effect_type == 5 || self.volume / 16 == 0xF
    }

    pub fn has_tone_portamento(&self) -> (r: bool)
        ensures
            r == self.has_tone_portamento_spec(),
    {
        self.effect_type == 3 || self.effect_type == 5 || self.volume / 16 == 0xF
    }

    pub open spec fn has_vibrato_spec(self) -> bool {
        self.effect_type == 4 || self.effect_type == 6 || self.volume / 16 == 0xB
    }

    pub fn has_vibrato(&self) -> (r: bool)
        ensures
            r == self.has_vibrato_spec(),
    {
        self.effect_type == 4 || self.effect_type == 6 || self.volume / 16 == 0xB
    }

    pub open spec fn has_volume_slide_spec(self) -> bool {
        self.effect_type == 5 || self.effect_type == 6 || self.effect_type == 0xA || (
        self.effect_type == 0xE && self.effect_parameter / 16 == 0xA) || (self.effect_type == 0xE
            && self.effect_parameter / 16 == 0xB)
    }

    pub fn has_volume_slide(&self) -> (r: bool)
        ensures
            r == self.has_volume_slide_spec(),
    {
        self.effect_type == 5 || self.effect_type == 6 || self.effect_type == 0xA || (
        self.effect_type == 0xE && self.effect_parameter / 16 == 0xA) || (self.effect_type
            == 0xE && self.effect_parameter / 16 == 0xB)
    }
}

/// One point of a piecewise-linear envelope: a tick count and a Q16.16
/// value in [0, 1].
#[derive(Clone, Copy, Debug)]
pub struct EnvelopePoint {
    pub frame: u32,
    pub value: i64,
}

impl EnvelopePoint {
    pub open spec fn wf(self) -> bool {
        &&& self.frame <= 0xFFFF
        &&& 0 <= self.value <= ONE
    }
}

/// A volume or panning envelope.
#[derive(Clone, Debug)]
pub struct Envelope {
    pub point: Vec<EnvelopePoint>,
    pub enabled: bool,
    pub sustain_enabled: bool,
    pub sustain_point: u8,
    pub loop_enabled: bool,
    pub loop_start_point: u8,
    pub loop_end_point: u8,
}

impl Envelope {
    pub open spec fn wf(self) -> bool {
        &&& self.point@.len() <= 32
        &&& forall|i: int| 0 <= i < self.point@.len() ==> (#[trigger] self.point@[i]).wf()
        &&& self.sustain_enabled ==> (self.sustain_point as int) < self.point@.len()
        &&& self.loop_enabled ==> (self.loop_start_point as int) < self.point@.len()
        &&& self.loop_enabled ==> (self.loop_end_point as int) < self.point@.len()
    }
}

/// The per-instrument automatic vibrato descriptor. Speed is a Q16.16
/// phase increment per tick, depth a Q16.16 period amplitude, sweep a
/// Q16.16 tick count over which the depth ramps in.
#[derive(Clone, Copy, Debug)]
pub struct InstrVibrato {
    pub waveform: Waveform,
    pub speed: i64,
    pub depth: i64,
    pub sweep: i64,
}

impl InstrVibrato {
    pub open spec fn wf(self) -> bool {
        &&& 0 <= self.speed <= 256 * 65536
        &&& 0 <= self.depth <= 256 * 65536
        &&& 0 <= self.sweep <= 256 * 65536
    }
}

/// One sampled waveform with its loop descriptor and defaults.
#[derive(Clone, Debug)]
pub struct Sample {
    /// Normalised PCM body, Q16.16 amplitudes in [-1, 1].
    pub pcm: Vec<i64>,
    pub loop_type: LoopType,
    pub loop_start: usize,
    pub loop_length: usize,
    /// Default volume in [0, 1], Q16.16.
    pub volume: i64,
    /// Default panning in [0, 1], Q16.16.
    pub panning: i64,
    /// Semitone offset added to every note played on this sample.
    pub relative_note: i32,
    /// Sub-semitone offset in [-1, 1), Q16.16 semitones.
    pub finetune: i64,
}

impl Sample {
    pub open spec fn wf(self) -> bool {
        &&& self.pcm@.len() <= MAX_SAMPLE_LEN
        &&& forall|i: int|
            0 <= i < self.pcm@.len() ==> -ONE <= #[trigger] self.pcm@[i] <= ONE
        &&& self.loop_start + self.loop_length <= self.pcm@.len()
        &&& !(self.loop_type is No) ==> self.loop_length >= 1
        &&& 0 <= self.volume <= ONE
        &&& 0 <= self.panning <= ONE
        &&& -96 <= self.relative_note <= 96
        &&& -ONE <= self.finetune <= ONE
    }

    /// Body length in frames.
    pub fn len(&self) -> (r: usize)
        ensures
            r == self.pcm@.len(),
    {
        self.pcm.len()
    }
}

/// The sampled-instrument variant: a sample bank, a note-to-sample map,
/// two envelopes, the auto-vibrato and the fadeout rate.
#[derive(Clone, Debug)]
pub struct InstrDefault {
    pub sample: Vec<Sample>,
    /// For each keyed note 1..=96, the chosen sample index.
    pub sample_for_note: Vec<u8>,
    pub volume_envelope: Envelope,
    pub panning_envelope: Envelope,
    pub vibrato: InstrVibrato,
    /// Q16.16 volume lost per tick after key-off.
    pub volume_fadeout: i64,
    pub midi_mute_computer: bool,
}

impl InstrDefault {
    pub open spec fn wf(self) -> bool {
        &&& self.sample@.len() <= 256
        &&& forall|i: int| 0 <= i < self.sample@.len() ==> (#[trigger] self.sample@[i]).wf()
        &&& self.sample_for_note@.len() == 96
        &&& self.volume_envelope.wf()
        &&& self.panning_envelope.wf()
        &&& self.vibrato.wf()
        &&& 0 <= self.volume_fadeout <= ONE
    }
}

/// An instrument slot of the module.
#[derive(Clone, Debug)]
pub enum InstrumentType {
    /// The sampled instrument the engine plays.
    Default(InstrDefault),
    /// Any other back-end: the engine treats it as silent.
    Empty,
}

#[derive(Clone, Debug)]
pub struct Instrument {
    pub instr_type: InstrumentType,
}

impl Instrument {
    pub open spec fn wf(self) -> bool {
        match self.instr_type {
            InstrumentType::Default(d) => d.wf(),
            InstrumentType::Empty => true,
        }
    }
}

/// A parsed module: the score, the instrument bank and the defaults.
#[derive(Clone, Debug)]
pub struct Module {
    pub frequency_type: FrequencyType,
    /// Ticks per row at start.
    pub default_tempo: u16,
    /// Beats per minute at start; ticks per second are 0.4 times this.
    pub default_bpm: u16,
    /// Where the order table restarts after its end.
    pub restart_position: usize,
    /// The song: indices into `pattern`.
    pub pattern_order: Vec<usize>,
    /// Patterns, each a grid of rows times channels.
    pub pattern: Vec<Vec<Vec<PatternSlot>>>,
    pub instrument: Vec<Instrument>,
    pub num_channels: usize,
}

impl Module {
    pub open spec fn wf(self) -> bool {
        &&& 1 <= self.num_channels <= MAX_CHANNELS
        &&& 1 <= self.pattern_order@.len() <= MAX_ORDER
        &&& self.restart_position < self.pattern_order@.len()
        &&& self.pattern@.len() >= 1
        &&& self.pattern_order@[0] < self.pattern@.len()
        &&& forall|p: int|
            0 <= p < self.pattern@.len() ==> 1 <= (#[trigger] self.pattern@[p])@.len()
                <= MAX_NUM_ROWS
        &&& forall|p: int, r: int|
            0 <= p < self.pattern@.len() && 0 <= r < self.pattern@[p]@.len() ==> (
            #[trigger] self.pattern@[p]@[r])@.len() == self.num_channels
        &&& self.instrument@.len() <= 256
        &&& forall|i: int|
            0 <= i < self.instrument@.len() ==> (#[trigger] self.instrument@[i]).wf()
        &&& self.default_bpm >= 1
        &&& self.default_tempo >= 1
    }

    pub fn get_num_channels(&self) -> (r: usize)
        ensures
            r == self.num_channels,
    {
        self.num_channels
    }

    /// Length of the pattern-order table.
    pub fn get_song_length(&self) -> (r: usize)
        ensures
            r == self.pattern_order@.len(),
    {
        self.pattern_order.len()
    }

    /// Row count of the given pattern, 0 when the index is out of range.
    pub fn get_num_rows(&self, pat_idx: usize) -> (r: usize)
        ensures
            r == if pat_idx < self.pattern@.len() {
                self.pattern@[pat_idx as int]@.len()
            } else {
                0
            },
    {
        if pat_idx < self.pattern.len() {
            self.pattern[pat_idx].len()
        } else {
            0
        }
    }
}

} // verus!
