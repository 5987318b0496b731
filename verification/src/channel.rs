//! One voice of the player: the current pattern cell, the period, note,
//! volume and panning, the per-effect state machines, and the mixing
//! gains handed to the output stage.

use vstd::prelude::*;
use crate::fixed::{ONE, clamp01_spec, mul_fp, clamp01, clamp_min, clamp_max, isqrt};
use crate::module::{Module, PatternSlot, Note, InstrumentType, FrequencyType};
use crate::period_helper::{PeriodHelper, PERIOD_MAX, NOTE_MAX};
use crate::historical_helper::HistoricalHelper;
use crate::triggerkeep::{
    TriggerKeep, TRIGGER_KEEP_NONE, TRIGGER_KEEP_VOLUME, TRIGGER_KEEP_PERIOD,
    TRIGGER_KEEP_SAMPLE_POSITION, TRIGGER_KEEP_ENVELOPE, contains,
};
use crate::state_instr_default::StateInstrDefault;
use crate::effect_arpeggio::EffectArpeggio;
use crate::effect_multi_retrig_note::EffectMultiRetrigNote;
use crate::effect_portamento::EffectPortamento;
use crate::effect_toneportamento::EffectTonePortamento;
use crate::effect_vibrato_tremolo::EffectVibratoTremolo;
use crate::effect_volume_panning_slide::EffectVolumePanningSlide;

verus! {

/// The equal-power stereo gains of a voice at volume `v` and panning
/// `p`: `l` and `r` are the integer square roots of `v*v*p` and
/// `v*v*(1-p)` rescaled to Q16.16, so their squares bracket those
/// products exactly.
pub fn mixing_gains(v: i64, p: i64) -> (gains: (i64, i64))
    requires
        0 <= v <= ONE,
        0 <= p <= ONE,
    ensures
        0 <= gains.0 <= ONE,
        0 <= gains.1 <= ONE,
        (256 * gains.0) * (256 * gains.0) <= v * v * p,
        v * v * p < (256 * gains.0 + 256) * (256 * gains.0 + 256),
        (256 * gains.1) * (256 * gains.1) <= v * v * (65536 - p),
        v * v * (65536 - p) < (256 * gains.1 + 256) * (256 * gains.1 + 256),
{
    proof {
        assert(0 <= v * v <= 65536 * 65536) by (nonlinear_arith)
            requires
                0 <= v <= 65536,
        ;
        assert(0 <= v * v * p <= 65536 * 65536 * 65536 && 0 <= v * v * (65536 - p) <= 65536
            * 65536 * 65536) by (nonlinear_arith)
            requires
                0 <= v * v <= 65536 * 65536,
                0 <= p <= 65536,
        ;
    }
    let vv: i64 = v * v;
    let rl: u64 = isqrt((vv * p) as u64);
    let rr: u64 = isqrt((vv * (65536 - p)) as u64);
    proof {
        assert(rl * rl <= 65536 * 65536 * 65536 ==> rl <= 16777216) by (nonlinear_arith);
        assert(rr * rr <= 65536 * 65536 * 65536 ==> rr <= 16777216) by (nonlinear_arith);
    }
    let l: i64 = (rl / 256) as i64;
    let r: i64 = (rr / 256) as i64;
    proof {
        lemma_div256_bracket(rl as int, v * v * p);
        lemma_div256_bracket(rr as int, v * v * (65536 - p));
    }
    (l, r)
}

/// Rounding an integer square root down to a multiple of 256 keeps the
/// bracketing of the radicand.
proof fn lemma_div256_bracket(root: int, x: int)
    requires
        root >= 0,
        root * root <= x,
        x < (root + 1) * (root + 1),
        root <= 16777216,
    ensures
        (256 * (root / 256)) * (256 * (root / 256)) <= x,
        x < (256 * (root / 256) + 256) * (256 * (root / 256) + 256),
{
    let q = root / 256;
    vstd::arithmetic::div_mod::lemma_fundamental_div_mod(root, 256);
    assert(256 * q <= root) by (nonlinear_arith)
        requires
            root == 256 * q + root % 256,
            root % 256 >= 0,
    ;
    assert(root < 256 * q + 256) by (nonlinear_arith)
        requires
            root == 256 * q + root % 256,
            root % 256 < 256,
    ;
    assert((256 * q) * (256 * q) <= root * root) by (nonlinear_arith)
        requires
            0 <= 256 * q <= root,
    ;
    assert((root + 1) * (root + 1) <= (256 * q + 256) * (256 * q + 256)) by (nonlinear_arith)
        requires
            0 <= root + 1 <= 256 * q + 256,
    ;
}

/// Equal-power panning: the two squared target gains of any volume and
/// panning sum exactly to the squared volume (scaled by one in Q16.16),
/// and the executable gains bracket those targets to within one part in
/// 256 of the root.
pub proof fn lemma_equal_power(v: int, p: int, l: int, r: int)
    requires
        0 <= v <= ONE,
        0 <= p <= ONE,
        (256 * l) * (256 * l) <= v * v * p,
        v * v * p < (256 * l + 256) * (256 * l + 256),
        (256 * r) * (256 * r) <= v * v * (65536 - p),
        v * v * (65536 - p) < (256 * r + 256) * (256 * r + 256),
    ensures
        v * v * p + v * v * (65536 - p) == v * v * 65536,
        (256 * l) * (256 * l) + (256 * r) * (256 * r) <= v * v * 65536,
        v * v * 65536 < (256 * l + 256) * (256 * l + 256) + (256 * r + 256) * (256 * r + 256),
{
    assert(v * v * p + v * v * (65536 - p) == v * v * 65536) by (nonlinear_arith);
}

/// The panning after the panning envelope bends it: the envelope's
/// offset from centre scaled by twice the distance to the nearer edge.
pub open spec fn effective_panning_spec(panning: int, env_pan: int) -> int {
    let dist = if panning >= 32768 {
        65536 - panning
    } else {
        panning
    };
    clamp01_spec(panning + crate::fixed::fmul(env_pan - 32768, 2 * dist))
}

/// The volume a voice mixes at: zero while tremor mutes it, otherwise
/// the channel volume plus tremolo, clamped, times the instrument's
/// fadeout-envelope-voice product.
pub open spec fn effective_volume_spec(c: Channel, i: StateInstrDefault) -> int {
    if c.tremor_on {
        0
    } else {
        clamp01_spec(
            crate::fixed::fmul(
                clamp01_spec(c.volume + c.tremolo.value * c.tremolo.multiplier),
                crate::state_instr_default::instr_volume_spec(
                    i.volume_fadeout as int,
                    i.envelope_volume.value as int,
                    i.volume as int,
                ),
            ),
        )
    }
}

/// The stereo frame a channel yields next, if its voice is playing:
/// the instrument's interpolated frame scaled by the two mixing gains.
pub open spec fn channel_frame_spec(c: Channel, m: Module) -> Option<(int, int)> {
    match c.instr {
        Option::Some(i) => match m.instrument@[i.num as int].instr_type {
            InstrumentType::Default(d) => match crate::state_instr_default::instr_frame_spec(
                i,
                d,
            ) {
                Option::Some(v) => Option::Some(
                    (
                        crate::fixed::fmul(v, c.actual_volume[0] as int),
                        crate::fixed::fmul(v, c.actual_volume[1] as int),
                    ),
                ),
                Option::None => Option::None,
            },
            InstrumentType::Empty => Option::None,
        },
        Option::None => Option::None,
    }
}

/// One voice: its pattern cell, pitch and amplitude state, and its
/// effect machines.
#[derive(Clone, Debug)]
pub struct Channel {
    pub historical: Option<HistoricalHelper>,
    pub period_helper: PeriodHelper,
    /// Output sample rate, Hz.
    pub rate: u32,
    /// Current note, Q16.16 semitones.
    pub note: i64,
    /// The cell being played.
    pub current: PatternSlot,
    /// Current period, Q16.16; 0 until a note arrives.
    pub period: i64,
    /// Channel volume, Q16.16 in [0, 1].
    pub volume: i64,
    /// Channel panning, Q16.16 in [0, 1].
    pub panning: i64,
    pub instr: Option<StateInstrDefault>,
    pub arpeggio: EffectArpeggio,
    pub multi_retrig_note: EffectMultiRetrigNote,
    pub panning_slide: EffectVolumePanningSlide,
    pub portamento_up: EffectPortamento,
    pub portamento_down: EffectPortamento,
    pub portamento_fine_up: EffectPortamento,
    pub portamento_fine_down: EffectPortamento,
    pub portamento_extrafine_up: EffectPortamento,
    pub portamento_extrafine_down: EffectPortamento,
    pub tone_portamento: EffectTonePortamento,
    pub tremolo: EffectVibratoTremolo,
    pub volume_slide: EffectVolumePanningSlide,
    pub volume_slide_tick0: EffectVolumePanningSlide,
    pub vibrato: EffectVibratoTremolo,
    /// Glissando control: snap slides to whole semitones.
    pub semitone: bool,
    pub note_delay_param: u8,
    /// Row where an E6y loop restarts.
    pub pattern_loop_origin: u8,
    /// Completed passes of the E6y loop.
    pub pattern_loop_count: u8,
    pub tremor_param: u8,
    pub tremor_on: bool,
    pub muted: bool,
    /// Left and right mixing gains, Q16.16 in [0, 1].
    pub actual_volume: [i64; 2],
}

impl Channel {
    pub open spec fn wf(self) -> bool {
        &&& self.rate >= 1
        &&& 0 <= self.note <= NOTE_MAX
        &&& self.period == 0 || ONE <= self.period <= PERIOD_MAX
        &&& 0 <= self.volume <= ONE
        &&& 0 <= self.panning <= ONE
        &&& match self.instr {
            Option::Some(i) => i.wf() && i.rate == self.rate && i.period_helper
                == self.period_helper,
            Option::None => true,
        }
        &&& self.arpeggio.wf()
        &&& self.multi_retrig_note.wf()
        &&& self.panning_slide.wf()
        &&& self.portamento_up.wf()
        &&& self.portamento_down.wf()
        &&& self.portamento_fine_up.wf()
        &&& self.portamento_fine_down.wf()
        &&& self.portamento_extrafine_up.wf()
        &&& self.portamento_extrafine_down.wf()
        &&& self.tone_portamento.wf()
        &&& self.tone_portamento.period_helper == self.period_helper
        &&& self.tremolo.wf()
        &&& self.tremolo.multiplier == 1
        &&& self.volume_slide.wf()
        &&& self.volume_slide_tick0.wf()
        &&& self.vibrato.wf()
        &&& 0 <= self.actual_volume[0] <= ONE
        &&& 0 <= self.actual_volume[1] <= ONE
    }

    /// The instrument state points at a sampled instrument of the
    /// module, and its sample state describes that instrument's bank.
    pub open spec fn instr_ok(self, m: Module) -> bool {
        match self.instr {
            Option::Some(i) => i.num < m.instrument@.len() && (match m.instrument@[i.num
                as int].instr_type {
                InstrumentType::Default(d) => i.matches(d),
                InstrumentType::Empty => false,
            }),
            Option::None => true,
        }
    }

    /// The channel invariant against its module.
    pub open spec fn wf_with(self, m: Module) -> bool {
        self.wf() && self.instr_ok(m)
    }

    pub fn new(m: &Module, rate: u32, historical: Option<HistoricalHelper>) -> (r: Self)
        requires
            m.wf(),
            rate >= 1,
        ensures
            r.wf_with(*m),
            r.instr is None,
            r.volume == ONE,
            r.panning == 32768,
            r.period == 0,
            !r.muted,
            r.period_helper.freq_type == m.frequency_type,
            r.period_helper.historical == historical is Some,
            r.rate == rate,
            r.current == PatternSlot::empty_spec(),
    {
        let period_helper: PeriodHelper = PeriodHelper::new(
            m.frequency_type,
            historical.is_some(),
        );
        Channel {
            historical,
            period_helper,
            rate,
            note: 0,
            current: PatternSlot::new_empty(),
            period: 0,
            volume: ONE,
            panning: 32768,
            instr: Option::None,
            arpeggio: EffectArpeggio::new(historical),
            multi_retrig_note: EffectMultiRetrigNote::new(historical, 0, 0),
            panning_slide: EffectVolumePanningSlide::default(),
            portamento_up: EffectPortamento::default(),
            portamento_down: EffectPortamento::default(),
            portamento_fine_up: EffectPortamento::default(),
            portamento_fine_down: EffectPortamento::default(),
            portamento_extrafine_up: EffectPortamento::default(),
            portamento_extrafine_down: EffectPortamento::default(),
            tone_portamento: EffectTonePortamento::new(period_helper),
            tremolo: EffectVibratoTremolo::tremolo(),
            volume_slide: EffectVolumePanningSlide::default(),
            volume_slide_tick0: EffectVolumePanningSlide::default(),
            vibrato: EffectVibratoTremolo::vibrato(&period_helper),
            semitone: false,
            note_delay_param: 0,
            pattern_loop_origin: 0,
            pattern_loop_count: 0,
            tremor_param: 0,
            tremor_on: false,
            muted: false,
            actual_volume: [0, 0],
        }
    }

    /// Whether this voice is silenced: by its own mute flag or by the
    /// instrument's computer-mute switch.
    pub fn is_muted(&self, m: &Module) -> (r: bool)
        requires
            self.wf_with(*m),
            m.wf(),
        ensures
            r == (self.muted || (match self.instr {
                Option::Some(i) => match m.instrument@[i.num as int].instr_type {
                    InstrumentType::Default(d) => d.midi_mute_computer,
                    InstrumentType::Empty => false,
                },
                Option::None => false,
            })),
    {
        let midi_mute: bool = match &self.instr {
            Option::Some(i) => {
                let num: usize = i.num;
                match &m.instrument[num].instr_type {
                    InstrumentType::Default(d) => d.midi_mute_computer,
                    InstrumentType::Empty => false,
                }
            },
            Option::None => false,
        };
        self.muted || midi_mute
    }

    /// Silence the voice without releasing it.
    pub fn cut_note(&mut self)
        requires
            old(self).wf(),
        ensures
            final(self).wf(),
            *final(self) == (Channel { volume: 0, ..*old(self) }),
    {
        self.volume = 0;
    }

    /// Fetch this channel's instrument from the module; the invariant
    /// says the lookup is a sampled instrument whenever the state is
    /// bound to one.
    fn with_instr_key_off(&mut self, m: &Module)
        requires
            old(self).wf_with(*m),
            m.wf(),
        ensures
            final(self).wf_with(*m),
            final(self).instr is Some <==> old(self).instr is Some,
            final(self).current == old(self).current,
            final(self).volume == old(self).volume,
            final(self).panning == old(self).panning,
            final(self).period == old(self).period,
            old(self).instr is Some ==> (match final(self).instr {
                Option::Some(fi) => !fi.sustained,
                Option::None => false,
            }),
    {
        match &mut self.instr {
            Option::Some(i) => {
                let num: usize = i.num;
                match &m.instrument[num].instr_type {
                    InstrumentType::Default(d) => {
                        i.key_off(d);
                    },
                    InstrumentType::Empty => {},
                }
            },
            Option::None => {},
        }
    }

    /// Release the note; in historical mode K00 behaves per FT2: the
    /// note survives (retriggered with everything kept) unless the row
    /// is bare, in which case it is cut.
    pub fn key_off(&mut self, m: &Module, tick: u32)
        requires
            old(self).wf_with(*m),
            m.wf(),
        ensures
            final(self).wf_with(*m),
            final(self).current == old(self).current,
            old(self).historical is None && old(self).instr is Some ==> (match final(self).instr {
                Option::Some(fi) => !fi.sustained,
                Option::None => false,
            }),
            old(self).instr is None ==> final(self).volume == 0,
    {
        if self.historical.is_some() {
            self.key_off_historical(m, tick);
            return ;
        }
        if self.instr.is_some() {
            self.with_instr_key_off(m);
        } else {
            self.cut_note();
        }
    }

    fn key_off_historical(&mut self, m: &Module, tick: u32)
        requires
            old(self).wf_with(*m),
            m.wf(),
        ensures
            final(self).wf_with(*m),
            final(self).current == old(self).current,
            old(self).instr is None ==> final(self).volume == 0,
    {
        if self.instr.is_some() {
            self.with_instr_key_off(m);
            let has_vol_env: bool = match &self.instr {
                Option::Some(i) => {
                    let num: usize = i.num;
                    match &m.instrument[num].instr_type {
                        InstrumentType::Default(d) => d.volume_envelope.enabled,
                        InstrumentType::Empty => false,
                    }
                },
                Option::None => false,
            };
            if (tick == 0 && (has_vol_env || self.current.instrument != 0 || self.current.volume
                != 0)) || (tick != 0 && has_vol_env) {
                self.trigger_note(
                    m,
                    TRIGGER_KEEP_VOLUME | TRIGGER_KEEP_PERIOD | TRIGGER_KEEP_ENVELOPE,
                );
            } else {
                self.cut_note();
            }
        } else {
            self.cut_note();
        }
    }

    /// Start (or restart) the note, keeping whatever the flags name:
    /// sample position, envelopes, volume, period. The panning always
    /// takes the instrument's value, and the vibrato restarts.
    #[verifier::rlimit(60)]
    pub fn trigger_note(&mut self, m: &Module, flags: TriggerKeep)
        requires
            old(self).wf_with(*m),
            m.wf(),
        ensures
            final(self).wf_with(*m),
            !final(self).tremor_on,
            final(self).current == old(self).current,
            final(self).note == old(self).note,
            final(self).instr is Some <==> old(self).instr is Some,
            crate::triggerkeep::contains_spec(flags, TRIGGER_KEEP_VOLUME) && old(self).instr
                is Some ==> final(self).volume == old(self).volume,
            !crate::triggerkeep::contains_spec(flags, TRIGGER_KEEP_VOLUME) && old(self).instr
                is Some ==> final(self).volume == (match old(self).instr {
                Option::Some(i) => i.volume_orig as int,
                Option::None => 0int,
            }),
            crate::triggerkeep::contains_spec(flags, TRIGGER_KEEP_VOLUME)
                && crate::triggerkeep::contains_spec(flags, TRIGGER_KEEP_ENVELOPE) ==> (match (
            old(self).instr, final(self).instr) {
                (Option::Some(oi), Option::Some(fi)) => fi.sustained == oi.sustained,
                (Option::None, Option::None) => true,
                _ => false,
            }),
            crate::triggerkeep::contains_spec(flags, TRIGGER_KEEP_PERIOD) ==> final(self).period
                == old(self).period,
            old(self).instr is None ==> final(self).volume == old(self).volume
                && final(self).period == old(self).period,
    {
        self.tremor_on = false;
        let has_instr: bool = self.instr.is_some();
        if !has_instr {
            return ;
        }
        if !contains(flags, TRIGGER_KEEP_SAMPLE_POSITION) {
            match &mut self.instr {
                Option::Some(i) => i.sample_reset(),
                Option::None => {},
            }
        }
        if !contains(flags, TRIGGER_KEEP_ENVELOPE) {
            match &mut self.instr {
                Option::Some(i) => i.envelopes_reset(),
                Option::None => {},
            }
        }
        match &mut self.instr {
            Option::Some(i) => {
                let num: usize = i.num;
                match &m.instrument[num].instr_type {
                    InstrumentType::Default(d) => i.vibrato_reset(d),
                    InstrumentType::Empty => {},
                }
            },
            Option::None => {},
        }
        if !contains(flags, TRIGGER_KEEP_VOLUME) {
            match &mut self.instr {
                Option::Some(i) => {
                    i.volume_reset();
                    self.volume = i.volume;
                },
                Option::None => {},
            }
        }
        match &self.instr {
            Option::Some(i) => {
                self.panning = i.panning;
            },
            Option::None => {},
        }
        if !contains(flags, TRIGGER_KEEP_PERIOD) {
            self.period = self.period_helper.note_to_period(self.note);
            let vib: i64 = self.vibrato.value();
            let semitone: bool = self.semitone;
            let period: i64 = self.period;
            match &mut self.instr {
                Option::Some(i) => {
                    i.update_frequency(period, 0, vib, semitone);
                },
                Option::None => {},
            }
        }
    }

    /// Recompute the stereo gains (equal-power pan of the volume after
    /// tremolo and tremor, scaled by the instrument volume and bent by
    /// the panning envelope) and push the playing frequency.
    pub fn tickn_update_instr(&mut self, m: &Module)
        requires
            old(self).wf_with(*m),
            m.wf(),
        ensures
            final(self).wf_with(*m),
            final(self).current == old(self).current,
            final(self).note == old(self).note,
            final(self).volume == old(self).volume,
            final(self).panning == old(self).panning,
            final(self).period == old(self).period,
            final(self).tremor_on == old(self).tremor_on,
            old(self).instr is Some ==> ({
                let v = effective_volume_spec(*old(self), old(self).instr->Some_0);
                let p = effective_panning_spec(
                    old(self).panning as int,
                    old(self).instr->Some_0.envelope_panning.value as int,
                );
                let g0 = final(self).actual_volume[0] as int;
                let g1 = final(self).actual_volume[1] as int;
                &&& (256 * g0) * (256 * g0) <= v * v * p
                &&& v * v * p < (256 * g0 + 256) * (256 * g0 + 256)
                &&& (256 * g1) * (256 * g1) <= v * v * (65536 - p)
                &&& v * v * (65536 - p) < (256 * g1 + 256) * (256 * g1 + 256)
            }),
    {
        if self.instr.is_none() {
            return ;
        }
        let env_pan: i64 = match &self.instr {
            Option::Some(i) => i.envelope_panning.value,
            Option::None => 32768,
        };
        let dist: i64 = if self.panning >= 32768 {
            65536 - self.panning
        } else {
            self.panning
        };
        let off: i64 = mul_fp(env_pan - 32768, 2 * dist);
        proof {
            assert(-32768 * 65536 <= (env_pan - 32768) * (2 * dist) <= 32768 * 65536)
                by (nonlinear_arith)
                requires
                    -32768 <= env_pan - 32768 <= 32768,
                    0 <= 2 * dist <= 65536,
            ;
            crate::fixed::lemma_fq_magnitude((env_pan - 32768) * (2 * dist), 32768);
        }
        let pan_eff: i64 = clamp01(self.panning + off);
        let mut volume: i64 = 0;
        if !self.tremor_on {
            let tre: i64 = self.tremolo.value();
            volume = clamp01(self.volume + tre);
            let iv: i64 = match &self.instr {
                Option::Some(i) => i.get_volume(),
                Option::None => 0,
            };
            volume = mul_fp(volume, iv);
            proof {
                crate::fixed::lemma_tdiv_nonneg(volume as int * iv as int, 65536);
            }
        }
        proof {
            crate::fixed::lemma_tdiv_nonneg(
                clamp01_spec(old(self).volume + old(self).tremolo.value
                    * old(self).tremolo.multiplier) * (match old(self).instr {
                    Option::Some(i) => crate::state_instr_default::instr_volume_spec(
                        i.volume_fadeout as int,
                        i.envelope_volume.value as int,
                        i.volume as int,
                    ),
                    Option::None => 0int,
                }),
                65536,
            );
        }
        let volume2: i64 = clamp01(volume);
        let gains: (i64, i64) = mixing_gains(volume2, pan_eff);
        self.actual_volume = [gains.0, gains.1];
        let arp_note: i64 = if self.current.has_arpeggio() {
            self.arpeggio.value()
        } else {
            0
        };
        let vib: i64 = self.vibrato.value();
        let semitone: bool = self.semitone;
        let period: i64 = clamp_min(self.period, ONE);
        match &mut self.instr {
            Option::Some(i) => {
                i.update_frequency(period, arp_note, vib, semitone);
            },
            Option::None => {},
        }
    }

    /// One stereo frame of this voice: the interpolated sample scaled by
    /// the two gains; silence once the voice has run out.
    pub fn next(&mut self, m: &Module) -> (r: Option<(i64, i64)>)
        requires
            old(self).wf_with(*m),
            m.wf(),
        ensures
            final(self).wf_with(*m),
            final(self).volume == old(self).volume,
            final(self).panning == old(self).panning,
            final(self).period == old(self).period,
            final(self).actual_volume == old(self).actual_volume,
            final(self).muted == old(self).muted,
            final(self).current == old(self).current,
            (final(self).instr is Some) <==> (old(self).instr is Some),
            old(self).instr is None ==> r is None,
            (match (r, channel_frame_spec(*old(self), *m)) {
                (Option::Some(lr), Option::Some(sp)) => lr.0 == sp.0 && lr.1 == sp.1,
                (Option::None, Option::None) => true,
                _ => false,
            }),
            match r {
                Option::Some(lr) => -ONE <= lr.0 <= ONE && -ONE <= lr.1 <= ONE,
                Option::None => true,
            },
    {
        let gains: [i64; 2] = self.actual_volume;
        let out: Option<i64> = match &mut self.instr {
            Option::Some(i) => {
                let num: usize = i.num;
                match &m.instrument[num].instr_type {
                    InstrumentType::Default(d) => i.next(d),
                    InstrumentType::Empty => Option::None,
                }
            },
            Option::None => Option::None,
        };
        match out {
            Option::Some(v) => {
                let l: i64 = mul_fp(v, gains[0]);
                let r: i64 = mul_fp(v, gains[1]);
                proof {
                    assert(-65536 * 65536 <= v * gains[0int] <= 65536 * 65536 && -65536 * 65536
                        <= v * gains[1int] <= 65536 * 65536) by (nonlinear_arith)
                        requires
                            -65536 <= v <= 65536,
                            0 <= gains[0int] <= 65536,
                            0 <= gains[1int] <= 65536,
                    ;
                    crate::fixed::lemma_fq_magnitude(v * gains[0int], 65536);
                    crate::fixed::lemma_fq_magnitude(v * gains[1int], 65536);
                }
                Option::Some((l, r))
            },
            Option::None => Option::None,
        }
    }
}

impl Channel {
    /// Seek the playing sample to a whole frame (the sample-offset
    /// effect); past its end the voice is disabled.
    fn sample_set_position(&mut self, m: &Module, position: usize)
        requires
            old(self).wf_with(*m),
            m.wf(),
        ensures
            final(self).wf_with(*m),
            final(self).instr is Some <==> old(self).instr is Some,
            final(self).volume == old(self).volume,
            final(self).panning == old(self).panning,
            final(self).period == old(self).period,
            final(self).note == old(self).note,
            final(self).current == old(self).current,
    {
        match &mut self.instr {
            Option::Some(i) => {
                match &mut i.state_sample {
                    Option::Some(s) => {
                        s.set_position(position);
                    },
                    Option::None => {},
                }
            },
            Option::None => {},
        }
    }

    /// The continuous (per-tick) half of the effect column.
    #[verifier::rlimit(60)]
    pub fn tick_effects(&mut self, m: &Module, current_tick: u32)
        requires
            old(self).wf_with(*m),
            m.wf(),
        ensures
            final(self).wf_with(*m),
            0 <= final(self).volume <= ONE,
            0 <= final(self).panning <= ONE,
            final(self).period == 0 || ONE <= final(self).period <= PERIOD_MAX,
            final(self).current == old(self).current,
            old(self).current.effect_type == 0xE && old(self).current.effect_parameter / 16
                == 0xC && old(self).current.effect_parameter % 16 == current_tick
                ==> final(self).volume == 0,
            old(self).current.effect_type == 0x1D && current_tick != 0 ==> final(self).tremor_on
                == ((current_tick - 1) % ((old(self).tremor_param / 16)
                + (old(self).tremor_param % 16) + 2) > old(self).tremor_param / 16),
    {
        let et: u8 = self.current.effect_type;
        if et == 0 {
            if self.current.effect_parameter > 0 {
                self.arpeggio.tick();
            }
        } else if et == 1 && current_tick != 0 {
            self.portamento_up.tick();
            if self.period != 0 {
                self.period = self.portamento_up.clamp(self.period);
            }
        } else if et == 2 && current_tick != 0 {
            self.portamento_down.tick();
            if self.period != 0 {
                self.period = self.portamento_down.clamp(self.period);
            }
        } else if et == 3 && current_tick != 0 {
            if self.period != 0 {
                self.period = self.tone_portamento.clamp(self.period);
            }
        } else if et == 4 && current_tick != 0 {
            self.vibrato.tick();
        } else if et == 5 && current_tick != 0 {
            if self.period != 0 {
                self.period = self.tone_portamento.clamp(self.period);
            }
            let d: i64 = self.volume_slide.tick();
            self.volume = clamp01(self.volume + d);
        } else if et == 6 && current_tick != 0 {
            self.vibrato.tick();
            let d: i64 = self.volume_slide.tick();
            self.volume = clamp01(self.volume + d);
        } else if et == 7 && current_tick != 0 {
            self.tremolo.tick();
        } else if et == 0xA && current_tick != 0 {
            let d: i64 = self.volume_slide.tick();
            self.volume = clamp01(self.volume + d);
        } else if et == 0xE {
            let sub: u8 = self.current.effect_parameter / 16;
            if sub == 0x9 && current_tick != 0 {
                if self.current.effect_parameter % 16 != 0 {
                    let r: u32 = current_tick % ((self.current.effect_parameter % 16) as u32);
                    if r == 0 {
                        self.trigger_note(m, TRIGGER_KEEP_VOLUME);
                        self.instr_tick(m);
                    }
                }
            } else if sub == 0xC {
                if (self.current.effect_parameter % 16) as u32 == current_tick {
                    self.cut_note();
                }
            } else if sub == 0xD {
                if self.note_delay_param as u32 == current_tick {
                    self.tick0_load_instrument_and_note(m);
                    self.tick0_volume_effects();
                    self.tick0_effects(m);
                    if self.current.note.is_keyoff() {
                        if self.current.instrument == 0 {
                            match &mut self.instr {
                                Option::Some(i) => i.volume_reset(),
                                Option::None => {},
                            }
                        } else {
                            self.trigger_note(m, TRIGGER_KEEP_NONE);
                        }
                    }
                }
            }
        } else if et == 0x14 {
            if current_tick == self.current.effect_parameter as u32 {
                self.key_off(m, current_tick);
            }
        } else if et == 0x19 && current_tick != 0 {
            let d: i64 = self.panning_slide.tick();
            self.panning = clamp01(self.panning + d);
        } else if et == 0x1B && current_tick != 0 {
            let t: i64 = self.multi_retrig_note.tick();
            if t == 0 {
                self.trigger_note(m, TRIGGER_KEEP_VOLUME | TRIGGER_KEEP_ENVELOPE);
                let vol_env: bool = match &self.instr {
                    Option::Some(i) => {
                        let num: usize = i.num;
                        match &m.instrument[num].instr_type {
                            InstrumentType::Default(d) => d.volume_envelope.enabled,
                            InstrumentType::Empty => false,
                        }
                    },
                    Option::None => false,
                };
                if self.instr.is_some() {
                    if self.volume == 0 && !vol_env {
                        self.volume = self.multi_retrig_note.clamp(self.volume);
                        if self.current.volume >= 0x10 && self.current.volume <= 0x50 {
                            self.volume = ((self.current.volume - 0x10) as i64) * 1024;
                        }
                        if self.current.volume >= 0xC0 && self.current.volume <= 0xCF {
                            self.panning = ((self.current.volume % 16) as i64) * 4096;
                        }
                    }
                }
            }
        } else if et == 0x1D && current_tick != 0 {
            let on: u32 = (self.tremor_param / 16) as u32;
            let off: u32 = (self.tremor_param % 16) as u32;
            self.tremor_on = (current_tick - 1) % (on + off + 2) > on;
        }
    }

    /// Advance this channel's instrument state by one tick.
    fn instr_tick(&mut self, m: &Module)
        requires
            old(self).wf_with(*m),
            m.wf(),
        ensures
            final(self).wf_with(*m),
            final(self).volume == old(self).volume,
            final(self).panning == old(self).panning,
            final(self).period == old(self).period,
            final(self).current == old(self).current,
            final(self).tremor_param == old(self).tremor_param,
            final(self).tremor_on == old(self).tremor_on,
            final(self).instr is Some <==> old(self).instr is Some,
    {
        match &mut self.instr {
            Option::Some(i) => {
                let num: usize = i.num;
                match &m.instrument[num].instr_type {
                    InstrumentType::Default(d) => i.tick(d),
                    InstrumentType::Empty => {},
                }
            },
            Option::None => {},
        }
    }

    /// The continuous half of the volume column.
    pub fn tick_volume_effects(&mut self, m: &Module)
        requires
            old(self).wf_with(*m),
            m.wf(),
        ensures
            final(self).wf_with(*m),
            final(self).current == old(self).current,
            final(self).tremor_param == old(self).tremor_param,
            final(self).tremor_on == old(self).tremor_on,
            final(self).instr == old(self).instr,
            0 <= final(self).volume <= ONE,
            0 <= final(self).panning <= ONE,
            final(self).period == 0 || ONE <= final(self).period <= PERIOD_MAX,
    {
        let hi: u8 = self.current.volume / 16;
        if hi == 0x6 {
            self.volume_slide.xm_update_effect(self.current.volume, 2, 64);
            let d: i64 = self.volume_slide.tick();
            self.volume = clamp01(self.volume + d);
        } else if hi == 0x7 {
            self.volume_slide.xm_update_effect(self.current.volume, 1, 64);
            let d: i64 = self.volume_slide.tick();
            self.volume = clamp01(self.volume + d);
        } else if hi == 0xB {
            self.vibrato.tick();
        } else if hi == 0xF {
            if self.period != 0 {
                self.period = self.tone_portamento.clamp(self.period);
            }
        }
    }

    /// One later tick of the row: advance the instrument, run the
    /// continuous volume-column and effect-column actions, and refresh
    /// the mixing gains. Volume and panning stay in [0, 1], and the
    /// period stays at or above one unit whenever it is set.
    pub fn tick(&mut self, m: &Module, current_tick: u32)
        requires
            old(self).wf_with(*m),
            m.wf(),
        ensures
            final(self).wf_with(*m),
            0 <= final(self).volume <= ONE,
            0 <= final(self).panning <= ONE,
            final(self).period == 0 || ONE <= final(self).period <= PERIOD_MAX,
            final(self).current == old(self).current,
            old(self).instr is None && !old(self).current.has_note_delay_spec() ==> *final(self)
                == *old(self),
            (old(self).instr is Some || old(self).current.has_note_delay_spec()) && old(
                self,
            ).current.effect_type == 0xE && old(self).current.effect_parameter / 16 == 0xC
                && old(self).current.effect_parameter % 16 == current_tick ==> final(self).volume
                == 0,
            (old(self).instr is Some || old(self).current.has_note_delay_spec()) && old(
                self,
            ).current.effect_type == 0x1D && current_tick != 0 ==> final(self).tremor_on == ((
            current_tick - 1) % ((old(self).tremor_param / 16) + (old(self).tremor_param % 16)
                + 2) > old(self).tremor_param / 16),
    {
        if self.instr.is_none() {
            if self.current.has_note_delay() {
                self.tick_effects(m, current_tick);
                self.tickn_update_instr(m);
            }
            return ;
        }
        self.instr_tick(m);
        self.tick_volume_effects(m);
        self.tick_effects(m, current_tick);
        self.tickn_update_instr(m);
    }

    /// The tick-0 half of the effect column: set commands, memories,
    /// fine slides.
    pub fn tick0_effects(&mut self, m: &Module)
        requires
            old(self).wf_with(*m),
            m.wf(),
        ensures
            final(self).wf_with(*m),
            final(self).current == old(self).current,
            0 <= final(self).volume <= ONE,
            0 <= final(self).panning <= ONE,
            final(self).period == 0 || ONE <= final(self).period <= PERIOD_MAX,
            old(self).current.effect_type == 0x8 ==> final(self).panning
                == old(self).current.effect_parameter * 256,
            old(self).current.effect_type == 0xC ==> final(self).volume
                == (if old(self).current.effect_parameter > 64 {
                65536int
            } else {
                old(self).current.effect_parameter * 1024
            }),
            old(self).current.effect_type == 0xE && old(self).current.effect_parameter / 16
                == 0x3 ==> final(self).semitone == (old(self).current.effect_parameter != 0),
            old(self).current.effect_type == 0x1D && old(self).current.effect_parameter > 0
                ==> final(self).tremor_param == old(self).current.effect_parameter,
    {
        let et: u8 = self.current.effect_type;
        let param: u8 = self.current.effect_parameter;
        let mult: i64 = match self.period_helper.freq_type {
            FrequencyType::LinearFrequencies => 4,
            FrequencyType::AmigaFrequencies => 1,
        };
        if et == 0x0 {
            self.arpeggio.xm_update_effect(param);
        } else if et == 0x1 {
            self.portamento_up.xm_update_effect(param, 0, true, mult);
        } else if et == 0x2 {
            self.portamento_down.xm_update_effect(param, 0, false, mult);
        } else if et == 0x3 {
            let note: i64 = self.note;
            self.tone_portamento.xm_update_effect(param, 1, note);
        } else if et == 0x4 {
            self.vibrato.xm_update_effect(param, 0);
        } else if et == 0x5 {
            self.volume_slide.xm_update_effect(param, 0, 64);
        } else if et == 0x6 {
            self.volume_slide.xm_update_effect(param, 0, 64);
        } else if et == 0x7 {
            self.tremolo.xm_update_effect(param, 0);
        } else if et == 0x8 {
            self.panning = (param as i64) * 256;
        } else if et == 0x9 {
            if self.current.note.is_valid() {
                self.sample_set_position(m, (param as usize) * 256);
            }
        } else if et == 0xA {
            self.volume_slide.xm_update_effect(param, 0, 64);
        } else if et == 0xC {
            self.volume = if param > 64 {
                ONE
            } else {
                (param as i64) * 1024
            };
        } else if et == 0xE {
            let sub: u8 = param / 16;
            if sub == 0x1 {
                self.portamento_fine_up.xm_update_effect(param, 1, true, mult);
                if self.period != 0 {
                    self.period = self.portamento_fine_up.clamp(self.period);
                }
            } else if sub == 0x2 {
                self.portamento_fine_down.xm_update_effect(param, 1, false, mult);
                if self.period != 0 {
                    self.period = self.portamento_fine_down.clamp(self.period);
                }
            } else if sub == 0x3 {
                self.semitone = param != 0;
            } else if sub == 0x4 {
                self.vibrato.data.waveform = param % 4;
                if (param / 4) % 2 == 0 {
                    self.vibrato.retrigger();
                }
            } else if sub == 0x5 {
                if self.current.note.is_valid() {
                    if self.instr.is_some() {
                        let finetune: i64 = ((param % 16) as i64) * 8192 - 65536;
                        match &mut self.instr {
                            Option::Some(i) => i.set_finetune(finetune),
                            Option::None => {},
                        }
                        let ft_note: i64 = match &self.instr {
                            Option::Some(i) => i.get_finetuned_note(),
                            Option::None => 0,
                        };
                        let base: i64 = ((self.current.note.value() as i64) - 1) * 65536;
                        self.note = clamp_max(clamp_min(base + ft_note, 0), crate::period_helper::NOTE_MAX);
                        self.period = self.period_helper.note_to_period(self.note);
                    }
                }
            } else if sub == 0x7 {
                self.tremolo.data.waveform = param % 4;
                if (param / 4) % 2 == 0 {
                    self.tremolo.retrigger();
                }
            } else if sub == 0x9 {
                if param % 16 == 0 {
                    self.trigger_note(m, TRIGGER_KEEP_VOLUME);
                    self.instr_tick(m);
                }
            } else if sub == 0xA {
                self.volume_slide_tick0.xm_update_effect(param, 1, 64);
                let d: i64 = self.volume_slide_tick0.tick();
                self.volume = clamp01(self.volume + d);
            } else if sub == 0xB {
                self.volume_slide_tick0.xm_update_effect(param, 2, 64);
                let d: i64 = self.volume_slide_tick0.tick();
                self.volume = clamp01(self.volume + d);
            } else if sub == 0xD {
                if param / 16 == 0 {
                    match self.current.note {
                        Note::Empty => {
                            self.trigger_note(
                                m,
                                TRIGGER_KEEP_SAMPLE_POSITION | TRIGGER_KEEP_VOLUME
                                    | TRIGGER_KEEP_PERIOD,
                            );
                        },
                        Note::KeyOff => {
                            if self.current.instrument == 0 {
                                self.key_off(m, 0);
                            } else {
                                self.trigger_note(
                                    m,
                                    TRIGGER_KEEP_PERIOD | TRIGGER_KEEP_ENVELOPE,
                                );
                            }
                        },
                        _ => {},
                    }
                }
            }
        } else if et == 0x14 {
            if param == 0 {
                self.key_off(m, 0);
            }
        } else if et == 0x15 {
            let counter: u32 = param as u32;
            match &mut self.instr {
                Option::Some(i) => {
                    i.envelope_volume.set_counter(counter);
                    if i.sustained {
                        i.envelope_panning.set_counter(counter);
                    }
                },
                Option::None => {},
            }
        } else if et == 0x19 {
            self.panning_slide.xm_update_effect(param, 0, 16);
        } else if et == 0x1B {
            self.multi_retrig_note.xm_update_effect(param);
        } else if et == 0x1D {
            if param > 0 {
                self.tremor_param = param;
            }
        } else if et == 0x21 {
            let sub: u8 = param / 16;
            if sub == 1 {
                self.portamento_extrafine_up.xm_update_effect(param, 2, true, mult);
                if self.period != 0 {
                    self.period = self.portamento_extrafine_up.clamp(self.period);
                }
            } else if sub == 2 {
                self.portamento_extrafine_down.xm_update_effect(param, 2, false, mult);
                if self.period != 0 {
                    self.period = self.portamento_extrafine_down.clamp(self.period);
                }
            }
        }
    }

    /// The tick-0 half of the volume column: set volume or panning, the
    /// fine slides, and the memories of the continuous forms.
    pub fn tick0_volume_effects(&mut self)
        requires
            old(self).wf(),
        ensures
            final(self).wf(),
            final(self).instr == old(self).instr,
            final(self).current == old(self).current,
            final(self).note == old(self).note,
            final(self).period == old(self).period,
            0 <= final(self).volume <= ONE,
            0 <= final(self).panning <= ONE,
            1 <= old(self).current.volume / 16 <= 4 ==> final(self).volume
                == (old(self).current.volume - 0x10) * 1024,
            old(self).current.volume / 16 == 0xC ==> final(self).panning
                == (old(self).current.volume % 16) * 4096,
    {
        let v: u8 = self.current.volume;
        let hi: u8 = v / 16;
        if 0x1 <= hi && hi <= 0x4 {
            self.volume = ((v - 0x10) as i64) * 1024;
        } else if hi == 0x5 {
            // The 0x50..0x5F range is undefined in the format; this
            // engine reads it as a set-volume continuing the 0x10..0x50
            // scale, capped at full volume.
            self.volume = ((v - 0x20) as i64) * 1024;
            if self.volume > ONE {
                self.volume = ONE;
            }
        } else if hi == 0x8 {
            self.volume_slide.xm_update_effect(v, 2, 64);
            let d: i64 = self.volume_slide.tick();
            self.volume = clamp01(self.volume + d);
        } else if hi == 0x9 {
            self.volume_slide.xm_update_effect(v, 1, 64);
            let d: i64 = self.volume_slide.tick();
            self.volume = clamp01(self.volume + d);
        } else if hi == 0xA {
            self.vibrato.xm_update_effect(v, 1);
        } else if hi == 0xC {
            self.panning = ((v % 16) as i64) * 4096;
        } else if hi == 0xD {
            self.panning_slide.xm_update_effect(v, 2, 16);
            let d: i64 = self.panning_slide.tick();
            self.panning = clamp01(self.panning + d);
        } else if hi == 0xE {
            self.panning_slide.xm_update_effect(v, 1, 16);
            let d: i64 = self.panning_slide.tick();
            self.panning = clamp01(self.panning + d);
        } else if hi == 0xF {
            let note: i64 = self.note;
            self.tone_portamento.xm_update_effect(v % 16, 16, note);
        }
    }

    /// Bind the cell's instrument number: swap the bank reference alone
    /// (a sample-only change) or rebuild the whole instrument state.
    /// Returns whether the number names the instrument already playing.
    fn tick0_change_instr(&mut self, m: &Module, sample_only: bool) -> (r: bool)
        requires
            old(self).wf_with(*m),
            m.wf(),
            old(self).current.instrument >= 1,
            old(self).current.instrument as int <= m.instrument@.len(),
        ensures
            final(self).wf_with(*m),
            final(self).current == old(self).current,
    {
        let instrnr: usize = (self.current.instrument - 1) as usize;
        match &m.instrument[instrnr].instr_type {
            InstrumentType::Default(id) => {
                if id.sample.len() != 0 {
                    if sample_only {
                        match &mut self.instr {
                            Option::Some(i) => i.replace_instr(id, instrnr),
                            Option::None => {},
                        }
                    } else {
                        let ph: PeriodHelper = self.period_helper;
                        let rate: u32 = self.rate;
                        self.instr = Option::Some(
                            StateInstrDefault::new(id, instrnr, ph, rate),
                        );
                    }
                }
                let was_same: bool = match &self.instr {
                    Option::Some(i) => i.num == instrnr,
                    Option::None => false,
                };
                was_same
            },
            InstrumentType::Empty => false,
        }
    }

    /// The instrument-load policy at row entry: an invalid number cuts
    /// the note; tone portamento and ghost instruments keep the playing
    /// voice and swap the bank; a plain number rebuilds the state.
    /// Returns whether the playing instrument survived unchanged.
    fn tick0_load_instrument(&mut self, m: &Module) -> (r: bool)
        requires
            old(self).wf_with(*m),
            m.wf(),
        ensures
            final(self).wf_with(*m),
            final(self).current == old(self).current,
            old(self).current.instrument == 0 ==> *final(self) == *old(self) && r,
            old(self).current.instrument > 0 && old(self).current.instrument as int
                > m.instrument@.len() ==> !r && final(self).volume == 0 && final(self).instr
                is None,
    {
        if self.current.instrument > 0 {
            if self.current.instrument as usize > m.instrument.len() {
                self.cut_note();
                self.instr = Option::None;
                return false;
            } else if self.current.has_tone_portamento() {
                self.trigger_note(m, TRIGGER_KEEP_PERIOD | TRIGGER_KEEP_SAMPLE_POSITION);
                return self.tick0_change_instr(m, true);
            } else if matches!(self.current.note, Note::Empty) {
                if self.current.has_volume_slide() {
                    self.trigger_note(m, TRIGGER_KEEP_SAMPLE_POSITION | TRIGGER_KEEP_PERIOD);
                } else {
                    self.trigger_note(
                        m,
                        TRIGGER_KEEP_SAMPLE_POSITION | TRIGGER_KEEP_VOLUME
                            | TRIGGER_KEEP_PERIOD,
                    );
                }
                return self.tick0_change_instr(m, true);
            } else if !self.current.note.is_keyoff() {
                return self.tick0_change_instr(m, false);
            } else {
                self.trigger_note(m, TRIGGER_KEEP_PERIOD);
            }
        }
        true
    }

    /// Note resolution at row entry: a valid note either aims the tone
    /// portamento, or picks the mapped sample and retriggers; a key-off
    /// releases the voice.
    fn tick0_load_note(&mut self, m: &Module, new_instr: bool)
        requires
            old(self).wf_with(*m),
            m.wf(),
        ensures
            final(self).wf_with(*m),
            final(self).current == old(self).current,
            !old(self).current.note.is_valid_spec() && !old(self).current.note.is_keyoff_spec()
                ==> *final(self) == *old(self),
            old(self).current.note.is_valid_spec() && old(self).instr is None ==> *final(self)
                == (Channel { volume: 0, ..*old(self) }),
            old(self).current.note.is_valid_spec() && old(self).instr is Some && old(
                self,
            ).current.has_tone_portamento_spec() ==> ({
                let i = old(self).instr->Some_0;
                match i.state_sample {
                    Option::Some(ss) => if ss.enabled {
                        *final(self) == (Channel {
                            note: (crate::fixed::clamp_max_spec(
                                crate::fixed::clamp_min_spec(
                                    (old(self).current.note.value_spec() - 1) * 65536 + (
                                    ss.relative_note * 65536 + ss.finetune),
                                    0,
                                ),
                                NOTE_MAX as int,
                            )) as i64,
                            ..*old(self)
                        })
                    } else {
                        *final(self) == (Channel { volume: 0, ..*old(self) })
                    },
                    Option::None => *final(self) == (Channel { volume: 0, ..*old(self) }),
                }
            }),
            old(self).current.note.is_valid_spec() && old(self).instr is Some && !old(
                self,
            ).current.has_tone_portamento_spec() ==> ({
                let i = old(self).instr->Some_0;
                match m.instrument@[i.num as int].instr_type {
                    InstrumentType::Default(d) => ({
                        let v = old(self).current.note.value_spec() as int;
                        let num = d.sample_for_note@[v - 1] as int;
                        let ok = num < d.sample@.len();
                        &&& !ok ==> final(self).volume == 0
                        &&& ok ==> final(self).volume == (if old(self).current.instrument > 0 {
                            d.sample@[num].volume as int
                        } else {
                            old(self).volume as int
                        })
                        &&& ok ==> final(self).note == crate::fixed::clamp_max_spec(
                            crate::fixed::clamp_min_spec(
                                (v - 1) * 65536 + (if d.sample@[num].pcm@.len() > 0 {
                                    d.sample@[num].relative_note * 65536 + d.sample@[num].finetune
                                } else {
                                    0int
                                }),
                                0,
                            ),
                            NOTE_MAX as int,
                        )
                    }),
                    InstrumentType::Empty => true,
                }
            }),
            old(self).current.note.is_keyoff_spec() && (old(self).current.instrument == 0
                || new_instr) && old(self).historical is None && old(self).instr is Some ==> (
            match final(self).instr {
                Option::Some(fi) => !fi.sustained,
                Option::None => false,
            }),
    {
        if self.current.note.is_valid() {
            if self.instr.is_none() {
                self.cut_note();
                return ;
            }
            if self.current.has_tone_portamento() {
                let enabled: bool = match &self.instr {
                    Option::Some(i) => i.is_enabled(),
                    Option::None => false,
                };
                if enabled {
                    let ft_note: i64 = match &self.instr {
                        Option::Some(i) => i.get_finetuned_note(),
                        Option::None => 0,
                    };
                    let base: i64 = ((self.current.note.value() as i64) - 1) * 65536;
                    self.note = clamp_max(clamp_min(base + ft_note, 0), crate::period_helper::NOTE_MAX);
                } else {
                    self.cut_note();
                }
                return ;
            }
            let note: Note = self.current.note;
            let ok: bool = match &mut self.instr {
                Option::Some(i) => {
                    let num: usize = i.num;
                    match &m.instrument[num].instr_type {
                        InstrumentType::Default(d) => i.set_note(d, note),
                        InstrumentType::Empty => false,
                    }
                },
                Option::None => false,
            };
            if ok {
                let ft_note: i64 = match &self.instr {
                    Option::Some(i) => i.get_finetuned_note(),
                    Option::None => 0,
                };
                let base: i64 = ((self.current.note.value() as i64) - 1) * 65536;
                self.note = clamp_max(clamp_min(base + ft_note, 0), crate::period_helper::NOTE_MAX);
                proof {
                    assert((0u8 & 1u8) != 1u8) by (bit_vector);
                    assert((1u8 & 1u8) == 1u8) by (bit_vector);
                }
                if self.current.instrument > 0 {
                    self.trigger_note(m, TRIGGER_KEEP_NONE);
                } else {
                    self.trigger_note(m, TRIGGER_KEEP_VOLUME);
                }
            } else {
                self.cut_note();
            }
        } else if self.current.note.is_keyoff() {
            if self.current.instrument == 0 || new_instr {
                self.key_off(m, 0);
            } else {
                self.trigger_note(m, TRIGGER_KEEP_PERIOD | TRIGGER_KEEP_ENVELOPE);
            }
        }
    }

    /// Load the cell's instrument, then resolve its note. In historical
    /// mode a key-off effect on the row suppresses both (the FT2 Kxx
    /// bug).
    fn tick0_load_instrument_and_note(&mut self, m: &Module)
        requires
            old(self).wf_with(*m),
            m.wf(),
        ensures
            final(self).wf_with(*m),
            final(self).current == old(self).current,
    {
        if self.historical.is_some() {
            if self.current.effect_type == 0x14 {
                return ;
            }
        }
        let new_instr: bool = self.tick0_load_instrument(m);
        self.tick0_load_note(m, new_instr);
    }

    /// Row entry: copy the cell; unless a note delay postpones it, load
    /// the instrument and note, run the tick-0 column actions, restart
    /// finished waveforms, and refresh the gains. Volume and panning
    /// stay in [0, 1] and the period at or above one unit when set.
    pub fn tick0(&mut self, m: &Module, pattern_slot: &PatternSlot)
        requires
            old(self).wf_with(*m),
            m.wf(),
        ensures
            final(self).wf_with(*m),
            final(self).current == *pattern_slot,
            0 <= final(self).volume <= ONE,
            0 <= final(self).panning <= ONE,
            final(self).period == 0 || ONE <= final(self).period <= PERIOD_MAX,
            pattern_slot.has_note_delay_spec() && pattern_slot.effect_parameter % 16 != 0
                ==> *final(self) == (Channel {
                current: *pattern_slot,
                note_delay_param: (pattern_slot.effect_parameter % 16) as u8,
                ..*old(self)
            }),
    {
        self.current = *pattern_slot;
        if !self.current.has_note_delay() || self.current.effect_parameter % 16 == 0 {
            self.tick0_load_instrument_and_note(m);
            self.tick0_volume_effects();
            self.tick0_effects(m);
            if self.arpeggio.in_progress() && !self.current.has_arpeggio() {
                self.arpeggio.retrigger();
            }
            if self.vibrato.in_progress() && !self.current.has_vibrato() {
                self.vibrato.retrigger();
            }
            self.tickn_update_instr(m);
        } else {
            self.note_delay_param = self.current.effect_parameter % 16;
        }
    }
}

/// After every tick and row entry the channel's amplitudes stay in
/// range: volume and panning in [0, 1], and the period, once a note
/// has set it, at least one unit and at most the period ceiling.
pub proof fn lemma_channel_ranges(c: Channel)
    requires
        c.wf(),
    ensures
        0 <= c.volume <= ONE,
        0 <= c.panning <= ONE,
        c.period == 0 || ONE <= c.period <= PERIOD_MAX,
{
}

} // verus!
