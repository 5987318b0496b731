//! Playback state of one sampled instrument: the chosen sample, the two
//! envelopes, the auto-vibrato, the sustain flag and the fadeout scalar.
//! The instrument itself lives in the module; this state carries its
//! index and is handed the instrument on each call.

use vstd::prelude::*;
use crate::fixed::{ONE, fmul, clamp_min_spec, mul_fp, clamp_min};
use crate::module::{InstrDefault, Sample, Note};
use crate::period_helper::{PeriodHelper, PERIOD_MAX};
use crate::state_sample::StateSample;
use crate::state_envelope::StateEnvelope;
use crate::state_auto_vibrato::StateAutoVibrato;

verus! {

/// The mixed instrument volume: fadeout times envelope volume times
/// voice volume, all Q16.16 in [0, 1].
pub open spec fn instr_volume_spec(fadeout: int, env: int, vol: int) -> int {
    fmul(fmul(fadeout, env), vol)
}

/// The interpolated frame a bound instrument state yields next, if its
/// voice is playing: the sample interpolation at the current position.
pub open spec fn instr_frame_spec(st: StateInstrDefault, instr: InstrDefault) -> Option<int> {
    match st.state_sample {
        Option::Some(ss) => if ss.enabled {
            Option::Some(
                crate::state_sample::interp_spec(
                    instr.sample@[st.sample_num as int].pcm@,
                    ss.position as int,
                    ss.loop_type,
                    ss.ping,
                    ss.loop_start as int,
                    ss.loop_start + ss.loop_length,
                ),
            )
        } else {
            Option::None
        },
        Option::None => Option::None,
    }
}

#[derive(Clone, Debug)]
pub struct StateInstrDefault {
    /// Index of the instrument in the module.
    pub num: usize,
    /// Output sample rate, Hz.
    pub rate: u32,
    pub period_helper: PeriodHelper,
    /// The playing sample's state, if a note picked one.
    pub state_sample: Option<StateSample>,
    /// Index of the playing sample within the instrument.
    pub sample_num: usize,
    pub state_vibrato: StateAutoVibrato,
    pub envelope_volume: StateEnvelope,
    pub envelope_panning: StateEnvelope,
    /// Whether the note still holds (before key-off).
    pub sustained: bool,
    /// Remaining fadeout scalar, Q16.16 in [0, 1].
    pub volume_fadeout: i64,
    /// Voice volume, Q16.16 in [0, 1].
    pub volume: i64,
    /// The sample's default volume, restored on volume reset.
    pub volume_orig: i64,
    /// Voice panning, Q16.16 in [0, 1].
    pub panning: i64,
}

impl StateInstrDefault {
    pub open spec fn wf(self) -> bool {
        &&& self.rate >= 1
        &&& match self.state_sample {
            Option::Some(ss) => ss.wf() && ss.rate == self.rate,
            Option::None => true,
        }
        &&& self.state_vibrato.wf()
        &&& self.state_vibrato.period_helper == self.period_helper
        &&& self.envelope_volume.wf()
        &&& self.envelope_panning.wf()
        &&& 0 <= self.volume_fadeout <= ONE
        &&& 0 <= self.volume <= ONE
        &&& 0 <= self.volume_orig <= ONE
        &&& 0 <= self.panning <= ONE
    }

    /// The playing sample's state describes a sample of this instrument.
    pub open spec fn matches(self, instr: InstrDefault) -> bool {
        match self.state_sample {
            Option::Some(ss) => self.sample_num < instr.sample@.len() && ss.matches(
                instr.sample@[self.sample_num as int],
            ),
            Option::None => true,
        }
    }

    pub fn new(instr: &InstrDefault, num: usize, period_helper: PeriodHelper, rate: u32) -> (r:
        Self)
        requires
            instr.wf(),
            rate >= 1,
        ensures
            r.wf(),
            r.matches(*instr),
            r.num == num,
            r.rate == rate,
            r.period_helper == period_helper,
            r.state_sample is None,
            r.sustained,
            r.volume_fadeout == ONE,
            r.volume == ONE,
            r.volume_orig == ONE,
            r.panning == 32768,
    {
        Self {
            num,
            rate,
            period_helper,
            state_sample: Option::None,
            sample_num: 0,
            state_vibrato: StateAutoVibrato::new(&instr.vibrato, period_helper),
            envelope_volume: StateEnvelope::new(ONE),
            envelope_panning: StateEnvelope::new(32768),
            sustained: true,
            volume_fadeout: ONE,
            volume: ONE,
            volume_orig: ONE,
            panning: 32768,
        }
    }

    pub fn has_volume_envelope(&self, instr: &InstrDefault) -> (r: bool)
        ensures
            r == instr.volume_envelope.enabled,
    {
        instr.volume_envelope.enabled
    }

    /// Point this state at another instrument slot, keeping the voice
    /// running. The playing sample is kept only while the new bank has
    /// a sample of the same shape at its index; otherwise it is
    /// dropped, which silences the voice until the next note.
    pub fn replace_instr(&mut self, instr: &InstrDefault, num: usize)
        requires
            old(self).wf(),
            instr.wf(),
        ensures
            final(self).wf(),
            final(self).matches(*instr),
            final(self).num == num,
            final(self).rate == old(self).rate,
            final(self).period_helper == old(self).period_helper,
            final(self).volume == old(self).volume,
            final(self).panning == old(self).panning,
            final(self).sustained == old(self).sustained,
    {
        self.num = num;
        let keep: bool = match &self.state_sample {
            Option::Some(ss) => {
                if self.sample_num < instr.sample.len() {
                    let s: &Sample = &instr.sample[self.sample_num];
                    ss.len == s.pcm.len() && ss.loop_start == s.loop_start && ss.loop_length
                        == s.loop_length && ss.loop_type == s.loop_type
                } else {
                    false
                }
            },
            Option::None => true,
        };
        if !keep {
            self.state_sample = Option::None;
        }
    }

    pub fn is_enabled(&self) -> (r: bool)
        ensures
            r == match self.state_sample {
                Option::Some(ss) => ss.enabled,
                Option::None => false,
            },
    {
        match &self.state_sample {
            Option::Some(s) => s.is_enabled(),
            Option::None => false,
        }
    }

    /// Rewind the playing sample to its start.
    pub fn sample_reset(&mut self)
        requires
            old(self).wf(),
        ensures
            final(self).wf(),
            final(self).num == old(self).num,
            final(self).sample_num == old(self).sample_num,
            final(self).rate == old(self).rate,
            final(self).period_helper == old(self).period_helper,
            final(self).volume == old(self).volume,
            final(self).volume_orig == old(self).volume_orig,
            final(self).panning == old(self).panning,
            final(self).sustained == old(self).sustained,
            final(self).volume_fadeout == old(self).volume_fadeout,
            match (old(self).state_sample, final(self).state_sample) {
                (Option::Some(o), Option::Some(n)) => n == (crate::state_sample::StateSample {
                    position: 0,
                    enabled: o.len > 0,
                    ping: true,
                    ..o
                }),
                (Option::None, Option::None) => true,
                _ => false,
            },
    {
        match &mut self.state_sample {
            Option::Some(s) => s.reset(),
            Option::None => {},
        }
    }

    /// Restart both envelopes and the sustain.
    pub fn envelopes_reset(&mut self)
        requires
            old(self).wf(),
        ensures
            final(self).wf(),
            final(self).sustained,
            final(self).volume_fadeout == ONE,
            final(self).envelope_volume.counter == 0,
            final(self).envelope_panning.counter == 0,
            final(self).state_sample == old(self).state_sample,
            final(self).num == old(self).num,
            final(self).sample_num == old(self).sample_num,
            final(self).rate == old(self).rate,
            final(self).period_helper == old(self).period_helper,
            final(self).volume == old(self).volume,
            final(self).volume_orig == old(self).volume_orig,
            final(self).panning == old(self).panning,
    {
        self.sustained = true;
        self.volume_fadeout = ONE;
        self.envelope_volume.reset();
        self.envelope_panning.reset();
    }

    /// Restore the sample's default volume and a fresh fadeout.
    pub fn volume_reset(&mut self)
        requires
            old(self).wf(),
        ensures
            final(self).wf(),
            final(self).volume == old(self).volume_orig,
            final(self).volume_orig == old(self).volume_orig,
            final(self).volume_fadeout == ONE,
            final(self).sustained,
            final(self).state_sample == old(self).state_sample,
            final(self).num == old(self).num,
            final(self).sample_num == old(self).sample_num,
            final(self).rate == old(self).rate,
            final(self).period_helper == old(self).period_helper,
            final(self).panning == old(self).panning,
    {
        self.volume = self.volume_orig;
        self.volume_fadeout = ONE;
        self.sustained = true;
    }

    pub fn vibrato_reset(&mut self, instr: &InstrDefault)
        requires
            old(self).wf(),
            instr.wf(),
        ensures
            final(self).wf(),
            final(self).state_sample == old(self).state_sample,
            final(self).num == old(self).num,
            final(self).sample_num == old(self).sample_num,
            final(self).rate == old(self).rate,
            final(self).period_helper == old(self).period_helper,
            final(self).volume == old(self).volume,
            final(self).volume_orig == old(self).volume_orig,
            final(self).panning == old(self).panning,
            final(self).sustained == old(self).sustained,
            final(self).volume_fadeout == old(self).volume_fadeout,
            final(self).state_vibrato.phase == 0,
            final(self).state_vibrato.period_offset == 0,
            final(self).state_vibrato.amp == if instr.vibrato.sweep >= 1 {
                0int
            } else {
                instr.vibrato.depth as int
            },
    {
        self.state_vibrato.reset(&instr.vibrato);
    }

    /// Silence the voice at once.
    pub fn cut_note(&mut self)
        requires
            old(self).wf(),
        ensures
            final(self).wf(),
            *final(self) == (StateInstrDefault { volume: 0, ..*old(self) }),
    {
        self.volume = 0;
    }

    /// Release the note: clear the sustain; with no volume envelope and
    /// no fadeout the voice is cut at once.
    pub fn key_off(&mut self, instr: &InstrDefault)
        requires
            old(self).wf(),
            instr.wf(),
        ensures
            final(self).wf(),
            !final(self).sustained,
            final(self).volume == if !instr.volume_envelope.enabled && instr.volume_fadeout == 0 {
                0int
            } else {
                old(self).volume as int
            },
            final(self).state_sample == old(self).state_sample,
            final(self).num == old(self).num,
            final(self).sample_num == old(self).sample_num,
            final(self).rate == old(self).rate,
            final(self).period_helper == old(self).period_helper,
            final(self).panning == old(self).panning,
    {
        self.sustained = false;
        if !instr.volume_envelope.enabled {
            if instr.volume_fadeout == 0 {
                self.cut_note();
            }
        }
    }

    /// The volume this instrument contributes: fadeout times envelope
    /// times voice volume.
    pub fn get_volume(&self) -> (r: i64)
        requires
            self.wf(),
        ensures
            r == instr_volume_spec(
                self.volume_fadeout as int,
                self.envelope_volume.value as int,
                self.volume as int,
            ),
            0 <= r <= ONE,
    {
        let a: i64 = mul_fp(self.volume_fadeout, self.envelope_volume.value);
        proof {
            crate::fixed::lemma_tdiv_nonneg(self.volume_fadeout as int * self.envelope_volume.value
                as int, 65536);
            assert(self.volume_fadeout as int * self.envelope_volume.value as int <= 65536
                * 65536) by (nonlinear_arith)
                requires
                    0 <= self.volume_fadeout <= 65536,
                    0 <= self.envelope_volume.value <= 65536,
            ;
            crate::fixed::lemma_fq_magnitude(
                self.volume_fadeout as int * self.envelope_volume.value as int,
                65536,
            );
        }
        let b: i64 = mul_fp(a, self.volume);
        proof {
            crate::fixed::lemma_tdiv_nonneg(a as int * self.volume as int, 65536);
            assert(a as int * self.volume as int <= 65536 * 65536) by (nonlinear_arith)
                requires
                    0 <= a <= 65536,
                    0 <= self.volume <= 65536,
            ;
            crate::fixed::lemma_fq_magnitude(a as int * self.volume as int, 65536);
        }
        b
    }

    /// The playing sample's note offset, Q16.16 semitones.
    pub fn get_finetuned_note(&self) -> (r: i64)
        requires
            self.wf(),
        ensures
            -97 * 65536 <= r <= 97 * 65536,
            r == match self.state_sample {
                Option::Some(ss) => if ss.enabled {
                    ss.relative_note * 65536 + ss.finetune
                } else {
                    0int
                },
                Option::None => 0int,
            },
    {
        match &self.state_sample {
            Option::Some(s) => {
                if s.is_enabled() {
                    s.get_finetuned_note()
                } else {
                    0
                }
            },
            _ => 0,
        }
    }

    pub fn get_finetune(&self) -> (r: i64)
        requires
            self.wf(),
        ensures
            r == match self.state_sample {
                Option::Some(ss) => if ss.enabled {
                    ss.finetune as int
                } else {
                    0int
                },
                Option::None => 0int,
            },
    {
        match &self.state_sample {
            Option::Some(s) => {
                if s.is_enabled() {
                    s.get_finetune()
                } else {
                    0
                }
            },
            _ => 0,
        }
    }

    pub fn set_finetune(&mut self, finetune: i64)
        requires
            old(self).wf(),
            -ONE <= finetune <= ONE,
        ensures
            final(self).wf(),
            final(self).num == old(self).num,
            final(self).sample_num == old(self).sample_num,
            final(self).rate == old(self).rate,
            final(self).period_helper == old(self).period_helper,
            final(self).volume == old(self).volume,
            final(self).panning == old(self).panning,
            match (old(self).state_sample, final(self).state_sample) {
                (Option::Some(o), Option::Some(n)) => (n == (crate::state_sample::StateSample {
                    finetune: if o.enabled {
                        finetune
                    } else {
                        o.finetune
                    },
                    ..o
                })),
                (Option::None, Option::None) => true,
                _ => false,
            },
    {
        match &mut self.state_sample {
            Option::Some(s) => {
                if s.is_enabled() {
                    s.set_finetune(finetune);
                }
            },
            _ => {},
        }
    }

    /// Push the playing frequency of a period (after arpeggio, the
    /// waveform offsets and the auto-vibrato) to the sample's step.
    pub fn update_frequency(&mut self, period: i64, arp_note: i64, period_offset: i64, semitone:
        bool)
        requires
            old(self).wf(),
            0 <= period <= PERIOD_MAX,
            -16 * 65536 <= arp_note <= 16 * 65536,
            -16 * 65536 <= period_offset <= 16 * 65536,
        ensures
            final(self).wf(),
            final(self).num == old(self).num,
            final(self).sample_num == old(self).sample_num,
            final(self).rate == old(self).rate,
            final(self).period_helper == old(self).period_helper,
            final(self).volume == old(self).volume,
            final(self).panning == old(self).panning,
            final(self).sustained == old(self).sustained,
            final(self).volume_fadeout == old(self).volume_fadeout,
            final(self).envelope_volume == old(self).envelope_volume,
            final(self).envelope_panning == old(self).envelope_panning,
            match (old(self).state_sample, final(self).state_sample) {
                (Option::Some(o), Option::Some(n)) => (n == (crate::state_sample::StateSample {
                    step: n.step,
                    ..o
                })) && n.step == crate::fixed::tdiv(
                    crate::period_helper::period_to_frequency_spec(
                        old(self).period_helper.freq_type,
                        crate::fixed::clamp_max_spec(
                            crate::fixed::clamp_min_spec(
                                crate::period_helper::adjust_period_spec(
                                    old(self).period_helper.freq_type,
                                    old(self).period_helper.historical,
                                    crate::fixed::clamp_min_spec(period as int, ONE as int),
                                    arp_note as int,
                                    0,
                                    semitone,
                                ) + period_offset + old(self).state_vibrato.period_offset,
                                ONE as int,
                            ),
                            PERIOD_MAX as int,
                        ),
                    ),
                    o.rate as int,
                ),
                (Option::None, Option::None) => true,
                _ => false,
            },
    {
        let p: i64 = clamp_min(period, ONE);
        let offset: i64 = period_offset + self.state_vibrato.period_offset;
        let frequency: i64 = self.period_helper.frequency(p, arp_note, offset, semitone);
        match &mut self.state_sample {
            Option::Some(s) => {
                s.set_step(frequency);
            },
            Option::None => {},
        }
    }

    /// Pick the sample mapped to a keyed note and start its state.
    pub fn set_note(&mut self, instr: &InstrDefault, note: Note) -> (r: bool)
        requires
            old(self).wf(),
            old(self).matches(*instr),
            instr.wf(),
        ensures
            final(self).wf(),
            final(self).matches(*instr),
            final(self).num == old(self).num,
            final(self).rate == old(self).rate,
            final(self).period_helper == old(self).period_helper,
            r == (note.is_valid_spec() && instr.sample_for_note@[note.value_spec() - 1] < instr.sample@.len()),
            !note.is_valid_spec() ==> *final(self) == *old(self),
            r ==> ({
                let num = instr.sample_for_note@[note.value_spec() - 1] as int;
                let sample = instr.sample@[num];
                &&& final(self).sample_num == num
                &&& final(self).volume == sample.volume
                &&& final(self).panning == sample.panning
                &&& final(self).volume_orig == sample.volume
                &&& final(self).state_sample == Option::Some(
                    (crate::state_sample::StateSample {
                        len: sample.pcm@.len() as usize,
                        loop_type: sample.loop_type,
                        loop_start: sample.loop_start,
                        loop_length: sample.loop_length,
                        volume: sample.volume,
                        panning: sample.panning,
                        relative_note: sample.relative_note,
                        finetune: sample.finetune,
                        position: 0,
                        enabled: sample.pcm@.len() > 0,
                        step: 0,
                        ping: true,
                        rate: old(self).rate,
                    }),
                )
            }),
            note.is_valid_spec() && !r ==> final(self).state_sample is None
                && final(self).panning == 32768 && final(self).volume == 0,
    {
        if note.is_valid() {
            let num: usize = instr.sample_for_note[(note.value() - 1) as usize] as usize;
            self.select_sample(instr, num)
        } else {
            false
        }
    }

    /// Bind a sample slot: on success the voice takes the sample's
    /// default volume and panning; out of range the voice is silenced.
    pub fn select_sample(&mut self, instr: &InstrDefault, num: usize) -> (r: bool)
        requires
            old(self).wf(),
            instr.wf(),
        ensures
            final(self).wf(),
            final(self).matches(*instr),
            final(self).num == old(self).num,
            final(self).rate == old(self).rate,
            final(self).period_helper == old(self).period_helper,
            r == (num < instr.sample@.len()),
            r ==> final(self).volume == instr.sample@[num as int].volume
                && final(self).panning == instr.sample@[num as int].panning
                && final(self).volume_orig == final(self).volume && final(self).sample_num
                == num,
            r ==> final(self).state_sample == Option::Some(
                (crate::state_sample::StateSample {
                    len: instr.sample@[num as int].pcm@.len() as usize,
                    loop_type: instr.sample@[num as int].loop_type,
                    loop_start: instr.sample@[num as int].loop_start,
                    loop_length: instr.sample@[num as int].loop_length,
                    volume: instr.sample@[num as int].volume,
                    panning: instr.sample@[num as int].panning,
                    relative_note: instr.sample@[num as int].relative_note,
                    finetune: instr.sample@[num as int].finetune,
                    position: 0,
                    enabled: instr.sample@[num as int].pcm@.len() > 0,
                    step: 0,
                    ping: true,
                    rate: old(self).rate,
                }),
            ),
            !r ==> final(self).state_sample is None && final(self).panning == 32768
                && final(self).volume == 0,
    {
        if num < instr.sample.len() {
            let sample: &Sample = &instr.sample[num];
            let state_sample: StateSample = StateSample::new(sample, self.rate);
            self.panning = state_sample.get_panning();
            self.volume = state_sample.get_volume();
            self.volume_orig = self.volume;
            self.state_sample = Option::Some(state_sample);
            self.sample_num = num;
            true
        } else {
            self.state_sample = Option::None;
            self.panning = 32768;
            self.volume = 0;
            false
        }
    }

    /// One tick: run the fadeout while released, advance the enabled
    /// envelopes and the auto-vibrato.
    pub fn tick(&mut self, instr: &InstrDefault)
        requires
            old(self).wf(),
            instr.wf(),
        ensures
            final(self).wf(),
            final(self).num == old(self).num,
            final(self).sample_num == old(self).sample_num,
            final(self).state_sample == old(self).state_sample,
            final(self).rate == old(self).rate,
            final(self).period_helper == old(self).period_helper,
            final(self).envelope_panning.default_value == old(self).envelope_panning.default_value,
            final(self).volume == old(self).volume,
            final(self).panning == old(self).panning,
            final(self).sustained == old(self).sustained,
            final(self).volume_fadeout == if !old(self).sustained {
                clamp_min_spec(old(self).volume_fadeout - instr.volume_fadeout, 0)
            } else {
                old(self).volume_fadeout as int
            },
            final(self).envelope_volume == if instr.volume_envelope.enabled {
                crate::state_envelope::env_tick_spec(
                    old(self).envelope_volume,
                    instr.volume_envelope,
                    old(self).sustained,
                )
            } else {
                old(self).envelope_volume
            },
            final(self).envelope_panning == if instr.panning_envelope.enabled {
                crate::state_envelope::env_tick_spec(
                    old(self).envelope_panning,
                    instr.panning_envelope,
                    old(self).sustained,
                )
            } else {
                old(self).envelope_panning
            },
            final(self).state_vibrato.phase == (old(self).state_vibrato.phase + instr.vibrato.speed)
                % 65536,
            final(self).state_vibrato.amp == crate::state_auto_vibrato::auto_amp_next_spec(
                instr.vibrato,
                old(self).state_vibrato.amp as int,
                old(self).sustained,
            ),
    {
        if !self.sustained {
            self.volume_fadeout = clamp_min(self.volume_fadeout - instr.volume_fadeout, 0);
        }
        if instr.volume_envelope.enabled {
            self.envelope_volume.tick(&instr.volume_envelope, self.sustained);
        }
        if instr.panning_envelope.enabled {
            self.envelope_panning.tick(&instr.panning_envelope, self.sustained);
        }
        self.state_vibrato.tick(&instr.vibrato, self.sustained);
    }

    /// One interpolated output frame from the playing sample.
    pub fn next(&mut self, instr: &InstrDefault) -> (r: Option<i64>)
        requires
            old(self).wf(),
            old(self).matches(*instr),
            instr.wf(),
        ensures
            final(self).wf(),
            final(self).matches(*instr),
            final(self).num == old(self).num,
            final(self).sample_num == old(self).sample_num,
            final(self).rate == old(self).rate,
            final(self).period_helper == old(self).period_helper,
            final(self).volume == old(self).volume,
            final(self).panning == old(self).panning,
            final(self).sustained == old(self).sustained,
            final(self).volume_fadeout == old(self).volume_fadeout,
            final(self).envelope_volume == old(self).envelope_volume,
            final(self).envelope_panning == old(self).envelope_panning,
            (match (r, instr_frame_spec(*old(self), *instr)) {
                (Option::Some(v), Option::Some(sp)) => v == sp,
                (Option::None, Option::None) => true,
                _ => false,
            }),
            match r {
                Option::Some(v) => -ONE <= v <= ONE,
                Option::None => true,
            },
    {
        let enabled: bool = self.is_enabled();
        if enabled {
            match &mut self.state_sample {
                Option::Some(s) => s.next(&instr.sample[self.sample_num]),
                Option::None => Option::None,
            }
        } else {
            Option::None
        }
    }
}

} // verus!
