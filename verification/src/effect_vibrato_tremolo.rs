//! Vibrato and tremolo: a periodic waveform scaled by a depth, advanced
//! by a speed each tick. The same unit modulates the period (vibrato,
//! with the tuning model's multiplier) or the volume (tremolo).

use vstd::prelude::*;
use crate::fixed::{ONE, fmul, mul_fp};
use crate::curves::{sine_wave_spec, sine_wave};
use crate::period_helper::PeriodHelper;
use crate::module::FrequencyType;

verus! {

#[derive(Clone, Copy, Debug)]
pub struct VibratoTremolo {
    /// 0 sine, 1 ramp down, anything else square.
    pub waveform: u8,
    /// Phase advance per tick, Q16.16 of a full period.
    pub speed: i64,
    /// Amplitude, Q16.16 in [0, 1].
    pub depth: i64,
}

/// The waveform sample at a phase in [0, 1), scaled by the depth:
/// an inverted sine, a ramp from 0 down through -1 and back from +1,
/// or a square.
pub open spec fn waveform_value_spec(w: VibratoTremolo, pos: int) -> int {
    let shape = if w.waveform == 0 {
        -sine_wave_spec(pos)
    } else if w.waveform == 1 {
        if pos < 32768 {
            -2 * pos
        } else {
            -2 * pos + 2 * 65536
        }
    } else {
        if pos < 32768 {
            -(65536 as int)
        } else {
            65536 as int
        }
    };
    fmul(w.depth as int, shape)
}

impl VibratoTremolo {
    pub open spec fn wf(self) -> bool {
        &&& 0 <= self.speed <= 4 * 65536
        &&& 0 <= self.depth <= ONE
    }

    pub fn default() -> (r: Self)
        ensures
            r.waveform == 0,
            r.speed == 0,
            r.depth == 0,
            r.wf(),
    {
        Self { waveform: 0, speed: 0, depth: 0 }
    }

    /// Evaluate the waveform at a phase.
    pub fn waveform(&self, pos: i64) -> (r: i64)
        requires
            self.wf(),
            0 <= pos < 65536,
        ensures
            r == waveform_value_spec(*self, pos as int),
            -ONE <= r <= ONE,
    {
        let shape: i64 = if self.waveform == 0 {
            -sine_wave(pos)
        } else if self.waveform == 1 {
            if pos < 32768 {
                -(pos + pos)
            } else {
                131072 - (pos + pos)
            }
        } else {
            if pos < 32768 {
                -65536
            } else {
                65536
            }
        };
        let r: i64 = mul_fp(self.depth, shape);
        proof {
            assert(-65536 * 65536 <= self.depth as int * shape as int <= 65536 * 65536)
                by (nonlinear_arith)
                requires
                    0 <= self.depth <= 65536,
                    -65536 <= shape <= 65536,
            ;
            crate::fixed::lemma_fq_magnitude(self.depth as int * shape as int, 65536);
        }
        r
    }
}

#[derive(Clone, Copy, Debug)]
pub struct EffectVibratoTremolo {
    pub data: VibratoTremolo,
    /// Whole-number scale of the emitted value: 8 for linear-model
    /// vibrato, 2 for Amiga vibrato, 1 for tremolo.
    pub multiplier: i64,
    pub in_progress: bool,
    /// Phase in [0, 1), Q16.16.
    pub pos: i64,
    /// Last waveform sample, Q16.16 in [-1, 1].
    pub value: i64,
}

impl EffectVibratoTremolo {
    pub open spec fn wf(self) -> bool {
        &&& self.data.wf()
        &&& self.multiplier == 1 || self.multiplier == 2 || self.multiplier == 8
        &&& 0 <= self.pos < 65536
        &&& -ONE <= self.value <= ONE
    }

    pub fn tremolo() -> (r: Self)
        ensures
            r.wf(),
            r.multiplier == 1,
            r.pos == 0,
            r.value == 0,
            !r.in_progress,
    {
        Self {
            data: VibratoTremolo::default(),
            multiplier: 1,
            in_progress: false,
            pos: 0,
            value: 0,
        }
    }

    pub fn vibrato(period_helper: &PeriodHelper) -> (r: Self)
        ensures
            r.wf(),
            r.multiplier == (match period_helper.freq_type {
                FrequencyType::LinearFrequencies => 8int,
                FrequencyType::AmigaFrequencies => 2int,
            }),
            r.pos == 0,
            r.value == 0,
            !r.in_progress,
    {
        let multiplier: i64 = match period_helper.freq_type {
            FrequencyType::LinearFrequencies => 8,
            FrequencyType::AmigaFrequencies => 2,
        };
        Self {
            data: VibratoTremolo::default(),
            multiplier,
            in_progress: false,
            pos: 0,
            value: 0,
        }
    }

    /// The emitted modulation: the waveform sample times the scale.
    pub fn value(&self) -> (r: i64)
        requires
            self.wf(),
        ensures
            r == self.value * self.multiplier,
            -8 * 65536 <= r <= 8 * 65536,
    {
        self.value * self.multiplier
    }

    pub fn in_progress(&self) -> (r: bool)
        ensures
            r == self.in_progress,
    {
        self.in_progress
    }

    /// Reset the phase and the sample.
    pub fn retrigger(&mut self) -> (r: i64)
        requires
            old(self).wf(),
        ensures
            final(self).wf(),
            final(self).data == old(self).data,
            final(self).multiplier == old(self).multiplier,
            !final(self).in_progress,
            final(self).pos == 0,
            final(self).value == 0,
            r == 0,
    {
        self.in_progress = false;
        self.pos = 0;
        self.value = 0;
        self.value
    }

    /// Row entry with fresh speed and depth.
    pub fn tick0(&mut self, param1: i64, param2: i64) -> (r: i64)
        requires
            old(self).wf(),
            0 <= param1 <= 4 * 65536,
            0 <= param2 <= ONE,
        ensures
            final(self).wf(),
            final(self).data.speed == param1,
            final(self).data.depth == param2,
            final(self).data.waveform == old(self).data.waveform,
            final(self).multiplier == old(self).multiplier,
            !final(self).in_progress,
            final(self).pos == 0,
            final(self).value == 0,
            r == 0,
    {
        self.data.speed = param1;
        self.data.depth = param2;
        self.retrigger()
    }

    /// One tick: sample the waveform at the current phase, then advance
    /// the phase modulo one period.
    pub fn tick(&mut self) -> (r: i64)
        requires
            old(self).wf(),
        ensures
            final(self).wf(),
            final(self).data == old(self).data,
            final(self).multiplier == old(self).multiplier,
            final(self).in_progress,
            final(self).value == waveform_value_spec(old(self).data, old(self).pos as int),
            final(self).pos == (old(self).pos + old(self).data.speed) % 65536,
            r == final(self).value * final(self).multiplier,
    {
        self.in_progress = true;
        self.value = self.data.waveform(self.pos);
        self.pos = (self.pos + self.data.speed) % 65536;
        self.value()
    }

    /// Decode the raw byte. From the effect column each nonzero nibble
    /// replaces its memory (high: speed in 64ths, low: depth in 16ths);
    /// from the volume column the whole byte sets the speed in 64ths.
    pub fn xm_update_effect(&mut self, param: u8, volcolumn: u8)
        requires
            old(self).wf(),
        ensures
            final(self).wf(),
            final(self).multiplier == old(self).multiplier,
            final(self).in_progress == old(self).in_progress,
            final(self).pos == old(self).pos,
            final(self).value == old(self).value,
            final(self).data.waveform == old(self).data.waveform,
            volcolumn == 0 ==> final(self).data.speed == (if param != 0 && param / 16 != 0 {
                (param / 16) * 1024
            } else {
                old(self).data.speed as int
            }),
            volcolumn == 0 ==> final(self).data.depth == (if param != 0 && param % 16 != 0 {
                (param % 16) * 4096
            } else {
                old(self).data.depth as int
            }),
            volcolumn != 0 ==> final(self).data.depth == old(self).data.depth,
            volcolumn != 0 ==> final(self).data.speed == (if param != 0 {
                param * 1024
            } else {
                old(self).data.speed as int
            }),
    {
        if volcolumn == 0 {
            if param != 0 {
                if param / 16 != 0 {
                    self.data.speed = ((param / 16) as i64) * 1024;
                }
                if param % 16 != 0 {
                    self.data.depth = ((param % 16) as i64) * 4096;
                }
            }
        } else {
            if param != 0 {
                self.data.speed = (param as i64) * 1024;
            }
        }
    }
}

} // verus!
