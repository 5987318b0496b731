//! The instrument's automatic vibrato: a waveform-driven period offset
//! whose amplitude sweeps in over the instrument's sweep time while the
//! note is sustained.

use vstd::prelude::*;
use crate::fixed::{fmul, tdiv, clamp_max_spec, mul_fp, div_nn, div_tz, clamp_max};
use crate::curves::{sine_wave_spec, sine_wave};
use crate::module::{InstrVibrato, Waveform, FrequencyType};
use crate::period_helper::PeriodHelper;

verus! {

/// The auto-vibrato waveform at a phase in [0, 1), Q16.16 in [-1, 1]:
/// a rising sine, a square that rises first, or the two ramps.
pub open spec fn auto_wave_spec(w: Waveform, pos: int) -> int {
    match w {
        Waveform::Sine => sine_wave_spec(pos),
        Waveform::Square => if pos < 32768 {
            65536int
        } else {
            -65536int
        },
        Waveform::RampDown => 65536 - 2 * pos,
        Waveform::RampUp => 2 * pos - 65536,
    }
}

/// The amplitude after one sustained tick: ramped up by depth/sweep,
/// never past the full depth.
pub open spec fn auto_amp_next_spec(v: InstrVibrato, amp: int, sustained: bool) -> int {
    if sustained {
        let delta = if v.sweep >= 1 {
            tdiv(v.depth * 65536, v.sweep as int)
        } else {
            v.depth as int
        };
        clamp_max_spec(amp + delta, v.depth as int)
    } else {
        amp
    }
}

#[derive(Clone, Copy, Debug)]
pub struct StateAutoVibrato {
    pub period_helper: PeriodHelper,
    /// Current ramped amplitude, Q16.16, at most the instrument depth.
    pub amp: i64,
    /// Waveform phase in [0, 1), Q16.16.
    pub phase: i64,
    /// The emitted period offset, Q16.16.
    pub period_offset: i64,
}

impl StateAutoVibrato {
    pub open spec fn wf(self) -> bool {
        &&& 0 <= self.amp <= 256 * 65536
        &&& 0 <= self.phase < 65536
        &&& -256 * 65536 <= self.period_offset <= 256 * 65536
    }

    pub fn new(v: &InstrVibrato, period_helper: PeriodHelper) -> (r: Self)
        requires
            v.wf(),
        ensures
            r.wf(),
            r.period_helper == period_helper,
            r.phase == 0,
            r.period_offset == 0,
            r.amp == if v.sweep >= 1 {
                0int
            } else {
                v.depth as int
            },
    {
        let amp: i64 = if v.sweep >= 1 {
            0
        } else {
            v.depth
        };
        Self { period_helper, amp, phase: 0, period_offset: 0 }
    }

    /// Restart the sweep and the phase.
    pub fn retrig(&mut self, v: &InstrVibrato)
        requires
            old(self).wf(),
            v.wf(),
        ensures
            final(self).wf(),
            final(self).period_helper == old(self).period_helper,
            final(self).phase == 0,
            final(self).period_offset == 0,
            final(self).amp == if v.sweep >= 1 {
                0int
            } else {
                v.depth as int
            },
    {
        self.phase = 0;
        self.period_offset = 0;
        self.amp = if v.sweep >= 1 {
            0
        } else {
            v.depth
        };
    }

    pub fn reset(&mut self, v: &InstrVibrato)
        requires
            old(self).wf(),
            v.wf(),
        ensures
            final(self).wf(),
            final(self).period_helper == old(self).period_helper,
            final(self).phase == 0,
            final(self).period_offset == 0,
            final(self).amp == if v.sweep >= 1 {
                0int
            } else {
                v.depth as int
            },
    {
        self.retrig(v);
    }

    /// One tick: ramp the amplitude while sustained, advance the phase,
    /// and emit amplitude times waveform; under the Amiga tuning model
    /// the offset is a quarter of that.
    pub fn tick(&mut self, v: &InstrVibrato, sustained: bool)
        requires
            old(self).wf(),
            v.wf(),
        ensures
            final(self).wf(),
            final(self).period_helper == old(self).period_helper,
            final(self).amp == auto_amp_next_spec(*v, old(self).amp as int, sustained),
            final(self).phase == (old(self).phase + v.speed) % 65536,
            final(self).period_offset == ({
                let raw = fmul(
                    auto_amp_next_spec(*v, old(self).amp as int, sustained),
                    auto_wave_spec(v.waveform, (old(self).phase + v.speed) % 65536),
                );
                match old(self).period_helper.freq_type {
                    FrequencyType::LinearFrequencies => raw,
                    FrequencyType::AmigaFrequencies => tdiv(raw, 4),
                }
            }),
    {
        if sustained {
            let delta: i64 = if v.sweep >= 1 {
                div_nn(v.depth * 65536, v.sweep)
            } else {
                v.depth
            };
            proof {
                assert(0 <= v.depth as int * 65536 <= 0x100_0000_0000) by (nonlinear_arith)
                    requires
                        0 <= v.depth <= 256 * 65536,
                ;
            }
            let a: i64 = self.amp + delta;
            self.amp = clamp_max(a, v.depth);
        }
        self.phase = (self.phase + v.speed) % 65536;
        let wave: i64 = match v.waveform {
            Waveform::Sine => sine_wave(self.phase),
            Waveform::Square => if self.phase < 32768 {
                65536
            } else {
                -65536
            },
            Waveform::RampDown => 65536 - 2 * self.phase,
            Waveform::RampUp => 2 * self.phase - 65536,
        };
        let raw: i64 = mul_fp(self.amp, wave);
        proof {
            assert(-256 * 65536 * 65536 <= self.amp as int * wave as int <= 256 * 65536 * 65536)
                by (nonlinear_arith)
                requires
                    0 <= self.amp <= 256 * 65536,
                    -65536 <= wave <= 65536,
            ;
            crate::fixed::lemma_fq_magnitude(self.amp as int * wave as int, (256 * 65536) as int);
        }
        self.period_offset = match self.period_helper.freq_type {
            FrequencyType::LinearFrequencies => raw,
            FrequencyType::AmigaFrequencies => div_tz(raw, 4),
        };
    }
}

} // verus!
