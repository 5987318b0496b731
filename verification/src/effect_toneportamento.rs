//! Tone portamento: each tick the period slides toward a goal period,
//! derived from the target note, without ever overshooting.

use vstd::prelude::*;
use crate::fixed::{ONE, slide_towards_spec, slide_towards};
use crate::period_helper::{PeriodHelper, PERIOD_MAX, NOTE_MAX, note_to_period_spec};
use crate::module::FrequencyType;

verus! {

/// Largest tone-portamento speed an effect byte can encode: 255 * 16 * 4
/// semitone sixteenths, Q16.16.
pub const TONE_PORTA_SPEED_MAX: i64 = 0x3FC0_0000_0;

#[derive(Clone, Copy, Debug)]
pub struct EffectTonePortamento {
    pub period_helper: PeriodHelper,
    /// Period units moved per tick, Q16.16.
    pub speed: i64,
    /// The period to slide toward; 0 while no target was set.
    pub goal: i64,
}

impl EffectTonePortamento {
    pub open spec fn wf(self) -> bool {
        &&& 0 <= self.speed <= TONE_PORTA_SPEED_MAX
        &&& self.goal == 0 || ONE <= self.goal <= PERIOD_MAX
    }

    pub fn new(period_helper: PeriodHelper) -> (r: Self)
        ensures
            r.period_helper == period_helper,
            r.speed == 0,
            r.goal == 0,
            r.wf(),
    {
        Self { period_helper, speed: 0, goal: 0 }
    }

    pub fn in_progress(&self) -> (r: bool)
        ensures
            r == (self.speed != 0),
    {
        self.speed != 0
    }

    pub fn value(&self) -> (r: i64)
        ensures
            r == self.speed,
    {
        self.speed
    }

    /// The period after one slide step: unchanged while no goal is set,
    /// otherwise moved toward the goal by at most `speed`.
    pub fn clamp(&self, period: i64) -> (r: i64)
        requires
            self.wf(),
            1 <= period <= PERIOD_MAX,
        ensures
            r == if self.goal == 0 {
                period as int
            } else {
                slide_towards_spec(period as int, self.goal as int, self.speed as int)
            },
            1 <= r <= PERIOD_MAX,
    {
        if self.goal == 0 {
            return period;
        }
        slide_towards(period, self.goal, self.speed)
    }

    /// Decode the raw byte: a nonzero speed (scaled by the volume-column
    /// multiplier and the tuning model) replaces the memory; a nonzero
    /// target note sets the goal period.
    pub fn xm_update_effect(&mut self, param: u8, multiplier: u8, note: i64)
        requires
            old(self).wf(),
            0 <= note <= NOTE_MAX,
        ensures
            final(self).wf(),
            final(self).period_helper == old(self).period_helper,
            final(self).speed == if param * multiplier != 0 {
                (param * multiplier * (match old(self).period_helper.freq_type {
                    FrequencyType::LinearFrequencies => 4int,
                    FrequencyType::AmigaFrequencies => 1int,
                })) * 65536
            } else {
                old(self).speed as int
            },
            final(self).goal == if note != 0 {
                note_to_period_spec(old(self).period_helper.freq_type, note as int)
            } else {
                old(self).goal as int
            },
    {
        proof {
            assert(0 <= param as int * multiplier as int <= 65025) by (nonlinear_arith)
                requires
                    0 <= param <= 255,
                    0 <= multiplier <= 255,
            ;
        }
        let raw: i64 = (param as i64) * (multiplier as i64);
        if raw != 0 {
            let mult: i64 = match self.period_helper.freq_type {
                FrequencyType::LinearFrequencies => 4,
                FrequencyType::AmigaFrequencies => 1,
            };
            proof {
                assert(0 <= raw * mult <= 260100 && raw * mult * 65536 <= 0x3FC0_0000_0
                    && (raw * mult) * 65536 == raw as int * mult as int * 65536)
                    by (nonlinear_arith)
                    requires
                        0 <= raw <= 65025,
                        mult == 1 || mult == 4,
                ;
            }
            self.speed = raw * mult * 65536;
        }
        if note != 0 {
            self.goal = self.period_helper.note_to_period(note);
        }
    }
}

} // verus!
