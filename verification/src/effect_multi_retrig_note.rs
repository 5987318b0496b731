//! Multi retrigger: every few ticks the note restarts and its volume is
//! reshaped, by FT2's discrete table in historical mode or by a smooth
//! two-piece curve otherwise.

use vstd::prelude::*;
use crate::fixed::{ONE, fmul, clamp01_spec, mul_fp, clamp01};
use crate::historical_helper::HistoricalHelper;

verus! {

#[derive(Clone, Copy, Debug)]
pub struct MultiRetrigNote {
    /// Ticks between retriggers, whole number.
    pub note_retrig_speed: i64,
    /// Volume-change selector in [0, 1], Q16.16 (the high nibble / 16).
    pub note_retrig_vol: i64,
}

/// The smooth volume curve of the modern mode: below one half the
/// selector interpolates from pi/2 toward asin(1/2), above it the
/// factor is pi times one plus the selector.
pub open spec fn retrig_value_new_spec(vol: int, sel: int) -> int {
    if sel <= 32768 {
        fmul(vol, 102944 + fmul(sel, -68629))
    } else {
        fmul(vol, fmul(205887, 65536 + sel))
    }
}

#[derive(Clone, Copy, Debug)]
pub struct EffectMultiRetrigNote {
    pub data: MultiRetrigNote,
    pub historical: Option<HistoricalHelper>,
    /// Tick counter, cycling modulo the speed.
    pub tick: i64,
}

impl EffectMultiRetrigNote {
    pub open spec fn wf(self) -> bool {
        &&& 0 <= self.data.note_retrig_speed <= 15
        &&& 0 <= self.data.note_retrig_vol <= ONE
        &&& 0 <= self.tick <= 0xFFFF
    }

    pub fn new(historical: Option<HistoricalHelper>, speed: i64, vol: i64) -> (r: Self)
        requires
            0 <= speed <= 15,
            0 <= vol <= ONE,
        ensures
            r.wf(),
            r.historical == historical,
            r.data.note_retrig_speed == speed,
            r.data.note_retrig_vol == vol,
            r.tick == 0,
    {
        Self {
            data: MultiRetrigNote { note_retrig_speed: speed, note_retrig_vol: vol },
            historical,
            tick: 0,
        }
    }

    /// Row entry: a fresh speed always lands, a zero volume selector
    /// keeps the remembered one; the counter restarts at one.
    pub fn tick0(&mut self, note_retrig_speed: i64, note_retrig_vol: i64) -> (r: i64)
        requires
            old(self).wf(),
            0 <= note_retrig_speed <= 15,
            0 <= note_retrig_vol <= ONE,
        ensures
            final(self).wf(),
            final(self).historical == old(self).historical,
            final(self).data.note_retrig_speed == note_retrig_speed,
            final(self).data.note_retrig_vol == if note_retrig_vol != 0 {
                note_retrig_vol as int
            } else {
                old(self).data.note_retrig_vol as int
            },
            final(self).tick == 1,
            r == 0,
    {
        self.data.note_retrig_speed = note_retrig_speed;
        if note_retrig_vol != 0 {
            self.data.note_retrig_vol = note_retrig_vol;
        }
        self.tick = 1;
        0
    }

    /// One tick: advance the counter modulo the speed; a zero return
    /// marks a retrigger. A zero speed never retriggers.
    pub fn tick(&mut self) -> (r: i64)
        requires
            old(self).wf(),
        ensures
            final(self).wf(),
            final(self).historical == old(self).historical,
            final(self).data == old(self).data,
            final(self).tick == if old(self).data.note_retrig_speed >= 1 {
                (old(self).tick + 1) % (old(self).data.note_retrig_speed as int)
            } else {
                1int
            },
            r == final(self).tick,
    {
        if self.data.note_retrig_speed >= 1 {
            self.tick = (self.tick + 1) % self.data.note_retrig_speed;
        } else {
            self.tick = 1;
        }
        self.tick
    }

    pub fn in_progress(&self) -> (r: bool)
        ensures
            r == (self.data.note_retrig_speed != 0),
    {
        self.data.note_retrig_speed != 0
    }

    pub fn retrigger(&mut self) -> (r: i64)
        requires
            old(self).wf(),
        ensures
            final(self).wf(),
            final(self).historical == old(self).historical,
            final(self).data == old(self).data,
            final(self).tick == 0,
            r == 0,
    {
        self.tick = 0;
        0
    }

    /// The retriggered volume: between retriggers the volume passes
    /// through; on a retrigger tick it is reshaped by the mode's table
    /// or curve and clamped into [0, 1].
    pub fn clamp(&self, vol: i64) -> (r: i64)
        requires
            self.wf(),
            0 <= vol <= ONE,
        ensures
            r == if self.tick >= self.data.note_retrig_speed {
                vol as int
            } else if self.historical is Some {
                clamp01_spec(
                    HistoricalHelper::value_historical_spec(
                        vol as int,
                        self.data.note_retrig_vol as int,
                    ),
                )
            } else {
                clamp01_spec(retrig_value_new_spec(vol as int, self.data.note_retrig_vol as int))
            },
            0 <= r <= ONE,
    {
        if self.tick >= self.data.note_retrig_speed {
            vol
        } else {
            let v: i64 = match &self.historical {
                Option::Some(_) => {
                    HistoricalHelper::value_historical_computers(vol, self.data.note_retrig_vol)
                },
                Option::None => {
                    let sel: i64 = self.data.note_retrig_vol;
                    if sel <= 32768 {
                        mul_fp(vol, 102944 + mul_fp(sel, -68629))
                    } else {
                        mul_fp(vol, mul_fp(205887, 65536 + sel))
                    }
                },
            };
            clamp01(v)
        }
    }

    /// Decode the raw byte: low nibble speed, high nibble the volume
    /// selector in sixteenths; a zero nibble keeps its memory.
    pub fn xm_update_effect(&mut self, param: u8)
        requires
            old(self).wf(),
        ensures
            final(self).wf(),
            final(self).historical == old(self).historical,
            final(self).tick == old(self).tick,
            final(self).data.note_retrig_speed == if param % 16 != 0 {
                (param % 16) as int
            } else {
                old(self).data.note_retrig_speed as int
            },
            final(self).data.note_retrig_vol == if param / 16 != 0 {
                (param / 16) * 4096
            } else {
                old(self).data.note_retrig_vol as int
            },
    {
        if param % 16 != 0 {
            self.data.note_retrig_speed = (param % 16) as i64;
        }
        if param / 16 != 0 {
            self.data.note_retrig_vol = ((param / 16) as i64) * 4096;
        }
    }
}

} // verus!
