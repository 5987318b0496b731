//! Arpeggio: cycles the played note between the base note and two upward
//! offsets, one per tick. The historical mode replaces the plain modulo-3
//! cycle by FT2's tempo-dependent table.

use vstd::prelude::*;
use crate::historical_helper::HistoricalHelper;

verus! {

#[derive(Clone, Copy, Debug)]
pub struct Arpeggio {
    /// First offset, Q16.16 semitones.
    pub offset1: i64,
    /// Second offset, Q16.16 semitones.
    pub offset2: i64,
}

#[derive(Clone, Copy, Debug)]
pub struct EffectArpeggio {
    pub data: Arpeggio,
    pub historical: Option<HistoricalHelper>,
    pub tick: u8,
    pub in_progress: bool,
}

/// Which offset the effect emits on a tick: 0 gives the base note.
pub open spec fn arpeggio_value_spec(e: EffectArpeggio) -> int {
    let sel = match e.historical {
        Option::Some(h) => HistoricalHelper::arpeggio_tick_spec(h.tempo, e.tick),
        Option::None => (e.tick % 3) as u8,
    };
    if sel == 1 {
        e.data.offset1 as int
    } else if sel == 2 {
        e.data.offset2 as int
    } else {
        0
    }
}

impl EffectArpeggio {
    pub open spec fn wf(self) -> bool {
        &&& 0 <= self.data.offset1 <= 15 * 65536
        &&& 0 <= self.data.offset2 <= 15 * 65536
    }

    pub fn new(historical: Option<HistoricalHelper>) -> (r: Self)
        ensures
            r.historical == historical,
            r.data.offset1 == 0,
            r.data.offset2 == 0,
            r.tick == 0,
            !r.in_progress,
            r.wf(),
    {
        Self {
            data: Arpeggio { offset1: 0, offset2: 0 },
            historical,
            tick: 0,
            in_progress: false,
        }
    }

    pub fn value(&self) -> (r: i64)
        requires
            self.wf(),
        ensures
            r == arpeggio_value_spec(*self),
            0 <= r <= 15 * 65536,
    {
        let sel: u8 = match &self.historical {
            Option::Some(h) => h.arpeggio_tick(self.tick),
            Option::None => self.tick % 3,
        };
        if sel == 1 {
            self.data.offset1
        } else if sel == 2 {
            self.data.offset2
        } else {
            0
        }
    }

    /// Restart the cycle at the base note.
    pub fn retrigger(&mut self) -> (r: i64)
        requires
            old(self).wf(),
        ensures
            final(self).wf(),
            final(self).tick == 0,
            !final(self).in_progress,
            final(self).data == old(self).data,
            final(self).historical == old(self).historical,
            r == arpeggio_value_spec(*final(self)),
    {
        self.tick = 0;
        self.in_progress = false;
        self.value()
    }

    /// Row entry with fresh offsets.
    pub fn tick0(&mut self, param1: i64, param2: i64) -> (r: i64)
        requires
            0 <= param1 <= 15 * 65536,
            0 <= param2 <= 15 * 65536,
        ensures
            final(self).wf(),
            final(self).data.offset1 == param1,
            final(self).data.offset2 == param2,
            final(self).tick == 0,
            !final(self).in_progress,
            final(self).historical == old(self).historical,
            r == arpeggio_value_spec(*final(self)),
    {
        self.data.offset1 = param1;
        self.data.offset2 = param2;
        self.retrigger()
    }

    /// One later tick: advance the cycle. The tick counter wraps at 255.
    pub fn tick(&mut self) -> (r: i64)
        requires
            old(self).wf(),
        ensures
            final(self).wf(),
            final(self).tick == (old(self).tick + 1) % 256,
            final(self).in_progress,
            final(self).data == old(self).data,
            final(self).historical == old(self).historical,
            r == arpeggio_value_spec(*final(self)),
    {
        self.in_progress = true;
        self.tick = self.tick.wrapping_add(1);
        self.value()
    }

    pub fn in_progress(&self) -> (r: bool)
        ensures
            r == self.in_progress,
    {
        self.in_progress
    }

    /// Decode the raw byte: each nibble is an offset in whole semitones.
    pub fn xm_update_effect(&mut self, param: u8)
        requires
            old(self).wf(),
        ensures
            final(self).wf(),
            final(self).historical == old(self).historical,
            param != 0 ==> final(self).data.offset1 == (param / 16) * 65536
                && final(self).data.offset2 == (param % 16) * 65536 && final(self).tick == 0
                && !final(self).in_progress,
            param == 0 ==> *final(self) == *old(self),
    {
        if param != 0 {
            let v1: i64 = ((param / 16) as i64) * 65536;
            let v2: i64 = ((param % 16) as i64) * 65536;
            self.tick0(v1, v2);
        }
    }
}

} // verus!
