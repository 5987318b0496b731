//! Tremor: switches the voice off and on in a fixed cycle, on for
//! `x + 1` ticks then off for `y + 1` ticks, on every tick after the
//! first of a row.

use vstd::prelude::*;

verus! {

#[derive(Clone, Copy, Debug)]
pub struct EffectTremor {
    pub tick: u32,
    /// On-phase length minus one, from the high nibble.
    pub tick_on: u32,
    /// Off-phase length minus one, from the low nibble.
    pub tick_off: u32,
}

/// Whether the voice is muted at this point of the cycle.
pub open spec fn tremor_muted_spec(e: EffectTremor) -> bool {
    if e.tick == 0 {
        false
    } else {
        (e.tick - 1) % (e.tick_on + 1 + e.tick_off + 1) > e.tick_on
    }
}

impl EffectTremor {
    pub open spec fn wf(self) -> bool {
        &&& self.tick_on <= 15
        &&& self.tick_off <= 15
        &&& self.tick <= 0xFFFF
    }

    pub fn default() -> (r: Self)
        ensures
            r.wf(),
            r.tick == 0,
            r.tick_on == 0,
            r.tick_off == 0,
    {
        Self { tick: 0, tick_on: 0, tick_off: 0 }
    }

    /// Row entry: set the cycle lengths.
    pub fn tick0(&mut self, on: u32, off: u32) -> (r: i64)
        requires
            old(self).wf(),
            on <= 15,
            off <= 15,
        ensures
            final(self).wf(),
            final(self).tick == old(self).tick,
            final(self).tick_on == on,
            final(self).tick_off == off,
            r == 0,
    {
        self.tick_on = on;
        self.tick_off = off;
        0
    }

    /// One tick of the cycle; the counter saturates far beyond any row.
    pub fn tick(&mut self) -> (r: i64)
        requires
            old(self).wf(),
        ensures
            final(self).wf(),
            final(self).tick_on == old(self).tick_on,
            final(self).tick_off == old(self).tick_off,
            final(self).tick == if old(self).tick < 0xFFFF {
                old(self).tick + 1
            } else {
                old(self).tick as int
            },
            r == 0,
    {
        if self.tick < 0xFFFF {
            self.tick = self.tick + 1;
        }
        0
    }

    /// Whether the cycle is in its off phase.
    pub fn in_progress(&self) -> (r: bool)
        requires
            self.wf(),
        ensures
            r == tremor_muted_spec(*self),
    {
        if self.tick == 0 {
            false
        } else {
            (self.tick - 1) % (self.tick_on + 1 + self.tick_off + 1) > self.tick_on
        }
    }

    pub fn retrigger(&mut self) -> (r: i64)
        requires
            old(self).wf(),
        ensures
            final(self).wf(),
            final(self).tick == 0,
            final(self).tick_on == old(self).tick_on,
            final(self).tick_off == old(self).tick_off,
            r == 0,
    {
        self.tick = 0;
        0
    }

    pub fn value(&self) -> (r: i64)
        ensures
            r == 0,
    {
        0
    }

    /// Decode the raw byte: high nibble on-ticks, low nibble off-ticks;
    /// zero keeps the memory.
    pub fn xm_update_effect(&mut self, param: u8)
        requires
            old(self).wf(),
        ensures
            final(self).wf(),
            final(self).tick == old(self).tick,
            param != 0 ==> final(self).tick_on == param / 16 && final(self).tick_off == param
                % 16,
            param == 0 ==> *final(self) == *old(self),
    {
        if param != 0 {
            self.tick_on = (param / 16) as u32;
            self.tick_off = (param % 16) as u32;
        }
    }
}

} // verus!
