//! Portamento up / down: a signed period slide applied per tick (the
//! plain form) or once on row entry (the fine and extra-fine forms).
//! The slide speed is Q16.16 period units; sliding up means a lower
//! period.

use vstd::prelude::*;
use crate::fixed::{ONE, clamp_min_spec, clamp_max_spec, clamp_min, clamp_max};
use crate::period_helper::PERIOD_MAX;

verus! {

/// Largest slide a single effect byte can encode: 255 * 4 semitone
/// sixteenths, Q16.16.
pub const PORTA_SPEED_MAX: i64 = 0x3FC0_0000;

#[derive(Clone, Copy, Debug)]
pub struct EffectPortamento {
    /// Signed period change per application, Q16.16.
    pub speed: i64,
}

/// What the raw effect byte encodes: the unsigned slide magnitude, or
/// nothing when the byte reuses the effect's memory. `portype` selects
/// the plain (0), fine (1) or extra-fine (2) form; `mult` is the period
/// scale of the tuning model (4 linear, 1 Amiga) in whole units.
pub open spec fn porta_convert_spec(param: u8, portype: u8, mult: int) -> Option<int> {
    if portype == 0 {
        if param == 0 {
            Option::None
        } else {
            Option::Some(param * mult * 65536)
        }
    } else if portype == 1 {
        if param % 16 == 0 {
            Option::None
        } else {
            Option::Some((param % 16) * mult * 16384)
        }
    } else if portype == 2 {
        if param % 16 == 0 {
            Option::None
        } else {
            Option::Some((param % 16) * mult * 4096)
        }
    } else {
        Option::None
    }
}

impl EffectPortamento {
    pub open spec fn wf(self) -> bool {
        -PORTA_SPEED_MAX <= self.speed <= PORTA_SPEED_MAX
    }

    pub fn default() -> (r: Self)
        ensures
            r.speed == 0,
            r.wf(),
    {
        Self { speed: 0 }
    }

    pub fn tick0(&mut self, speed: i64) -> (r: i64)
        requires
            -PORTA_SPEED_MAX <= speed <= PORTA_SPEED_MAX,
        ensures
            final(self).speed == speed,
            final(self).wf(),
            r == speed,
    {
        self.speed = speed;
        self.speed
    }

    pub fn tick(&self) -> (r: i64)
        ensures
            r == self.speed,
    {
        self.speed
    }

    pub fn in_progress(&self) -> (r: bool)
        ensures
            r == (self.speed != 0),
    {
        self.speed != 0
    }

    pub fn value(&self) -> (r: i64)
        ensures
            r == self.speed,
    {
        self.speed
    }

    /// The period after one application of the slide: floored at one
    /// unit, and anything at or above the ceiling lands one unit below
    /// it.
    pub fn clamp(&self, period: i64) -> (r: i64)
        requires
            self.wf(),
            1 <= period <= PERIOD_MAX,
        ensures
            r == ({
                let slid = period + self.speed;
                if slid < ONE {
                    ONE as int
                } else if slid >= PERIOD_MAX {
                    PERIOD_MAX - ONE
                } else {
                    slid
                }
            }),
            ONE <= r <= PERIOD_MAX,
    {
        let slid: i64 = period + self.speed;
        if slid < ONE {
            ONE
        } else if slid >= PERIOD_MAX {
            PERIOD_MAX - ONE
        } else {
            slid
        }
    }

    /// Decode the raw byte: a zero magnitude keeps the remembered speed,
    /// a nonzero one replaces it, negated when the slide goes up.
    pub fn xm_update_effect(&mut self, param: u8, portype: u8, up: bool, mult: i64)
        requires
            old(self).wf(),
            mult == 1 || mult == 4,
        ensures
            final(self).wf(),
            final(self).speed == match porta_convert_spec(param, portype, mult as int) {
                Option::Some(p) => if up {
                    -p
                } else {
                    p
                },
                Option::None => old(self).speed as int,
            },
    {
        let magnitude: i64 = if portype == 0 {
            if param == 0 {
                return ;
            }
            (param as i64) * mult * 65536
        } else if portype == 1 {
            if param % 16 == 0 {
                return ;
            }
            ((param % 16) as i64) * mult * 16384
        } else if portype == 2 {
            if param % 16 == 0 {
                return ;
            }
            ((param % 16) as i64) * mult * 4096
        } else {
            return ;
        };
        self.speed = if up {
            -magnitude
        } else {
            magnitude
        };
    }
}

} // verus!
