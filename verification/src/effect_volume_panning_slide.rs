//! Volume and panning slides: a signed per-tick increment decoded from a
//! two-nibble byte where exactly one nibble may be set. The same unit
//! serves the volume column (64 steps) and the panning column (16 steps).

use vstd::prelude::*;
use crate::fixed::{ONE, clamp01_spec, clamp01};

verus! {

#[derive(Clone, Copy, Debug)]
pub struct EffectVolumePanningSlide {
    /// Signed slide per tick, Q16.16.
    pub value: i64,
}

/// What a raw byte encodes: up by the high nibble, down by the low one,
/// nothing when both are set or when the byte is zero (a zero parameter
/// re-uses the effect's memory).
pub open spec fn slide_convert_spec(rawval: u8) -> Option<int> {
    if rawval == 0 || (rawval / 16 != 0 && rawval % 16 != 0) {
        Option::None
    } else if rawval / 16 != 0 {
        Option::Some((rawval / 16) as int)
    } else {
        Option::Some(-((rawval % 16) as int))
    }
}

/// The nibble-selection step of decoding: `updown` 1 keeps only the low
/// nibble as an upward slide, 2 keeps it as a downward one, anything
/// else passes the byte through.
pub open spec fn slide_arg_spec(param: u8, updown: u8) -> u8 {
    if updown == 1 {
        ((param % 16) * 16) as u8
    } else if updown == 2 {
        (param % 16) as u8
    } else {
        param
    }
}

impl EffectVolumePanningSlide {
    pub open spec fn wf(self) -> bool {
        -ONE <= self.value <= ONE
    }

    pub fn default() -> (r: Self)
        ensures
            r.value == 0,
            r.wf(),
    {
        Self { value: 0 }
    }

    pub fn tick0(&mut self, value: i64) -> (r: i64)
        requires
            -ONE <= value <= ONE,
        ensures
            final(self).value == value,
            final(self).wf(),
            r == value,
    {
        self.value = value;
        self.value
    }

    pub fn tick(&self) -> (r: i64)
        ensures
            r == self.value,
    {
        self.value
    }

    pub fn in_progress(&self) -> (r: bool)
        ensures
            r == (self.value != 0),
    {
        self.value != 0
    }

    pub fn value(&self) -> (r: i64)
        ensures
            r == self.value,
    {
        self.value
    }

    /// The slid quantity clamped back into [0, 1].
    pub fn clamp(&self, value: i64) -> (r: i64)
        requires
            -0x8000_0000 <= value <= 0x8000_0000,
        ensures
            r == clamp01_spec(value as int),
            0 <= r <= ONE,
    {
        clamp01(value)
    }

    /// Decode the raw byte: select the nibble, refuse the illegal
    /// two-nibble form, and scale by the column's step count.
    pub fn xm_update_effect(&mut self, param: u8, updown: u8, diviser: i64)
        requires
            old(self).wf(),
            diviser == 16 || diviser == 64,
        ensures
            final(self).wf(),
            final(self).value == match slide_convert_spec(slide_arg_spec(param, updown)) {
                Option::Some(steps) => steps * (65536int / (diviser as int)),
                Option::None => old(self).value as int,
            },
    {
        let arg: u8 = if updown == 1 {
            (param % 16) * 16
        } else if updown == 2 {
            param % 16
        } else {
            param
        };
        if arg == 0 || (arg / 16 != 0 && arg % 16 != 0) {
            return ;
        }
        let steps: i64 = if arg / 16 != 0 {
            (arg / 16) as i64
        } else {
            -((arg % 16) as i64)
        };
        proof {
            assert(-65536 <= steps * (65536int / (diviser as int)) <= 65536) by (nonlinear_arith)
                requires
                    -15 <= steps <= 15,
                    diviser == 16 || diviser == 64,
            ;
        }
        self.value = steps * (65536 / diviser);
    }
}

} // verus!
