//! Flags naming what a note trigger preserves of the previous voice state.

use vstd::prelude::*;

verus! {

pub type TriggerKeep = u8;

pub const TRIGGER_KEEP_NONE: TriggerKeep = 0;

pub const TRIGGER_KEEP_VOLUME: TriggerKeep = 1;

pub const TRIGGER_KEEP_PERIOD: TriggerKeep = 2;

pub const TRIGGER_KEEP_SAMPLE_POSITION: TriggerKeep = 4;

pub const TRIGGER_KEEP_ENVELOPE: TriggerKeep = 8;

/// Whether `test` carries every bit of `flag`.
pub open spec fn contains_spec(test: TriggerKeep, flag: TriggerKeep) -> bool {
    (test & flag) == flag
}

pub fn contains(test: TriggerKeep, flag: TriggerKeep) -> (r: bool)
    ensures
        r == contains_spec(test, flag),
{
    (test & flag) == flag
}

} // verus!
