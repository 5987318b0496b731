//! Note / period / frequency conversion under the two tuning models.
//! Notes, periods and frequencies are Q16.16: a semitone is 65536 note
//! units, and the linear model maps a note to `7680 - note/1024` period
//! units scaled by 65536.

use vstd::prelude::*;
use crate::fixed::{
    ONE, fmul, tdiv, clamp_min_spec, clamp_max_spec, mul_fp, div_tz, clamp_min, clamp_max,
};
use crate::curves::{exp2_spec, log2_spec, exp2_fp, log2_fp};
use crate::module::FrequencyType;

verus! {

/// Highest period the engine carries, Q16.16.
pub const PERIOD_MAX: i64 = 0x7D00_0000;

/// Highest note the engine carries, Q16.16 (128 semitones).
pub const NOTE_MAX: i64 = 0x80_0000;

/// Highest frequency the engine produces, Q16.16.
pub const FREQ_MAX: i64 = 0x80_0000_0000;

/// The linear model's period for a note: `7680*65536 - 64*note`, clamped
/// into the period range.
pub open spec fn linear_note_to_period_spec(note: int) -> int {
    clamp_max_spec(clamp_min_spec(503316480 - 64 * note, 65536), PERIOD_MAX as int)
}

/// The linear model's note for a period, floored at zero.
pub open spec fn linear_period_to_note_spec(period: int) -> int {
    clamp_max_spec(clamp_min_spec(tdiv(503316480 - period, 64), 0), NOTE_MAX as int)
}

/// The Amiga model's period for a note: `6848 * 2^(-0.0578*log2(e)*note)
/// + 0.2782`, in Q16.16 with the exponential of `curves`.
pub open spec fn amiga_note_to_period_spec(note: int) -> int {
    clamp_max_spec(
        clamp_min_spec(
            fmul(448790528, clamp_max_spec(exp2_spec(-fmul(5465, note)), 131072)) + 18232,
            65536,
        ),
        PERIOD_MAX as int,
    )
}

/// The Amiga model's note for a period: `-log2((p - 0.2782)/6848) /
/// (0.0578*log2(e))`, zero when the period is at or below the offset.
pub open spec fn amiga_period_to_note_spec(period: int) -> int {
    let x = tdiv(period - 18232, 6848);
    if x < 1 {
        0
    } else {
        clamp_max_spec(clamp_min_spec(-fmul(log2_spec(x), 785919), 0), NOTE_MAX as int)
    }
}

pub open spec fn note_to_period_spec(ft: FrequencyType, note: int) -> int {
    match ft {
        FrequencyType::LinearFrequencies => linear_note_to_period_spec(note),
        FrequencyType::AmigaFrequencies => amiga_note_to_period_spec(note),
    }
}

pub open spec fn period_to_note_spec(ft: FrequencyType, period: int) -> int {
    match ft {
        FrequencyType::LinearFrequencies => linear_period_to_note_spec(period),
        FrequencyType::AmigaFrequencies => amiga_period_to_note_spec(period),
    }
}

/// The linear model's frequency: `8363 * 2^((4608*65536 - period)/768 /
/// 65536)` in Q16.16, through the exponential of `curves`.
pub open spec fn linear_period_to_frequency_spec(period: int) -> int {
    fmul(548077568, clamp_max_spec(exp2_spec(tdiv(301989888 - period, 768)), 0x80_0000))
}

/// The Amiga model's frequency: `7093789.2 / (2 * period)` in Q16.16.
pub open spec fn amiga_period_to_frequency_spec(period: int) -> int {
    tdiv(15233796309385216, period)
}

pub open spec fn period_to_frequency_spec(ft: FrequencyType, period: int) -> int {
    match ft {
        FrequencyType::LinearFrequencies => linear_period_to_frequency_spec(period),
        FrequencyType::AmigaFrequencies => amiga_period_to_frequency_spec(period),
    }
}

/// Round a nonnegative Q16.16 note to the nearest whole semitone.
pub open spec fn round_note_spec(note: int) -> int {
    ((note + 32768) / 65536) * 65536
}

/// The period after applying an arpeggio offset and a finetune to a
/// period: recover the note, optionally snap it to a semitone, cap it
/// below B-7 in historical mode while an arpeggio runs, add the offsets
/// and convert back.
pub open spec fn adjust_period_spec(
    ft: FrequencyType,
    historical: bool,
    period: int,
    arp_note: int,
    finetune: int,
    semitone: bool,
) -> int {
    let note_orig = period_to_note_spec(ft, period);
    let note1 = if semitone {
        round_note_spec(note_orig)
    } else {
        note_orig
    };
    let note2 = if historical && arp_note != 0 && note1 + 65535 >= 6225920 {
        6225920int
    } else {
        note1
    };
    let sum = clamp_max_spec(clamp_min_spec(note2 + arp_note + finetune, 0), NOTE_MAX as int);
    note_to_period_spec(ft, sum)
}

/// Converts between notes, periods and frequencies under one tuning
/// model, with the historical quirks switched on or off.
#[derive(Clone, Copy, Debug)]
pub struct PeriodHelper {
    pub freq_type: FrequencyType,
    pub historical: bool,
}

impl PeriodHelper {
    pub fn new(freq_type: FrequencyType, historical: bool) -> (r: Self)
        ensures
            r.freq_type == freq_type,
            r.historical == historical,
    {
        Self { freq_type, historical }
    }

    /// The period of a note. The result always stays in the period range.
    pub fn note_to_period(&self, note: i64) -> (r: i64)
        requires
            0 <= note <= NOTE_MAX,
        ensures
            r == note_to_period_spec(self.freq_type, note as int),
            ONE <= r <= PERIOD_MAX,
    {
        match self.freq_type {
            FrequencyType::LinearFrequencies => {
                clamp_max(clamp_min(7680 * 65536 - 64 * note, 65536), PERIOD_MAX)
            },
            FrequencyType::AmigaFrequencies => {
                let e: i64 = -mul_fp(5465, note);
                let ex: i64 = clamp_max(exp2_fp(e), 131072);
                let p: i64 = mul_fp(6848 * 65536, ex) + 18232;
                clamp_max(clamp_min(p, 65536), PERIOD_MAX)
            },
        }
    }

    /// The note of a period, floored at zero.
    pub fn period_to_note(&self, period: i64) -> (r: i64)
        requires
            1 <= period <= PERIOD_MAX,
        ensures
            r == period_to_note_spec(self.freq_type, period as int),
            0 <= r <= NOTE_MAX,
    {
        match self.freq_type {
            FrequencyType::LinearFrequencies => {
                clamp_max(clamp_min(div_tz(7680 * 65536 - period, 64), 0), NOTE_MAX)
            },
            FrequencyType::AmigaFrequencies => {
                let x: i64 = div_tz(period - 18232, 6848);
                if x < 1 {
                    0
                } else {
                    let lg: i64 = log2_fp(x);
                    clamp_max(clamp_min(-mul_fp(lg, 785919), 0), NOTE_MAX)
                }
            },
        }
    }

    /// The frequency a period plays at, Q16.16 Hz.
    pub fn period_to_frequency(&self, period: i64) -> (r: i64)
        requires
            ONE <= period <= PERIOD_MAX,
        ensures
            r == period_to_frequency_spec(self.freq_type, period as int),
            0 <= r <= FREQ_MAX,
    {
        match self.freq_type {
            FrequencyType::LinearFrequencies => {
                let e: i64 = div_tz(4608 * 65536 - period, 768);
                let ex: i64 = clamp_max(exp2_fp(e), 0x80_0000);
                let r: i64 = mul_fp(8363 * 65536, ex);
                proof {
                    assert(0 <= 548077568 * ex <= 0x80_0000_0000 * 65536) by (nonlinear_arith)
                        requires
                            0 <= ex <= 0x80_0000,
                    ;
                    crate::fixed::lemma_fq_magnitude(548077568 * ex, FREQ_MAX as int);
                    crate::fixed::lemma_tdiv_nonneg(548077568 * ex, 65536);
                }
                r
            },
            FrequencyType::AmigaFrequencies => {
                let q: u64 = 232449284506u64 * 65536u64 / (period as u64);
                proof {
                    vstd::arithmetic::div_mod::lemma_div_is_ordered_by_denominator(
                        15233796309385216,
                        65536,
                        period as int,
                    );
                    vstd::arithmetic::div_mod::lemma_div_pos_is_pos(
                        15233796309385216,
                        period as int,
                    );
                }
                q as i64
            },
        }
    }

    /// Apply an arpeggio offset and a finetune to a period. The result
    /// always stays at or above one period unit.
    pub fn adjust_period(&self, period: i64, arp_note: i64, finetune: i64, semitone: bool) -> (r:
        i64)
        requires
            1 <= period <= PERIOD_MAX,
            -16 * 65536 <= arp_note <= 16 * 65536,
            -65536 <= finetune <= 65536,
        ensures
            r == adjust_period_spec(
                self.freq_type,
                self.historical,
                period as int,
                arp_note as int,
                finetune as int,
                semitone,
            ),
            ONE <= r <= PERIOD_MAX,
    {
        let note_orig: i64 = self.period_to_note(period);
        let note1: i64 = if semitone {
            ((note_orig + 32768) / 65536) * 65536
        } else {
            note_orig
        };
        proof {
            assert(0 <= (note_orig + 32768) / 65536 * 65536 <= note_orig + 32768)
                by (nonlinear_arith)
                requires
                    0 <= note_orig,
            ;
        }
        let note2: i64 = if self.historical && arp_note != 0 && note1 + 65535 >= 95 * 65536 {
            95 * 65536
        } else {
            note1
        };
        let sum: i64 = clamp_max(clamp_min(note2 + arp_note + finetune, 0), NOTE_MAX);
        self.note_to_period(sum)
    }

    /// The frequency of a period after arpeggio, waveform offsets and an
    /// optional semitone snap: the step pushed to a playing sample.
    pub fn frequency(&self, period: i64, arp_note: i64, period_offset: i64, semitone: bool) -> (r:
        i64)
        requires
            1 <= period <= PERIOD_MAX,
            -16 * 65536 <= arp_note <= 16 * 65536,
            -0x8000_0000 <= period_offset <= 0x8000_0000,
        ensures
            r == period_to_frequency_spec(
                self.freq_type,
                clamp_max_spec(
                    clamp_min_spec(
                        adjust_period_spec(
                            self.freq_type,
                            self.historical,
                            period as int,
                            arp_note as int,
                            0,
                            semitone,
                        ) + period_offset,
                        ONE as int,
                    ),
                    PERIOD_MAX as int,
                ),
            ),
            0 <= r <= FREQ_MAX,
    {
        let adjusted: i64 = self.adjust_period(period, arp_note, 0, semitone);
        let p: i64 = clamp_max(clamp_min(adjusted + period_offset, ONE), PERIOD_MAX);
        self.period_to_frequency(p)
    }
}

/// Converting a note to a linear-model period and back returns the note
/// exactly, for every note whose period escapes neither clamp. The
/// linear map is an exact bijection in Q16.16, not an approximation.
pub proof fn lemma_linear_note_round_trip(note: int)
    requires
        0 <= note <= 119 * 65536,
    ensures
        linear_period_to_note_spec(linear_note_to_period_spec(note)) == note,
{
    let period = linear_note_to_period_spec(note);
    assert(period == 7680 * 65536 - 64 * note);
    assert(tdiv(503316480 - period, 64) == (64 * note) / 64);
    assert((64 * note) / 64 == note) by (nonlinear_arith);
}

} // verus!
