//! Reproductions of FastTracker II quirks that the engine's historical
//! mode opts into: the tempo-dependent arpeggio tick table and the
//! discrete multi-retrigger volume table.

use vstd::prelude::*;
use crate::fixed::{ONE, tdiv, div_tz};

verus! {

#[derive(Clone, Copy, Debug)]
pub struct HistoricalHelper {
    pub tempo: u16,
}

impl HistoricalHelper {
    pub fn new(tempo: u16) -> (r: Self)
        ensures
            r.tempo == tempo,
    {
        Self { tempo }
    }

    pub fn set_tempo(&mut self, tempo: u16)
        ensures
            final(self).tempo == tempo,
    {
        self.tempo = tempo;
    }

    /// Which arpeggio offset FT2 plays on a given tick: its counter runs
    /// backwards from the tempo and overflows oddly on large tempos.
    pub open spec fn arpeggio_tick_spec(tempo: u16, tick: u8) -> u8 {
        if tempo == 0 {
            0
        } else {
            let t = (tick as int) % (tempo as int);
            let reverse_tick = tempo - t - 1;
            if 0 <= reverse_tick <= 15 {
                (reverse_tick % 3) as u8
            } else if reverse_tick == 51 || reverse_tick == 54 || reverse_tick == 60
                || reverse_tick == 63 || reverse_tick == 72 || reverse_tick == 78 || reverse_tick
                == 81 || reverse_tick == 93 || reverse_tick == 99 || reverse_tick == 105
                || reverse_tick == 108 || reverse_tick == 111 || reverse_tick == 114
                || reverse_tick == 117 || reverse_tick == 120 || reverse_tick == 123
                || reverse_tick == 126 || reverse_tick == 129 || reverse_tick == 132
                || reverse_tick == 135 || reverse_tick == 138 || reverse_tick == 141
                || reverse_tick == 144 || reverse_tick == 147 || reverse_tick == 150
                || reverse_tick == 153 || reverse_tick == 156 || reverse_tick == 159
                || reverse_tick == 165 || reverse_tick == 168 || reverse_tick == 171
                || reverse_tick == 174 || reverse_tick == 177 || reverse_tick == 180
                || reverse_tick == 183 || reverse_tick == 186 || reverse_tick == 189
                || reverse_tick == 192 || reverse_tick == 195 || reverse_tick == 198
                || reverse_tick == 201 || reverse_tick == 204 || reverse_tick == 207
                || reverse_tick == 210 || reverse_tick == 216 || reverse_tick == 219
                || reverse_tick == 222 || reverse_tick == 225 || reverse_tick == 228
                || reverse_tick == 231 || reverse_tick == 234 || reverse_tick == 237
                || reverse_tick == 240 || reverse_tick == 243 {
                0
            } else {
                2
            }
        }
    }

    /// The arpeggio offset selector for this tick. A zero tempo selects
    /// the base note rather than failing.
    pub fn arpeggio_tick(&self, tick: u8) -> (r: u8)
        ensures
            r == Self::arpeggio_tick_spec(self.tempo, tick),
            r <= 2,
    {
        if self.tempo == 0 {
            return 0;
        }
        let t: u16 = (tick as u16) % self.tempo;
        let reverse_tick: u16 = self.tempo - t - 1;
        if reverse_tick <= 15 {
            (reverse_tick % 3) as u8
        } else if reverse_tick == 51 || reverse_tick == 54 || reverse_tick == 60 || reverse_tick
            == 63 || reverse_tick == 72 || reverse_tick == 78 || reverse_tick == 81
            || reverse_tick == 93 || reverse_tick == 99 || reverse_tick == 105 || reverse_tick
            == 108 || reverse_tick == 111 || reverse_tick == 114 || reverse_tick == 117
            || reverse_tick == 120 || reverse_tick == 123 || reverse_tick == 126 || reverse_tick
            == 129 || reverse_tick == 132 || reverse_tick == 135 || reverse_tick == 138
            || reverse_tick == 141 || reverse_tick == 144 || reverse_tick == 147 || reverse_tick
            == 150 || reverse_tick == 153 || reverse_tick == 156 || reverse_tick == 159
            || reverse_tick == 165 || reverse_tick == 168 || reverse_tick == 171 || reverse_tick
            == 174 || reverse_tick == 177 || reverse_tick == 180 || reverse_tick == 183
            || reverse_tick == 186 || reverse_tick == 189 || reverse_tick == 192 || reverse_tick
            == 195 || reverse_tick == 198 || reverse_tick == 201 || reverse_tick == 204
            || reverse_tick == 207 || reverse_tick == 210 || reverse_tick == 216 || reverse_tick
            == 219 || reverse_tick == 222 || reverse_tick == 225 || reverse_tick == 228
            || reverse_tick == 231 || reverse_tick == 234 || reverse_tick == 237 || reverse_tick
            == 240 || reverse_tick == 243 {
            0
        } else {
            2
        }
    }

    /// FT2's discrete multi-retrigger volume table, on Q16.16 volumes:
    /// the high nibble of the effect selects a subtraction, a scaling or
    /// an addition.
    pub open spec fn value_historical_spec(vol: int, note_retrig_vol: int) -> int {
        let rv = tdiv(16 * note_retrig_vol, 65536);
        if rv == 0 || rv == 8 {
            vol
        } else if 1 <= rv <= 5 {
            vol - (p2u(rv) - 1) * 65536
        } else if rv == 6 {
            tdiv(vol * 2, 3)
        } else if rv == 7 {
            tdiv(vol, 2)
        } else if 9 <= rv <= 13 {
            vol + (p2u(rv) - 9) * 65536
        } else if rv == 14 {
            tdiv(vol * 3, 2)
        } else if rv == 15 {
            vol * 2
        } else {
            0
        }
    }

    pub fn value_historical_computers(vol: i64, note_retrig_vol: i64) -> (r: i64)
        requires
            0 <= vol <= ONE,
            0 <= note_retrig_vol <= ONE,
        ensures
            r == Self::value_historical_spec(vol as int, note_retrig_vol as int),
            -0x8000_0000 <= r <= 0x8000_0000,
    {
        let rv: i64 = (16 * note_retrig_vol) / 65536;
        if rv == 0 || rv == 8 {
            vol
        } else if 1 <= rv && rv <= 5 {
            vol - (pow2u(rv) - 1) * 65536
        } else if rv == 6 {
            div_tz(vol * 2, 3)
        } else if rv == 7 {
            div_tz(vol, 2)
        } else if 9 <= rv && rv <= 13 {
            vol + (pow2u(rv) - 9) * 65536
        } else if rv == 14 {
            div_tz(vol * 3, 2)
        } else if rv == 15 {
            vol * 2
        } else {
            0
        }
    }
}

/// Powers of two up to 2^15, used by the retrigger volume table.
pub open spec fn p2u(j: int) -> int
    decreases j,
{
    if j <= 0 {
        1
    } else {
        2 * p2u(j - 1)
    }
}

fn pow2u(j: i64) -> (r: i64)
    requires
        0 <= j <= 15,
    ensures
        r == p2u(j as int),
        1 <= r <= 32768,
{
    let mut r: i64 = 1;
    let mut i: i64 = 0;
    while i < j
        invariant
            0 <= i <= j <= 15,
            r == p2u(i as int),
            1 <= r <= 32768,
        decreases j - i,
    {
        proof {
            lemma_p2u_bound(i as int + 1);
        }
        r = r * 2;
        i = i + 1;
    }
    r
}

proof fn lemma_p2u_bound(j: int)
    requires
        j <= 15,
    ensures
        p2u(j) <= 32768,
{
    lemma_p2u_mono(j, 15);
    assert(p2u(15) == 32768) by {
        reveal_with_fuel(p2u, 16);
    };
}

proof fn lemma_p2u_pos(j: int)
    ensures
        p2u(j) >= 1,
    decreases j,
{
    if j > 0 {
        lemma_p2u_pos(j - 1);
    }
}

proof fn lemma_p2u_mono(a: int, b: int)
    requires
        a <= b,
    ensures
        p2u(a) <= p2u(b),
    decreases b - a,
{
    lemma_p2u_pos(a);
    if a < b {
        lemma_p2u_mono(a, b - 1);
        lemma_p2u_pos(b - 1);
    }
}

} // verus!
