//! Playback state of one sample: a Q16.16 position advanced by a step
//! each output frame, with no loop, a forward loop or a ping-pong loop,
//! and linear interpolation between neighbouring frames.

use vstd::prelude::*;
use crate::fixed::{ONE, lerp_spec, tdiv, lerp_fp, div_nn};
use crate::module::{Sample, LoopType, MAX_SAMPLE_LEN};
use crate::period_helper::FREQ_MAX;

verus! {

/// Where a position lands after one step with no loop: past the end the
/// voice is disabled.
pub open spec fn no_loop_advance_spec(p: int, lenq: int) -> (int, bool) {
    if p < lenq {
        (p, true)
    } else {
        (p, false)
    }
}

/// Where a position lands after one step with a forward loop: past the
/// loop end it re-enters at the loop start, keeping its phase within
/// the loop length.
pub open spec fn forward_advance_spec(p: int, ls: int, le: int, ll: int) -> int {
    if p < le {
        p
    } else {
        ls + (p - le) % ll
    }
}

/// Where a position and direction land after one step with a ping-pong
/// loop: the position reflects off the loop end going forward and off
/// the loop start going backward, with a final clamp into the body.
pub open spec fn pingpong_advance_spec(
    p0: int,
    step: int,
    ping: bool,
    ls: int,
    le: int,
    ll: int,
    lenq: int,
) -> (int, bool) {
    if ping {
        let p = p0 + step;
        if p >= le {
            let pr = le - ((p - le) % ll);
            if pr >= lenq {
                (lenq - 65536, false)
            } else {
                (pr, false)
            }
        } else {
            (p, true)
        }
    } else {
        let p = p0 - step;
        if p <= ls {
            let pr = ls + ((ls - p) % ll);
            if pr >= lenq {
                (lenq - 65536, true)
            } else {
                (pr, true)
            }
        } else {
            (p, false)
        }
    }
}

/// The interpolated output at a position: the frame below it mixed with
/// its neighbour by the fractional part. The neighbour past a boundary
/// is silence (no loop), the loop start (forward), or the mirror frame
/// (ping-pong).
pub open spec fn interp_spec(
    pcm: Seq<i64>,
    pos: int,
    loop_type: LoopType,
    ping: bool,
    ls: int,
    le: int,
) -> int {
    let a = pos / 65536;
    let b = a + 1;
    let t = pos % 65536;
    match loop_type {
        LoopType::No => {
            let u = pcm[a];
            let v = if b < pcm.len() {
                pcm[b]
            } else {
                0
            };
            lerp_spec(u as int, v as int, t)
        },
        LoopType::Forward => {
            let u = pcm[a];
            let v = if b >= le {
                pcm[ls]
            } else {
                pcm[b]
            };
            lerp_spec(u as int, v as int, t)
        },
        LoopType::PingPong => {
            if ping {
                let u = pcm[a];
                let v = if b >= le {
                    pcm[a]
                } else {
                    pcm[b]
                };
                lerp_spec(u as int, v as int, t)
            } else {
                let v = pcm[a];
                let u = if b == 1 || b - 2 <= ls {
                    pcm[a]
                } else {
                    pcm[b - 2]
                };
                lerp_spec(u as int, v as int, t)
            }
        },
    }
}

#[derive(Clone, Copy, Debug)]
pub struct StateSample {
    /// Cached body length in frames.
    pub len: usize,
    pub loop_type: LoopType,
    pub loop_start: usize,
    pub loop_length: usize,
    /// The sample's default volume, Q16.16.
    pub volume: i64,
    /// The sample's default panning, Q16.16.
    pub panning: i64,
    pub relative_note: i32,
    /// Current finetune, Q16.16 semitones.
    pub finetune: i64,
    /// Playback position, Q16.16 frames; meaningful while enabled.
    pub position: i64,
    pub enabled: bool,
    /// Frames advanced per output sample, Q16.16.
    pub step: i64,
    /// Ping-pong direction: true while moving forward.
    pub ping: bool,
    /// Output sample rate, Hz.
    pub rate: u32,
}

impl StateSample {
    pub open spec fn wf(self) -> bool {
        &&& self.len <= MAX_SAMPLE_LEN
        &&& self.loop_start + self.loop_length <= self.len
        &&& !(self.loop_type is No) ==> self.loop_length >= 1
        &&& self.enabled ==> self.len >= 1
        &&& self.enabled ==> 0 <= self.position < (self.len as int) * 65536
        &&& 0 <= self.step <= FREQ_MAX
        &&& 0 <= self.volume <= ONE
        &&& 0 <= self.panning <= ONE
        &&& -96 <= self.relative_note <= 96
        &&& -ONE <= self.finetune <= ONE
        &&& self.rate >= 1
    }

    /// The cached descriptor agrees with the sample it came from, so the
    /// position invariant licenses every body access.
    pub open spec fn matches(self, s: Sample) -> bool {
        &&& self.len == s.pcm@.len()
        &&& self.loop_type == s.loop_type
        &&& self.loop_start == s.loop_start
        &&& self.loop_length == s.loop_length
    }

    pub fn new(s: &Sample, rate: u32) -> (r: Self)
        requires
            s.wf(),
            rate >= 1,
        ensures
            r.wf(),
            r.matches(*s),
            r.enabled == (s.pcm@.len() > 0),
            r.position == 0,
            r.step == 0,
            r.ping,
            r.volume == s.volume,
            r.panning == s.panning,
            r.relative_note == s.relative_note,
            r.finetune == s.finetune,
            r.rate == rate,
    {
        let len: usize = s.pcm.len();
        StateSample {
            len,
            loop_type: s.loop_type,
            loop_start: s.loop_start,
            loop_length: s.loop_length,
            volume: s.volume,
            panning: s.panning,
            relative_note: s.relative_note,
            finetune: s.finetune,
            position: 0,
            enabled: len > 0,
            step: 0,
            ping: true,
            rate,
        }
    }

    /// Rewind to the start, re-enabling a nonempty body.
    pub fn reset(&mut self)
        requires
            old(self).wf(),
        ensures
            final(self).wf(),
            *final(self) == (StateSample {
                position: 0,
                enabled: old(self).len > 0,
                ping: true,
                ..*old(self)
            }),
    {
        self.position = 0;
        self.enabled = self.len > 0;
        self.ping = true;
    }

    /// Step size from a playing frequency: `frequency / rate`.
    pub fn set_step(&mut self, frequency: i64)
        requires
            old(self).wf(),
            0 <= frequency <= FREQ_MAX,
        ensures
            final(self).wf(),
            *final(self) == (StateSample {
                step: tdiv(frequency as int, old(self).rate as int) as i64,
                ..*old(self)
            }),
    {
        self.step = div_nn(frequency, self.rate as i64);
    }

    /// Seek to a whole frame; past the end the voice is disabled.
    pub fn set_position(&mut self, position: usize)
        requires
            old(self).wf(),
        ensures
            final(self).wf(),
            position >= old(self).len ==> *final(self) == (StateSample {
                enabled: false,
                ..*old(self)
            }),
            position < old(self).len ==> *final(self) == (StateSample {
                position: (position * 65536) as i64,
                ..*old(self)
            }),
    {
        if position >= self.len {
            self.disable();
        } else {
            proof {
                assert(position * 65536 < self.len as int * 65536) by (nonlinear_arith)
                    requires
                        position < self.len,
                ;
            }
            self.position = (position as i64) * 65536;
        }
    }

    pub fn is_enabled(&self) -> (r: bool)
        ensures
            r == self.enabled,
    {
        self.enabled
    }

    pub fn disable(&mut self)
        requires
            old(self).wf(),
        ensures
            final(self).wf(),
            *final(self) == (StateSample { enabled: false, ..*old(self) }),
    {
        self.enabled = false;
    }

    pub fn get_panning(&self) -> (r: i64)
        ensures
            r == self.panning,
    {
        self.panning
    }

    pub fn get_volume(&self) -> (r: i64)
        ensures
            r == self.volume,
    {
        self.volume
    }

    /// The note offset this sample plays at: its relative note plus the
    /// finetune, Q16.16 semitones.
    pub fn get_finetuned_note(&self) -> (r: i64)
        requires
            self.wf(),
        ensures
            r == self.relative_note * 65536 + self.finetune,
            -97 * 65536 <= r <= 97 * 65536,
    {
        (self.relative_note as i64) * 65536 + self.finetune
    }

    pub fn get_finetune(&self) -> (r: i64)
        ensures
            r == self.finetune,
    {
        self.finetune
    }

    pub fn set_finetune(&mut self, finetune: i64)
        requires
            old(self).wf(),
            -ONE <= finetune <= ONE,
        ensures
            final(self).wf(),
            *final(self) == (StateSample { finetune: finetune, ..*old(self) }),
    {
        self.finetune = finetune;
    }

    /// One output frame: interpolate at the current position, then
    /// advance it under the loop discipline. While enabled the position
    /// always stays inside the body.
    pub fn next(&mut self, s: &Sample) -> (r: Option<i64>)
        requires
            old(self).wf(),
            old(self).matches(*s),
            s.wf(),
        ensures
            final(self).wf(),
            final(self).matches(*s),
            r is Some <==> old(self).enabled,
            final(self).len == old(self).len,
            final(self).step == old(self).step,
            final(self).volume == old(self).volume,
            final(self).panning == old(self).panning,
            final(self).finetune == old(self).finetune,
            final(self).relative_note == old(self).relative_note,
            final(self).rate == old(self).rate,
            match r {
                Option::Some(v) => -ONE <= v <= ONE && v == interp_spec(
                    s.pcm@,
                    old(self).position as int,
                    old(self).loop_type,
                    old(self).ping,
                    old(self).loop_start as int,
                    old(self).loop_start + old(self).loop_length,
                    ) && (match old(self).loop_type {
                    LoopType::No => ({
                        let (np, en) = no_loop_advance_spec(
                            old(self).position + old(self).step,
                            old(self).len as int * 65536,
                        );
                        final(self).position == np && final(self).enabled == en
                    }),
                    LoopType::Forward => final(self).position == forward_advance_spec(
                        old(self).position + old(self).step,
                        old(self).loop_start as int * 65536,
                        (old(self).loop_start + old(self).loop_length) * 65536,
                        old(self).loop_length as int * 65536,
                    ) && final(self).enabled,
                    LoopType::PingPong => ({
                        let (np, pg) = pingpong_advance_spec(
                            old(self).position as int,
                            old(self).step as int,
                            old(self).ping,
                            old(self).loop_start as int * 65536,
                            (old(self).loop_start + old(self).loop_length) * 65536,
                            old(self).loop_length as int * 65536,
                            old(self).len as int * 65536,
                        );
                        final(self).position == np && final(self).ping == pg
                            && final(self).enabled
                    }),
                }),
                Option::None => *final(self) == *old(self),
            },
    {
        if !self.enabled {
            return Option::None;
        }
        let ghost lenq: int = self.len as int * 65536;
        proof {
            assert(self.len as int * 65536 <= 0x1000_0000 * 65536) by (nonlinear_arith)
                requires
                    self.len <= 0x1000_0000,
            ;
        }
        let a: i64 = self.position / 65536;
        let b: i64 = a + 1;
        let t: i64 = self.position % 65536;
        proof {
            assert(0 <= self.position / 65536 < self.len as int) by (nonlinear_arith)
                requires
                    0 <= self.position < self.len as int * 65536,
            ;
        }
        let u: i64 = s.pcm[a as usize];
        let le: usize = self.loop_start + self.loop_length;
        let r: i64;
        match self.loop_type {
            LoopType::No => {
                let v: i64 = if (b as usize) < self.len {
                    s.pcm[b as usize]
                } else {
                    0
                };
                r = lerp_fp(u, v, t);
                self.position = self.position + self.step;
                if self.position >= (self.len as i64) * 65536 {
                    self.enabled = false;
                }
            },
            LoopType::Forward => {
                let v: i64 = if b as usize >= le {
                    s.pcm[self.loop_start]
                } else {
                    s.pcm[b as usize]
                };
                r = lerp_fp(u, v, t);
                self.position = self.position + self.step;
                let leq: i64 = (le as i64) * 65536;
                if self.position >= leq {
                    let llq: i64 = (self.loop_length as i64) * 65536;
                    let delta: i64 = (self.position - leq) % llq;
                    proof {
                        let dd = delta as int;
                        assert(self.loop_start as int * 65536 + dd < le as int * 65536)
                            by (nonlinear_arith)
                            requires
                                0 <= dd < self.loop_length as int * 65536,
                                le == self.loop_start + self.loop_length,
                        ;
                    }
                    self.position = (self.loop_start as i64) * 65536 + delta;
                }
                proof {
                    assert(le as int * 65536 <= self.len as int * 65536) by (nonlinear_arith)
                        requires
                            le <= self.len,
                    ;
                }
            },
            LoopType::PingPong => {
                let leq: i64 = (le as i64) * 65536;
                let llq: i64 = (self.loop_length as i64) * 65536;
                let lsq: i64 = (self.loop_start as i64) * 65536;
                let lnq: i64 = (self.len as i64) * 65536;
                proof {
                    assert(le as int * 65536 <= self.len as int * 65536 && self.loop_start as int
                        * 65536 + self.loop_length as int * 65536 == le as int * 65536)
                        by (nonlinear_arith)
                        requires
                            le <= self.len,
                            le == self.loop_start + self.loop_length,
                    ;
                }
                if self.ping {
                    let v: i64 = if b as usize >= le {
                        s.pcm[a as usize]
                    } else {
                        s.pcm[b as usize]
                    };
                    r = lerp_fp(u, v, t);
                    let p: i64 = self.position + self.step;
                    if p >= leq {
                        self.ping = false;
                        let delta: i64 = (p - leq) % llq;
                        let pr: i64 = leq - delta;
                        if pr >= lnq {
                            self.position = lnq - 65536;
                        } else {
                            self.position = pr;
                        }
                    } else {
                        self.position = p;
                    }
                } else {
                    let us: i64 = if b == 1 || ((b - 2) as usize) <= self.loop_start {
                        s.pcm[a as usize]
                    } else {
                        s.pcm[(b - 2) as usize]
                    };
                    r = lerp_fp(us, u, t);
                    let p: i64 = self.position - self.step;
                    if p <= lsq {
                        self.ping = true;
                        let delta: i64 = (lsq - p) % llq;
                        let pr: i64 = lsq + delta;
                        if pr >= lnq {
                            self.position = lnq - 65536;
                        } else {
                            self.position = pr;
                        }
                    } else {
                        self.position = p;
                    }
                }
            },
        }
        Option::Some(r)
    }
}

/// A voice that is not disabled always points inside its sample body:
/// the position is at least zero and strictly below the body length.
pub proof fn lemma_enabled_position_in_range(ss: StateSample)
    requires
        ss.wf(),
        ss.enabled,
    ensures
        0 <= ss.position < (ss.len as int) * 65536,
{
}

/// Stepping a forward loop never changes the position's phase: the
/// wrapped position is congruent to the unwrapped one modulo the loop
/// length. So after steps summing to any multiple of the loop length,
/// a voice that started at the loop start is back at it exactly.
pub proof fn lemma_forward_loop_congruence(p: int, ls: int, le: int, ll: int)
    requires
        ll >= 1,
        le == ls + ll,
        p >= 0,
        ls >= 0,
    ensures
        (forward_advance_spec(p, ls, le, ll) - p) % ll == 0,
{
    if p < le {
        assert(forward_advance_spec(p, ls, le, ll) == p);
        vstd::arithmetic::div_mod::lemma_small_mod(0, ll as nat);
    } else {
        let m = (p - le) % ll;
        let q = (p - le) / ll;
        vstd::arithmetic::div_mod::lemma_fundamental_div_mod(p - le, ll);
        assert(p - le == ll * q + m);
        let adv = ls + m;
        assert(forward_advance_spec(p, ls, le, ll) == adv);
        assert(adv - p == ls - le - ll * q);
        assert(adv - p == -ll - ll * q);
        assert(ll * (-1 - q) == -ll - ll * q) by (nonlinear_arith);
        assert((-ll - ll * q) % ll == 0) by {
            vstd::arithmetic::div_mod::lemma_mod_multiples_vanish(-1 - q, 0, ll);
            vstd::arithmetic::div_mod::lemma_small_mod(0, ll as nat);
        };
    }
}

} // verus!
