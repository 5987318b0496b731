//! Evaluation of a piecewise-linear envelope against a tick counter,
//! with an optional loop over a span of points and an optional sustain
//! point at which the counter freezes until key-off.

use vstd::prelude::*;
use crate::fixed::{ONE, lerp_spec, clamp_min_spec, clamp_max_spec, lerp_fp, clamp_min, clamp_max};
use crate::module::{Envelope, EnvelopePoint};

verus! {

/// Cap on the envelope tick counter; far beyond any playable frame,
/// and keeping every counter computation comfortably in range.
pub const ENV_COUNTER_CAP: u32 = 0x1000_0000;

/// Interpolate between two envelope points at a counter, the fraction
/// clamped into the segment.
pub open spec fn env_lerp_spec(p0: EnvelopePoint, p1: EnvelopePoint, counter: int) -> int {
    let t = clamp_max_spec(
        clamp_min_spec(crate::fixed::tdiv((counter - p0.frame) * 65536, p1.frame - p0.frame), 0),
        65536,
    );
    lerp_spec(p0.value as int, p1.value as int, t)
}

/// The value the point scan produces: walking the segments in order,
/// the first one whose right end reaches the counter decides; past the
/// last point the previous value stands.
pub open spec fn env_scan_spec(points: Seq<EnvelopePoint>, counter: int, i: int, cur: int) -> int
    decreases points.len() - i,
{
    if i >= points.len() || i < 1 {
        cur
    } else {
        let prev = points[i - 1];
        let currp = points[i];
        if counter == prev.frame {
            prev.value as int
        } else if prev.frame >= currp.frame {
            prev.value as int
        } else if counter <= currp.frame {
            env_lerp_spec(prev, currp, counter)
        } else {
            env_scan_spec(points, counter, i + 1, cur)
        }
    }
}

/// The counter after the loop wrap: reaching the loop end point's frame
/// sends it back by the loop span.
pub open spec fn env_wrap_spec(env: Envelope, counter: int) -> int {
    if env.loop_enabled {
        let ls = env.point@[env.loop_start_point as int].frame as int;
        let le = env.point@[env.loop_end_point as int].frame as int;
        if le >= ls && counter >= le {
            counter - (le - ls)
        } else {
            counter
        }
    } else {
        counter
    }
}

/// Whether the counter holds still this tick: a sustained note sitting
/// exactly on the sustain point's frame.
pub open spec fn env_held_spec(env: Envelope, counter: int, sustained: bool) -> bool {
    sustained && env.sustain_enabled && counter == env.point@[env.sustain_point as int].frame
}

/// The whole envelope state after one tick: with no points the value
/// drops to zero; with one point that point decides; otherwise the
/// counter wraps through the loop, the segment scan yields the value,
/// and the counter advances unless the sustain point holds it.
pub open spec fn env_tick_spec(st: StateEnvelope, env: Envelope, sustained: bool) -> StateEnvelope {
    if env.point@.len() == 0 {
        StateEnvelope { value: 0, ..st }
    } else if env.point@.len() == 1 {
        StateEnvelope { value: env.point@[0].value, ..st }
    } else {
        let wrapped = env_wrap_spec(env, st.counter as int);
        let value = env_scan_spec(env.point@, wrapped, 1, st.value as int);
        let counter = if env_held_spec(env, wrapped, sustained) || wrapped >= ENV_COUNTER_CAP {
            wrapped
        } else {
            wrapped + 1
        };
        StateEnvelope { value: value as i64, counter: counter as u32, ..st }
    }
}

#[derive(Clone, Copy, Debug)]
pub struct StateEnvelope {
    /// The value before the first tick and after a reset.
    pub default_value: i64,
    /// Last evaluated value, Q16.16 in [0, 1].
    pub value: i64,
    /// Ticks since the note was triggered.
    pub counter: u32,
}

impl StateEnvelope {
    pub open spec fn wf(self) -> bool {
        &&& 0 <= self.default_value <= ONE
        &&& 0 <= self.value <= ONE
        &&& self.counter <= ENV_COUNTER_CAP
    }

    pub fn new(default_value: i64) -> (r: Self)
        requires
            0 <= default_value <= ONE,
        ensures
            r.wf(),
            r.default_value == default_value,
            r.value == default_value,
            r.counter == 0,
    {
        Self { default_value, value: default_value, counter: 0 }
    }

    pub fn reset(&mut self)
        requires
            old(self).wf(),
        ensures
            final(self).wf(),
            final(self).default_value == old(self).default_value,
            final(self).value == old(self).default_value,
            final(self).counter == 0,
    {
        self.value = self.default_value;
        self.counter = 0;
    }

    /// Jump the counter, as the set-envelope-position effect does.
    pub fn set_counter(&mut self, counter: u32)
        requires
            old(self).wf(),
            counter <= ENV_COUNTER_CAP,
        ensures
            final(self).wf(),
            final(self).default_value == old(self).default_value,
            final(self).value == old(self).value,
            final(self).counter == counter,
    {
        self.counter = counter;
    }

    /// One tick: with no points the value drops to zero; with one point
    /// that point decides; otherwise wrap the counter through the loop,
    /// scan the segments, and advance the counter unless the sustain
    /// point holds it.
    pub fn tick(&mut self, env: &Envelope, sustained: bool)
        requires
            old(self).wf(),
            env.wf(),
        ensures
            final(self).wf(),
            *final(self) == env_tick_spec(*old(self), *env, sustained),
            final(self).default_value == old(self).default_value,
            env.point@.len() == 0 ==> final(self).value == 0 && final(self).counter
                == old(self).counter,
            env.point@.len() == 1 ==> final(self).value == env.point@[0].value
                && final(self).counter == old(self).counter,
            env.point@.len() >= 2 ==> ({
                let wrapped = env_wrap_spec(*env, old(self).counter as int);
                &&& final(self).value == env_scan_spec(
                    env.point@,
                    wrapped,
                    1,
                    old(self).value as int,
                )
                &&& final(self).counter == (if env_held_spec(*env, wrapped, sustained) || wrapped
                    >= ENV_COUNTER_CAP || wrapped < 0 {
                    wrapped
                } else {
                    wrapped + 1
                })
            }),
    {
        let num_points: usize = env.point.len();
        if num_points == 0 {
            self.value = 0;
            return ;
        }
        if num_points == 1 {
            self.value = env.point[0].value;
            return ;
        }
        if env.loop_enabled {
            let ls: u32 = env.point[env.loop_start_point as usize].frame;
            let le: u32 = env.point[env.loop_end_point as usize].frame;
            if le >= ls && self.counter >= le {
                self.counter = self.counter - (le - ls);
            }
        }
        let ghost wrapped: int = self.counter as int;
        let mut i: usize = 1;
        let mut done: bool = false;
        while i < num_points && !done
            invariant
                1 <= i <= num_points,
                num_points == env.point@.len(),
                env.wf(),
                old(self).wf(),
                self.default_value == old(self).default_value,
                0 <= self.value <= ONE,
                self.counter == wrapped,
                0 <= wrapped <= ENV_COUNTER_CAP,
                !done ==> env_scan_spec(env.point@, wrapped, 1, old(self).value as int)
                    == env_scan_spec(env.point@, wrapped, i as int, old(self).value as int),
                !done ==> self.value == old(self).value,
                done ==> self.value == env_scan_spec(
                    env.point@,
                    wrapped,
                    1,
                    old(self).value as int,
                ),
            decreases num_points - i + (if done {
                0int
            } else {
                1int
            }),
        {
            let prev: EnvelopePoint = env.point[i - 1];
            let curr: EnvelopePoint = env.point[i];
            if self.counter == prev.frame {
                self.value = prev.value;
                done = true;
            } else if prev.frame >= curr.frame {
                self.value = prev.value;
                done = true;
            } else if self.counter <= curr.frame {
                proof {
                    let d = self.counter as int - prev.frame as int;
                    assert(-0x1000_1000 * 65536 <= d * 65536 <= 0x1000_1000 * 65536)
                        by (nonlinear_arith)
                        requires
                            -0x1000_1000 <= d <= 0x1000_1000,
                    ;
                }
                let num: i64 = ((self.counter as i64) - (prev.frame as i64)) * 65536;
                let den: i64 = (curr.frame as i64) - (prev.frame as i64);
                let t: i64 = clamp_max(clamp_min(crate::fixed::div_tz(num, den), 0), 65536);
                self.value = lerp_fp(prev.value, curr.value, t);
                done = true;
            } else {
                i = i + 1;
            }
        }
        let held: bool = sustained && env.sustain_enabled && self.counter
            == env.point[env.sustain_point as usize].frame;
        if !held && self.counter < ENV_COUNTER_CAP {
            self.counter = self.counter + 1;
        }
    }
}

} // verus!
