//! The player: the row and tick scheduler, global volume, tempo and
//! BPM, pattern-order navigation, loop counting and the stereo mix.

use vstd::prelude::*;
use crate::fixed::{
    ONE, fmul, tdiv, clamp01_spec, clamp_min_spec, clamp_max_spec, mul_fp, div_nn, clamp01,
    clamp_min, clamp_max,
};
use crate::module::{Module, PatternSlot, MAX_NUM_ROWS};
use crate::channel::Channel;
use crate::historical_helper::HistoricalHelper;
use crate::triggerkeep::TRIGGER_KEEP_PERIOD;

verus! {

/// Highest amplification the player accepts, Q16.16 (a gain of 256).
pub const AMP_MAX: i64 = 0x100_0000;

/// Highest output sample rate the player accepts, Hz.
pub const RATE_MAX: u32 = 0x10_0000;

/// Ceiling of the tick accumulator, Q16.16 output frames.
pub const RSIT_MAX: i64 = 0x80_0000_0000;

/// The soft-saturating master gain: `g*a / (g + a)` on Q16.16 values,
/// zero when both are zero, never above the amplification cap.
pub open spec fn master_gain_spec(gv: int, amp: int) -> int {
    let den = gv + amp;
    if den == 0 {
        0
    } else {
        clamp_max_spec(tdiv(fmul(gv, amp) * 65536, den), AMP_MAX as int)
    }
}

/// An order position wrapped past the end of the song back to the
/// module's restart position.
pub open spec fn wrap_index_spec(m: Module, idx: int) -> int {
    if idx >= m.pattern_order@.len() {
        m.restart_position as int
    } else {
        idx
    }
}

/// The plain sum of per-channel stereo frames.
pub open spec fn sum_frames_spec(s: Seq<(i64, i64)>) -> (int, int)
    decreases s.len(),
{
    if s.len() == 0 {
        (0, 0)
    } else {
        let (l, r) = sum_frames_spec(s.drop_last());
        (l + s.last().0, r + s.last().1)
    }
}

/// The sum of frames that are all silent is silent.
proof fn lemma_sum_frames_zero(s: Seq<(i64, i64)>)
    requires
        forall|i: int| 0 <= i < s.len() ==> (#[trigger] s[i]).0 == 0 && s[i].1 == 0,
    ensures
        sum_frames_spec(s) == (0int, 0int),
    decreases s.len(),
{
    if s.len() > 0 {
        lemma_sum_frames_zero(s.drop_last());
    }
}

/// The playback engine over one module: owns every channel and all the
/// scheduling state, and yields interleaved or paired stereo samples.
pub struct XmrsPlayer {
    pub module: Module,
    pub sample_rate: u32,
    /// Ticks per row.
    pub tempo: u16,
    /// Beats per minute; ticks per second are 0.4 times this.
    pub bpm: u16,
    /// Global volume, Q16.16 in [0, 1].
    pub global_volume: i64,
    pub global_volume_slide_param: u8,
    /// Master amplification, Q16.16.
    pub amplification: i64,
    pub current_table_index: usize,
    pub current_row: usize,
    pub current_tick: u32,
    /// Q16.16 output frames left before the next tick boundary.
    pub remaining_samples_in_tick: i64,
    /// Stereo frames produced so far.
    pub generated_samples: u64,
    pub position_jump: bool,
    pub pattern_break: bool,
    pub jump_dest: usize,
    pub jump_row: usize,
    /// Extra ticks appended to this row by the pattern-delay effect.
    pub extra_ticks: u16,
    pub channel: Vec<Channel>,
    /// How often each (order position, row) has been entered.
    pub row_loop_count: Vec<Vec<u32>>,
    pub loop_count: u32,
    pub max_loop_count: u32,
    /// A pending right sample for the interleaved stream.
    pub right_sample: Option<i64>,
    pub hhelper: Option<HistoricalHelper>,
    pub pause: bool,
}

impl XmrsPlayer {
    /// The player invariant. Among its clauses: every channel holds its
    /// own invariant against the module (volume and panning in [0, 1],
    /// period at least one unit when set), the navigation indices stay
    /// inside the order table, and the tick counter is below the row's
    /// tick count whenever it is not at a row start.
    pub open spec fn wf(self) -> bool {
        &&& self.module.wf()
        &&& 1 <= self.sample_rate <= RATE_MAX
        &&& self.bpm >= 1
        &&& 0 <= self.global_volume <= ONE
        &&& 0 <= self.amplification <= AMP_MAX
        &&& self.current_table_index < self.module.pattern_order@.len()
        &&& self.jump_dest < self.module.pattern_order@.len()
        &&& self.current_row < MAX_NUM_ROWS
        &&& self.jump_row < MAX_NUM_ROWS
        &&& self.current_tick == 0 || (self.current_tick as int) < (self.tempo as int) + (
        self.extra_ticks as int)
        &&& -131072 <= self.remaining_samples_in_tick <= RSIT_MAX
        &&& self.channel@.len() == self.module.num_channels
        &&& forall|i: int|
            0 <= i < self.channel@.len() ==> (#[trigger] self.channel@[i]).wf_with(self.module)
        &&& self.row_loop_count@.len() == self.module.pattern_order@.len()
        &&& forall|i: int|
            0 <= i < self.row_loop_count@.len() ==> (#[trigger] self.row_loop_count@[i])@.len()
                == MAX_NUM_ROWS
    }

    /// Build a player over a parsed module. The historical flag opts
    /// into the FT2 quirk reproductions.
    pub fn new(module: Module, sample_rate: u32, historical: bool) -> (r: Self)
        requires
            module.wf(),
            1 <= sample_rate <= RATE_MAX,
        ensures
            r.wf(),
            r.module == module,
            r.sample_rate == sample_rate,
            r.tempo == module.default_tempo,
            r.bpm == module.default_bpm,
            r.global_volume == ONE,
            r.current_table_index == 0,
            r.current_row == 0,
            r.current_tick == 0,
            r.loop_count == 0,
            r.generated_samples == 0,
            r.amplification == 16384,
            r.max_loop_count == 0,
            r.extra_ticks == 0,
            !r.position_jump,
            !r.pattern_break,
            r.right_sample is None,
            (r.hhelper is Some) <==> historical,
            !r.pause,
    {
        let num_channels: usize = module.get_num_channels();
        let song_length: usize = module.get_song_length();
        let hhelper: Option<HistoricalHelper> = if historical {
            Option::Some(HistoricalHelper::new(module.default_tempo))
        } else {
            Option::None
        };
        let mut channel: Vec<Channel> = Vec::new();
        let mut i: usize = 0;
        while i < num_channels
            invariant
                module.wf(),
                1 <= sample_rate <= RATE_MAX,
                num_channels == module.num_channels,
                i <= num_channels,
                channel@.len() == i,
                forall|j: int|
                    0 <= j < i ==> (#[trigger] channel@[j]).wf_with(module),
            decreases num_channels - i,
        {
            channel.push(Channel::new(&module, sample_rate, hhelper));
            i = i + 1;
        }
        let mut row_loop_count: Vec<Vec<u32>> = Vec::new();
        let mut k: usize = 0;
        while k < song_length
            invariant
                song_length == module.pattern_order@.len(),
                k <= song_length,
                row_loop_count@.len() == k,
                forall|j: int|
                    0 <= j < k ==> (#[trigger] row_loop_count@[j])@.len() == MAX_NUM_ROWS,
            decreases song_length - k,
        {
            let mut inner: Vec<u32> = Vec::new();
            let mut r: usize = 0;
            while r < MAX_NUM_ROWS
                invariant
                    r <= MAX_NUM_ROWS,
                    inner@.len() == r,
                decreases MAX_NUM_ROWS - r,
            {
                inner.push(0);
                r = r + 1;
            }
            row_loop_count.push(inner);
            k = k + 1;
        }
        let tempo0: u16 = module.default_tempo;
        let bpm0: u16 = module.default_bpm;
        XmrsPlayer {
            module,
            sample_rate,
            tempo: tempo0,
            bpm: bpm0,
            global_volume: ONE,
            global_volume_slide_param: 0,
            amplification: 16384,
            current_table_index: 0,
            current_row: 0,
            current_tick: 0,
            remaining_samples_in_tick: 0,
            generated_samples: 0,
            position_jump: false,
            pattern_break: false,
            jump_dest: 0,
            jump_row: 0,
            extra_ticks: 0,
            channel,
            row_loop_count,
            loop_count: 0,
            max_loop_count: 0,
            right_sample: Option::None,
            hhelper,
            pause: false,
        }
    }

    pub fn set_mute_channel(&mut self, channel_num: usize, mute: bool)
        requires
            old(self).wf(),
        ensures
            final(self).wf(),
            final(self).module == old(self).module,
            channel_num < old(self).channel@.len() ==> final(self).channel@ == old(self).channel@.update(
                channel_num as int,
                (Channel { muted: mute, ..old(self).channel@[channel_num as int] }),
            ),
            channel_num >= old(self).channel@.len() ==> *final(self) == *old(self),
    {
        if channel_num < self.channel.len() {
            self.channel[channel_num].muted = mute;
        }
    }

    pub fn mute_all(&mut self, mute: bool)
        requires
            old(self).wf(),
        ensures
            final(self).wf(),
            final(self).module == old(self).module,
            final(self).channel@.len() == old(self).channel@.len(),
            forall|j: int|
                0 <= j < old(self).channel@.len() ==> (#[trigger] final(self).channel@[j])
                    == (Channel { muted: mute, ..old(self).channel@[j] }),
    {
        let n: usize = self.channel.len();
        let mut i: usize = 0;
        while i < n
            invariant
                old(self).wf(),
                self.module == old(self).module,
                n == self.channel@.len(),
                i <= n,
                self.channel@.len() == old(self).channel@.len(),
                forall|j: int|
                    0 <= j < self.channel@.len() ==> (#[trigger] self.channel@[j]).wf_with(
                        self.module,
                    ),
                forall|j: int|
                    0 <= j < i ==> (#[trigger] self.channel@[j]) == (Channel {
                        muted: mute,
                        ..old(self).channel@[j]
                    }),
                forall|j: int|
                    i <= j < n ==> (#[trigger] self.channel@[j]) == old(self).channel@[j],
                *self == (XmrsPlayer { channel: self.channel, ..*old(self) }),
            decreases n - i,
        {
            self.channel[i].muted = mute;
            i = i + 1;
        }
    }

    pub fn set_max_loop_count(&mut self, max_loop_count: u32)
        requires
            old(self).wf(),
        ensures
            final(self).wf(),
            *final(self) == (XmrsPlayer { max_loop_count: max_loop_count, ..*old(self) }),
    {
        self.max_loop_count = max_loop_count;
    }

    pub fn get_loop_count(&self) -> (r: u32)
        ensures
            r == self.loop_count,
    {
        self.loop_count
    }

    pub fn get_sample_rate(&self) -> (r: u32)
        ensures
            r == self.sample_rate,
    {
        self.sample_rate
    }

    /// Master amplification; values above the cap are clamped.
    pub fn set_amplification(&mut self, amplification: i64)
        requires
            old(self).wf(),
            amplification >= 0,
        ensures
            final(self).wf(),
            final(self).amplification == clamp_max_spec(amplification as int, AMP_MAX as int),
    {
        self.amplification = clamp_max(amplification, AMP_MAX);
    }

    /// Global volume; clamped into [0, 1].
    pub fn set_global_volume(&mut self, global_volume: i64)
        requires
            old(self).wf(),
        ensures
            final(self).wf(),
            final(self).global_volume == clamp01_spec(global_volume as int),
    {
        self.global_volume = clamp01(global_volume);
    }

    /// Returns the pattern number playing at the current order position.
    pub fn get_current_pattern(&self) -> (r: usize)
        requires
            self.wf(),
        ensures
            r == self.module.pattern_order@[self.current_table_index as int],
    {
        self.module.pattern_order[self.current_table_index]
    }

    pub fn get_current_table_index(&self) -> (r: usize)
        ensures
            r == self.current_table_index,
    {
        self.current_table_index
    }

    pub fn get_current_row(&self) -> (r: usize)
        ensures
            r == self.current_row,
    {
        self.current_row
    }

    /// While paused the player emits silence and holds its position.
    pub fn pause(&mut self, pause: bool)
        requires
            old(self).wf(),
        ensures
            final(self).wf(),
            *final(self) == (XmrsPlayer { pause: pause, ..*old(self) }),
    {
        self.pause = pause;
    }

    /// Jump to a row of an order position, resetting speed, volume and
    /// the channels. True exactly when both indices are in range.
    pub fn goto(&mut self, table_position: usize, row: usize, speed: u16) -> (r: bool)
        requires
            old(self).wf(),
        ensures
            final(self).wf(),
            final(self).module == old(self).module,
            r == (table_position < old(self).module.pattern_order@.len() && ({
                let num_pat = old(self).module.pattern_order@[table_position as int];
                row < (if num_pat < old(self).module.pattern@.len() {
                    old(self).module.pattern@[num_pat as int]@.len()
                } else {
                    0
                })
            })),
            r ==> final(self).jump_dest == table_position && final(self).jump_row == row
                && final(self).position_jump,
            !r ==> *final(self) == *old(self),
            r ==> final(self).tempo == (if speed == 0 {
                old(self).module.default_tempo
            } else {
                speed
            }) && final(self).bpm == old(self).module.default_bpm && final(self).global_volume
                == ONE && final(self).current_tick == 0 && final(self).remaining_samples_in_tick
                == 0,
    {
        if table_position < self.module.get_song_length() {
            let num_pat: usize = self.module.pattern_order[table_position];
            let rows: usize = self.module.get_num_rows(num_pat);
            if row < rows {
                proof {
                    assert(old(self).module.pattern@[num_pat as int]@.len() <= MAX_NUM_ROWS);
                }
                self.jump_dest = table_position;
                self.jump_row = row;
                self.position_jump = true;
                self.tempo = if speed == 0 {
                    self.module.default_tempo
                } else {
                    speed
                };
                self.bpm = self.module.default_bpm;
                self.global_volume = ONE;
                let ghost before: XmrsPlayer = *self;
                let n: usize = self.channel.len();
                let mut i: usize = 0;
                while i < n
                    invariant
                        before.module.wf(),
                        n == self.channel@.len(),
                        i <= n,
                        *self == (XmrsPlayer { channel: self.channel, ..before }),
                        forall|j: int|
                            0 <= j < self.channel@.len() ==> (#[trigger] self.channel@[j]).wf_with(
                                self.module,
                            ),
                    decreases n - i,
                {
                    self.channel[i].trigger_note(&self.module, TRIGGER_KEEP_PERIOD);
                    i = i + 1;
                }
                self.remaining_samples_in_tick = 0;
                self.current_tick = 0;
                true
            } else {
                false
            }
        } else {
            false
        }
    }

    /// Wrap the order position past the end of the song back to the
    /// module's restart position.
    fn post_pattern_change(&mut self)
        requires
            old(self).module.wf(),
        ensures
            final(self).current_table_index < final(self).module.pattern_order@.len(),
            *final(self) == (XmrsPlayer {
                current_table_index: final(self).current_table_index,
                ..*old(self)
            }),
            final(self).current_table_index == if old(self).current_table_index
                >= old(self).module.pattern_order@.len() {
                old(self).module.restart_position as int
            } else {
                old(self).current_table_index as int
            },
    {
        if self.current_table_index >= self.module.pattern_order.len() {
            self.current_table_index = self.module.restart_position;
        }
    }
}

impl XmrsPlayer {
    /// The global half of a channel's tick-0 cell: position jumps,
    /// pattern breaks, the pattern loop, pattern delay, tempo and BPM,
    /// and the global volume and its slide memory.
    fn tick0_global_effects(&mut self, ch_index: usize)
        requires
            old(self).wf(),
            old(self).current_tick == 0,
            ch_index < old(self).channel@.len(),
        ensures
            final(self).wf(),
            final(self).module == old(self).module,
            final(self).current_tick == 0,
            final(self).current_row == old(self).current_row,
            final(self).channel@.len() == old(self).channel@.len(),
            final(self).remaining_samples_in_tick == old(self).remaining_samples_in_tick,
            final(self).sample_rate == old(self).sample_rate,
            final(self).loop_count == old(self).loop_count,
            final(self).row_loop_count == old(self).row_loop_count,
            final(self).current_table_index == old(self).current_table_index,
            forall|i: int|
                0 <= i < old(self).channel@.len() ==> (#[trigger] final(self).channel@[i]).current
                    == old(self).channel@[i].current,
            forall|i: int|
                0 <= i < old(self).channel@.len() && i != ch_index
                    ==> (#[trigger] final(self).channel@[i]) == old(self).channel@[i],
            ({
                let slot = old(self).channel@[ch_index as int].current;
                &&& slot.effect_type == 0xF && slot.effect_parameter < 32 ==> final(self).tempo
                    == slot.effect_parameter
                &&& slot.effect_type == 0xF && slot.effect_parameter >= 32 ==> final(self).bpm
                    == slot.effect_parameter
                &&& slot.effect_type == 0x10 ==> final(self).global_volume == (
                if slot.effect_parameter > 64 {
                    65536int
                } else {
                    slot.effect_parameter * 1024
                })
                &&& slot.effect_type == 0xB && (slot.effect_parameter as int)
                    < old(self).module.pattern_order@.len() ==> final(self).position_jump
                    && final(self).jump_dest == slot.effect_parameter && final(self).jump_row
                    == 0
                &&& slot.effect_type == 0xD ==> final(self).pattern_break && final(self).jump_row
                    == (slot.effect_parameter / 16) * 10 + slot.effect_parameter % 16
                &&& slot.effect_type == 0xF && slot.effect_parameter < 32 ==> final(self).bpm
                    == old(self).bpm
                &&& slot.effect_type == 0xF && slot.effect_parameter >= 32 ==> final(self).tempo
                    == old(self).tempo
                &&& slot.effect_type == 0x11 && slot.effect_parameter > 0 ==> final(self).global_volume_slide_param == slot.effect_parameter
                &&& slot.effect_type == 0xE && slot.effect_parameter / 16 == 0xE ==> final(self).extra_ticks == clamp_max_spec(
                    (slot.effect_parameter % 16) * old(self).tempo,
                    0xFFFF,
                )
                &&& slot.effect_type == 0xE && slot.effect_parameter / 16 == 0x6 ==> ({
                    let y = slot.effect_parameter % 16;
                    let count = old(self).channel@[ch_index as int].pattern_loop_count;
                    &&& y == 0 ==> final(self).channel@[ch_index as int].pattern_loop_origin
                        == old(self).current_row && (old(self).hhelper is Some ==> final(self).jump_row == old(self).current_row)
                    &&& y > 0 && y == count ==> final(self).channel@[ch_index
                        as int].pattern_loop_count == 0 && final(self).position_jump == old(self).position_jump
                    &&& y > 0 && y != count ==> final(self).channel@[ch_index
                        as int].pattern_loop_count == clamp_max_spec(count + 1, 255) && final(self).position_jump && final(self).jump_row == old(self).channel@[ch_index
                        as int].pattern_loop_origin && final(self).jump_dest == old(self).current_table_index
                })
            }),
    {
        let slot: PatternSlot = self.channel[ch_index].current;
        let et: u8 = slot.effect_type;
        let param: u8 = slot.effect_parameter;
        if et == 0xB {
            if (param as usize) < self.module.pattern_order.len() {
                self.position_jump = true;
                self.jump_dest = param as usize;
                self.jump_row = 0;
            }
        } else if et == 0xD {
            self.pattern_break = true;
            let row: usize = ((param / 16) as usize) * 10 + ((param % 16) as usize);
            self.jump_row = if row < MAX_NUM_ROWS {
                row
            } else {
                0
            };
        } else if et == 0xE {
            let sub: u8 = param / 16;
            if sub == 0x6 {
                if param % 16 != 0 {
                    if (param % 16) == self.channel[ch_index].pattern_loop_count {
                        self.channel[ch_index].pattern_loop_count = 0;
                    } else {
                        let c: u8 = self.channel[ch_index].pattern_loop_count;
                        if c < 255 {
                            self.channel[ch_index].pattern_loop_count = c + 1;
                        }
                        self.position_jump = true;
                        self.jump_row = self.channel[ch_index].pattern_loop_origin as usize;
                        self.jump_dest = self.current_table_index;
                    }
                } else {
                    if self.current_row < 256 {
                        self.channel[ch_index].pattern_loop_origin = self.current_row as u8;
                    }
                    if self.hhelper.is_some() {
                        self.jump_row = self.channel[ch_index].pattern_loop_origin as usize;
                    }
                }
            } else if sub == 0xE {
                proof {
                    assert(0 <= (param % 16) as int * self.tempo as int <= 983025)
                        by (nonlinear_arith)
                        requires
                            0 <= param % 16 <= 15,
                            0 <= self.tempo <= 65535,
                    ;
                }
                let extra: u32 = ((param % 16) as u32) * (self.tempo as u32);
                self.extra_ticks = if extra > 0xFFFF {
                    0xFFFF
                } else {
                    extra as u16
                };
            }
        } else if et == 0xF {
            if param < 32 {
                self.tempo = param as u16;
            } else {
                self.bpm = param as u16;
            }
        } else if et == 0x10 {
            self.global_volume = if param > 64 {
                ONE
            } else {
                (param as i64) * 1024
            };
        } else if et == 0x11 {
            if param > 0 {
                self.global_volume_slide_param = param;
            }
        }
    }

    /// Where a row entry lands after resolving any pending jump or
    /// break: the order position, row and pattern index that play.
    pub open spec fn tick0_resolve_spec(p: XmrsPlayer) -> (int, int, int) {
        let cti1 = if p.position_jump {
            wrap_index_spec(p.module, p.jump_dest as int)
        } else if p.pattern_break {
            wrap_index_spec(p.module, p.current_table_index + 1)
        } else {
            p.current_table_index as int
        };
        let row1 = if p.position_jump || p.pattern_break {
            p.jump_row as int
        } else {
            p.current_row as int
        };
        let pat0 = p.module.pattern_order@[cti1] as int;
        let cti2 = if pat0 < p.module.pattern@.len() {
            cti1
        } else {
            0
        };
        let pat = p.module.pattern_order@[cti2] as int;
        let row2 = if row1 >= p.module.pattern@[pat]@.len() {
            0int
        } else {
            row1
        };
        (cti2, row2, pat)
    }

    /// Row entry: resolve a pending jump or break, land on a playable
    /// pattern and row, run every channel's tick 0 and its global
    /// effects, count the row visit, and advance the row cursor.
    fn tick0(&mut self)
        requires
            old(self).wf(),
            old(self).current_tick == 0,
        ensures
            final(self).wf(),
            final(self).module == old(self).module,
            final(self).current_tick == 0,
            final(self).remaining_samples_in_tick == old(self).remaining_samples_in_tick,
            final(self).sample_rate == old(self).sample_rate,
            ({
                let (cti2, row2, pat) = XmrsPlayer::tick0_resolve_spec(*old(self));
                let rows = old(self).module.pattern@[pat]@.len();
                &&& forall|i: int|
                    0 <= i < final(self).channel@.len()
                        ==> (#[trigger] final(self).channel@[i]).current
                        == old(self).module.pattern@[pat]@[row2]@[i]
                &&& (forall|i: int|
                    0 <= i < final(self).channel@.len()
                        ==> (#[trigger] final(self).channel@[i]).pattern_loop_count == 0)
                    ==> final(self).loop_count == old(self).row_loop_count@[cti2]@[row2]
                &&& !final(self).position_jump && !final(self).pattern_break ==> (if row2 + 1
                    < rows {
                    final(self).current_table_index == cti2 && final(self).current_row == row2
                        + 1
                } else {
                    final(self).current_table_index == wrap_index_spec(
                        old(self).module,
                        cti2 + 1,
                    )
                })
            }),
    {
        proof {
            assert(old(self).module.pattern_order@[XmrsPlayer::tick0_resolve_spec(
                *old(self),
            ).0] < old(self).module.pattern@.len());
        }
        if self.position_jump {
            self.current_table_index = self.jump_dest;
            self.current_row = self.jump_row;
            self.position_jump = false;
            self.pattern_break = false;
            self.jump_row = 0;
            self.post_pattern_change();
        } else if self.pattern_break {
            if self.current_table_index < usize::MAX {
                self.current_table_index = self.current_table_index + 1;
            }
            self.current_row = self.jump_row;
            self.pattern_break = false;
            self.jump_row = 0;
            self.post_pattern_change();
        }
        let pat_idx_temp: usize = self.module.pattern_order[self.current_table_index];
        let pat_idx: usize = if pat_idx_temp < self.module.pattern.len() {
            pat_idx_temp
        } else {
            self.current_table_index = 0;
            self.module.pattern_order[0]
        };
        let rows: usize = self.module.pattern[pat_idx].len();
        if self.current_row >= rows {
            self.current_row = 0;
        }
        let num_channels: usize = self.module.get_num_channels();
        let mut in_a_loop: bool = false;
        let current_row: usize = self.current_row;
        let ghost resolved: (int, int, int) = XmrsPlayer::tick0_resolve_spec(*old(self));
        proof {
            assert(resolved == (self.current_table_index as int, current_row as int, pat_idx as int));
        }
        let mut ch_index: usize = 0;
        while ch_index < num_channels
            invariant
                ch_index <= num_channels,
                self.wf(),
                self.module == old(self).module,
                num_channels == self.module.num_channels,
                pat_idx < self.module.pattern@.len(),
                current_row < self.module.pattern@[pat_idx as int]@.len(),
                self.current_tick == 0,
                self.remaining_samples_in_tick == old(self).remaining_samples_in_tick,
                self.sample_rate == old(self).sample_rate,
                self.loop_count == old(self).loop_count,
                self.row_loop_count == old(self).row_loop_count,
                self.current_table_index as int == resolved.0,
                current_row as int == resolved.1,
                self.current_row == current_row,
                pat_idx as int == resolved.2,
                forall|j: int|
                    0 <= j < ch_index ==> (#[trigger] self.channel@[j]).current
                        == self.module.pattern@[pat_idx as int]@[current_row as int]@[j],
                !in_a_loop ==> forall|j: int|
                    0 <= j < ch_index ==> (#[trigger] self.channel@[j]).pattern_loop_count == 0,
                in_a_loop ==> (exists|j: int|
                    0 <= j < ch_index && (#[trigger] self.channel@[j]).pattern_loop_count > 0),
            decreases num_channels - ch_index,
        {
            let ghost pre_chs: Seq<Channel> = self.channel@;
            let ps: PatternSlot = self.module.pattern[pat_idx][current_row][ch_index];
            self.channel[ch_index].tick0(&self.module, &ps);
            self.tick0_global_effects(ch_index);
            proof {
                assert(forall|j: int|
                    0 <= j < ch_index ==> #[trigger] self.channel@[j] == pre_chs[j]);
            }
            if !in_a_loop && self.channel[ch_index].pattern_loop_count > 0 {
                in_a_loop = true;
            }
            proof {
                if in_a_loop && self.channel@[ch_index as int].pattern_loop_count <= 0 {
                    let w = choose|j: int|
                        0 <= j < ch_index && (#[trigger] pre_chs[j]).pattern_loop_count > 0;
                    assert(self.channel@[w].pattern_loop_count > 0);
                }
            }
            ch_index = ch_index + 1;
        }
        proof {
            if !in_a_loop {
                assert(forall|j: int|
                    0 <= j < self.channel@.len() ==> (#[trigger] self.channel@[j]).pattern_loop_count
                        == 0);
            }
        }
        if !in_a_loop {
            if self.current_table_index < self.row_loop_count.len() && self.current_row < 256 {
                let cti: usize = self.current_table_index;
                let row: usize = self.current_row;
                let c: u32 = self.row_loop_count[cti][row];
                self.loop_count = c;
                if c < 0xFFFF_FFFF {
                    self.row_loop_count[cti][row] = c + 1;
                }
            }
        }
        if self.current_row < MAX_NUM_ROWS {
            self.current_row = self.current_row + 1;
        }
        let pattern_len: usize = self.module.pattern[pat_idx].len();
        if !self.position_jump && !self.pattern_break && self.current_row >= pattern_len {
            if self.current_table_index < usize::MAX {
                self.current_table_index = self.current_table_index + 1;
            }
            self.current_row = self.jump_row;
            self.jump_row = 0;
            self.post_pattern_change();
        }
        if self.current_row >= MAX_NUM_ROWS {
            self.current_row = 0;
        }
    }

    /// A later tick of the row: advance every channel, and step the
    /// global volume slide where a channel carries it.
    fn tick(&mut self)
        requires
            old(self).wf(),
        ensures
            final(self).wf(),
            final(self).module == old(self).module,
            final(self).current_tick == old(self).current_tick,
            final(self).current_row == old(self).current_row,
            final(self).remaining_samples_in_tick == old(self).remaining_samples_in_tick,
            final(self).sample_rate == old(self).sample_rate,
            final(self).bpm == old(self).bpm,
            final(self).tempo == old(self).tempo,
            (forall|i: int|
                0 <= i < old(self).channel@.len() ==> (#[trigger] old(self).channel@[i]).current.effect_type != 0x11) ==> final(self).global_volume == old(self).global_volume,
    {
        let num_channels: usize = self.channel.len();
        let current_tick: u32 = self.current_tick;
        let mut i: usize = 0;
        while i < num_channels
            invariant
                i <= num_channels,
                self.wf(),
                self.module == old(self).module,
                num_channels == self.channel@.len(),
                self.current_tick == old(self).current_tick,
                self.current_row == old(self).current_row,
                self.remaining_samples_in_tick == old(self).remaining_samples_in_tick,
                self.sample_rate == old(self).sample_rate,
                self.bpm == old(self).bpm,
                self.tempo == old(self).tempo,
                forall|j: int|
                    0 <= j < num_channels ==> (#[trigger] self.channel@[j]).current == old(self).channel@[j].current,
                (forall|j: int|
                    0 <= j < num_channels ==> (#[trigger] old(self).channel@[j]).current.effect_type != 0x11) ==> self.global_volume == old(self).global_volume,
            decreases num_channels - i,
        {
            self.channel[i].tick(&self.module, current_tick);
            if self.channel[i].current.effect_type == 0x11 && current_tick != 0 {
                let p: u8 = self.global_volume_slide_param;
                let d: i64 = if (p / 16 != 0) && (p % 16 != 0) {
                    0
                } else if p / 16 != 0 {
                    ((p / 16) as i64) * 1024
                } else {
                    -(((p % 16) as i64) * 1024)
                };
                self.global_volume = clamp01(self.global_volume + d);
            }
            i = i + 1;
        }
    }

    /// One output frame of scheduling: when the tick accumulator runs
    /// out, fire the row or tick procedure, advance the tick counter
    /// (wrapping at tempo plus extra ticks), and refill the accumulator
    /// from the BPM. Afterwards the tick counter is always inside the
    /// row, which is the boundary invariant of the scheduler.
    fn step(&mut self)
        requires
            old(self).wf(),
        ensures
            final(self).wf(),
            final(self).module == old(self).module,
            final(self).current_tick == 0 || (final(self).current_tick as int)
                < (final(self).tempo as int) + (final(self).extra_ticks as int),
            old(self).remaining_samples_in_tick <= 0 ==> final(self).remaining_samples_in_tick
                == clamp_min_spec(
                clamp_max_spec(
                    old(self).remaining_samples_in_tick + tdiv(
                        old(self).sample_rate * 327680,
                        2 * final(self).bpm,
                    ),
                    RSIT_MAX as int,
                ) - 65536,
                -131072,
            ),
            old(self).remaining_samples_in_tick > 0 ==> *final(self) == (XmrsPlayer {
                remaining_samples_in_tick: clamp_min_spec(
                    old(self).remaining_samples_in_tick - 65536,
                    -131072,
                ) as i64,
                ..*old(self)
            }),
    {
        if self.remaining_samples_in_tick <= 0 {
            if self.current_tick == 0 {
                self.tick0();
            } else {
                self.tick();
            }
            if self.current_tick < 0xFFFF_FFFF {
                self.current_tick = self.current_tick + 1;
            }
            if self.current_tick >= (self.tempo as u32) + (self.extra_ticks as u32) {
                self.current_tick = 0;
                self.extra_ticks = 0;
            }
            let tempo: u16 = self.tempo;
            match &mut self.hhelper {
                Option::Some(h) => h.set_tempo(tempo),
                Option::None => {},
            }
            let refill: i64 = ((self.sample_rate as i64) * 327680) / (2 * (self.bpm as i64));
            let r2: i64 = self.remaining_samples_in_tick + refill;
            self.remaining_samples_in_tick = clamp_max(r2, RSIT_MAX);
        }
        self.remaining_samples_in_tick = clamp_min(self.remaining_samples_in_tick - ONE, -131072);
    }

    /// The per-channel stereo frames of the next output sample, before
    /// the master gain: silence while paused, and the end of the stream
    /// once the loop count passes the configured bound.
    pub fn samples_from_channels(&mut self) -> (r: Option<Vec<(i64, i64)>>)
        requires
            old(self).wf(),
        ensures
            final(self).wf(),
            final(self).module == old(self).module,
            old(self).pause ==> *final(self) == *old(self),
            (r is None) <==> (!old(self).pause && final(self).max_loop_count > 0 && final(self).loop_count >= final(self).max_loop_count),
            match r {
                Option::Some(v) => v@.len() == final(self).channel@.len() && (forall|i: int|
                    0 <= i < v@.len() ==> -ONE <= (#[trigger] v@[i]).0 <= ONE && -ONE
                        <= v@[i].1 <= ONE) && (forall|i: int|
                    0 <= i < v@.len() ==> ((old(self).pause || final(self).channel@[i].muted
                        || final(self).channel@[i].instr is None) ==> (#[trigger] v@[i]).0 == 0
                        && v@[i].1 == 0)),
                Option::None => final(self).max_loop_count > 0 && final(self).loop_count
                    >= final(self).max_loop_count,
            },
    {
        let n: usize = self.channel.len();
        if self.pause {
            let mut out: Vec<(i64, i64)> = Vec::new();
            let mut i: usize = 0;
            while i < n
                invariant
                    i <= n,
                    out@.len() == i,
                    forall|j: int|
                        0 <= j < i ==> (#[trigger] out@[j]).0 == 0 && out@[j].1 == 0,
                decreases n - i,
            {
                out.push((0, 0));
                i = i + 1;
            }
            return Option::Some(out);
        }
        self.step();
        if self.max_loop_count > 0 && self.loop_count >= self.max_loop_count {
            return Option::None;
        }
        let mut out: Vec<(i64, i64)> = Vec::new();
        let mut i: usize = 0;
        while i < n
            invariant
                i <= n,
                self.wf(),
                self.module == old(self).module,
                n == self.channel@.len(),
                out@.len() == i,
                forall|j: int|
                    0 <= j < i ==> -ONE <= (#[trigger] out@[j]).0 <= ONE && -ONE <= out@[j].1
                        <= ONE,
                forall|j: int|
                    0 <= j < i ==> ((self.channel@[j].muted || self.channel@[j].instr is None)
                        ==> (#[trigger] out@[j]).0 == 0 && out@[j].1 == 0),
                !(self.max_loop_count > 0 && self.loop_count >= self.max_loop_count),
            decreases n - i,
        {
            let muted: bool = self.channel[i].is_muted(&self.module);
            let frame: Option<(i64, i64)> = self.channel[i].next(&self.module);
            match frame {
                Option::Some(lr) => {
                    if muted {
                        out.push((0, 0));
                    } else {
                        out.push(lr);
                    }
                },
                Option::None => {
                    out.push((0, 0));
                },
            }
            i = i + 1;
        }
        if self.generated_samples < u64::MAX {
            self.generated_samples = self.generated_samples + 1;
        }
        Option::Some(out)
    }

    /// Sum the per-channel frames and apply the master gain: global
    /// volume and amplification combined by the soft-saturation formula
    /// `g*a / (g + a)`.
    pub fn samples_apply_volume(&self, samples: &Vec<(i64, i64)>) -> (r: (i64, i64))
        requires
            self.wf(),
            samples@.len() <= 256,
            forall|i: int|
                0 <= i < samples@.len() ==> -ONE <= (#[trigger] samples@[i]).0 <= ONE && -ONE
                    <= samples@[i].1 <= ONE,
        ensures
            r.0 == fmul(sum_frames_spec(samples@).0, master_gain_spec(
                self.global_volume as int,
                self.amplification as int,
            )),
            r.1 == fmul(sum_frames_spec(samples@).1, master_gain_spec(
                self.global_volume as int,
                self.amplification as int,
            )),
    {
        let den: i64 = self.global_volume + self.amplification;
        let fgvol: i64 = if den == 0 {
            0
        } else {
            proof {
                assert(0 <= self.global_volume as int * self.amplification as int <= 65536
                    * 0x100_0000) by (nonlinear_arith)
                    requires
                        0 <= self.global_volume <= 65536,
                        0 <= self.amplification <= 0x100_0000,
                ;
                crate::fixed::lemma_tdiv_nonneg(
                    self.global_volume as int * self.amplification as int,
                    65536,
                );
                crate::fixed::lemma_fq_magnitude(
                    self.global_volume as int * self.amplification as int,
                    0x100_0000,
                );
            }
            let num: i64 = mul_fp(self.global_volume, self.amplification);
            clamp_max(div_nn(num * 65536, den), AMP_MAX)
        };
        let n: usize = samples.len();
        let mut suml: i64 = 0;
        let mut sumr: i64 = 0;
        let mut i: usize = 0;
        while i < n
            invariant
                i <= n,
                n == samples@.len(),
                n <= 256,
                forall|j: int|
                    0 <= j < samples@.len() ==> -ONE <= (#[trigger] samples@[j]).0 <= ONE
                        && -ONE <= samples@[j].1 <= ONE,
                -65536 * i <= suml <= 65536 * i,
                -65536 * i <= sumr <= 65536 * i,
                (suml as int, sumr as int) == sum_frames_spec(samples@.take(i as int)),
            decreases n - i,
        {
            proof {
                assert(samples@.take(i + 1).drop_last() =~= samples@.take(i as int));
                assert(samples@.take(i + 1).last() == samples@[i as int]);
            }
            suml = suml + samples[i].0;
            sumr = sumr + samples[i].1;
            i = i + 1;
        }
        proof {
            assert(samples@.take(n as int) =~= samples@);
        }
        let l: i64 = mul_fp(suml, fgvol);
        let r: i64 = mul_fp(sumr, fgvol);
        (l, r)
    }

    /// The next stereo output sample, or the end of the stream.
    pub fn sample(&mut self) -> (r: Option<(i64, i64)>)
        requires
            old(self).wf(),
        ensures
            final(self).wf(),
            final(self).module == old(self).module,
            old(self).pause ==> *final(self) == *old(self) && (match r {
                Option::Some(lr) => lr.0 == 0 && lr.1 == 0,
                Option::None => false,
            }),
            (r is None) <==> (!old(self).pause && final(self).max_loop_count > 0 && final(self).loop_count >= final(self).max_loop_count),
            (match r {
                Option::Some(lr) => (forall|i: int|
                    0 <= i < final(self).channel@.len() ==> (#[trigger] final(self).channel@[i]).instr is None) ==> lr.0 == 0 && lr.1 == 0,
                Option::None => true,
            }),
    {
        let frames: Option<Vec<(i64, i64)>> = self.samples_from_channels();
        match frames {
            Option::Some(v) => {
                proof {
                    assert(v@.len() <= 256);
                    if old(self).pause || (forall|i: int|
                        0 <= i < self.channel@.len() ==> (#[trigger] self.channel@[i]).instr
                            is None) {
                        lemma_sum_frames_zero(v@);
                    }
                }
                Option::Some(self.samples_apply_volume(&v))
            },
            Option::None => Option::None,
        }
    }

    /// The interleaved stream: left then right of each stereo sample,
    /// ending when the loop count passes its bound.
    pub fn sample_one(&mut self) -> (r: Option<i64>)
        requires
            old(self).wf(),
        ensures
            final(self).wf(),
            final(self).module == old(self).module,
            old(self).right_sample is Some ==> r == old(self).right_sample
                && final(self).right_sample is None,
            old(self).right_sample is None ==> ((r is None) <==> (!old(self).pause && final(self).max_loop_count > 0 && final(self).loop_count >= final(self).max_loop_count)),
            old(self).right_sample is None && old(self).pause ==> r == Option::Some(0i64),
    {
        match self.right_sample {
            Option::Some(right) => {
                self.right_sample = Option::None;
                Option::Some(right)
            },
            Option::None => {
                let next_samples: Option<(i64, i64)> = self.sample();
                match next_samples {
                    Option::Some(lr) => {
                        self.right_sample = Option::Some(lr.1);
                        Option::Some(lr.0)
                    },
                    Option::None => Option::None,
                }
            },
        }
    }
}

/// At every sample boundary the tick counter sits inside the row:
/// strictly below tempo plus extra ticks whenever that row has any
/// ticks at all (a zero tempo with no pattern delay leaves the counter
/// resting at zero instead).
pub proof fn lemma_tick_inside_row(p: XmrsPlayer)
    requires
        p.wf(),
        (p.tempo as int) + (p.extra_ticks as int) > 0,
    ensures
        (p.current_tick as int) < (p.tempo as int) + (p.extra_ticks as int),
{
}

} // verus!
