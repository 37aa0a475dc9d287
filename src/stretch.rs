//! Time-stretch and pitch settings, and the block arithmetic of the
//! stretching source. Ratios are in thousandths (`1000` plays at normal
//! speed), times in milliseconds.

use vstd::prelude::*;

verus! {

pub const RATIO_ONE: u32 = 1000;
pub const RATIO_MIN: u32 = 500;
pub const RATIO_MAX: u32 = 2000;
pub const SEMITONES_LIMIT: i16 = 12;
pub const CENTS_LIMIT: i16 = 100;

/// Input frames read per block.
pub const BLOCK_FRAMES: usize = 2048;
pub const N_CHANNELS: usize = 2;
/// Output frames a block can produce at the slowest ratio: `BLOCK_FRAMES / 0.5`.
pub const MAX_OUTPUT_FRAMES: usize = 4096;

/// What the stretching source reads on every block.
#[derive(Debug, Clone, Copy, PartialEq, Eq, Structural)]
pub struct PlaybackStretchConfig {
    /// Playback speed in thousandths.
    pub time_stretch_ratio: u32,
    pub pitch_semitones: i16,
    pub pitch_cents: i16,
}

impl Default for PlaybackStretchConfig {
    fn default() -> (r: PlaybackStretchConfig)
        ensures
            r == (PlaybackStretchConfig { time_stretch_ratio: 1000, pitch_semitones: 0, pitch_cents: 0 }),
    {
        PlaybackStretchConfig::neutral()
    }
}

pub open spec fn clamp_int(v: int, lo: int, hi: int) -> int {
    if v < lo {
        lo
    } else if v > hi {
        hi
    } else {
        v
    }
}

impl PlaybackStretchConfig {
    /// Normal speed, no pitch shift.
    pub fn neutral() -> (r: PlaybackStretchConfig)
        ensures
            r == (PlaybackStretchConfig { time_stretch_ratio: 1000, pitch_semitones: 0, pitch_cents: 0 }),
    {
        PlaybackStretchConfig { time_stretch_ratio: RATIO_ONE, pitch_semitones: 0, pitch_cents: 0 }
    }

    /// Every field within its range.
    pub open spec fn in_range(self) -> bool {
        &&& RATIO_MIN <= self.time_stretch_ratio <= RATIO_MAX
        &&& -12 <= self.pitch_semitones <= 12
        &&& -100 <= self.pitch_cents <= 100
    }

    /// The pitch shift in cents: semitones and cents together.
    pub fn pitch_in_cents(&self) -> (r: i32)
        ensures
            r == self.pitch_semitones * 100 + self.pitch_cents,
    {
        self.pitch_semitones as i32 * 100 + self.pitch_cents as i32
    }
}

/// The ratio held to `[0.5, 2.0]`.
pub fn normalize_ratio(ratio: u32) -> (r: u32)
    ensures
        r == clamp_int(ratio as int, 500, 2000),
{
    if ratio < RATIO_MIN {
        RATIO_MIN
    } else if ratio > RATIO_MAX {
        RATIO_MAX
    } else {
        ratio
    }
}

/// Semitones held to `[-12, 12]`.
pub fn clamp_semitones(semitones: i16) -> (r: i16)
    ensures
        r == clamp_int(semitones as int, -12, 12),
{
    if semitones < -SEMITONES_LIMIT {
        -SEMITONES_LIMIT
    } else if semitones > SEMITONES_LIMIT {
        SEMITONES_LIMIT
    } else {
        semitones
    }
}

/// Cents held to `[-100, 100]`.
pub fn clamp_cents(cents: i16) -> (r: i16)
    ensures
        r == clamp_int(cents as int, -100, 100),
{
    if cents < -CENTS_LIMIT {
        -CENTS_LIMIT
    } else if cents > CENTS_LIMIT {
        CENTS_LIMIT
    } else {
        cents
    }
}

/// Display time (what the listener hears) of a source time: `source / ratio`.
pub open spec fn display_of(source_ms: int, ratio: int) -> int {
    source_ms * 1000 / ratio
}

/// Source time of a display time: `display * ratio`.
pub open spec fn source_of(display_ms: int, ratio: int) -> int {
    display_ms * ratio / 1000
}

/// How long a track of `source_ms` (its own length) lasts when played at `ratio`.
pub fn display_duration_ms(source_ms: u64, ratio: u32) -> (r: u64)
    requires
        RATIO_MIN <= ratio <= RATIO_MAX,
        source_ms <= u64::MAX / 1000,
    ensures
        r == display_of(source_ms as int, ratio as int),
{
    proof {
        assert(source_ms * 1000 <= u64::MAX) by (nonlinear_arith)
            requires source_ms <= u64::MAX / 1000;
        assert(source_ms * 1000 / (ratio as int) <= source_ms * 1000) by (nonlinear_arith)
            requires ratio >= 500, source_ms >= 0;
    }
    source_ms * 1000 / ratio as u64
}

/// Where in the source a display position lies; a seek goes there.
pub fn source_position_ms(display_ms: u64, ratio: u32) -> (r: u64)
    requires
        RATIO_MIN <= ratio <= RATIO_MAX,
        display_ms <= u64::MAX / 2000,
    ensures
        r == source_of(display_ms as int, ratio as int),
{
    proof {
        assert(display_ms * ratio <= u64::MAX) by (nonlinear_arith)
            requires display_ms <= u64::MAX / 2000, ratio <= 2000;
    }
    display_ms * ratio as u64 / 1000
}

/// The display position `p * old / new` that matches `p` after the ratio
/// changes from `old` to `new`.
pub open spec fn rescaled(p: int, old: int, new: int) -> int {
    p * old / new
}

pub fn rescale_display_position(pos_ms: u64, old_ratio: u32, new_ratio: u32) -> (r: u64)
    requires
        RATIO_MIN <= new_ratio,
        old_ratio <= RATIO_MAX,
        pos_ms <= u64::MAX / 2000,
    ensures
        r == rescaled(pos_ms as int, old_ratio as int, new_ratio as int),
{
    proof {
        assert(pos_ms * old_ratio <= u64::MAX) by (nonlinear_arith)
            requires pos_ms <= u64::MAX / 2000, old_ratio <= 2000;
    }
    pos_ms * old_ratio as u64 / new_ratio as u64
}

/// `input_frames / ratio` rounded half away from zero.
pub open spec fn rounded_output(input_frames: int, ratio: int) -> int {
    (2 * input_frames * 1000 + ratio) / (2 * ratio)
}

/// Output frames of a block of `input_frames`: the stretched count, at least
/// one, at most `MAX_OUTPUT_FRAMES`.
pub fn output_frames(input_frames: usize, ratio: u32) -> (r: usize)
    requires
        RATIO_MIN <= ratio <= RATIO_MAX,
        input_frames <= BLOCK_FRAMES,
    ensures
        r == clamp_int(rounded_output(input_frames as int, ratio as int), 1, 4096),
{
    let n: u64 = 2 * input_frames as u64 * 1000 + ratio as u64;
    let stretched = n / (2 * ratio as u64);
    if stretched < 1 {
        1
    } else if stretched > MAX_OUTPUT_FRAMES as u64 {
        MAX_OUTPUT_FRAMES
    } else {
        stretched as usize
    }
}

/// What the stretching source does to refill its output buffer.
#[derive(Debug, Clone, Copy, PartialEq, Eq, Structural)]
pub enum BlockPlan {
    /// Stretch `input_frames` read frames into `output_frames`.
    Process { input_frames: usize, output_frames: usize },
    /// The input ended: drain this many frames of the stretcher's tail.
    Flush { frames: usize },
    /// Nothing left to produce.
    Finished,
    /// Nothing read and the input not ended: try again.
    Idle,
}

/// The plan for a block, from the samples read and whether the input ended.
pub open spec fn block_plan(got_samples: int, exhausted: bool, latency: int, ratio: int) -> BlockPlan {
    let input_frames = got_samples / 2;
    if input_frames == 0 {
        if exhausted {
            if latency > 0 {
                BlockPlan::Flush { frames: if latency < 4096 { latency as usize } else { 4096usize } }
            } else {
                BlockPlan::Finished
            }
        } else {
            BlockPlan::Idle
        }
    } else {
        BlockPlan::Process {
            input_frames: input_frames as usize,
            output_frames: clamp_int(rounded_output(input_frames, ratio), 1, 4096) as usize,
        }
    }
}

pub fn plan_block(got_samples: usize, exhausted: bool, output_latency: usize, ratio: u32) -> (r: BlockPlan)
    requires
        got_samples <= BLOCK_FRAMES * N_CHANNELS,
        RATIO_MIN <= ratio <= RATIO_MAX,
    ensures
        r == block_plan(got_samples as int, exhausted, output_latency as int, ratio as int),
{
    let input_frames = got_samples / N_CHANNELS;
    if input_frames == 0 {
        if exhausted {
            if output_latency > 0 {
                let frames = if output_latency < MAX_OUTPUT_FRAMES { output_latency } else { MAX_OUTPUT_FRAMES };
                BlockPlan::Flush { frames }
            } else {
                BlockPlan::Finished
            }
        } else {
            BlockPlan::Idle
        }
    } else {
        BlockPlan::Process { input_frames, output_frames: output_frames(input_frames, ratio) }
    }
}

/// Samples the source can hand out before its next block: `Some(0)` once it
/// has ended, `None` when a new block is due.
pub fn current_span_len(output_index: usize, output_len: usize, exhausted: bool) -> (r: Option<usize>)
    ensures
        exhausted && output_index >= output_len ==> r == Some(0usize),
        !(exhausted && output_index >= output_len) && output_index < output_len ==> r == Some((output_len - output_index) as usize),
        !(exhausted && output_index >= output_len) && output_index >= output_len ==> r is None,
{
    if exhausted && output_index >= output_len {
        return Some(0);
    }
    let remaining = output_len.saturating_sub(output_index);
    if remaining > 0 {
        Some(remaining)
    } else {
        None
    }
}

} // verus!
