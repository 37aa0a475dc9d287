//! The sink's decisions: position accounting across chained tracks, whether a
//! track can be chained onto the live stream, which device a new stream
//! opens on, and the volume curve. Times are in milliseconds.

use vstd::prelude::*;
use crate::models::QueryTrackResult;

verus! {

/// The sink's bookkeeping beside the output stream's raw clock.
#[derive(Debug, Clone, Copy, PartialEq, Eq, Structural)]
pub struct SinkClock {
    /// Sum of the durations of the chained tracks that have finished.
    pub duration_played_ms: u64,
    /// Shift applied after a live stretch-ratio change.
    pub position_offset_ms: i64,
}

/// The position within the current track given the stream's raw clock.
pub open spec fn position_of(raw_ms: int, played_ms: int, offset_ms: int) -> int {
    if raw_ms < played_ms {
        0
    } else {
        let shifted = raw_ms - played_ms + offset_ms;
        if shifted < 0 {
            0
        } else if shifted > i64::MAX {
            i64::MAX as int
        } else {
            shifted
        }
    }
}

/// `a + b` held to the range of `i64`.
pub open spec fn saturated_i64(v: int) -> int {
    if v < i64::MIN {
        i64::MIN as int
    } else if v > i64::MAX {
        i64::MAX as int
    } else {
        v
    }
}

impl SinkClock {
    pub fn new() -> (r: SinkClock)
        ensures
            r.duration_played_ms == 0,
            r.position_offset_ms == 0,
    {
        SinkClock { duration_played_ms: 0, position_offset_ms: 0 }
    }

    /// The listener's position in the current track: the raw clock less what
    /// earlier chained tracks played, plus the offset, never below zero.
    pub fn position(&self, raw_ms: u64) -> (r: u64)
        ensures
            r == position_of(raw_ms as int, self.duration_played_ms as int, self.position_offset_ms as int),
    {
        if raw_ms < self.duration_played_ms {
            return 0;
        }
        let shifted: i128 = (raw_ms - self.duration_played_ms) as i128 + self.position_offset_ms as i128;
        if shifted < 0 {
            0
        } else if shifted > i64::MAX as i128 {
            i64::MAX as u64
        } else {
            shifted as u64
        }
    }

    /// Shifts the offset by `delta_ms`, saturating.
    pub fn adjust_position_offset_ms(&mut self, delta_ms: i64)
        ensures
            final(self).position_offset_ms == saturated_i64(old(self).position_offset_ms + delta_ms),
            final(self).duration_played_ms == old(self).duration_played_ms,
    {
        let sum: i128 = self.position_offset_ms as i128 + delta_ms as i128;
        self.position_offset_ms = if sum < i64::MIN as i128 {
            i64::MIN
        } else if sum > i64::MAX as i128 {
            i64::MAX
        } else {
            sum as i64
        };
    }

    /// After a seek or a clear the raw clock restarts: nothing is subtracted
    /// or shifted.
    pub fn restart(&mut self)
        ensures
            final(self).duration_played_ms == 0,
            final(self).position_offset_ms == 0,
    {
        self.duration_played_ms = 0;
        self.position_offset_ms = 0;
    }

    /// A chained track of `track_ms` finished: its duration is played, and the
    /// offset no longer applies.
    pub fn track_completed(&mut self, track_ms: u64)
        ensures
            final(self).duration_played_ms == if old(self).duration_played_ms + track_ms > u64::MAX {
                u64::MAX as int
            } else {
                old(self).duration_played_ms + track_ms
            },
            final(self).position_offset_ms == 0,
    {
        self.duration_played_ms = self.duration_played_ms.saturating_add(track_ms);
        self.position_offset_ms = 0;
    }
}

/// A decoded track can be chained onto the live stream when there is no stream
/// yet or the stream runs at the track's sample rate.
pub open spec fn chain_result(stream_rate: Option<u32>, track_rate: u32) -> QueryTrackResult {
    match stream_rate {
        Some(rate) => if rate == track_rate {
            QueryTrackResult::Queued
        } else {
            QueryTrackResult::RecreateStreamRequired
        },
        None => QueryTrackResult::Queued,
    }
}

pub fn chain_decision(stream_rate: Option<u32>, track_rate: u32) -> (r: QueryTrackResult)
    ensures
        r == chain_result(stream_rate, track_rate),
{
    match stream_rate {
        Some(rate) => if rate == track_rate {
            QueryTrackResult::Queued
        } else {
            QueryTrackResult::RecreateStreamRequired
        },
        None => QueryTrackResult::Queued,
    }
}

/// A new stream is needed unless the stream, its sink and its queue all exist.
pub fn needs_stream(has_stream: bool, has_sink: bool, has_queue: bool) -> (r: bool)
    ensures
        r == !(has_stream && has_sink && has_queue),
{
    !has_stream || !has_sink || !has_queue
}

/// The device a new stream opens on: the selected one, else the system
/// default as it is now.
pub fn device_to_use(selected: Option<String>, system_default: Option<String>) -> (r: Option<String>)
    ensures
        selected is Some ==> r == selected,
        selected is None ==> r == system_default,
{
    match selected {
        Some(name) => Some(name),
        None => system_default,
    }
}

/// The gain applied to the mixer for a volume in thousandths: the volume held
/// to `[0, 1]` and cubed, in parts per billion.
pub open spec fn volume_gain(volume: int) -> int {
    let v = if volume > 1000 { 1000 } else { volume };
    v * v * v
}

pub fn volume_curve(volume: u32) -> (r: u64)
    ensures
        r == volume_gain(volume as int),
        r <= 1_000_000_000,
{
    let v: u64 = if volume > 1000 { 1000 } else { volume as u64 };
    proof {
        assert(v * v <= 1_000_000) by (nonlinear_arith)
            requires v <= 1000;
        assert(v * v * v <= 1_000_000_000) by (nonlinear_arith)
            requires v <= 1000, v * v <= 1_000_000;
    }
    v * v * v
}


/// `p` occurs in `s` starting at `i`.
pub open spec fn occurs_at(s: Seq<char>, p: Seq<char>, i: int) -> bool {
    0 <= i && i + p.len() <= s.len() && s.subrange(i, i + p.len()) == p
}

/// `p` occurs somewhere in `s`.
pub open spec fn text_contains(s: Seq<char>, p: Seq<char>) -> bool {
    exists|i: int| occurs_at(s, p, i)
}

/// Whether `p` occurs in `s`.
pub fn contains_text(s: &str, p: &str) -> (r: bool)
    ensures
        r == text_contains(s@, p@),
{
    let n = s.unicode_len();
    let m = p.unicode_len();
    if m > n {
        assert forall|i: int| !occurs_at(s@, p@, i) by {}
        return false;
    }
    let mut i: usize = 0;
    while i <= n - m
        invariant
            n == s@.len(),
            m == p@.len(),
            m <= n,
            0 <= i <= n - m + 1,
            forall|k: int| 0 <= k < i ==> !occurs_at(s@, p@, k),
        decreases n - m + 1 - i,
    {
        let mut j: usize = 0;
        let mut same = true;
        while j < m
            invariant
                n == s@.len(),
                m == p@.len(),
                i + m <= n,
                0 <= j <= m,
                same == (forall|k: int| 0 <= k < j ==> s@[i + k] == p@[k]),
            decreases m - j,
        {
            if s.get_char(i + j) != p.get_char(j) {
                same = false;
            }
            j = j + 1;
        }
        if same {
            assert(s@.subrange(i as int, i + m) =~= p@);
            assert(occurs_at(s@, p@, i as int));
            return true;
        }
        assert(!occurs_at(s@, p@, i as int)) by {
            if s@.subrange(i as int, i + m) == p@ {
                assert forall|k: int| 0 <= k < m implies s@[i + k] == p@[k] by {
                    assert(s@.subrange(i as int, i + m)[k] == s@[i + k]);
                }
            }
        }
        i = i + 1;
    }
    assert forall|k: int| !occurs_at(s@, p@, k) by {
        if 0 <= k && k + m <= n {
            assert(k < i);
        }
    }
    false
}

/// Whether two texts are the same.
pub fn same_text(a: &str, b: &str) -> (r: bool)
    ensures
        r == (a@ == b@),
{
    let n = a.unicode_len();
    if n != b.unicode_len() {
        return false;
    }
    let mut i: usize = 0;
    while i < n
        invariant
            n == a@.len(),
            n == b@.len(),
            0 <= i <= n,
            forall|k: int| 0 <= k < i ==> a@[k] == b@[k],
        decreases n - i,
    {
        if a.get_char(i) != b.get_char(i) {
            return false;
        }
        i = i + 1;
    }
    assert(a@ =~= b@);
    true
}

/// An output error that means the device is gone or unusable; such errors
/// are recovered by falling back to the default device.
pub open spec fn is_device_message(msg: Seq<char>) -> bool {
    text_contains(msg, "device"@) || text_contains(msg, "no longer available"@)
}

pub fn is_device_error(msg: &str) -> (r: bool)
    ensures
        r == is_device_message(msg@),
{
    contains_text(msg, "device") || contains_text(msg, "no longer available")
}

/// Consecutive tracks at one sample rate chain onto the live stream, and at
/// their boundary, once the finished track's length is counted as played, the
/// position starts again from zero.
pub proof fn law_gapless(rate: u32, played_ms: u64, track_ms: u64)
    requires
        played_ms + track_ms <= u64::MAX,
    ensures
        chain_result(Some(rate), rate) == QueryTrackResult::Queued,
        position_of((played_ms + track_ms) as int, (played_ms + track_ms) as int, 0) == 0,
{
}

} // verus!
