//! The playback engine as a state machine. Each command or event is a method
//! that updates the engine's state and returns, in order, the effects the
//! caller must carry out on the sink, the downloader, the store and the watch
//! channels. Work that has to wait on the outside (resolving and downloading a
//! track, opening a stream) is an effect whose outcome comes back through
//! another method.

use vstd::prelude::*;
use crate::models::{AudioDevice, Album, ArtistPage, Playlist, Status, Track, TrackStatus, QueryTrackResult, copy_text};
use crate::tracklist::{
    AlbumTracklist, PlaylistTracklist, SingleTracklist, TopTracklist, Tracklist, TracklistType, with_status,
};
use crate::stretch::{
    PlaybackStretchConfig, display_duration_ms, display_of, normalize_ratio, clamp_int, rescaled,
    rescale_display_position, clamp_semitones, clamp_cents,
};
use rand::seq::SliceRandom;
use crate::sink::{is_device_error, is_device_message};

verus! {

/// How long a jump moves, in milliseconds.
pub const JUMP_MS: u64 = 10_000;
/// Past this far into a track, "previous" restarts the track instead.
pub const RESTART_THRESHOLD_MS: u64 = 1000;
/// The next track is fetched when less than this many seconds remain.
pub const PREFETCH_SECONDS: u64 = 60;
/// The pause before restoring the position on a new device.
pub const DEVICE_SETTLE_MS: u64 = 200;
/// Largest position the engine accepts from the sink, far beyond any track.
pub const MAX_POSITION_MS: u64 = 9_000_000_000_000_000 / 1000;

/// A user-visible message, before it is worded.
#[derive(Debug, Clone, PartialEq)]
pub enum Notice {
    /// An outside operation failed with this message.
    Error(String),
    /// The named device is not among the outputs; the default is used.
    DeviceNotFound(String),
    /// The output is now the named device, or the default.
    OutputChanged(Option<String>),
    /// A stream could not be opened on the new device.
    DeviceSwitchFailed,
    /// The device changed while the track was not on disk; play must resume by hand.
    DeviceChangedResume,
    /// The device failed while playing; the selection is back to the default.
    DeviceError,
    /// Time stretch set, in thousandths.
    TimeStretchSet(u32),
    PitchSet(i16),
    PitchCentsSet(i16),
    QueueUpdated,
    /// The titled track was appended to the queue.
    AddedToQueue(String),
    /// The titled track plays after the current one.
    PlayingNext(String),
    /// A queue edit named an index or an order that does not fit the queue.
    InvalidQueueEdit,
}

/// One thing the caller must do, in the order given.
#[derive(Debug, Clone, PartialEq)]
pub enum Effect {
    /// Drop the sink's stream and sources and restart its clock.
    ClearSink,
    /// Drop the sources chained after the current one and restart the clock.
    ClearSinkQueue,
    SinkPlay,
    SinkPause,
    /// Seek the sink to this display position and publish the position it then reports.
    Seek(u64),
    /// Shift the sink's position by this many milliseconds.
    AdjustPositionOffset(i64),
    /// Select the sink's output device (`None`: the system default).
    SetSinkDevice(Option<String>),
    /// Resolve the track, make sure it is on disk, and hand it to the sink;
    /// report with `track_queried`, or `track_buffering` when it is still downloading.
    QueryTrack { track_id: u32, next: bool },
    /// Reload the current track on a new stream at the equivalent position;
    /// `old_ratio` is the ratio the current position was measured at.
    ReloadTrack { track_id: u32, old_ratio: Option<u32> },
    /// Reopen the current track on the newly selected device; report with
    /// `device_switch_finished`, handing back `resume_at_ms`.
    SwitchDevicePlayback { track_id: u32, resume_at_ms: u64 },
    /// Wait this many milliseconds.
    Wait(u64),
    PublishStatus(Status),
    PublishPosition(u64),
    /// Store the current tracklist, then publish it.
    PublishTracklist,
    /// Publish and store the volume, and apply it to the sink.
    PublishVolume(u32),
    SaveAudioDevice(Option<String>),
    Notify(Notice),
}

/// What the sink answered when handed a track.
#[derive(Debug, Clone, PartialEq)]
pub enum SinkOutcome {
    Accepted(QueryTrackResult),
    /// The sink failed with this message.
    Failed(String),
}

/// How reopening the current track on a new device went.
#[derive(Debug, Clone, Copy, PartialEq, Eq, Structural)]
pub enum DeviceSwitch {
    /// The track plays on a new stream.
    Restarted,
    /// The new stream could not be opened.
    Failed,
    /// The track is not on disk yet.
    NotDownloaded,
}

/// The engine's state, as contracts speak of it.
pub struct PlayerView {
    pub tracklist: Tracklist,
    pub status: Status,
    /// The last position published, in milliseconds.
    pub position_ms: u64,
    /// Volume in thousandths.
    pub volume: u32,
    pub stretch: PlaybackStretchConfig,
    pub selected_device: Option<String>,
    pub next_track_is_queried: bool,
    pub next_track_in_sink_queue: bool,
}

pub struct Player {
    tracklist: Tracklist,
    status: Status,
    position_ms: u64,
    volume: u32,
    stretch: PlaybackStretchConfig,
    selected_device: Option<String>,
    next_track_is_queried: bool,
    next_track_in_sink_queue: bool,
}

impl View for Player {
    type V = PlayerView;

    closed spec fn view(&self) -> PlayerView {
        PlayerView {
            tracklist: self.tracklist,
            status: self.status,
            position_ms: self.position_ms,
            volume: self.volume,
            stretch: self.stretch,
            selected_device: self.selected_device,
            next_track_is_queried: self.next_track_is_queried,
            next_track_in_sink_queue: self.next_track_in_sink_queue,
        }
    }
}

impl PlayerView {
    /// The engine's invariant: at most one track is playing and the stretch
    /// settings are within range.
    pub open spec fn wf(self) -> bool {
        self.tracklist.wf() && self.stretch.in_range()
    }

    /// The playing track.
    pub open spec fn current(self) -> Track {
        self.tracklist.queue@[self.tracklist.cursor()]
    }

    /// The current track's length as heard at the current ratio.
    pub open spec fn display_duration(self) -> int {
        display_of(self.current().duration_seconds * 1000, self.stretch.time_stretch_ratio as int)
    }

    /// A track plays after the current one.
    pub open spec fn has_next(self) -> bool {
        self.tracklist.cursor() + 1 < self.tracklist.queue@.len()
    }

    pub open spec fn next(self) -> Track {
        self.tracklist.queue@[self.tracklist.cursor() + 1]
    }
}

/// The effect that asks for a track.
pub open spec fn query(t: Track, next: bool) -> Effect {
    Effect::QueryTrack { track_id: t.id, next }
}

/// The jump-forward target: ten seconds on, but not past the end.
pub open spec fn jump_forward_target(pos: int, duration: int) -> int {
    if pos + 10_000 < duration {
        pos + 10_000
    } else {
        duration
    }
}

/// The jump-backward target: ten seconds back, but not before the start.
pub open spec fn jump_backward_target(pos: int) -> int {
    if pos < 10_000 {
        0
    } else {
        pos - 10_000
    }
}

/// Whether the prefetch of the next track is due: under a minute of the
/// current one remains, counted in whole seconds.
pub open spec fn about_to_finish(duration_ms: int, pos_ms: int) -> bool {
    duration_ms / 1000 - pos_ms / 1000 < 60
}

/// The effects that report a failed device and fall back to the default.
pub open spec fn device_fallback_effects() -> Seq<Effect> {
    seq![
        Effect::PublishStatus(Status::Paused),
        Effect::SetSinkDevice(None),
        Effect::SaveAudioDevice(None),
        Effect::Notify(Notice::DeviceError),
    ]
}

/// The state and effects of `play_pause(sink_is_empty)`.
pub open spec fn play_pause_post(o: PlayerView, n: PlayerView, e: Seq<Effect>, sink_is_empty: bool) -> bool {
    if o.status != Status::Paused {
        n == (PlayerView { status: Status::Paused, ..o }) && e == seq![
            Effect::PublishStatus(Status::Paused),
            Effect::SinkPause,
        ]
    } else if sink_is_empty && o.tracklist.has_current() {
        n == (PlayerView { status: Status::Buffering, ..o }) && e == seq![
            Effect::PublishStatus(Status::Buffering),
            query(o.current(), false),
        ]
    } else {
        n == (PlayerView { status: Status::Playing, ..o }) && e == seq![
            Effect::PublishStatus(Status::Playing),
            Effect::SinkPlay,
        ]
    }
}

/// The effects of starting over on a tracklist: clear the sink, ask for the
/// current track if there is one, publish the tracklist.
pub open spec fn new_queue_effects(t: Tracklist) -> Seq<Effect> {
    seq![Effect::ClearSink] + (if t.has_current() {
        seq![query(t.queue@[t.cursor()], false)]
    } else {
        Seq::<Effect>::empty()
    }) + seq![Effect::PublishTracklist]
}

/// The effects of a cursor that moved past either end of the queue.
pub open spec fn stop_effects() -> Seq<Effect> {
    seq![
        Effect::ClearSink,
        Effect::PublishStatus(Status::Paused),
        Effect::PublishPosition(0),
        Effect::PublishTracklist,
    ]
}

/// The effects of a queue edit: drop what was chained, publish the tracklist,
/// then tell the user.
pub open spec fn queue_edit_effects(n: Notice) -> Seq<Effect> {
    seq![Effect::ClearSinkQueue, Effect::PublishTracklist, Effect::Notify(n)]
}

/// "Previous" within the first second moves back; later it restarts the track.
pub open spec fn restarts(old: PlayerView, new_position: int, force: bool) -> bool {
    !force && new_position < old.tracklist.cursor() && old.position_ms > 1000
}

/// The state and effects of `skip_to_position(new_position, force)`.
pub open spec fn skip_post(old: PlayerView, new: PlayerView, e: Seq<Effect>, new_position: int, force: bool) -> bool {
    let q = old.tracklist.queue@;
    if restarts(old, new_position, force) {
        new == (PlayerView { position_ms: 0, ..old }) && e == seq![Effect::Seek(0)]
    } else if 0 <= new_position < q.len() {
        &&& new.tracklist.queue@ == crate::tracklist::skipped_to(q, new_position)
        &&& new.tracklist.list_type == old.tracklist.list_type
        &&& new.status == old.status
        &&& new.position_ms == 0
        &&& !new.next_track_is_queried
        &&& !new.next_track_in_sink_queue
        &&& new.volume == old.volume && new.stretch == old.stretch
        &&& new.selected_device == old.selected_device
        &&& e == seq![Effect::PublishPosition(0)] + new_queue_effects(new.tracklist)
    } else {
        &&& new.tracklist.queue@ == crate::tracklist::reset_queue(q)
        &&& new.tracklist.list_type == old.tracklist.list_type
        &&& new.status == Status::Paused
        &&& new.position_ms == 0
        &&& !new.next_track_is_queried
        &&& new.next_track_in_sink_queue == old.next_track_in_sink_queue
        &&& new.volume == old.volume && new.stretch == old.stretch
        &&& new.selected_device == old.selected_device
        &&& e == seq![Effect::PublishPosition(0)] + stop_effects()
    }
}

/// Everything but the tracklist and the query flags is unchanged.
pub open spec fn same_settings(a: PlayerView, b: PlayerView) -> bool {
    &&& a.status == b.status
    &&& a.position_ms == b.position_ms
    &&& a.volume == b.volume
    &&& a.stretch == b.stretch
    &&& a.selected_device == b.selected_device
}

/// The tracks of `s` that can be streamed, in order.
pub open spec fn available_only(s: Seq<Track>) -> Seq<Track>
    decreases s.len(),
{
    if s.len() == 0 {
        s
    } else {
        let rest = available_only(s.drop_last());
        if s.last().available {
            rest.push(s.last())
        } else {
            rest
        }
    }
}

/// Where the track picked at `index` of `s` stands once unavailable tracks
/// are left out: `index` less the unavailable tracks before it.
pub open spec fn streamable_index(s: Seq<Track>, index: int) -> int {
    let k = if index < s.len() { index } else { s.len() as int };
    index - (k - available_only(s.take(k)).len())
}

/// The queue of a new tracklist after its cursor moves to `target`.
pub open spec fn started_at(q: Seq<Track>, target: int) -> Seq<Track> {
    if 0 <= target < q.len() {
        crate::tracklist::skipped_to(q, target)
    } else {
        crate::tracklist::reset_queue(q)
    }
}

/// The state after a new tracklist replaced the old one.
pub open spec fn replaced(old: PlayerView, new: PlayerView) -> bool {
    &&& same_settings(old, new)
    &&& !new.next_track_is_queried
    &&& !new.next_track_in_sink_queue
    &&& new.tracklist.wf()
}

/// Where a reloaded track starts: the current position, rescaled when the
/// ratio changed, or the start when nothing has played.
pub open spec fn reload_start(pos: int, old_ratio: Option<u32>, new_ratio: int) -> Option<u64> {
    if pos > 0 {
        match old_ratio {
            Some(r) => Some(rescaled(pos, r as int, new_ratio) as u64),
            None => Some(pos as u64),
        }
    } else {
        None
    }
}

pub fn reload_start_position(pos_ms: u64, old_ratio: Option<u32>, new_ratio: u32) -> (r: Option<u64>)
    requires
        crate::stretch::RATIO_MIN <= new_ratio,
        old_ratio matches Some(o) ==> o <= crate::stretch::RATIO_MAX,
        pos_ms <= MAX_POSITION_MS,
    ensures
        r == reload_start(pos_ms as int, old_ratio, new_ratio as int),
{
    if pos_ms > 0 {
        match old_ratio {
            Some(o) => Some(rescale_display_position(pos_ms, o, new_ratio)),
            None => Some(pos_ms),
        }
    } else {
        None
    }
}

/// Relies on rand's `SliceRandom::shuffle` with the thread's generator: it
/// only swaps elements, so the tracks come out in some order of the same tracks.
#[verifier::external_body]
fn shuffle_tracks(tracks: &mut Vec<Track>)
    ensures
        final(tracks)@.to_multiset() == old(tracks)@.to_multiset(),
{
    tracks.shuffle(&mut rand::rng());
}

/// The streamable tracks of `tracks`, and where the track picked at `index`
/// stands among them.
fn take_available(tracks: &Vec<Track>, index: usize) -> (r: (Vec<Track>, usize))
    ensures
        r.0@ == available_only(tracks@),
        r.1 == streamable_index(tracks@, index as int),
{
    let n = tracks.len();
    let k = if index < n { index } else { n };
    let mut kept: Vec<Track> = Vec::new();
    let mut kept_before: usize = 0;
    let mut i: usize = 0;
    while i < n
        invariant
            n == tracks@.len(),
            k <= n,
            0 <= i <= n,
            kept@ == available_only(tracks@.take(i as int)),
            kept_before == available_only(tracks@.take(if i < k { i as int } else { k as int })).len(),
            kept@.len() <= i,
            kept_before <= i,
        decreases n - i,
    {
        proof {
            assert(tracks@.take(i + 1).drop_last() =~= tracks@.take(i as int));
        }
        if tracks[i].available {
            kept.push(tracks[i].duplicate());
        }
        i = i + 1;
        if i <= k {
            kept_before = kept.len();
        }
    }
    assert(tracks@.take(n as int) =~= tracks@);
    proof {
        lemma_available_len(tracks@.take(k as int));
    }
    (kept, index - (k - kept_before))
}

proof fn lemma_available_len(s: Seq<Track>)
    ensures
        available_only(s).len() <= s.len(),
    decreases s.len(),
{
    if s.len() > 0 {
        lemma_available_len(s.drop_last());
    }
}

/// `name` is among the devices.
pub open spec fn device_listed(devices: Seq<AudioDevice>, name: String) -> bool {
    exists|i: int| 0 <= i < devices.len() && devices[i].name@ == name@
}

/// A device was named and is not among the devices.
pub open spec fn unknown_device(name: Option<String>, devices: Seq<AudioDevice>) -> bool {
    match name {
        Some(n) => !device_listed(devices, n),
        None => false,
    }
}

/// Whether a device of that name is among `devices`.
pub fn device_present(devices: &Vec<AudioDevice>, name: &String) -> (r: bool)
    ensures
        r == device_listed(devices@, *name),
{
    let mut i: usize = 0;
    while i < devices.len()
        invariant
            0 <= i <= devices@.len(),
            forall|j: int| 0 <= j < i ==> devices@[j].name@ != name@,
        decreases devices@.len() - i,
    {
        if crate::sink::same_text(devices[i].name.as_str(), name.as_str()) {
            return true;
        }
        i = i + 1;
    }
    false
}

impl Player {
    /// A paused engine over `tracklist` at `volume` (thousandths), with
    /// neutral stretch settings and the default device.
    pub fn new(tracklist: Tracklist, volume: u32) -> (r: Player)
        requires
            tracklist.wf(),
        ensures
            r@ == (PlayerView {
                tracklist,
                status: Status::Paused,
                position_ms: 0,
                volume,
                stretch: PlaybackStretchConfig { time_stretch_ratio: 1000, pitch_semitones: 0, pitch_cents: 0 },
                selected_device: None,
                next_track_is_queried: false,
                next_track_in_sink_queue: false,
            }),
            r@.wf(),
    {
        Player {
            tracklist,
            status: Status::Paused,
            position_ms: 0,
            volume,
            stretch: PlaybackStretchConfig::neutral(),
            selected_device: None,
            next_track_is_queried: false,
            next_track_in_sink_queue: false,
        }
    }

    pub fn tracklist(&self) -> (r: &Tracklist)
        ensures
            *r == self@.tracklist,
    {
        &self.tracklist
    }

    pub fn status(&self) -> (r: Status)
        ensures
            r == self@.status,
    {
        self.status
    }

    pub fn position_ms(&self) -> (r: u64)
        ensures
            r == self@.position_ms,
    {
        self.position_ms
    }

    pub fn volume(&self) -> (r: u32)
        ensures
            r == self@.volume,
    {
        self.volume
    }

    pub fn stretch(&self) -> (r: PlaybackStretchConfig)
        ensures
            r == self@.stretch,
    {
        self.stretch
    }

    pub fn selected_device(&self) -> (r: &Option<String>)
        ensures
            *r == self@.selected_device,
    {
        &self.selected_device
    }

    /// Records a position that the caller published itself.
    pub fn position_published(&mut self, position_ms: u64)
        ensures
            final(self)@ == (PlayerView { position_ms, ..old(self)@ }),
    {
        self.position_ms = position_ms;
    }

    /// Takes on the stored settings: the stretch settings, held to their
    /// ranges, and the saved device when there is one.
    pub fn restore_settings(&mut self, ratio: u32, semitones: i16, cents: i16, device: Option<String>) -> (e: Vec<Effect>)
        requires
            old(self)@.wf(),
        ensures
            final(self)@.wf(),
            final(self)@.stretch == (PlaybackStretchConfig {
                time_stretch_ratio: clamp_int(ratio as int, 500, 2000) as u32,
                pitch_semitones: clamp_int(semitones as int, -12, 12) as i16,
                pitch_cents: clamp_int(cents as int, -100, 100) as i16,
            }),
            device is Some ==> final(self)@.selected_device == device && e@ == seq![Effect::SetSinkDevice(device)],
            device is None ==> final(self)@.selected_device == old(self)@.selected_device && e@.len() == 0,
            final(self)@.tracklist == old(self)@.tracklist,
            final(self)@.status == old(self)@.status,
            final(self)@.position_ms == old(self)@.position_ms,
    {
        self.stretch = PlaybackStretchConfig {
            time_stretch_ratio: normalize_ratio(ratio),
            pitch_semitones: crate::stretch::clamp_semitones(semitones),
            pitch_cents: crate::stretch::clamp_cents(cents),
        };
        let mut e: Vec<Effect> = Vec::new();
        match device {
            Some(name) => {
                self.selected_device = Some(name.clone());
                e.push(Effect::SetSinkDevice(Some(name)));
            },
            None => {},
        }
        e
    }

    /// The current track's length as heard at the current ratio.
    pub fn current_display_duration(&self) -> (r: Option<u64>)
        requires
            self@.wf(),
        ensures
            self@.tracklist.has_current() ==> r == Some(self@.display_duration() as u64),
            !self@.tracklist.has_current() ==> r is None,
    {
        match self.tracklist.current_track() {
            Some(t) => Some(display_duration_ms(t.duration_seconds as u64 * 1000, self.stretch.time_stretch_ratio)),
            None => None,
        }
    }

    fn query_track(&mut self, track_id: u32, next: bool, e: &mut Vec<Effect>)
        ensures
            final(e)@ == old(e)@.push(Effect::QueryTrack { track_id, next }),
            final(self)@ == (PlayerView {
                next_track_is_queried: if next { true } else { old(self)@.next_track_is_queried },
                ..old(self)@
            }),
    {
        if next {
            self.next_track_is_queried = true;
        }
        e.push(Effect::QueryTrack { track_id, next });
    }

    fn set_status(&mut self, status: Status, e: &mut Vec<Effect>)
        ensures
            final(e)@ == old(e)@.push(Effect::PublishStatus(status)),
            final(self)@ == (PlayerView { status, ..old(self)@ }),
    {
        self.status = status;
        e.push(Effect::PublishStatus(status));
    }

    /// Pauses playback.
    pub fn pause(&mut self) -> (e: Vec<Effect>)
        ensures
            final(self)@ == (PlayerView { status: Status::Paused, ..old(self)@ }),
            e@ == seq![Effect::PublishStatus(Status::Paused), Effect::SinkPause],
    {
        let mut e: Vec<Effect> = Vec::new();
        self.set_status(Status::Paused, &mut e);
        e.push(Effect::SinkPause);
        e
    }

    /// Starts playback: when the sink holds nothing, the current track is
    /// fetched while buffering; otherwise the sink resumes.
    pub fn play(&mut self, sink_is_empty: bool) -> (e: Vec<Effect>)
        requires
            old(self)@.wf(),
        ensures
            final(self)@.wf(),
            sink_is_empty && old(self)@.tracklist.has_current() ==> final(self)@ == (PlayerView {
                status: Status::Buffering,
                ..old(self)@
            }) && e@ == seq![Effect::PublishStatus(Status::Buffering), query(old(self)@.current(), false)],
            !(sink_is_empty && old(self)@.tracklist.has_current()) ==> final(self)@ == (PlayerView {
                status: Status::Playing,
                ..old(self)@
            }) && e@ == seq![Effect::PublishStatus(Status::Playing), Effect::SinkPlay],
    {
        let mut e: Vec<Effect> = Vec::new();
        let current = match self.tracklist.current_track() {
            Some(t) => Some(t.id),
            None => None,
        };
        match current {
            Some(id) if sink_is_empty => {
                self.set_status(Status::Buffering, &mut e);
                self.query_track(id, false, &mut e);
            },
            _ => {
                self.set_status(Status::Playing, &mut e);
                e.push(Effect::SinkPlay);
            },
        }
        e
    }

    /// Pauses when playing or buffering, plays when paused.
    pub fn play_pause(&mut self, sink_is_empty: bool) -> (e: Vec<Effect>)
        requires
            old(self)@.wf(),
        ensures
            final(self)@.wf(),
            play_pause_post(old(self)@, final(self)@, e@, sink_is_empty),
    {
        match self.status {
            Status::Playing | Status::Buffering => self.pause(),
            Status::Paused => self.play(sink_is_empty),
        }
    }

    /// Seeks to `position_ms`.
    pub fn seek(&mut self, position_ms: u64) -> (e: Vec<Effect>)
        ensures
            final(self)@ == (PlayerView { position_ms, ..old(self)@ }),
            e@ == seq![Effect::Seek(position_ms)],
    {
        self.position_ms = position_ms;
        let mut e: Vec<Effect> = Vec::new();
        e.push(Effect::Seek(position_ms));
        e
    }

    /// Jumps ten seconds forward, stopping at the end of the track.
    pub fn jump_forward(&mut self, sink_position_ms: u64) -> (e: Vec<Effect>)
        requires
            old(self)@.wf(),
        ensures
            final(self)@.wf(),
            old(self)@.tracklist.has_current() ==> {
                let target = jump_forward_target(sink_position_ms as int, old(self)@.display_duration());
                final(self)@ == (PlayerView { position_ms: target as u64, ..old(self)@ })
                    && e@ == seq![Effect::Seek(target as u64)]
            },
            !old(self)@.tracklist.has_current() ==> final(self)@ == old(self)@ && e@.len() == 0,
    {
        match self.current_display_duration() {
            Some(duration) => {
                if sink_position_ms < duration && duration - sink_position_ms > JUMP_MS {
                    self.seek(sink_position_ms + JUMP_MS)
                } else {
                    self.seek(duration)
                }
            },
            None => Vec::new(),
        }
    }

    /// Jumps ten seconds back, stopping at the start of the track.
    pub fn jump_backward(&mut self, sink_position_ms: u64) -> (e: Vec<Effect>)
        ensures
            final(self)@ == (PlayerView {
                position_ms: jump_backward_target(sink_position_ms as int) as u64,
                ..old(self)@
            }),
            e@ == seq![Effect::Seek(jump_backward_target(sink_position_ms as int) as u64)],
    {
        if sink_position_ms < JUMP_MS {
            self.seek(0)
        } else {
            self.seek(sink_position_ms - JUMP_MS)
        }
    }

    /// Sets the volume, in thousandths.
    pub fn set_volume(&mut self, volume: u32) -> (e: Vec<Effect>)
        ensures
            final(self)@ == (PlayerView { volume, ..old(self)@ }),
            e@ == seq![Effect::PublishVolume(volume)],
    {
        self.volume = volume;
        let mut e: Vec<Effect> = Vec::new();
        e.push(Effect::PublishVolume(volume));
        e
    }

    fn device_failed(&mut self, e: &mut Vec<Effect>)
        ensures
            final(e)@ == old(e)@ + device_fallback_effects(),
            final(self)@ == (PlayerView { status: Status::Paused, selected_device: None, ..old(self)@ }),
    {
        self.set_status(Status::Paused, e);
        self.selected_device = None;
        e.push(Effect::SetSinkDevice(None));
        e.push(Effect::SaveAudioDevice(None));
        e.push(Effect::Notify(Notice::DeviceError));
        assert(e@ =~= old(e)@ + device_fallback_effects());
    }

    /// The sink's answer to a `QueryTrack`. On success playback starts, and
    /// for the next track it records whether it was chained gaplessly. A
    /// device failure falls back to the default device; another failure is
    /// reported.
    pub fn track_queried(&mut self, next: bool, outcome: SinkOutcome) -> (e: Vec<Effect>)
        requires
            old(self)@.wf(),
        ensures
            final(self)@.wf(),
            outcome matches SinkOutcome::Accepted(res) ==> final(self)@ == (PlayerView {
                status: Status::Playing,
                next_track_in_sink_queue: if next {
                    res == QueryTrackResult::Queued
                } else {
                    old(self)@.next_track_in_sink_queue
                },
                ..old(self)@
            }) && e@ == seq![Effect::SinkPlay, Effect::PublishStatus(Status::Playing)],
            outcome matches SinkOutcome::Failed(msg) ==> if is_device_message(msg@) {
                final(self)@ == (PlayerView { status: Status::Paused, selected_device: None, ..old(self)@ })
                    && e@ == device_fallback_effects()
            } else {
                final(self)@ == old(self)@ && e@ == seq![Effect::Notify(Notice::Error(msg))]
            },
    {
        let mut e: Vec<Effect> = Vec::new();
        match outcome {
            SinkOutcome::Accepted(res) => {
                if next {
                    self.next_track_in_sink_queue = match res {
                        QueryTrackResult::Queued => true,
                        QueryTrackResult::RecreateStreamRequired => false,
                    };
                }
                e.push(Effect::SinkPlay);
                self.set_status(Status::Playing, &mut e);
            },
            SinkOutcome::Failed(msg) => {
                if is_device_error(msg.as_str()) {
                    self.device_failed(&mut e);
                    assert(e@ =~= device_fallback_effects());
                } else {
                    e.push(Effect::Notify(Notice::Error(msg)));
                }
            },
        }
        e
    }

    /// The requested track is still downloading.
    pub fn track_buffering(&mut self) -> (e: Vec<Effect>)
        ensures
            final(self)@ == (PlayerView { status: Status::Buffering, ..old(self)@ }),
            e@ == seq![Effect::PublishStatus(Status::Buffering)],
    {
        let mut e: Vec<Effect> = Vec::new();
        self.set_status(Status::Buffering, &mut e);
        e
    }

    /// A download finished and the sink was handed the file: playback is on,
    /// and whether the track was chained is recorded.
    pub fn done_buffering(&mut self, outcome: SinkOutcome) -> (e: Vec<Effect>)
        requires
            old(self)@.wf(),
        ensures
            final(self)@.wf(),
            ({
                let start: Seq<Effect> = if old(self)@.status != Status::Playing {
                    seq![Effect::PublishStatus(Status::Playing)]
                } else {
                    Seq::empty()
                };
                &&& outcome matches SinkOutcome::Accepted(res) ==> final(self)@ == (PlayerView {
                    status: Status::Playing,
                    next_track_in_sink_queue: res == QueryTrackResult::Queued,
                    ..old(self)@
                }) && e@ == start
                &&& outcome matches SinkOutcome::Failed(msg) ==> if is_device_message(msg@) {
                    final(self)@ == (PlayerView { status: Status::Paused, selected_device: None, ..old(self)@ })
                        && e@ == start + seq![Effect::SinkPause] + device_fallback_effects()
                } else {
                    final(self)@ == (PlayerView { status: Status::Playing, ..old(self)@ })
                        && e@ == start.push(Effect::Notify(Notice::Error(msg)))
                }
            }),
    {
        let mut e: Vec<Effect> = Vec::new();
        if self.status != Status::Playing {
            self.set_status(Status::Playing, &mut e);
        }
        let ghost start = e@;
        match outcome {
            SinkOutcome::Accepted(res) => {
                self.next_track_in_sink_queue = match res {
                    QueryTrackResult::Queued => true,
                    QueryTrackResult::RecreateStreamRequired => false,
                };
            },
            SinkOutcome::Failed(msg) => {
                if is_device_error(msg.as_str()) {
                    e.push(Effect::SinkPause);
                    self.device_failed(&mut e);
                    assert(e@ =~= start + seq![Effect::SinkPause] + device_fallback_effects());
                } else {
                    e.push(Effect::Notify(Notice::Error(msg)));
                }
            },
        }
        e
    }

    /// Starts over on the engine's tracklist: nothing chained, nothing
    /// queried, the current track asked for, the tracklist published.
    fn new_queue(&mut self, e: &mut Vec<Effect>)
        requires
            old(self)@.wf(),
        ensures
            final(self)@ == (PlayerView {
                next_track_is_queried: false,
                next_track_in_sink_queue: false,
                ..old(self)@
            }),
            final(e)@ == old(e)@ + new_queue_effects(old(self)@.tracklist),
    {
        e.push(Effect::ClearSink);
        self.next_track_is_queried = false;
        self.next_track_in_sink_queue = false;
        let current = match self.tracklist.current_track() {
            Some(t) => Some(t.id),
            None => None,
        };
        match current {
            Some(id) => self.query_track(id, false, e),
            None => {},
        }
        e.push(Effect::PublishTracklist);
        assert(e@ =~= old(e)@ + new_queue_effects(old(self)@.tracklist));
    }

    fn skip_to(&mut self, new_position: i128, force: bool) -> (e: Vec<Effect>)
        requires
            old(self)@.wf(),
        ensures
            final(self)@.wf(),
            skip_post(old(self)@, final(self)@, e@, new_position as int, force),
    {
        let current = self.tracklist.current_position();
        if !force && new_position < current as i128 && self.position_ms > RESTART_THRESHOLD_MS {
            return self.seek(0);
        }
        let mut e: Vec<Effect> = Vec::new();
        e.push(Effect::PublishPosition(0));
        self.position_ms = 0;
        let moved = if new_position < 0 || new_position >= self.tracklist.total() as i128 {
            self.tracklist.reset();
            None
        } else {
            self.tracklist.skip_to_index(new_position as usize)
        };
        match moved {
            Some(_) => {
                self.new_queue(&mut e);
            },
            None => {
                e.push(Effect::ClearSink);
                self.next_track_is_queried = false;
                self.set_status(Status::Paused, &mut e);
                e.push(Effect::PublishPosition(0));
                e.push(Effect::PublishTracklist);
                assert(e@ =~= seq![Effect::PublishPosition(0)] + stop_effects());
            },
        }
        e
    }

    /// Moves the cursor to `new_position`. Moving backward more than a
    /// second into a track, unless forced, restarts the track instead.
    /// Outside the queue playback stops with no current track.
    pub fn skip_to_position(&mut self, new_position: i64, force: bool) -> (e: Vec<Effect>)
        requires
            old(self)@.wf(),
        ensures
            final(self)@.wf(),
            skip_post(old(self)@, final(self)@, e@, new_position as int, force),
    {
        self.skip_to(new_position as i128, force)
    }

    /// Skips to the next track.
    pub fn next(&mut self) -> (e: Vec<Effect>)
        requires
            old(self)@.wf(),
        ensures
            final(self)@.wf(),
            skip_post(old(self)@, final(self)@, e@, old(self)@.tracklist.cursor() + 1, true),
    {
        let current = self.tracklist.current_position();
        self.skip_to(current as i128 + 1, true)
    }

    /// Skips to the previous track, or restarts the current one when more
    /// than a second of it has played.
    pub fn previous(&mut self) -> (e: Vec<Effect>)
        requires
            old(self)@.wf(),
        ensures
            final(self)@.wf(),
            skip_post(old(self)@, final(self)@, e@, old(self)@.tracklist.cursor() - 1, false),
    {
        let current = self.tracklist.current_position();
        self.skip_to(current as i128 - 1, false)
    }

    /// The sink finished the current track. The cursor advances; when the next
    /// track was chained gaplessly nothing else is needed, otherwise it is
    /// asked for on a fresh sink. Past the end, playback stops.
    pub fn track_finished(&mut self) -> (e: Vec<Effect>)
        requires
            old(self)@.wf(),
        ensures
            final(self)@.wf(),
            ({
                let o = old(self)@;
                let n = final(self)@;
                let q = o.tracklist.queue@;
                let c = o.tracklist.cursor();
                &&& n.tracklist.list_type == o.tracklist.list_type
                &&& !n.next_track_is_queried
                &&& n.next_track_in_sink_queue == o.next_track_in_sink_queue
                &&& n.volume == o.volume && n.stretch == o.stretch && n.selected_device == o.selected_device
                &&& c + 1 < q.len() ==> {
                    &&& n.tracklist.queue@ == crate::tracklist::skipped_to(q, c + 1)
                    &&& n.status == o.status && n.position_ms == o.position_ms
                    &&& e@ == (if o.next_track_in_sink_queue {
                        Seq::<Effect>::empty()
                    } else {
                        seq![Effect::ClearSink, query(q[c + 1], false)]
                    }) + seq![Effect::PublishTracklist]
                }
                &&& c + 1 >= q.len() ==> {
                    &&& n.tracklist.queue@ == crate::tracklist::reset_queue(q)
                    &&& n.status == Status::Paused && n.position_ms == 0
                    &&& e@ == seq![
                        Effect::PublishStatus(Status::Paused),
                        Effect::SinkPause,
                        Effect::ClearSink,
                        Effect::PublishPosition(0),
                        Effect::PublishTracklist,
                    ]
                }
            }),
    {
        let mut e: Vec<Effect> = Vec::new();
        let current = self.tracklist.current_position();
        let moved = if current < self.tracklist.total() && current + 1 < self.tracklist.total() {
            self.tracklist.skip_to_index(current + 1)
        } else {
            self.tracklist.reset();
            None
        };
        match moved {
            Some(i) => {
                if !self.next_track_in_sink_queue {
                    e.push(Effect::ClearSink);
                    let id = self.tracklist.queue[i].id;
                    self.query_track(id, false, &mut e);
                }
            },
            None => {
                self.set_status(Status::Paused, &mut e);
                e.push(Effect::SinkPause);
                e.push(Effect::ClearSink);
                e.push(Effect::PublishPosition(0));
                self.position_ms = 0;
            },
        }
        self.next_track_is_queried = false;
        e.push(Effect::PublishTracklist);
        proof {
            let q = old(self)@.tracklist.queue@;
            let c = old(self)@.tracklist.cursor();
            if c + 1 < q.len() {
                if !old(self)@.next_track_in_sink_queue {
                    assert(e@ =~= seq![Effect::ClearSink, query(q[c + 1], false)] + seq![Effect::PublishTracklist]);
                } else {
                    assert(e@ =~= Seq::<Effect>::empty() + seq![Effect::PublishTracklist]);
                }
            }
        }
        e
    }

    /// The half-second tick: while playing, publishes the sink's position and,
    /// when under a minute of the track is left, asks for the next track once.
    pub fn tick(&mut self, sink_position_ms: u64) -> (e: Vec<Effect>)
        requires
            old(self)@.wf(),
        ensures
            final(self)@.wf(),
            old(self)@.status != Status::Playing ==> final(self)@ == old(self)@ && e@.len() == 0,
            old(self)@.status == Status::Playing ==> {
                let o = old(self)@;
                let due = o.tracklist.has_current() && about_to_finish(o.display_duration(), sink_position_ms as int)
                    && !o.next_track_is_queried && o.has_next();
                &&& due ==> final(self)@ == (PlayerView {
                    position_ms: sink_position_ms,
                    next_track_is_queried: true,
                    ..o
                }) && e@ == seq![Effect::PublishPosition(sink_position_ms), query(o.next(), true)]
                &&& !due ==> final(self)@ == (PlayerView { position_ms: sink_position_ms, ..o })
                    && e@ == seq![Effect::PublishPosition(sink_position_ms)]
            },
    {
        let mut e: Vec<Effect> = Vec::new();
        if self.status != Status::Playing {
            return e;
        }
        self.position_ms = sink_position_ms;
        e.push(Effect::PublishPosition(sink_position_ms));
        match self.current_display_duration() {
            Some(duration) => {
                if duration / 1000 < sink_position_ms / 1000 + PREFETCH_SECONDS && !self.next_track_is_queried {
                    let next = match self.tracklist.next_track() {
                        Some(t) => Some(t.id),
                        None => None,
                    };
                    match next {
                        Some(id) => self.query_track(id, true, &mut e),
                        None => {},
                    }
                }
            },
            None => {},
        }
        e
    }

    fn update_queue(&mut self, notice: Notice, e: &mut Vec<Effect>)
        ensures
            final(self)@ == (PlayerView { next_track_is_queried: false, ..old(self)@ }),
            final(e)@ == old(e)@ + queue_edit_effects(notice),
    {
        self.next_track_is_queried = false;
        e.push(Effect::ClearSinkQueue);
        e.push(Effect::PublishTracklist);
        e.push(Effect::Notify(notice));
        assert(e@ =~= old(e)@ + queue_edit_effects(notice));
    }

    /// Appends a track to the queue.
    pub fn add_track_to_queue(&mut self, track: Track) -> (e: Vec<Effect>)
        requires
            old(self)@.wf(),
        ensures
            final(self)@.wf(),
            final(self)@.tracklist.queue@ == old(self)@.tracklist.queue@.push(with_status(track, TrackStatus::Unplayed)),
            final(self)@.tracklist.list_type == old(self)@.tracklist.list_type,
            same_settings(old(self)@, final(self)@),
            !final(self)@.next_track_is_queried,
            final(self)@.next_track_in_sink_queue == old(self)@.next_track_in_sink_queue,
            e@ == queue_edit_effects(Notice::AddedToQueue(track.title)),
    {
        let mut e: Vec<Effect> = Vec::new();
        let title = track.title.clone();
        self.tracklist.push_track(track);
        self.update_queue(Notice::AddedToQueue(title), &mut e);
        e
    }

    /// Inserts a track right after the current one.
    pub fn play_track_next(&mut self, track: Track) -> (e: Vec<Effect>)
        requires
            old(self)@.wf(),
        ensures
            final(self)@.wf(),
            ({
                let q = old(self)@.tracklist.queue@;
                let at = if old(self)@.tracklist.cursor() + 1 <= q.len() { old(self)@.tracklist.cursor() + 1 } else { q.len() as int };
                final(self)@.tracklist.queue@ == q.insert(at, with_status(track, TrackStatus::Unplayed))
            }),
            final(self)@.tracklist.list_type == old(self)@.tracklist.list_type,
            same_settings(old(self)@, final(self)@),
            !final(self)@.next_track_is_queried,
            final(self)@.next_track_in_sink_queue == old(self)@.next_track_in_sink_queue,
            e@ == queue_edit_effects(Notice::PlayingNext(track.title)),
    {
        let mut e: Vec<Effect> = Vec::new();
        let title = track.title.clone();
        let current = self.tracklist.current_position();
        let len = self.tracklist.total();
        let at = if current < len { current + 1 } else { len };
        self.tracklist.insert_track(at, track);
        self.update_queue(Notice::PlayingNext(title), &mut e);
        e
    }

    /// Removes the track at `index`. Removing the current track first skips to
    /// the next one. An index outside the queue changes nothing.
    pub fn remove_index_from_queue(&mut self, index: usize) -> (e: Vec<Effect>)
        requires
            old(self)@.wf(),
        ensures
            final(self)@.wf(),
            index >= old(self)@.tracklist.queue@.len() ==> final(self)@ == old(self)@
                && e@ == seq![Effect::Notify(Notice::InvalidQueueEdit)],
            index < old(self)@.tracklist.queue@.len() && !(old(self)@.tracklist.has_current()
                && index == old(self)@.tracklist.cursor()) ==> {
                &&& final(self)@.tracklist.queue@ == old(self)@.tracklist.queue@.remove(index as int)
                &&& final(self)@.tracklist.list_type == old(self)@.tracklist.list_type
                &&& same_settings(old(self)@, final(self)@)
                &&& !final(self)@.next_track_is_queried
                &&& final(self)@.next_track_in_sink_queue == old(self)@.next_track_in_sink_queue
                &&& e@ == queue_edit_effects(Notice::QueueUpdated)
            },
            index < old(self)@.tracklist.queue@.len() && old(self)@.tracklist.has_current()
                && index == old(self)@.tracklist.cursor() ==> exists|mid: PlayerView, skip: Seq<Effect>| {
                &&& #[trigger] skip_post(old(self)@, mid, skip, old(self)@.tracklist.cursor() + 1, true)
                &&& final(self)@.tracklist.queue@ == mid.tracklist.queue@.remove(index as int)
                &&& final(self)@.tracklist.list_type == old(self)@.tracklist.list_type
                &&& same_settings(mid, final(self)@)
                &&& !final(self)@.next_track_is_queried
                &&& e@ == skip + queue_edit_effects(Notice::QueueUpdated)
            },
    {
        let len = self.tracklist.total();
        if index >= len {
            let mut e: Vec<Effect> = Vec::new();
            e.push(Effect::Notify(Notice::InvalidQueueEdit));
            return e;
        }
        let current = self.tracklist.current_track().is_some() && self.tracklist.current_position() == index;
        let mut e: Vec<Effect> = if current {
            self.next()
        } else {
            Vec::new()
        };
        let ghost mid = self@;
        let ghost skip = e@;
        self.tracklist.remove_track(index);
        self.update_queue(Notice::QueueUpdated, &mut e);
        proof {
            if current {
                let o = old(self)@;
                assert(skip_post(o, mid, skip, o.tracklist.cursor() + 1, true));
                assert(final(self)@.tracklist.queue@ == mid.tracklist.queue@.remove(index as int));
                assert(e@ == skip + queue_edit_effects(Notice::QueueUpdated));
            }
        }
        e
    }

    /// Puts the queue in the order `new_order` gives. The identity changes
    /// nothing; an order that is not a permutation of the queue's indices is
    /// refused.
    pub fn reorder_queue(&mut self, new_order: &Vec<usize>) -> (e: Vec<Effect>)
        requires
            old(self)@.wf(),
        ensures
            final(self)@.wf(),
            crate::tracklist::is_identity(new_order@) ==> final(self)@ == old(self)@ && e@.len() == 0,
            !crate::tracklist::is_identity(new_order@)
                && !crate::tracklist::is_permutation(new_order@, old(self)@.tracklist.queue@.len() as int)
                ==> final(self)@ == old(self)@ && e@ == seq![Effect::Notify(Notice::InvalidQueueEdit)],
            !crate::tracklist::is_identity(new_order@)
                && crate::tracklist::is_permutation(new_order@, old(self)@.tracklist.queue@.len() as int) ==> {
                &&& final(self)@.tracklist.queue@ == crate::tracklist::permuted(old(self)@.tracklist.queue@, new_order@)
                &&& final(self)@.tracklist.list_type == old(self)@.tracklist.list_type
                &&& same_settings(old(self)@, final(self)@)
                &&& !final(self)@.next_track_is_queried
                &&& final(self)@.next_track_in_sink_queue == old(self)@.next_track_in_sink_queue
                &&& e@ == queue_edit_effects(Notice::QueueUpdated)
            },
    {
        let mut e: Vec<Effect> = Vec::new();
        if crate::tracklist::check_identity(new_order) {
            return e;
        }
        if !crate::tracklist::check_permutation(new_order, self.tracklist.total()) {
            e.push(Effect::Notify(Notice::InvalidQueueEdit));
            return e;
        }
        self.tracklist.reorder(new_order);
        self.update_queue(Notice::QueueUpdated, &mut e);
        e
    }

    /// Replaces the tracklist by `queue` with cursor at `target` and starts
    /// over on it.
    fn start_tracklist(&mut self, queue: Vec<Track>, list_type: TracklistType, target: usize) -> (e: Vec<Effect>)
        requires
            old(self)@.wf(),
        ensures
            final(self)@.wf(),
            replaced(old(self)@, final(self)@),
            final(self)@.tracklist.queue@ == started_at(queue@, target as int),
            final(self)@.tracklist.list_type == list_type,
            e@ == new_queue_effects(final(self)@.tracklist),
    {
        let mut tracklist = Tracklist { queue, list_type };
        tracklist.skip_to_index(target);
        self.tracklist = tracklist;
        let mut e: Vec<Effect> = Vec::new();
        self.new_queue(&mut e);
        assert(e@ =~= new_queue_effects(self@.tracklist));
        e
    }

    /// Plays a single track.
    pub fn play_track(&mut self, track: Track) -> (e: Vec<Effect>)
        requires
            old(self)@.wf(),
        ensures
            final(self)@.wf(),
            replaced(old(self)@, final(self)@),
            final(self)@.tracklist.queue@ == seq![with_status(track, TrackStatus::Playing)],
            final(self)@.tracklist.list_type == TracklistType::Track(SingleTracklist {
                track_title: track.title,
                album_id: track.album_id,
                image: track.image,
            }),
            e@ == seq![Effect::ClearSink, query(track, false), Effect::PublishTracklist],
    {
        let list_type = TracklistType::Track(SingleTracklist {
            track_title: track.title.clone(),
            album_id: copy_text(&track.album_id),
            image: copy_text(&track.image),
        });
        let mut queue: Vec<Track> = Vec::new();
        queue.push(track);
        let e = self.start_tracklist(queue, list_type, 0);
        proof {
            assert(self@.tracklist.queue@ =~= seq![with_status(track, TrackStatus::Playing)]);
            assert(crate::tracklist::is_playing_at(self@.tracklist.queue@, 0));
            crate::tracklist::lemma_find_is_cursor(self@.tracklist.queue@, 0);
            assert(e@ =~= seq![Effect::ClearSink, query(track, false), Effect::PublishTracklist]);
        }
        e
    }

    /// Plays an album from the track at `index`; unavailable tracks are left out.
    pub fn play_album(&mut self, album: Album, index: usize) -> (e: Vec<Effect>)
        requires
            old(self)@.wf(),
        ensures
            final(self)@.wf(),
            replaced(old(self)@, final(self)@),
            final(self)@.tracklist.queue@ == started_at(available_only(album.tracks@), streamable_index(album.tracks@, index as int)),
            final(self)@.tracklist.list_type == TracklistType::Album(AlbumTracklist {
                title: album.title,
                id: album.id,
                image: Some(album.image),
            }),
            e@ == new_queue_effects(final(self)@.tracklist),
    {
        let (queue, target) = take_available(&album.tracks, index);
        let list_type = TracklistType::Album(AlbumTracklist { title: album.title, id: album.id, image: Some(album.image) });
        self.start_tracklist(queue, list_type, target)
    }

    /// Plays an artist's top tracks from the track at `index`; unavailable
    /// tracks are left out.
    pub fn play_top_tracks(&mut self, artist: ArtistPage, artist_id: u32, index: usize) -> (e: Vec<Effect>)
        requires
            old(self)@.wf(),
        ensures
            final(self)@.wf(),
            replaced(old(self)@, final(self)@),
            final(self)@.tracklist.queue@ == started_at(available_only(artist.top_tracks@), streamable_index(artist.top_tracks@, index as int)),
            final(self)@.tracklist.list_type == TracklistType::TopTracks(TopTracklist {
                artist_name: artist.name,
                id: artist_id,
                image: artist.image,
            }),
            e@ == new_queue_effects(final(self)@.tracklist),
    {
        let (queue, target) = take_available(&artist.top_tracks, index);
        let list_type = TracklistType::TopTracks(TopTracklist { artist_name: artist.name, id: artist_id, image: artist.image });
        self.start_tracklist(queue, list_type, target)
    }

    /// Plays a playlist from the track at `index`, unavailable tracks left
    /// out; shuffled, the same tracks come in some order and the cursor stays
    /// at that index of the shuffled queue.
    pub fn play_playlist(&mut self, playlist: Playlist, index: usize, shuffle: bool) -> (e: Vec<Effect>)
        requires
            old(self)@.wf(),
        ensures
            final(self)@.wf(),
            replaced(old(self)@, final(self)@),
            !shuffle ==> final(self)@.tracklist.queue@ == started_at(available_only(playlist.tracks@), streamable_index(playlist.tracks@, index as int)),
            shuffle ==> exists|order: Seq<Track>| {
                &&& #[trigger] order.to_multiset() == available_only(playlist.tracks@).to_multiset()
                &&& final(self)@.tracklist.queue@ == started_at(order, streamable_index(playlist.tracks@, index as int))
            },
            final(self)@.tracklist.list_type == TracklistType::Playlist(PlaylistTracklist {
                title: playlist.title,
                id: playlist.id,
                image: playlist.image,
            }),
            e@ == new_queue_effects(final(self)@.tracklist),
    {
        let (mut queue, target) = take_available(&playlist.tracks, index);
        let ghost kept = queue@;
        if shuffle {
            shuffle_tracks(&mut queue);
        }
        let ghost order = queue@;
        let list_type = TracklistType::Playlist(PlaylistTracklist { title: playlist.title, id: playlist.id, image: playlist.image });
        let e = self.start_tracklist(queue, list_type, target);
        proof {
            if shuffle {
                assert(order.to_multiset() == available_only(playlist.tracks@).to_multiset());
            }
        }
        e
    }

    /// Reloads the current track on a new stream, when playing.
    fn reload_current_track(&mut self, old_ratio: Option<u32>, e: &mut Vec<Effect>)
        ensures
            final(self)@ == old(self)@,
            old(self)@.status == Status::Playing && old(self)@.tracklist.has_current() ==> final(e)@ == old(e)@.push(
                Effect::ReloadTrack { track_id: old(self)@.current().id, old_ratio },
            ),
            !(old(self)@.status == Status::Playing && old(self)@.tracklist.has_current()) ==> final(e)@ == old(e)@,
    {
        if self.status != Status::Playing {
            return;
        }
        match self.tracklist.current_track() {
            Some(t) => e.push(Effect::ReloadTrack { track_id: t.id, old_ratio }),
            None => {},
        }
    }

    /// Sets the time-stretch ratio (thousandths), held to `[0.5, 2.0]`. A
    /// source that stretches live keeps playing: the published position moves
    /// to the equivalent point `p * old / new`. Otherwise the track reloads.
    pub fn set_time_stretch(&mut self, ratio: u32, sink_position_ms: u64, live: bool) -> (e: Vec<Effect>)
        requires
            old(self)@.wf(),
            sink_position_ms <= MAX_POSITION_MS,
        ensures
            final(self)@.wf(),
            ({
                let o = old(self)@;
                let new_ratio = clamp_int(ratio as int, 500, 2000);
                let stretch = PlaybackStretchConfig { time_stretch_ratio: new_ratio as u32, ..o.stretch };
                let desired = rescaled(sink_position_ms as int, o.stretch.time_stretch_ratio as int, new_ratio);
                let told = seq![Effect::Notify(Notice::TimeStretchSet(new_ratio as u32))];
                &&& live && sink_position_ms > 0 ==> final(self)@ == (PlayerView { stretch, position_ms: desired as u64, ..o })
                    && e@ == told + seq![
                        Effect::AdjustPositionOffset((desired - sink_position_ms) as i64),
                        Effect::PublishPosition(desired as u64),
                    ]
                &&& live && sink_position_ms == 0 ==> final(self)@ == (PlayerView { stretch, ..o }) && e@ == told
                &&& !live ==> final(self)@ == (PlayerView { stretch, ..o })
                    && e@ == told + (if o.status == Status::Playing && o.tracklist.has_current() {
                        seq![Effect::ReloadTrack { track_id: o.current().id, old_ratio: Some(o.stretch.time_stretch_ratio) }]
                    } else {
                        Seq::<Effect>::empty()
                    })
            }),
    {
        let ratio = normalize_ratio(ratio);
        let old_ratio = self.stretch.time_stretch_ratio;
        self.stretch.time_stretch_ratio = ratio;
        let mut e: Vec<Effect> = Vec::new();
        e.push(Effect::Notify(Notice::TimeStretchSet(ratio)));
        let ghost told = e@;
        if live && sink_position_ms > 0 {
            let desired = rescale_display_position(sink_position_ms, old_ratio, ratio);
            proof {
                assert(desired <= sink_position_ms * 4) by (nonlinear_arith)
                    requires desired as int == (sink_position_ms as int) * (old_ratio as int) / (ratio as int), old_ratio <= 2000, ratio >= 500;
            }
            let delta: i64 = desired as i64 - sink_position_ms as i64;
            e.push(Effect::AdjustPositionOffset(delta));
            e.push(Effect::PublishPosition(desired));
            self.position_ms = desired;
            assert(e@ =~= told + seq![Effect::AdjustPositionOffset(delta), Effect::PublishPosition(desired)]);
        } else if !live {
            self.reload_current_track(Some(old_ratio), &mut e);
            assert(e@ =~= told + (if old(self)@.status == Status::Playing && old(self)@.tracklist.has_current() {
                seq![Effect::ReloadTrack { track_id: old(self)@.current().id, old_ratio: Some(old_ratio) }]
            } else {
                Seq::<Effect>::empty()
            }));
        }
        e
    }

    /// Sets the pitch shift in semitones, held to `[-12, 12]`; a source that
    /// cannot stretch live reloads.
    pub fn set_pitch(&mut self, semitones: i16, live: bool) -> (e: Vec<Effect>)
        requires
            old(self)@.wf(),
        ensures
            final(self)@.wf(),
            ({
                let o = old(self)@;
                let s = clamp_int(semitones as int, -12, 12) as i16;
                &&& final(self)@ == (PlayerView { stretch: PlaybackStretchConfig { pitch_semitones: s, ..o.stretch }, ..o })
                &&& e@ == seq![Effect::Notify(Notice::PitchSet(s))] + (if !live && o.status == Status::Playing && o.tracklist.has_current() {
                    seq![Effect::ReloadTrack { track_id: o.current().id, old_ratio: None }]
                } else {
                    Seq::<Effect>::empty()
                })
            }),
    {
        let semitones = clamp_semitones(semitones);
        self.stretch.pitch_semitones = semitones;
        let mut e: Vec<Effect> = Vec::new();
        e.push(Effect::Notify(Notice::PitchSet(semitones)));
        let ghost told = e@;
        if !live {
            self.reload_current_track(None, &mut e);
        }
        assert(e@ =~= told + (if !live && old(self)@.status == Status::Playing && old(self)@.tracklist.has_current() {
            seq![Effect::ReloadTrack { track_id: old(self)@.current().id, old_ratio: None }]
        } else {
            Seq::<Effect>::empty()
        }));
        e
    }

    /// Sets the fine pitch shift in cents, held to `[-100, 100]`; a source
    /// that cannot stretch live reloads.
    pub fn set_pitch_cents(&mut self, cents: i16, live: bool) -> (e: Vec<Effect>)
        requires
            old(self)@.wf(),
        ensures
            final(self)@.wf(),
            ({
                let o = old(self)@;
                let c = clamp_int(cents as int, -100, 100) as i16;
                &&& final(self)@ == (PlayerView { stretch: PlaybackStretchConfig { pitch_cents: c, ..o.stretch }, ..o })
                &&& e@ == seq![Effect::Notify(Notice::PitchCentsSet(c))] + (if !live && o.status == Status::Playing && o.tracklist.has_current() {
                    seq![Effect::ReloadTrack { track_id: o.current().id, old_ratio: None }]
                } else {
                    Seq::<Effect>::empty()
                })
            }),
    {
        let cents = clamp_cents(cents);
        self.stretch.pitch_cents = cents;
        let mut e: Vec<Effect> = Vec::new();
        e.push(Effect::Notify(Notice::PitchCentsSet(cents)));
        let ghost told = e@;
        if !live {
            self.reload_current_track(None, &mut e);
        }
        assert(e@ =~= told + (if !live && old(self)@.status == Status::Playing && old(self)@.tracklist.has_current() {
            seq![Effect::ReloadTrack { track_id: old(self)@.current().id, old_ratio: None }]
        } else {
            Seq::<Effect>::empty()
        }));
        e
    }

    /// Selects the output device, after the choice was stored. A name that is
    /// not among `devices` falls back to the default. While playing or
    /// buffering, the current track reopens on the new device from where it
    /// was; otherwise the sink lets go of its stream.
    pub fn set_audio_device(&mut self, device_name: Option<String>, devices: &Vec<AudioDevice>, sink_position_ms: u64)
        -> (e: Vec<Effect>)
        requires
            old(self)@.wf(),
        ensures
            final(self)@.wf(),
            ({
                let o = old(self)@;
                let done = seq![Effect::Notify(Notice::OutputChanged(device_name))];
                &&& unknown_device(device_name, devices@) ==> {
                    &&& final(self)@ == (PlayerView { selected_device: None, ..o })
                    &&& e@ == seq![Effect::Notify(Notice::DeviceNotFound(device_name->0)), Effect::SetSinkDevice(None)] + done
                }
                &&& !unknown_device(device_name, devices@) ==> {
                    &&& final(self)@ == (PlayerView { selected_device: device_name, ..o })
                    &&& e@ == seq![Effect::SetSinkDevice(device_name)] + (if o.status != Status::Paused {
                        if o.tracklist.has_current() {
                            seq![Effect::SwitchDevicePlayback { track_id: o.current().id, resume_at_ms: sink_position_ms }]
                        } else {
                            Seq::<Effect>::empty()
                        }
                    } else {
                        seq![Effect::ClearSink]
                    }) + done
                }
            }),
    {
        let mut e: Vec<Effect> = Vec::new();
        let done = Effect::Notify(Notice::OutputChanged(match &device_name {
            Some(n) => Some(n.clone()),
            None => None,
        }));
        match &device_name {
            Some(name) => {
                if !device_present(devices, name) {
                    e.push(Effect::Notify(Notice::DeviceNotFound(name.clone())));
                    self.selected_device = None;
                    e.push(Effect::SetSinkDevice(None));
                    e.push(done);
                    return e;
                }
            },
            None => {},
        }
        let selected = match &device_name {
            Some(n) => Some(n.clone()),
            None => None,
        };
        self.selected_device = selected;
        e.push(Effect::SetSinkDevice(device_name));
        let ghost head = e@;
        if self.status != Status::Paused {
            match self.tracklist.current_track() {
                Some(t) => e.push(Effect::SwitchDevicePlayback { track_id: t.id, resume_at_ms: sink_position_ms }),
                None => {},
            }
        } else {
            e.push(Effect::ClearSink);
        }
        let ghost middle = e@.subrange(1, e@.len() as int);
        e.push(done);
        assert(e@ =~= head + middle + seq![done]);
        e
    }

    /// How reopening the current track on the new device went. Restarted, it
    /// plays, and a position past the first second is restored after the new
    /// stream settles. Otherwise playback pauses and the user is told.
    pub fn device_switch_finished(&mut self, outcome: DeviceSwitch, resume_at_ms: u64) -> (e: Vec<Effect>)
        requires
            old(self)@.wf(),
        ensures
            final(self)@.wf(),
            outcome == DeviceSwitch::Restarted && resume_at_ms > 1000 ==> final(self)@ == (PlayerView {
                status: Status::Playing,
                position_ms: resume_at_ms,
                ..old(self)@
            }) && e@ == seq![
                Effect::SinkPlay,
                Effect::PublishStatus(Status::Playing),
                Effect::Wait(200),
                Effect::Seek(resume_at_ms),
            ],
            outcome == DeviceSwitch::Restarted && resume_at_ms <= 1000 ==> final(self)@ == (PlayerView {
                status: Status::Playing,
                ..old(self)@
            }) && e@ == seq![Effect::SinkPlay, Effect::PublishStatus(Status::Playing)],
            outcome == DeviceSwitch::Failed ==> final(self)@ == (PlayerView { status: Status::Paused, ..old(self)@ })
                && e@ == seq![Effect::PublishStatus(Status::Paused), Effect::Notify(Notice::DeviceSwitchFailed)],
            outcome == DeviceSwitch::NotDownloaded ==> final(self)@ == (PlayerView {
                status: Status::Paused,
                ..old(self)@
            }) && e@ == seq![
                Effect::SinkPause,
                Effect::ClearSink,
                Effect::PublishStatus(Status::Paused),
                Effect::Notify(Notice::DeviceChangedResume),
            ],
    {
        let mut e: Vec<Effect> = Vec::new();
        match outcome {
            DeviceSwitch::Restarted => {
                e.push(Effect::SinkPlay);
                self.set_status(Status::Playing, &mut e);
                if resume_at_ms > RESTART_THRESHOLD_MS {
                    e.push(Effect::Wait(DEVICE_SETTLE_MS));
                    e.push(Effect::Seek(resume_at_ms));
                    self.position_ms = resume_at_ms;
                }
            },
            DeviceSwitch::Failed => {
                self.set_status(Status::Paused, &mut e);
                e.push(Effect::Notify(Notice::DeviceSwitchFailed));
            },
            DeviceSwitch::NotDownloaded => {
                e.push(Effect::SinkPause);
                e.push(Effect::ClearSink);
                self.set_status(Status::Paused, &mut e);
                e.push(Effect::Notify(Notice::DeviceChangedResume));
            },
        }
        e
    }
}

/// Play/pause pressed twice while playing: the first press pauses, leaving
/// the track in the sink, so the second resumes it, back to playing at the
/// same published position with the same tracklist.
pub proof fn law_play_pause_twice(
    start: PlayerView,
    paused: PlayerView,
    resumed: PlayerView,
    first: Seq<Effect>,
    second: Seq<Effect>,
    first_sink_empty: bool,
)
    requires
        start.status == Status::Playing,
        play_pause_post(start, paused, first, first_sink_empty),
        play_pause_post(paused, resumed, second, false),
    ensures
        paused.status == Status::Paused,
        resumed.status == Status::Playing,
        resumed.position_ms == start.position_ms,
        resumed.tracklist == start.tracklist,
        second == seq![Effect::PublishStatus(Status::Playing), Effect::SinkPlay],
{
}

/// Whatever the queue, a reorder by the identity leaves it as it was.
pub proof fn law_identity_reorder(q: Seq<Track>, perm: Seq<usize>)
    requires
        crate::tracklist::is_identity(perm),
        perm.len() == q.len(),
    ensures
        crate::tracklist::permuted(q, perm) == q,
{
    assert(crate::tracklist::permuted(q, perm) =~= q);
}

/// Under the engine's invariant, exactly one track is playing when the
/// tracklist has a current track, which then lies inside the queue, and none
/// otherwise.
pub proof fn law_single_playing(p: PlayerView)
    requires
        p.wf(),
    ensures
        crate::tracklist::playing_count(p.tracklist.queue@) == if p.tracklist.has_current() { 1nat } else { 0nat },
        p.tracklist.has_current() ==> 0 <= p.tracklist.cursor() < p.tracklist.queue@.len()
            && p.current().status == TrackStatus::Playing,
{
    crate::tracklist::lemma_playing_count(p.tracklist.queue@);
    crate::tracklist::lemma_find_bounds(p.tracklist.queue@, 0);
}

/// Stretch settings, whatever was asked for, end up in range once held to
/// their bounds: `[0.5, 2.0]`, `[-12, 12]` semitones, `[-100, 100]` cents.
pub proof fn law_settings_in_range(ratio: int, semitones: int, cents: int)
    ensures
        500 <= clamp_int(ratio, 500, 2000) <= 2000,
        -12 <= clamp_int(semitones, -12, 12) <= 12,
        -100 <= clamp_int(cents, -100, 100) <= 100,
        500 <= ratio <= 2000 ==> clamp_int(ratio, 500, 2000) == ratio,
{
}

} // verus!
