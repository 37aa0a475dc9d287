//! The ordered queue of tracks with its cursor: the track marked `Playing`.

use vstd::prelude::*;
use crate::models::{Track, TrackStatus};

verus! {

#[derive(Debug, Clone, PartialEq)]
pub struct SingleTracklist {
    pub track_title: String,
    pub album_id: Option<String>,
    pub image: Option<String>,
}

#[derive(Debug, Clone, PartialEq)]
pub struct AlbumTracklist {
    pub title: String,
    pub id: String,
    pub image: Option<String>,
}

#[derive(Debug, Clone, PartialEq)]
pub struct PlaylistTracklist {
    pub title: String,
    pub id: u32,
    pub image: Option<String>,
}

#[derive(Debug, Clone, PartialEq)]
pub struct TopTracklist {
    pub artist_name: String,
    pub id: u32,
    pub image: Option<String>,
}

/// Why a tracklist exists; it affects only what observers display. `Queue`
/// is a queue built by hand, with no origin.
#[derive(Debug, Clone, PartialEq)]
pub enum TracklistType {
    Album(AlbumTracklist),
    Playlist(PlaylistTracklist),
    TopTracks(TopTracklist),
    Track(SingleTracklist),
    Queue,
}

#[derive(Debug, Clone, PartialEq)]
pub struct Tracklist {
    pub queue: Vec<Track>,
    pub list_type: TracklistType,
}

/// Whether the track at `i` of `q` is the one playing.
pub open spec fn is_playing_at(q: Seq<Track>, i: int) -> bool {
    0 <= i < q.len() && q[i].status == TrackStatus::Playing
}

/// The first index at or after `i` whose track is playing, or `q.len()`.
pub open spec fn find_playing(q: Seq<Track>, i: int) -> int
    decreases q.len() - i,
{
    if i < 0 || i >= q.len() {
        q.len() as int
    } else if q[i].status == TrackStatus::Playing {
        i
    } else {
        find_playing(q, i + 1)
    }
}

/// How many tracks of `q` are marked playing.
pub open spec fn playing_count(q: Seq<Track>) -> nat
    decreases q.len(),
{
    if q.len() == 0 {
        0
    } else {
        playing_count(q.drop_last()) + if q.last().status == TrackStatus::Playing {
            1nat
        } else {
            0nat
        }
    }
}

/// At most one track is playing.
pub open spec fn single_cursor(q: Seq<Track>) -> bool {
    forall|i: int, j: int| is_playing_at(q, i) && is_playing_at(q, j) ==> i == j
}

/// `t` with its status replaced.
pub open spec fn with_status(t: Track, s: TrackStatus) -> Track {
    Track { status: s, ..t }
}

/// The queue after the cursor moves to `i`: earlier tracks played, later ones
/// unplayed.
pub open spec fn skipped_to(q: Seq<Track>, i: int) -> Seq<Track> {
    Seq::new(
        q.len(),
        |j: int|
            with_status(
                q[j],
                if j < i {
                    TrackStatus::Played
                } else if j == i {
                    TrackStatus::Playing
                } else {
                    TrackStatus::Unplayed
                },
            ),
    )
}

/// The queue with no cursor: every track unplayed.
pub open spec fn reset_queue(q: Seq<Track>) -> Seq<Track> {
    Seq::new(q.len(), |j: int| with_status(q[j], TrackStatus::Unplayed))
}

/// `perm` lists each index of `0..n` exactly once.
pub open spec fn is_permutation(perm: Seq<usize>, n: int) -> bool {
    &&& perm.len() == n
    &&& forall|k: int| 0 <= k < n ==> perm[k] < n
    &&& forall|a: int, b: int| 0 <= a < b < n ==> perm[a] != perm[b]
}

/// `perm` leaves every index where it is.
pub open spec fn is_identity(perm: Seq<usize>) -> bool {
    forall|k: int| 0 <= k < perm.len() ==> perm[k] == k
}

/// `q` rearranged by `perm`: position `k` holds what stood at `perm[k]`.
pub open spec fn permuted(q: Seq<Track>, perm: Seq<usize>) -> Seq<Track> {
    Seq::new(perm.len(), |k: int| q[perm[k] as int])
}

/// Whether `perm` lists each index of `0..n` exactly once.
pub fn check_permutation(perm: &Vec<usize>, n: usize) -> (r: bool)
    ensures
        r == is_permutation(perm@, n as int),
{
    if perm.len() != n {
        return false;
    }
    let mut seen: Vec<bool> = Vec::new();
    let mut i: usize = 0;
    while i < n
        invariant
            0 <= i <= n,
            seen@.len() == i,
            forall|v: int| 0 <= v < i ==> !seen@[v],
        decreases n - i,
    {
        seen.push(false);
        i = i + 1;
    }
    let mut k: usize = 0;
    while k < n
        invariant
            perm@.len() == n,
            seen@.len() == n,
            0 <= k <= n,
            forall|a: int| 0 <= a < k ==> perm@[a] < n,
            forall|a: int, b: int| 0 <= a < b < k ==> perm@[a] != perm@[b],
            forall|v: int| 0 <= v < n ==> (seen@[v] <==> exists|a: int| 0 <= a < k && perm@[a] == v),
        decreases n - k,
    {
        let v = perm[k];
        if v >= n {
            return false;
        }
        if seen[v] {
            let ghost a = choose|a: int| 0 <= a < k && perm@[a] == v;
            assert(perm@[a] == perm@[k as int]);
            return false;
        }
        seen.set(v, true);
        k = k + 1;
        assert forall|w: int| 0 <= w < n implies (seen@[w] <==> exists|a: int| 0 <= a < k && perm@[a] == w) by {
            if w == v {
                assert(perm@[k - 1] == w);
            } else if seen@[w] {
                let a = choose|a: int| 0 <= a < k - 1 && perm@[a] == w;
                assert(0 <= a < k && perm@[a] == w);
            }
        }
    }
    true
}

/// Whether `perm` leaves every index where it is.
pub fn check_identity(perm: &Vec<usize>) -> (r: bool)
    ensures
        r == is_identity(perm@),
{
    let mut k: usize = 0;
    while k < perm.len()
        invariant
            0 <= k <= perm@.len(),
            forall|a: int| 0 <= a < k ==> perm@[a] == a,
        decreases perm@.len() - k,
    {
        if perm[k] != k {
            return false;
        }
        k = k + 1;
    }
    true
}

/// Every index `< k` is not playing.
proof fn lemma_find_skips(q: Seq<Track>, k: int)
    requires
        0 <= k <= q.len(),
        forall|j: int| 0 <= j < k ==> !is_playing_at(q, j),
    ensures
        find_playing(q, 0) == find_playing(q, k),
    decreases k,
{
    if k > 0 {
        assert(!is_playing_at(q, k - 1));
        lemma_find_skips(q, k - 1);
    }
}

/// `find_playing` lands on a playing track, or on the end with none after `i`.
pub proof fn lemma_find_bounds(q: Seq<Track>, i: int)
    requires
        0 <= i,
    ensures
        i <= find_playing(q, i) <= q.len() || (i > q.len() && find_playing(q, i) == q.len()),
        find_playing(q, i) < q.len() ==> is_playing_at(q, find_playing(q, i)),
        forall|j: int| i <= j < find_playing(q, i) ==> !is_playing_at(q, j),
    decreases q.len() - i,
{
    if i < q.len() && q[i].status != TrackStatus::Playing {
        lemma_find_bounds(q, i + 1);
    }
}

/// Under a single cursor, the playing track is the one `find_playing` finds.
pub proof fn lemma_find_is_cursor(q: Seq<Track>, c: int)
    requires
        single_cursor(q),
        is_playing_at(q, c),
    ensures
        find_playing(q, 0) == c,
{
    lemma_find_bounds(q, 0);
}

/// With a single cursor, exactly zero or one track is playing.
pub proof fn lemma_playing_count(q: Seq<Track>)
    requires
        single_cursor(q),
    ensures
        playing_count(q) == if find_playing(q, 0) < q.len() { 1nat } else { 0nat },
    decreases q.len(),
{
    lemma_find_bounds(q, 0);
    if q.len() > 0 {
        let p = q.drop_last();
        assert(single_cursor(p)) by {
            assert forall|i: int, j: int| is_playing_at(p, i) && is_playing_at(p, j) implies i == j by {
                assert(is_playing_at(q, i) && is_playing_at(q, j));
            }
        }
        lemma_playing_count(p);
        lemma_find_bounds(p, 0);
        let n = q.len() - 1;
        if q.last().status == TrackStatus::Playing {
            assert(is_playing_at(q, n));
            if find_playing(p, 0) < p.len() {
                assert(is_playing_at(q, find_playing(p, 0)));
            }
        } else {
            if find_playing(q, 0) < q.len() {
                let c = find_playing(q, 0);
                assert(c != n);
                assert(is_playing_at(p, c));
                assert(find_playing(p, 0) < p.len());
            }
            if find_playing(p, 0) < p.len() {
                assert(is_playing_at(q, find_playing(p, 0)));
            }
        }
    }
}

impl Tracklist {
    pub open spec fn len(self) -> nat {
        self.queue@.len()
    }

    /// At most one track of the queue is playing.
    pub open spec fn wf(self) -> bool {
        single_cursor(self.queue@)
    }

    /// Some track is playing.
    pub open spec fn has_current(self) -> bool {
        find_playing(self.queue@, 0) < self.queue@.len()
    }

    /// The index of the playing track, or 0 when none is.
    pub open spec fn cursor(self) -> int {
        if self.has_current() {
            find_playing(self.queue@, 0)
        } else {
            0
        }
    }

    /// An empty tracklist with no origin.
    pub fn empty() -> (r: Tracklist)
        ensures
            r.queue@.len() == 0,
            r.list_type is Queue,
            r.wf(),
    {
        Tracklist { queue: Vec::new(), list_type: TracklistType::Queue }
    }

    pub fn total(&self) -> (r: usize)
        ensures
            r == self.queue@.len(),
    {
        self.queue.len()
    }

    pub fn list_type(&self) -> (r: &TracklistType)
        ensures
            *r == self.list_type,
    {
        &self.list_type
    }

    /// Index of the first playing track, or `None`.
    fn playing_index(&self) -> (r: Option<usize>)
        ensures
            r is Some <==> self.has_current(),
            r is Some ==> r->0 == find_playing(self.queue@, 0) && r->0 < self.queue@.len(),
    {
        proof {
            lemma_find_bounds(self.queue@, 0);
        }
        let mut i: usize = 0;
        while i < self.queue.len()
            invariant
                0 <= i <= self.queue@.len(),
                forall|j: int| 0 <= j < i ==> !is_playing_at(self.queue@, j),
            decreases self.queue@.len() - i,
        {
            if self.queue[i].status == TrackStatus::Playing {
                proof {
                    lemma_find_skips(self.queue@, i as int);
                }
                return Some(i);
            }
            i = i + 1;
        }
        proof {
            lemma_find_skips(self.queue@, i as int);
        }
        None
    }

    /// The cursor: the index of the playing track, or 0 when none is.
    pub fn current_position(&self) -> (r: usize)
        ensures
            r == self.cursor(),
            self.has_current() ==> r < self.queue@.len(),
            !self.has_current() ==> r == 0,
    {
        proof {
            lemma_find_bounds(self.queue@, 0);
        }
        match self.playing_index() {
            Some(i) => i,
            None => 0,
        }
    }

    /// The playing track, if any.
    pub fn current_track(&self) -> (r: Option<&Track>)
        ensures
            self.has_current() ==> r == Some(&self.queue@[self.cursor()]),
            !self.has_current() ==> r is None,
    {
        proof {
            lemma_find_bounds(self.queue@, 0);
        }
        match self.playing_index() {
            Some(i) => Some(&self.queue[i]),
            None => None,
        }
    }

    /// The track after the cursor, if any.
    pub fn next_track(&self) -> (r: Option<&Track>)
        ensures
            self.cursor() + 1 < self.queue@.len() ==> r == Some(&self.queue@[self.cursor() + 1]),
            self.cursor() + 1 >= self.queue@.len() ==> r is None,
    {
        proof {
            lemma_find_bounds(self.queue@, 0);
        }
        let c = self.current_position();
        if c < self.queue.len() && c + 1 < self.queue.len() {
            Some(&self.queue[c + 1])
        } else {
            None
        }
    }

    fn set_status(&mut self, i: usize, s: TrackStatus)
        requires
            i < old(self).queue@.len(),
        ensures
            final(self).queue@ == old(self).queue@.update(i as int, with_status(old(self).queue@[i as int], s)),
            final(self).list_type == old(self).list_type,
    {
        let mut t = self.queue.remove(i);
        t.status = s;
        self.queue.insert(i, t);
        assert(self.queue@ =~= old(self).queue@.update(i as int, with_status(old(self).queue@[i as int], s)));
    }

    /// Clears the cursor: every track becomes unplayed.
    pub fn reset(&mut self)
        ensures
            final(self).queue@ == reset_queue(old(self).queue@),
            final(self).list_type == old(self).list_type,
            final(self).wf(),
            !final(self).has_current(),
    {
        let n = self.queue.len();
        let mut i: usize = 0;
        while i < n
            invariant
                n == old(self).queue@.len(),
                self.queue@.len() == n,
                0 <= i <= n,
                self.list_type == old(self).list_type,
                forall|j: int| 0 <= j < i ==> self.queue@[j] == with_status(old(self).queue@[j], TrackStatus::Unplayed),
                forall|j: int| i <= j < n ==> self.queue@[j] == old(self).queue@[j],
            decreases n - i,
        {
            self.set_status(i, TrackStatus::Unplayed);
            i = i + 1;
        }
        assert(self.queue@ =~= reset_queue(old(self).queue@));
        proof {
            lemma_find_bounds(self.queue@, 0);
        }
    }

    /// Moves the cursor to `index`: earlier tracks become played, that one
    /// playing and later ones unplayed. Outside the queue the cursor is reset.
    pub fn skip_to_index(&mut self, index: usize) -> (r: Option<usize>)
        ensures
            index < old(self).queue@.len() ==> r == Some(index)
                && final(self).queue@ == skipped_to(old(self).queue@, index as int),
            index >= old(self).queue@.len() ==> r is None
                && final(self).queue@ == reset_queue(old(self).queue@),
            final(self).list_type == old(self).list_type,
            final(self).wf(),
            r is Some ==> final(self).has_current() && final(self).cursor() == r->0,
            r is None ==> !final(self).has_current(),
    {
        if index >= self.queue.len() {
            self.reset();
            return None;
        }
        let n = self.queue.len();
        let mut i: usize = 0;
        while i < n
            invariant
                n == old(self).queue@.len(),
                self.queue@.len() == n,
                0 <= i <= n,
                index < n,
                self.list_type == old(self).list_type,
                forall|j: int| 0 <= j < i ==> self.queue@[j] == skipped_to(old(self).queue@, index as int)[j],
                forall|j: int| i <= j < n ==> self.queue@[j] == old(self).queue@[j],
            decreases n - i,
        {
            let s = if i < index {
                TrackStatus::Played
            } else if i == index {
                TrackStatus::Playing
            } else {
                TrackStatus::Unplayed
            };
            self.set_status(i, s);
            i = i + 1;
        }
        assert(self.queue@ =~= skipped_to(old(self).queue@, index as int));
        proof {
            assert(is_playing_at(self.queue@, index as int));
            lemma_find_is_cursor(self.queue@, index as int);
        }
        Some(index)
    }

    /// Moves the cursor to `new_position`, which may lie outside the queue
    /// (then the cursor is reset and `None` returned).
    pub fn skip_to_track(&mut self, new_position: i64) -> (r: Option<usize>)
        ensures
            0 <= new_position < old(self).queue@.len() ==> r == Some(new_position as usize)
                && final(self).queue@ == skipped_to(old(self).queue@, new_position as int),
            !(0 <= new_position < old(self).queue@.len()) ==> r is None
                && final(self).queue@ == reset_queue(old(self).queue@),
            final(self).list_type == old(self).list_type,
            final(self).wf(),
            r is Some ==> final(self).has_current() && final(self).cursor() == r->0,
            r is None ==> !final(self).has_current(),
    {
        if new_position < 0 || new_position as u64 >= self.queue.len() as u64 {
            self.reset();
            return None;
        }
        self.skip_to_index(new_position as usize)
    }

    /// Whether at most one track is playing.
    pub fn is_single_cursor(&self) -> (r: bool)
        ensures
            r == self.wf(),
    {
        proof {
            lemma_find_bounds(self.queue@, 0);
        }
        let first = match self.playing_index() {
            Some(i) => i,
            None => {
                return true;
            },
        };
        let n = self.queue.len();
        let mut j: usize = first + 1;
        while j < n
            invariant
                n == self.queue@.len(),
                first < self.queue@.len(),
                is_playing_at(self.queue@, first as int),
                first == find_playing(self.queue@, 0),
                first + 1 <= j <= self.queue@.len(),
                forall|k: int| first < k < j ==> !is_playing_at(self.queue@, k),
            decreases self.queue@.len() - j,
        {
            if self.queue[j].status == TrackStatus::Playing {
                assert(is_playing_at(self.queue@, first as int) && is_playing_at(self.queue@, j as int));
                return false;
            }
            j = j + 1;
        }
        true
    }

    /// Appends a track after all others, as unplayed.
    pub fn push_track(&mut self, track: Track)
        requires
            old(self).wf(),
        ensures
            final(self).queue@ == old(self).queue@.push(with_status(track, TrackStatus::Unplayed)),
            final(self).list_type == old(self).list_type,
            final(self).wf(),
            final(self).has_current() == old(self).has_current(),
            final(self).cursor() == old(self).cursor(),
    {
        let mut track = track;
        track.status = TrackStatus::Unplayed;
        self.queue.push(track);
        proof {
            let q = self.queue@;
            let o = old(self).queue@;
            assert forall|i: int, j: int| is_playing_at(q, i) && is_playing_at(q, j) implies i == j by {
                assert(is_playing_at(o, i) && is_playing_at(o, j));
            }
            lemma_find_bounds(o, 0);
            lemma_find_bounds(q, 0);
            if find_playing(o, 0) < o.len() {
                assert(is_playing_at(q, find_playing(o, 0)));
                lemma_find_is_cursor(q, find_playing(o, 0));
            } else {
                assert(find_playing(q, 0) == q.len()) by {
                    if find_playing(q, 0) < q.len() {
                        assert(is_playing_at(o, find_playing(q, 0)));
                    }
                }
            }
        }
    }

    /// Inserts a track at `index`, as unplayed.
    pub fn insert_track(&mut self, index: usize, track: Track)
        requires
            old(self).wf(),
            index <= old(self).queue@.len(),
        ensures
            final(self).queue@ == old(self).queue@.insert(index as int, with_status(track, TrackStatus::Unplayed)),
            final(self).list_type == old(self).list_type,
            final(self).wf(),
    {
        let mut track = track;
        track.status = TrackStatus::Unplayed;
        self.queue.insert(index, track);
        proof {
            let q = self.queue@;
            let o = old(self).queue@;
            assert forall|i: int, j: int| is_playing_at(q, i) && is_playing_at(q, j) implies i == j by {
                let oi = if i < index { i } else { i - 1 };
                let oj = if j < index { j } else { j - 1 };
                assert(is_playing_at(o, oi) && is_playing_at(o, oj));
            }
        }
    }

    /// Removes the track at `index`.
    pub fn remove_track(&mut self, index: usize) -> (r: Track)
        requires
            old(self).wf(),
            index < old(self).queue@.len(),
        ensures
            final(self).queue@ == old(self).queue@.remove(index as int),
            r == old(self).queue@[index as int],
            final(self).list_type == old(self).list_type,
            final(self).wf(),
    {
        let r = self.queue.remove(index);
        proof {
            let q = self.queue@;
            let o = old(self).queue@;
            assert forall|i: int, j: int| is_playing_at(q, i) && is_playing_at(q, j) implies i == j by {
                let oi = if i < index { i } else { i + 1 };
                let oj = if j < index { j } else { j + 1 };
                assert(is_playing_at(o, oi) && is_playing_at(o, oj));
            }
        }
        r
    }

    /// Puts the queue in the order `perm` gives: the track at position `k`
    /// becomes the one that stood at `perm[k]`. The playing track stays
    /// playing, wherever it goes.
    pub fn reorder(&mut self, perm: &Vec<usize>)
        requires
            old(self).wf(),
            is_permutation(perm@, old(self).queue@.len() as int),
        ensures
            final(self).queue@ == permuted(old(self).queue@, perm@),
            final(self).list_type == old(self).list_type,
            final(self).wf(),
    {
        let mut reordered: Vec<Track> = Vec::new();
        let mut k: usize = 0;
        while k < perm.len()
            invariant
                is_permutation(perm@, self.queue@.len() as int),
                self.queue@ == old(self).queue@,
                self.list_type == old(self).list_type,
                0 <= k <= perm@.len(),
                reordered@ == permuted(old(self).queue@, perm@.take(k as int)),
            decreases perm@.len() - k,
        {
            let t = self.queue[perm[k]].duplicate();
            reordered.push(t);
            k = k + 1;
            assert(reordered@ =~= permuted(old(self).queue@, perm@.take(k as int)));
        }
        assert(perm@.take(k as int) =~= perm@);
        self.queue = reordered;
        proof {
            let q = self.queue@;
            let o = old(self).queue@;
            assert forall|i: int, j: int| is_playing_at(q, i) && is_playing_at(q, j) implies i == j by {
                assert(is_playing_at(o, perm@[i] as int) && is_playing_at(o, perm@[j] as int));
            }
        }
    }
}

} // verus!
