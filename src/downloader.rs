//! Which track downloads are in flight. A request for a track that is not on
//! disk either starts its fetch or joins the one already running, so that at
//! most one fetch per track id exists at any time.

use vstd::prelude::*;

verus! {

/// What the caller must do for a requested track.
#[derive(Debug, Clone, Copy, PartialEq, Eq, Structural)]
pub enum DownloadAction {
    /// The file is on disk: play it now.
    Ready,
    /// Start the fetch and report with `finished`.
    Start,
    /// A fetch of this track is running: wait for its completion.
    Join,
}

pub struct Downloader {
    in_flight: Vec<u32>,
}

impl View for Downloader {
    type V = Seq<u32>;

    closed spec fn view(&self) -> Seq<u32> {
        self.in_flight@
    }
}

impl Downloader {
    /// No track id is fetched twice at once.
    pub open spec fn wf(self) -> bool {
        self@.no_duplicates()
    }

    pub fn new() -> (r: Downloader)
        ensures
            r@.len() == 0,
            r.wf(),
    {
        Downloader { in_flight: Vec::new() }
    }

    /// Whether a fetch of `track_id` is running.
    pub fn is_in_flight(&self, track_id: u32) -> (r: bool)
        ensures
            r == self@.contains(track_id),
    {
        let mut i: usize = 0;
        while i < self.in_flight.len()
            invariant
                0 <= i <= self@.len(),
                forall|j: int| 0 <= j < i ==> self@[j] != track_id,
            decreases self@.len() - i,
        {
            if self.in_flight[i] == track_id {
                return true;
            }
            i = i + 1;
        }
        false
    }

    /// A track was requested; `on_disk` says whether its file exists.
    pub fn request(&mut self, track_id: u32, on_disk: bool) -> (r: DownloadAction)
        requires
            old(self).wf(),
        ensures
            final(self).wf(),
            on_disk ==> r == DownloadAction::Ready && final(self)@ == old(self)@,
            !on_disk && old(self)@.contains(track_id) ==> r == DownloadAction::Join && final(self)@ == old(self)@,
            !on_disk && !old(self)@.contains(track_id) ==> r == DownloadAction::Start
                && final(self)@ == old(self)@.push(track_id),
    {
        if on_disk {
            return DownloadAction::Ready;
        }
        if self.is_in_flight(track_id) {
            return DownloadAction::Join;
        }
        self.in_flight.push(track_id);
        proof {
            let s = self@;
            assert forall|i: int, j: int| 0 <= i < s.len() && 0 <= j < s.len() && i != j implies s[i] != s[j] by {
                if i < old(self)@.len() && j < old(self)@.len() {
                } else if i == old(self)@.len() {
                    assert(old(self)@[j] == s[j]);
                } else {
                    assert(old(self)@[i] == s[i]);
                }
            }
        }
        DownloadAction::Start
    }

    /// The fetch of `track_id` ended, in success or failure: it is no longer
    /// in flight, so a later request may start it again.
    pub fn finished(&mut self, track_id: u32)
        requires
            old(self).wf(),
        ensures
            final(self).wf(),
            forall|t: u32| final(self)@.contains(t) <==> (old(self)@.contains(t) && t != track_id),
    {
        let mut kept: Vec<u32> = Vec::new();
        let mut i: usize = 0;
        while i < self.in_flight.len()
            invariant
                0 <= i <= self@.len(),
                self@ == old(self)@,
                old(self)@.no_duplicates(),
                kept@.no_duplicates(),
                forall|t: u32| kept@.contains(t) <==> (exists|j: int| 0 <= j < i && self@[j] == t && t != track_id),
            decreases self@.len() - i,
        {
            let t = self.in_flight[i];
            if t != track_id {
                proof {
                    assert(!kept@.contains(t)) by {
                        if kept@.contains(t) {
                            let j = choose|j: int| 0 <= j < i && self@[j] == t && t != track_id;
                            assert(self@[j] == self@[i as int]);
                        }
                    }
                }
                let ghost prev = kept@;
                kept.push(t);
                proof {
                    assert forall|x: u32| kept@.contains(x) <==> (prev.contains(x) || x == t) by {
                        if kept@.contains(x) {
                            let k = choose|k: int| 0 <= k < kept@.len() && kept@[k] == x;
                            if k < prev.len() {
                                assert(prev[k] == x);
                            }
                        }
                        if prev.contains(x) {
                            let k = choose|k: int| 0 <= k < prev.len() && prev[k] == x;
                            assert(kept@[k] == x);
                        }
                        if x == t {
                            assert(kept@[prev.len() as int] == x);
                        }
                    }
                    assert forall|x: u32| kept@.contains(x) <==> (exists|j: int| 0 <= j < i + 1 && self@[j] == x && x != track_id) by {
                        if exists|j: int| 0 <= j < i + 1 && self@[j] == x && x != track_id {
                            let j = choose|j: int| 0 <= j < i + 1 && self@[j] == x && x != track_id;
                            if j < i {
                                assert(prev.contains(x));
                            }
                        }
                        if prev.contains(x) {
                            let j = choose|j: int| 0 <= j < i && self@[j] == x && x != track_id;
                            assert(0 <= j < i + 1 && self@[j] == x);
                        }
                        if x == t {
                            assert(self@[i as int] == x);
                        }
                    }
                }
            } else {
                proof {
                    assert forall|x: u32| kept@.contains(x) <==> (exists|j: int| 0 <= j < i + 1 && self@[j] == x && x != track_id) by {
                        if exists|j: int| 0 <= j < i + 1 && self@[j] == x && x != track_id {
                            let j = choose|j: int| 0 <= j < i + 1 && self@[j] == x && x != track_id;
                            assert(j != i);
                        }
                    }
                }
            }
            i = i + 1;
        }
        self.in_flight = kept;
        proof {
            assert forall|t: u32| self@.contains(t) <==> (old(self)@.contains(t) && t != track_id) by {
                if old(self)@.contains(t) && t != track_id {
                    let j = choose|j: int| 0 <= j < old(self)@.len() && old(self)@[j] == t;
                    assert(exists|j: int| 0 <= j < i && old(self)@[j] == t && t != track_id);
                }
            }
        }
    }
}

/// For every track id, at most one fetch is in flight.
pub proof fn law_at_most_one_fetch(d: Downloader, track_id: u32)
    requires
        d.wf(),
    ensures
        d@.to_multiset().count(track_id) <= 1,
{
    d@.lemma_multiset_has_no_duplicates();
    if !d@.to_multiset().contains(track_id) {
        assert(d@.to_multiset().count(track_id) == 0);
    }
}

} // verus!
