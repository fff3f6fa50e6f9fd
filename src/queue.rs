//! The playback queue: which track of a directory plays, and which plays next.
use vstd::prelude::*;

use crate::error::QueueError;
use crate::history::{backward, forward, pushed, trail_wf, History, Trail};
use crate::state::State;
use crate::track::{copy_text, Track};

verus! {

/// Relies on `rand::random_range`: a number drawn from `0..n` (it panics on an
/// empty range).
#[verifier::external_body]
fn random_below(n: usize) -> (r: usize)
    requires
        n > 0,
    ensures
        r < n,
{
    rand::random_range(..n)
}

/// What a caller of the queue plays tracks with. Seen through the tracks it
/// was asked to play and the seek positions it was asked for, oldest first, and
/// whether its current track has played to the end.
pub trait Playable {
    spec fn played(&self) -> Seq<Track>;

    spec fn sought(&self) -> Seq<u64>;

    spec fn finished(&self) -> bool;

    /// Starts playing `track` from its beginning.
    fn replace(&mut self, track: &Track)
        ensures
            final(self).played() == old(self).played().push(*track),
            final(self).sought() == old(self).sought(),
    ;

    /// Moves the playhead of the current track to `position` milliseconds.
    fn seek(&mut self, position: u64)
        ensures
            final(self).sought() == old(self).sought().push(position),
            final(self).played() == old(self).played(),
    ;

    /// Whether the current track has played to its end.
    fn done(&self) -> (r: bool)
        ensures
            r == self.finished(),
    ;
}

/// A `next` step from `before` to `after` that hands the player, whose
/// requests go from `played` to `played_after`, the new current track once; on
/// an empty list nothing is handed over.
pub open spec fn next_hands(
    before: QueueView,
    after: QueueView,
    played: Seq<Track>,
    played_after: Seq<Track>,
) -> bool {
    &&& next_step(before, after)
    &&& before.tracks.len() > 0 ==> played_after == played.push(after.tracks[after.current.unwrap() as int])
    &&& before.tracks.len() == 0 ==> played_after == played
}

/// Whether `last` moves: back in the history, or one track back in order.
pub open spec fn last_moves(before: QueueView) -> bool {
    backward(before.trail).1 is Some || (!before.shuffle && before.current is Some && before.tracks.len() > 0)
}

/// Where a seek of `amt` milliseconds back lands, if something plays and the
/// time played is known: that long before it, but not before the start.
pub open spec fn back_position(q: QueueView, state: State, amt: u64) -> Option<u64> {
    if q.current is Some && state.elapsed is Some {
        Some(
            if state.elapsed.unwrap() > amt {
                (state.elapsed.unwrap() - amt) as u64
            } else {
                0u64
            },
        )
    } else {
        None
    }
}

/// Whether a seek of `amt` milliseconds forward reaches the end of the track.
pub open spec fn seeks_past_end(q: QueueView, state: State, amt: u64) -> bool {
    q.current is Some && state.elapsed is Some && state.duration is Some && state.elapsed.unwrap() + amt
        >= state.duration.unwrap()
}

/// Where a seek of `amt` milliseconds forward lands when it stays within the
/// track.
pub open spec fn ahead_position(q: QueueView, state: State, amt: u64) -> Option<u64> {
    if q.current is Some && state.elapsed is Some && state.duration is Some && state.elapsed.unwrap() + amt
        < state.duration.unwrap() {
        Some((state.elapsed.unwrap() + amt) as u64)
    } else {
        None
    }
}

/// How many numbers a shuffle draws from in a list of `len` tracks: one per
/// track other than the current one.
pub open spec fn shuffle_range(len: nat, current: Option<usize>) -> nat {
    if current is Some {
        (len - 1) as nat
    } else {
        len
    }
}

/// The track a drawn number stands for: the numbers count the tracks in order,
/// skipping the current one.
pub open spec fn shuffle_choice(drawn: usize, current: Option<usize>) -> usize {
    match current {
        Some(c) => if drawn >= c {
            (drawn + 1) as usize
        } else {
            drawn
        },
        None => drawn,
    }
}

/// The track that the number `drawn` stands for in a list of `len` tracks, the
/// current one skipped: never the current one, always on the list.
pub fn shuffle_pick(drawn: usize, len: usize, current: Option<usize>) -> (r: usize)
    requires
        current is Some ==> current.unwrap() < len,
        drawn < shuffle_range(len as nat, current),
    ensures
        r == shuffle_choice(drawn, current),
        r < len,
        current is Some ==> r != current.unwrap(),
{
    match current {
        Some(c) => if drawn >= c {
            drawn + 1
        } else {
            drawn
        },
        None => drawn,
    }
}

/// What a scan of a path found: whether it is a directory, and the audio files
/// below it with their tags.
pub struct Listing {
    pub is_dir: bool,
    pub files: Vec<Track>,
}

/// The queue seen as values.
pub struct QueueView {
    pub path: Option<Seq<char>>,
    pub tracks: Seq<Track>,
    pub trail: Trail,
    pub current: Option<usize>,
    pub shuffle: bool,
}

impl QueueView {
    pub open spec fn wf(self) -> bool {
        &&& trail_wf(self.trail)
        &&& forall|k: int| 0 <= k < self.trail.0.len() ==> #[trigger] self.trail.0[k] < self.tracks.len()
        &&& self.current is Some ==> self.current.unwrap() < self.tracks.len()
    }

    /// The history holds an entry past its cursor: the user went back before.
    pub open spec fn has_forward(self) -> bool {
        forward(self.trail).1 is Some
    }

    /// Same directory, tracks and shuffle setting.
    pub open spec fn same_list(self, other: QueueView) -> bool {
        &&& self.path == other.path
        &&& self.tracks == other.tracks
        &&& self.shuffle == other.shuffle
    }
}

/// The index that follows `current` in a list of `len` tracks, wrapping to the
/// start; the first one when nothing plays.
pub open spec fn sequential_next(current: Option<usize>, len: nat) -> int {
    match current {
        Some(i) => (i + 1) % (len as int),
        None => 0,
    }
}

/// The index before `current` in a list of `len` tracks, wrapping to the end.
pub open spec fn sequential_last(i: usize, len: nat) -> int {
    if i == 0 {
        len - 1
    } else {
        i - 1
    }
}

/// What `next` does to a queue: replay the history's forward entry if there is
/// one; else, on a list with tracks, take the following track in order, or with
/// shuffle on, one drawn at random other than the current one (unless it is the
/// only track), recorded in the history.
pub open spec fn next_step(before: QueueView, after: QueueView) -> bool {
    let len = before.tracks.len();
    &&& after.same_list(before)
    &&& if before.has_forward() {
        &&& after.trail == forward(before.trail).0
        &&& after.current == forward(before.trail).1
    } else if len == 0 {
        &&& after.trail == before.trail
        &&& after.current == before.current
    } else if !before.shuffle {
        &&& after.trail == before.trail
        &&& after.current == Some(sequential_next(before.current, len) as usize)
    } else {
        &&& after.current is Some
        &&& after.current.unwrap() < len
        &&& (len > 1 && before.current is Some) ==> after.current != before.current
        &&& after.trail == pushed(before.trail, after.current.unwrap())
    }
}

/// What `last` does to a queue: go back in the history if it has an entry before
/// the cursor; else, with shuffle off and a track playing, take the track before
/// it in order; else nothing.
pub open spec fn last_step(before: QueueView, after: QueueView) -> bool {
    &&& after.same_list(before)
    &&& if backward(before.trail).1 is Some {
        &&& after.trail == backward(before.trail).0
        &&& after.current == backward(before.trail).1
    } else if !before.shuffle && before.current is Some && before.tracks.len() > 0 {
        &&& after.trail == before.trail
        &&& after.current == Some(sequential_last(before.current.unwrap(), before.tracks.len()) as usize)
    } else {
        &&& after.trail == before.trail
        &&& after.current == before.current
    }
}

/// `Some(i)` for the first track at path `p`, `None` when no track is there.
pub open spec fn first_at(tracks: Seq<Track>, p: Seq<char>, r: Option<usize>) -> bool {
    match r {
        Some(i) => i < tracks.len() && tracks[i as int].path@ == p && forall|k: int|
            0 <= k < i ==> (#[trigger] tracks[k]).path@ != p,
        None => forall|k: int| 0 <= k < tracks.len() ==> (#[trigger] tracks[k]).path@ != p,
    }
}

fn position(tracks: &Vec<Track>, path: &str) -> (r: Option<usize>)
    ensures
        first_at(tracks@, path@, r),
{
    let target = path.to_owned();
    let mut i: usize = 0;
    while i < tracks.len()
        invariant
            i <= tracks.len(),
            target@ == path@,
            forall|k: int| 0 <= k < i ==> (#[trigger] tracks@[k]).path@ != path@,
        decreases tracks.len() - i,
    {
        if tracks[i].path == target {
            return Some(i);
        }
        i = i + 1;
    }
    None
}

/// The track list of a directory, the track playing, and the history of
/// what was played.
#[derive(Debug)]
pub struct Queue {
    path: Option<String>,
    tracks: Vec<Track>,
    history: History,
    current: Option<usize>,
    shuffle: bool,
}

impl View for Queue {
    type V = QueueView;

    closed spec fn view(&self) -> QueueView {
        QueueView {
            path: match self.path {
                Some(p) => Some(p@),
                None => None,
            },
            tracks: self.tracks@,
            trail: self.history@,
            current: self.current,
            shuffle: self.shuffle,
        }
    }
}

impl Queue {
    pub open spec fn wf(&self) -> bool {
        self@.wf()
    }

    /// A queue of the given directory and tracks, with nothing playing, shuffle
    /// as given and an empty history.
    pub fn from_parts(path: Option<String>, tracks: Vec<Track>, shuffle: bool) -> (r: Queue)
        ensures
            r.wf(),
            r@.path == (match path {
                Some(p) => Some(p@),
                None => None::<Seq<char>>,
            }),
            r@.tracks == tracks@,
            r@.trail == (Seq::<usize>::empty(), 0nat),
            r@.current is None,
            r@.shuffle == shuffle,
    {
        Queue { path, tracks, history: History::new(), current: None, shuffle }
    }

    /// The queue a session resumes with. `listing` is what a scan of the directory
    /// that `state` names found, or `None` when it names none or nothing exists
    /// there; then the queue is empty. The track of `state` plays if the list
    /// holds it, and starts the history.
    ///
    /// Fails with `NotADirectory` when the scanned path is not a directory.
    pub fn with_state(state: &State, listing: Option<Listing>) -> (r: Result<Queue, QueueError>)
        ensures
            listing is Some && !listing.unwrap().is_dir ==> r is Err && r->Err_0 is NotADirectory,
            listing is Some && listing.unwrap().is_dir ==> r is Ok,
            listing is None ==> r is Ok && r->Ok_0@.tracks.len() == 0 && r->Ok_0@.path is None
                && r->Ok_0@.current is None,
            r is Ok ==> {
                let q = r->Ok_0@;
                &&& r->Ok_0.wf()
                &&& q.shuffle == state.shuffle
                &&& listing is Some ==> {
                    &&& q.path == (match state.queue {
                        Some(p) => Some(p@),
                        None => None::<Seq<char>>,
                    })
                    &&& q.tracks.to_multiset() == listing.unwrap().files@.to_multiset()
                    &&& crate::track::in_play_order(q.tracks)
                    &&& exists|perm: Seq<int>|
                        crate::order::rearranged(listing.unwrap().files@, q.tracks, perm)
                            && crate::order::stable(q.tracks, perm)
                }
                &&& state.track is None ==> q.current is None
                &&& state.track is Some ==> first_at(q.tracks, state.track.unwrap().path@, q.current)
                &&& q.trail == (match q.current {
                    Some(i) => (seq![i], 0nat),
                    None => (Seq::<usize>::empty(), 0nat),
                })
            },
    {
        let (tracks, path) = match listing {
            Some(l) => {
                let dir: &str = match &state.queue {
                    Some(p) => p.as_str(),
                    None => "",
                };
                let tracks = match Track::directory(dir, l.is_dir, l.files) {
                    Ok(t) => t,
                    Err(e) => return Err(e),
                };
                (tracks, copy_text(&state.queue))
            },
            None => (Vec::new(), None),
        };
        let current = match &state.track {
            Some(t) => position(&tracks, t.path.as_str()),
            None => None,
        };
        let mut history = History::new();
        if let Some(index) = current {
            history.push(index);
        }
        Ok(Queue { path, tracks, history, current, shuffle: state.shuffle })
    }

    /// Where a session resumes: the track playing, at the time played that
    /// `state` saved, or its start when that is unknown; `None` when nothing
    /// plays.
    pub fn resume(&self, state: &State) -> (r: Option<(&Track, u64)>)
        requires
            self.wf(),
        ensures
            r is Some <==> self@.current is Some,
            r is Some ==> *r.unwrap().0 == self@.tracks[self@.current.unwrap() as int],
            r is Some ==> r.unwrap().1 == match state.elapsed {
                Some(e) => e,
                None => 0,
            },
    {
        match self.current {
            Some(i) => Some(
                (
                    &self.tracks[i],
                    match state.elapsed {
                        Some(e) => e,
                        None => 0,
                    },
                ),
            ),
            None => None,
        }
    }

    /// Whether tracks are picked at random.
    pub fn is_shuffle(&self) -> (r: bool)
        ensures
            r == self@.shuffle,
    {
        self.shuffle
    }

    /// Turns shuffle on or off; the history is cleared.
    pub fn shuffle(&mut self)
        requires
            old(self).wf(),
        ensures
            final(self).wf(),
            final(self)@.shuffle == !old(self)@.shuffle,
            final(self)@.path == old(self)@.path,
            final(self)@.tracks == old(self)@.tracks,
            final(self)@.current == old(self)@.current,
            final(self)@.trail == (Seq::<usize>::empty(), 0nat),
    {
        self.history.clear();
        self.shuffle = !self.shuffle;
    }

    /// Sets shuffle; when that changes it, the history is cleared.
    pub fn set_shuffle(&mut self, shuffle: bool)
        requires
            old(self).wf(),
        ensures
            final(self).wf(),
            final(self)@.shuffle == shuffle,
            final(self)@.path == old(self)@.path,
            final(self)@.tracks == old(self)@.tracks,
            final(self)@.current == old(self)@.current,
            final(self)@.trail == (if shuffle == old(self)@.shuffle {
                old(self)@.trail
            } else {
                (Seq::<usize>::empty(), 0nat)
            }),
    {
        if self.shuffle != shuffle {
            self.history.clear();
            self.shuffle = shuffle;
        }
    }

    /// Directory the tracks were read from.
    pub fn path(&self) -> (r: Option<&str>)
        ensures
            r is Some <==> self@.path is Some,
            r is Some ==> r.unwrap()@ == self@.path.unwrap(),
    {
        match &self.path {
            Some(p) => Some(p.as_str()),
            None => None,
        }
    }

    /// The track list, in play order.
    pub fn tracks(&self) -> (r: &[Track])
        ensures
            r@ == self@.tracks,
    {
        self.tracks.as_slice()
    }

    /// The track playing.
    pub fn track(&self) -> (r: Option<&Track>)
        requires
            self.wf(),
        ensures
            r is Some <==> self@.current is Some,
            r is Some ==> *r.unwrap() == self@.tracks[self@.current.unwrap() as int],
    {
        match self.current {
            Some(i) => Some(&self.tracks[i]),
            None => None,
        }
    }

    /// Index of the track playing.
    pub fn index(&self) -> (r: Option<usize>)
        ensures
            r == self@.current,
    {
        self.current
    }

    /// Number of entries in the history.
    pub fn history_len(&self) -> (r: usize)
        ensures
            r == self@.trail.0.len(),
    {
        self.history.len()
    }

    /// Position of the history's cursor.
    pub fn history_index(&self) -> (r: usize)
        ensures
            r == self@.trail.1,
    {
        self.history.index()
    }

    /// Replaces the list with the tracks of the directory at `path`, as `listing`
    /// found them; nothing plays and the history is cleared.
    ///
    /// Fails with `NotADirectory`, changing nothing, when `path` is not a directory.
    pub fn queue(&mut self, path: String, listing: Listing) -> (r: Result<(), QueueError>)
        requires
            old(self).wf(),
        ensures
            final(self).wf(),
            !listing.is_dir ==> r is Err && r->Err_0 is NotADirectory && r->Err_0->NotADirectory_0@ == path@
                && final(self)@ == old(self)@,
            listing.is_dir ==> {
                &&& r is Ok
                &&& final(self)@.path == Some(path@)
                &&& final(self)@.tracks.to_multiset() == listing.files@.to_multiset()
                &&& crate::track::in_play_order(final(self)@.tracks)
                &&& exists|perm: Seq<int>|
                    crate::order::rearranged(listing.files@, final(self)@.tracks, perm) && crate::order::stable(
                        final(self)@.tracks,
                        perm,
                    )
                &&& final(self)@.current is None
                &&& final(self)@.trail == (Seq::<usize>::empty(), 0nat)
                &&& final(self)@.shuffle == old(self)@.shuffle
            },
    {
        let tracks = match Track::directory(path.as_str(), listing.is_dir, listing.files) {
            Ok(t) => t,
            Err(e) => return Err(e),
        };
        self.path = Some(path);
        self.tracks = tracks;
        self.current = None;
        self.history.clear();
        Ok(())
    }

    fn replace<P: Playable>(&mut self, index: usize, player: &mut P)
        requires
            old(self).wf(),
            index < old(self)@.tracks.len(),
        ensures
            final(self)@ == (QueueView { current: Some(index), ..old(self)@ }),
            final(self).wf(),
            final(player).played() == old(player).played().push(old(self)@.tracks[index as int]),
            final(player).sought() == old(player).sought(),
    {
        player.replace(&self.tracks[index]);
        self.current = Some(index);
    }

    /// Plays the track at `path` and clears the history.
    ///
    /// Fails with `NoTrack` when no track of the list is at `path`, an empty list
    /// included; nothing changes then.
    pub fn select_path<P: Playable>(&mut self, path: &str, player: &mut P) -> (r: Result<(), QueueError>)
        requires
            old(self).wf(),
        ensures
            final(self).wf(),
            final(self)@.same_list(old(self)@),
            r is Err ==> final(self)@ == old(self)@,
            match r {
                Ok(_) => {
                    &&& final(self)@.current is Some
                    &&& first_at(old(self)@.tracks, path@, final(self)@.current)
                    &&& final(self)@.trail == (Seq::<usize>::empty(), 0nat)
                },
                Err(e) => e is NoTrack && e->NoTrack_0@ == path@ && first_at(old(self)@.tracks, path@, None),
            },
            r is Ok ==> final(player).played() == old(player).played().push(
                old(self)@.tracks[final(self)@.current.unwrap() as int],
            ),
            r is Err ==> final(player).played() == old(player).played(),
            final(player).sought() == old(player).sought(),
    {
        let index = match position(&self.tracks, path) {
            Some(i) => i,
            None => return Err(QueueError::NoTrack(path.to_owned())),
        };
        self.replace(index, player);
        self.history.clear();
        Ok(())
    }

    /// Plays the track at `index` and clears the history.
    ///
    /// Fails with `OutOfBounds` when `index` is past the end of the list, an
    /// empty list included; nothing changes then.
    pub fn select_idx<P: Playable>(&mut self, index: usize, player: &mut P) -> (r: Result<(), QueueError>)
        requires
            old(self).wf(),
        ensures
            final(self).wf(),
            final(self)@.same_list(old(self)@),
            old(self)@.tracks.len() <= index ==> r == Err::<(), QueueError>(QueueError::OutOfBounds),
            r is Err ==> final(self)@ == old(self)@,
            index < old(self)@.tracks.len() ==> {
                &&& r is Ok
                &&& final(self)@.current == Some(index)
                &&& final(self)@.trail == (Seq::<usize>::empty(), 0nat)
                &&& final(player).played() == old(player).played().push(old(self)@.tracks[index as int])
            },
            r is Err ==> final(player).played() == old(player).played(),
            final(player).sought() == old(player).sought(),
    {
        if index >= self.tracks.len() {
            return Err(QueueError::OutOfBounds);
        }
        self.replace(index, player);
        self.history.clear();
        Ok(())
    }

    /// The track before the current one in list order, wrapping to the end;
    /// `None` on an empty list or when nothing plays.
    fn last_track_sequential(&self) -> (r: Option<usize>)
        requires
            self.wf(),
        ensures
            (self@.tracks.len() == 0 || self@.current is None) ==> r is None,
            (self@.tracks.len() > 0 && self@.current is Some) ==> r == Some(
                sequential_last(self@.current.unwrap(), self@.tracks.len()) as usize,
            ),
    {
        if self.tracks.len() == 0 {
            return None;
        }
        match self.current {
            Some(idx) => if idx == 0 {
                Some(self.tracks.len() - 1)
            } else {
                Some(idx - 1)
            },
            None => None,
        }
    }

    /// Plays the previous track: back in the history if it can go back, else the
    /// one before in list order when shuffle is off; else nothing changes.
    pub fn last<P: Playable>(&mut self, player: &mut P)
        requires
            old(self).wf(),
        ensures
            final(self).wf(),
            last_step(old(self)@, final(self)@),
            last_moves(old(self)@) ==> final(player).played() == old(player).played().push(
                final(self)@.tracks[final(self)@.current.unwrap() as int],
            ),
            !last_moves(old(self)@) ==> final(player).played() == old(player).played(),
            final(player).sought() == old(player).sought(),
    {
        let last = match self.history.retreat() {
            Some(l) => Some(l),
            None => if !self.shuffle {
                self.last_track_sequential()
            } else {
                None
            },
        };
        if let Some(index) = last {
            self.replace(index, player);
        }
    }

    /// The track after the current one in list order, wrapping to the start; the
    /// first when nothing plays; `None` on an empty list.
    fn next_track_sequential(&self) -> (r: Option<usize>)
        requires
            self.wf(),
        ensures
            self@.tracks.len() == 0 ==> r is None,
            self@.tracks.len() > 0 ==> r == Some(sequential_next(self@.current, self@.tracks.len()) as usize),
    {
        if self.tracks.len() == 0 {
            return None;
        }
        match self.current {
            Some(idx) => Some((idx + 1) % self.tracks.len()),
            None => Some(0),
        }
    }

    /// A track drawn at random, never the current one unless it is the only
    /// track; `None` on an empty list. With two tracks or more, a number is drawn
    /// below the count of the other tracks and mapped by [`shuffle_pick`].
    pub fn next_track_shuffle(&self) -> (r: Option<usize>)
        requires
            self.wf(),
        ensures
            self@.tracks.len() == 0 ==> r is None,
            self@.tracks.len() == 1 ==> r == Some(0usize),
            self@.tracks.len() > 0 ==> r is Some && r.unwrap() < self@.tracks.len(),
            self@.tracks.len() > 1 && self@.current is Some ==> r != self@.current,
            self@.tracks.len() > 1 ==> exists|drawn: usize|
                drawn < shuffle_range(self@.tracks.len(), self@.current) && r == Some(
                    #[trigger] shuffle_choice(drawn, self@.current),
                ),
    {
        let len = self.tracks.len();
        if len == 0 {
            return None;
        } else if len == 1 {
            return Some(0);
        }
        let bound = if self.current.is_some() {
            len - 1
        } else {
            len
        };
        let drawn = random_below(bound);
        let r = shuffle_pick(drawn, len, self.current);
        assert(r == shuffle_choice(drawn, self@.current));
        Some(r)
    }

    fn next_track(&mut self) -> (r: Option<usize>)
        requires
            old(self).wf(),
        ensures
            final(self).wf(),
            r is Some ==> r.unwrap() < old(self)@.tracks.len(),
            r is Some <==> old(self)@.tracks.len() > 0,
            next_step(old(self)@, QueueView { current: if r is Some { r } else { old(self)@.current }, ..final(self)@ }),
            final(self)@.current == old(self)@.current,
    {
        if let Some(track) = self.history.advance() {
            Some(track)
        } else if !self.shuffle {
            self.next_track_sequential()
        } else if let Some(index) = self.next_track_shuffle() {
            self.history.push(index);
            Some(index)
        } else {
            None
        }
    }

    /// Plays the next track: the history's forward entry if the user went back,
    /// else the following track in list order (shuffle off), else one drawn at
    /// random (shuffle on). The new track is handed to the player.
    ///
    /// Fails with `NoTracks`, changing nothing, on an empty list.
    pub fn next<P: Playable>(&mut self, player: &mut P) -> (r: Result<(), QueueError>)
        requires
            old(self).wf(),
        ensures
            final(self).wf(),
            next_hands(old(self)@, final(self)@, old(player).played(), final(player).played()),
            final(player).sought() == old(player).sought(),
            old(self)@.tracks.len() == 0 ==> r == Err::<(), QueueError>(QueueError::NoTracks),
            old(self)@.tracks.len() > 0 ==> r is Ok,
    {
        proof {
            if forward(self@.trail).1 is Some {
                let k = self@.trail.1 + 1;
                assert(self@.trail.0[k as int] < self@.tracks.len());
            }
        }
        match self.next_track() {
            Some(track) => {
                self.replace(track, player);
                Ok(())
            },
            None => Err(QueueError::NoTracks),
        }
    }

    /// Plays the current track again from its start.
    pub fn restart<P: Playable>(&self, player: &mut P)
        ensures
            self@.current is Some ==> final(player).sought() == old(player).sought().push(0),
            self@.current is None ==> final(player).sought() == old(player).sought(),
            final(player).played() == old(player).played(),
    {
        if self.current.is_some() {
            player.seek(0);
        }
    }

    /// Where a seek of `amt` milliseconds back lands: that long before the time
    /// played, but not before the start. `None` when nothing plays or the time
    /// played is unknown.
    pub fn seek_d_position(&self, state: &State, amt: u64) -> (r: Option<u64>)
        ensures
            r == back_position(self@, *state, amt),
    {
        if self.current.is_some() {
            if let Some(elapsed) = state.elapsed() {
                return Some(elapsed.saturating_sub(amt));
            }
        }
        None
    }

    /// Where a seek of `amt` milliseconds forward lands, when it stays within
    /// the track. `None` when nothing plays, a time is unknown, or the seek
    /// reaches the end of the track.
    pub fn seek_i_position(&self, state: &State, amt: u64) -> (r: Option<u64>)
        ensures
            r == ahead_position(self@, *state, amt),
    {
        if self.current.is_some() {
            if let Some((elapsed, duration)) = state.elapsed_duration() {
                let position = elapsed.saturating_add(amt);
                if position < duration {
                    return Some(position);
                }
            }
        }
        None
    }

    /// Moves the playhead back by `amt` milliseconds, stopping at the start.
    pub fn seek_d<P: Playable>(&self, player: &mut P, state: &State, amt: u64)
        ensures
            back_position(self@, *state, amt) is Some ==> final(player).sought() == old(player).sought().push(
                back_position(self@, *state, amt).unwrap(),
            ),
            back_position(self@, *state, amt) is None ==> final(player).sought() == old(player).sought(),
            final(player).played() == old(player).played(),
    {
        if let Some(position) = self.seek_d_position(state, amt) {
            player.seek(position);
        }
    }

    /// Moves the playhead forward by `amt` milliseconds; past the end of the track
    /// the next track plays instead.
    pub fn seek_i<P: Playable>(&mut self, player: &mut P, state: &State, amt: u64)
        requires
            old(self).wf(),
        ensures
            final(self).wf(),
            seeks_past_end(old(self)@, *state, amt) ==> next_hands(
                old(self)@,
                final(self)@,
                old(player).played(),
                final(player).played(),
            ) && final(player).sought() == old(player).sought(),
            !seeks_past_end(old(self)@, *state, amt) ==> {
                &&& final(self)@ == old(self)@
                &&& final(player).played() == old(player).played()
                &&& ahead_position(old(self)@, *state, amt) is Some ==> final(player).sought()
                    == old(player).sought().push(ahead_position(old(self)@, *state, amt).unwrap())
                &&& ahead_position(old(self)@, *state, amt) is None ==> final(player).sought()
                    == old(player).sought()
            },
    {
        if self.current.is_some() {
            if let Some((elapsed, duration)) = state.elapsed_duration() {
                if elapsed.saturating_add(amt) >= duration {
                    let _ = self.next(player);
                    return;
                }
            }
        }
        if let Some(position) = self.seek_i_position(state, amt) {
            player.seek(position);
        }
    }

    /// Plays the next track when the player's track has played to its end.
    pub fn done<P: Playable>(&mut self, player: &mut P)
        requires
            old(self).wf(),
        ensures
            final(self).wf(),
            old(player).finished() ==> next_hands(old(self)@, final(self)@, old(player).played(), final(player).played()),
            !old(player).finished() ==> final(self)@ == old(self)@ && final(player).played() == old(player).played(),
            final(player).sought() == old(player).sought(),
    {
        if player.done() {
            let _ = self.next(player);
        }
    }
}

/// The track playing after `n` sequential steps from `start` in a list of `len`.
pub open spec fn sequential_after(start: Option<usize>, len: nat, n: nat) -> Option<usize>
    decreases n,
{
    if n == 0 {
        start
    } else {
        Some(sequential_next(sequential_after(start, len, (n - 1) as nat), len) as usize)
    }
}

/// Sequential steps from track `start` visit `(start + n) mod len` after `n`
/// of them: the order repeats with period exactly `len`.
pub proof fn lemma_sequential_visits(start: usize, len: nat, n: nat)
    requires
        start < len,
        len <= usize::MAX,
    ensures
        sequential_after(Some(start), len, n) == Some(((start + n) % (len as int)) as usize),
        sequential_after(Some(start), len, n + len) == sequential_after(Some(start), len, n),
{
    lemma_sequential_closed_form(start, len, n);
    lemma_sequential_visits_period(start, len, n);
}

proof fn lemma_sequential_visits_period(start: usize, len: nat, n: nat)
    requires
        start < len,
        len <= usize::MAX,
    ensures
        sequential_after(Some(start), len, n + len) == sequential_after(Some(start), len, n),
{
    lemma_sequential_closed_form(start, len, n);
    lemma_sequential_closed_form(start, len, n + len);
    vstd::arithmetic::div_mod::lemma_mod_add_multiples_vanish(start + n, len as int);
}

proof fn lemma_sequential_closed_form(start: usize, len: nat, n: nat)
    requires
        start < len,
        len <= usize::MAX,
    ensures
        sequential_after(Some(start), len, n) == Some(((start + n) % (len as int)) as usize),
    decreases n,
{
    let m = len as int;
    if n == 0 {
        vstd::arithmetic::div_mod::lemma_small_mod(start as nat, len);
    } else {
        lemma_sequential_closed_form(start, len, (n - 1) as nat);
        let a = start + n - 1;
        vstd::arithmetic::div_mod::lemma_mod_bound(a, m);
        vstd::arithmetic::div_mod::lemma_add_mod_noop(a, 1, m);
        if m > 1 {
            vstd::arithmetic::div_mod::lemma_small_mod(1, m as nat);
        } else {
            vstd::arithmetic::div_mod::lemma_mod_bound(a + 1, m);
            vstd::arithmetic::div_mod::lemma_mod_bound((a % m) + 1, m);
        }
        assert(((a % m) + 1) % m == (a + 1) % m);
        let x = (a % m) as usize;
        assert(x as int == a % m);
        assert(sequential_after(Some(start), len, (n - 1) as nat) == Some(x));
        assert(sequential_next(Some(x), len) == (a + 1) % m);
        vstd::arithmetic::div_mod::lemma_mod_bound(a + 1, m);
    }
}

/// With shuffle off and no forward history, each call of `next` takes the
/// following track in list order: along any run of calls, the track after the
/// `k`-th is `k` sequential steps from the first, and shuffle stays off with the
/// history untouched.
pub proof fn lemma_next_runs_sequentially(views: Seq<QueueView>)
    requires
        views.len() > 0,
        views[0].wf(),
        !views[0].shuffle,
        !views[0].has_forward(),
        views[0].tracks.len() > 0,
        forall|k: int| 0 <= k < views.len() - 1 ==> #[trigger] next_step(views[k], views[k + 1]),
    ensures
        forall|k: int|
            0 <= k < views.len() ==> (#[trigger] views[k]).current == sequential_after(
                views[0].current,
                views[0].tracks.len(),
                k as nat,
            ) && views[k].trail == views[0].trail && views[k].same_list(views[0]),
    decreases views.len(),
{
    if views.len() > 1 {
        let init = views.drop_last();
        assert forall|k: int| 0 <= k < init.len() - 1 implies #[trigger] next_step(init[k], init[k + 1]) by {
            assert(next_step(views[k], views[k + 1]));
        }
        lemma_next_runs_sequentially(init);
        let j = views.len() - 2;
        assert(init[j] == views[j]);
        assert(next_step(views[j], views[j + 1]));
        assert forall|k: int| 0 <= k < views.len() implies (#[trigger] views[k]).current == sequential_after(
            views[0].current,
            views[0].tracks.len(),
            k as nat,
        ) && views[k].trail == views[0].trail && views[k].same_list(views[0]) by {
            if k < views.len() - 1 {
                assert(init[k] == views[k]);
            }
        }
    }
}

/// Along a run of `next` calls with shuffle off and no forward history,
/// starting on track `start` of a list of `len`, the `k`-th call leaves track
/// `(start + k) mod len` playing, and by then the player has been handed, in
/// order, the tracks at `(start + 1) mod len` up to `(start + k) mod len`.
pub proof fn lemma_next_run_hands(views: Seq<QueueView>, played: Seq<Seq<Track>>, start: usize)
    requires
        views.len() > 0,
        played.len() == views.len(),
        views[0].wf(),
        !views[0].shuffle,
        !views[0].has_forward(),
        views[0].tracks.len() > 0,
        views[0].tracks.len() <= usize::MAX,
        views[0].current == Some(start),
        forall|k: int|
            0 <= k < views.len() - 1 ==> #[trigger] next_hands(views[k], views[k + 1], played[k], played[k + 1]),
    ensures
        forall|k: int|
            0 <= k < views.len() ==> {
                &&& (#[trigger] views[k]).current == Some(((start + k) % (views[0].tracks.len() as int)) as usize)
                &&& played[k] == played[0] + Seq::new(
                    k as nat,
                    |m: int| views[0].tracks[(start + m + 1) % (views[0].tracks.len() as int)],
                )
            },
    decreases views.len(),
{
    let len = views[0].tracks.len();
    let tracks = views[0].tracks;
    assert forall|k: int| 0 <= k < views.len() - 1 implies #[trigger] next_step(views[k], views[k + 1]) by {
        assert(next_hands(views[k], views[k + 1], played[k], played[k + 1]));
    }
    lemma_next_runs_sequentially(views);
    assert forall|k: int| 0 <= k < views.len() implies (#[trigger] views[k]).current == Some(
        ((start + k) % (len as int)) as usize,
    ) by {
        assert(views[k].current == sequential_after(views[0].current, len, k as nat));
        lemma_sequential_visits(start, len, k as nat);
    }
    if views.len() > 1 {
        let vi = views.drop_last();
        let pi = played.drop_last();
        assert forall|k: int| 0 <= k < vi.len() - 1 implies #[trigger] next_hands(vi[k], vi[k + 1], pi[k], pi[k + 1]) by {
            assert(next_hands(views[k], views[k + 1], played[k], played[k + 1]));
        }
        lemma_next_run_hands(vi, pi, start);
        let j = views.len() - 2;
        assert(vi[j] == views[j] && pi[j] == played[j]);
        assert(next_hands(views[j], views[j + 1], played[j], played[j + 1]));
        assert(views[j + 1].tracks == tracks);
        assert(played[j + 1] == played[j].push(tracks[views[j + 1].current.unwrap() as int]));
        let f = |m: int| tracks[(start + m + 1) % (len as int)];
        assert(views[j + 1].current == Some(((start + j + 1) % (len as int)) as usize));
        vstd::arithmetic::div_mod::lemma_mod_bound(start + j + 1, len as int);
        assert(views[j + 1].current.unwrap() as int == (start + j + 1) % (len as int));
        assert(tracks[views[j + 1].current.unwrap() as int] == f(j));
        assert(pi[0] == played[0] && vi[0] == views[0]);
        assert(pi[j] == pi[0] + Seq::new(j as nat, |m: int| vi[0].tracks[(start + m + 1) % (vi[0].tracks.len() as int)]));
        assert(Seq::new(j as nat, |m: int| vi[0].tracks[(start + m + 1) % (vi[0].tracks.len() as int)]) =~= Seq::new(j as nat, f));
        assert(played[j] == played[0] + Seq::new(j as nat, f));
        assert(Seq::new((j + 1) as nat, f) =~= Seq::new(j as nat, f).push(f(j)));
        assert(played[j + 1] =~= played[0] + Seq::new((j + 1) as nat, f));
        assert forall|k: int| 0 <= k < views.len() implies #[trigger] played[k] == played[0] + Seq::new(k as nat, f) by {
            if k < views.len() - 1 {
                assert(vi[k] == views[k] && pi[k] == played[k]);
            }
        }
    }
}

/// After a manual selection the history is empty, so the following `next`
/// replays nothing from before it: the history then holds at most the track
/// that `next` chose.
pub proof fn lemma_selection_forgets_history(selected: QueueView, after: QueueView)
    requires
        selected.wf(),
        selected.trail == (Seq::<usize>::empty(), 0nat),
        next_step(selected, after),
    ensures
        !selected.has_forward(),
        after.trail.0.len() <= 1,
        forall|k: int| 0 <= k < after.trail.0.len() ==> after.current == Some(#[trigger] after.trail.0[k]),
{
}

} // verus!
