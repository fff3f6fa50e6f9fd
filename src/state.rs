//! What the player remembers between sessions and shows each tick.
use vstd::prelude::*;

use crate::player::{after_reports, Player};
use crate::queue::Playable;
use crate::queue::Queue;
use crate::status::PlaybackStatus;
use crate::track::Track;

verus! {

/// Application state: persisted on exit, read back on start, and refreshed
/// from the player and the queue on every tick. Times are in milliseconds.
#[derive(Debug, Clone)]
pub struct State {
    /// Volume in percent.
    pub volume: u8,
    /// Playback is paused.
    pub paused: bool,
    /// Output is muted.
    pub muted: bool,
    /// Time played of the current track.
    pub elapsed: Option<u64>,
    /// Length of the current track.
    pub duration: Option<u64>,
    /// The queue picks tracks at random.
    pub shuffle: bool,
    /// Directory the queue was read from.
    pub queue: Option<String>,
    /// Track that is playing.
    pub track: Option<Track>,
}

impl Default for State {
    fn default() -> (r: State)
        ensures
            r.volume == 50,
            r.paused,
            !r.muted,
            r.elapsed is None,
            r.duration is None,
            r.shuffle,
            r.queue is None,
            r.track is None,
    {
        State {
            volume: 50,
            paused: true,
            muted: false,
            elapsed: None,
            duration: None,
            shuffle: true,
            queue: None,
            track: None,
        }
    }
}

/// Which parts of the state a tick changed, for the interface and the bus
/// to catch up on.
#[derive(Debug, Clone, Copy, PartialEq, Eq, Structural)]
pub struct Changes {
    /// Volume or mute.
    pub volume: bool,
    /// Paused or playing.
    pub status: bool,
    /// Shuffle on or off.
    pub shuffle: bool,
    /// Directory of the queue.
    pub queue: bool,
    /// Track playing.
    pub track: bool,
}

/// Paths of two optional tracks are the same, or both are missing.
pub open spec fn same_track(a: Option<Track>, b: Option<Track>) -> bool {
    match (a, b) {
        (Some(x), Some(y)) => x.path@ == y.path@,
        (None, None) => true,
        _ => false,
    }
}

fn same_path(a: &Option<String>, b: Option<&str>) -> (r: bool)
    ensures
        r == (match (a, b) {
            (Some(x), Some(y)) => x@ == y@,
            (None, None) => true,
            _ => false,
        }),
{
    match (a, b) {
        (Some(x), Some(y)) => *x == y.to_owned(),
        (None, None) => true,
        _ => false,
    }
}

fn track_eq(a: &Option<Track>, b: Option<&Track>) -> (r: bool)
    ensures
        r == (match (a, b) {
            (Some(x), Some(y)) => x.path@ == y.path@,
            (None, None) => true,
            _ => false,
        }),
{
    match (a, b) {
        (Some(x), Some(y)) => x.path == y.path,
        (None, None) => true,
        _ => false,
    }
}

impl State {
    /// Brings the state up to date with the player, after it took in the
    /// engine's reports, and with the queue; says what changed.
    pub fn tick<S>(&mut self, player: &mut Player<S>, queue: &Queue) -> (r: Changes)
        requires
            old(player).wf(),
            queue.wf(),
        ensures
            final(player).wf(),
            final(player).received().len() >= old(player).received().len(),
            final(player).received().take(old(player).received().len() as int) == old(player).received(),
            final(player)@ == after_reports(
                old(player)@,
                final(player).received().skip(old(player).received().len() as int),
            ),
            final(player).sent() == old(player).sent(),
            final(player).played() == old(player).played(),
            final(player).sought() == old(player).sought(),
            final(player).pending() == old(player).pending(),
            final(self).volume == final(player)@.volume,
            final(self).muted == final(player)@.muted,
            final(self).paused == (final(player)@.status == PlaybackStatus::Paused),
            final(self).elapsed == final(player)@.elapsed,
            final(self).duration == final(player)@.duration,
            final(self).shuffle == queue@.shuffle,
            final(self).queue is Some <==> queue@.path is Some,
            final(self).queue is Some ==> final(self).queue.unwrap()@ == queue@.path.unwrap(),
            r.volume == (old(self).volume != final(self).volume || old(self).muted != final(self).muted),
            r.status == (old(self).paused != final(self).paused),
            r.shuffle == (old(self).shuffle != final(self).shuffle),
            r.queue == !(match (old(self).queue, queue@.path) {
                (Some(x), Some(y)) => x@ == y,
                (None, None) => true,
                _ => false,
            }),
            r.track == !same_track(old(self).track, match queue@.current {
                Some(i) => Some(queue@.tracks[i as int]),
                None => None,
            }),
            r.track ==> final(self).track == (match queue@.current {
                Some(i) => Some(queue@.tracks[i as int]),
                None => None::<Track>,
            }),
            !r.track ==> final(self).track == old(self).track,
    {
        player.update();

        let volume = player.volume();
        let muted = player.muted();
        let volume_changed = self.volume != volume || self.muted != muted;
        self.volume = volume;
        self.muted = muted;

        let paused = player.paused();
        let status_changed = self.paused != paused;
        self.paused = paused;

        self.duration = player.duration();
        self.elapsed = player.elapsed();

        let shuffle = queue.is_shuffle();
        let shuffle_changed = self.shuffle != shuffle;
        self.shuffle = shuffle;

        let q = queue.path();
        let queue_changed = !same_path(&self.queue, q);
        if queue_changed {
            self.queue = match q {
                Some(p) => Some(p.to_owned()),
                None => None,
            };
        }

        let current = queue.track();
        let track_changed = !track_eq(&self.track, current);
        if track_changed {
            self.track = match current {
                Some(t) => Some(t.duplicate()),
                None => None,
            };
        }

        Changes {
            volume: volume_changed,
            status: status_changed,
            shuffle: shuffle_changed,
            queue: queue_changed,
            track: track_changed,
        }
    }

    /// Time played and length of the current track, when both are known.
    pub fn elapsed_duration(&self) -> (r: Option<(u64, u64)>)
        ensures
            r is Some <==> self.elapsed is Some && self.duration is Some,
            r is Some ==> r.unwrap() == (self.elapsed.unwrap(), self.duration.unwrap()),
    {
        match (self.elapsed, self.duration) {
            (Some(e), Some(d)) => Some((e, d)),
            _ => None,
        }
    }

    /// Time played of the current track.
    pub fn elapsed(&self) -> (r: Option<u64>)
        ensures
            r == self.elapsed,
    {
        self.elapsed
    }

    /// Length of the current track.
    pub fn duration(&self) -> (r: Option<u64>)
        ensures
            r == self.duration,
    {
        self.duration
    }
}

/// Ticks between two writes of the state file, not counting the writing one.
pub const WRITE_EVERY: u32 = 10;

/// What the control loop does on a tick.
#[derive(Debug, Clone, Copy, PartialEq, Eq, Structural)]
pub struct TickPlan {
    /// Play the next track if the current one has ended.
    pub advance: bool,
    /// Write the state file.
    pub write: bool,
}

/// The control loop's bookkeeping between ticks: how many ticks passed since
/// the state was last written, and whether the user picked a track since the
/// last tick, so that an end-of-track report from before does not skip it.
#[derive(Debug, Clone, Copy, PartialEq, Eq, Structural)]
pub struct Ticker {
    pub ticks: u32,
    pub skip_done: bool,
}

impl Ticker {
    pub open spec fn wf(self) -> bool {
        self.ticks <= WRITE_EVERY
    }

    /// No tick yet, nothing picked.
    pub fn new() -> (r: Ticker)
        ensures
            r.wf(),
            r == (Ticker { ticks: 0, skip_done: false }),
    {
        Ticker { ticks: 0, skip_done: false }
    }

    /// The user picked a track: the next tick does not advance.
    pub fn picked(&mut self)
        ensures
            *final(self) == (Ticker { skip_done: true, ..*old(self) }),
    {
        self.skip_done = true;
    }

    /// One tick: advance unless a track was picked since the last one; write
    /// the state on every `WRITE_EVERY + 1`-th tick.
    pub fn tick(&mut self) -> (r: TickPlan)
        requires
            old(self).wf(),
        ensures
            final(self).wf(),
            r.advance == !old(self).skip_done,
            r.write == (old(self).ticks >= WRITE_EVERY),
            !final(self).skip_done,
            final(self).ticks == if r.write {
                0
            } else {
                old(self).ticks + 1
            },
    {
        let advance = !self.skip_done;
        self.skip_done = false;
        let write = self.ticks >= WRITE_EVERY;
        self.ticks = if write {
            0
        } else {
            self.ticks + 1
        };
        TickPlan { advance, write }
    }
}

} // verus!
