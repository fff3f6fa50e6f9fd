//! Control-thread handle of the audio engine: it keeps the status that the
//! interface shows and sends the engine its commands.
use rtrb::{Consumer, Producer};
use vstd::prelude::*;

use crate::channel::{
    frames_ms, frames_to_ms, receive, send, FromProcess, ToProcess, FROM_PROCESS_CAPACITY,
};
use crate::queue::Playable;
use crate::state::State;
use crate::status::PlaybackStatus;
use crate::track::Track;

verus! {

/// The player after taking in `reports`, oldest first.
pub open spec fn after_reports(v: PlayerView, reports: Seq<FromProcess>) -> PlayerView
    decreases reports.len(),
{
    if reports.len() == 0 {
        v
    } else {
        let before = after_reports(v, reports.drop_last());
        match reports.last() {
            FromProcess::Playhead(d) => PlayerView { elapsed: Some(d), ..before },
            FromProcess::IsDone => PlayerView { done: true, ..before },
        }
    }
}

/// Volume in percent that a new player starts with.
pub const DEFAULT_VOLUME: u8 = 45;

/// The level the engine plays at, in percent: zero while muted.
pub open spec fn effective_level(muted: bool, volume: u8) -> u8 {
    if muted {
        0
    } else {
        volume
    }
}

/// Amplitude factor of a level in percent, in millionths: the cube of the
/// level as a fraction, a curve close to perceived loudness.
pub open spec fn amplitude(level: u8) -> u32 {
    (level * level * level) as u32
}

/// The amplitude factor for `level` percent, in millionths.
pub fn amplitude_of(level: u8) -> (r: u32)
    requires
        level <= 100,
    ensures
        r == amplitude(level),
{
    assert(level * level <= 100 * 100) by (nonlinear_arith)
        requires
            level <= 100,
    ;
    assert(level * level * level <= 100 * 100 * 100) by (nonlinear_arith)
        requires
            level <= 100,
    ;
    let l = level as u32;
    l * l * l
}

/// What the interface reads of a player.
pub struct PlayerView {
    pub muted: bool,
    pub volume: u8,
    pub done: bool,
    pub status: PlaybackStatus,
    pub elapsed: Option<u64>,
    pub duration: Option<u64>,
}

impl PlayerView {
    /// The amplitude factor, in millionths, for the level of this player: the
    /// level every volume command it sends carries.
    pub open spec fn effective_amplitude(self) -> u32 {
        amplitude(effective_level(self.muted, self.volume))
    }
}

/// The control handle. `S` is the decoded stream that is handed to the engine.
///
/// Besides its status it keeps, as ghost logs, every command it handed to the
/// engine's channel, every report it took in, every track it was asked to
/// play and every seek position it was asked for. A track to play is kept as a
/// pending request until the caller opens its stream and hands it over with
/// [`Player::replace_inner`].
#[verifier::reject_recursive_types(S)]
pub struct Player<S> {
    muted: bool,
    volume: u8,
    done: bool,
    status: PlaybackStatus,
    elapsed: Option<u64>,
    duration: Option<u64>,
    pending: Option<Track>,
    to_process_tx: Producer<ToProcess<S>>,
    from_process_rx: Consumer<FromProcess>,
    sent: Ghost<Seq<ToProcess<S>>>,
    received: Ghost<Seq<FromProcess>>,
    played: Ghost<Seq<Track>>,
    sought: Ghost<Seq<u64>>,
}

impl<S> View for Player<S> {
    type V = PlayerView;

    closed spec fn view(&self) -> PlayerView {
        PlayerView {
            muted: self.muted,
            volume: self.volume,
            done: self.done,
            status: self.status,
            elapsed: self.elapsed,
            duration: self.duration,
        }
    }
}

impl<S> Player<S> {
    /// Commands handed to the engine's channel, oldest first.
    pub closed spec fn sent(&self) -> Seq<ToProcess<S>> {
        self.sent@
    }

    /// Reports taken in from the engine, oldest first.
    pub closed spec fn received(&self) -> Seq<FromProcess> {
        self.received@
    }

    /// The track waiting to be opened and handed over.
    pub closed spec fn pending(&self) -> Option<Track> {
        self.pending
    }

    pub open spec fn wf(&self) -> bool {
        self@.volume <= 100
    }

    /// Same requests, seeks, reports and pending track as `other`.
    pub open spec fn same_requests(&self, other: &Self) -> bool {
        &&& self.played() == other.played()
        &&& self.sought() == other.sought()
        &&& self.received() == other.received()
        &&& self.pending() == other.pending()
    }

    /// A player talking to the engine over the given channel ends: paused, not
    /// muted, at the default volume, with no track, having sent nothing.
    pub fn new(to_process_tx: Producer<ToProcess<S>>, from_process_rx: Consumer<FromProcess>) -> (r: Self)
        ensures
            r.wf(),
            r@ == (PlayerView {
                muted: false,
                volume: DEFAULT_VOLUME,
                done: false,
                status: PlaybackStatus::Paused,
                elapsed: None,
                duration: None,
            }),
            r.sent() == Seq::<ToProcess<S>>::empty(),
            r.received() == Seq::<FromProcess>::empty(),
            r.played() == Seq::<Track>::empty(),
            r.sought() == Seq::<u64>::empty(),
            r.pending() is None,
    {
        Player {
            muted: false,
            volume: DEFAULT_VOLUME,
            done: false,
            status: PlaybackStatus::Paused,
            elapsed: None,
            duration: None,
            pending: None,
            to_process_tx,
            from_process_rx,
            sent: Ghost(Seq::empty()),
            received: Ghost(Seq::empty()),
            played: Ghost(Seq::empty()),
            sought: Ghost(Seq::empty()),
        }
    }

    /// A player that takes volume and mute from a saved `state` (a volume above
    /// 100 is taken as 100) and sends the engine the resulting level. The track of
    /// the state is then loaded with [`Player::revive`].
    pub fn with_state(
        to_process_tx: Producer<ToProcess<S>>,
        from_process_rx: Consumer<FromProcess>,
        state: &State,
    ) -> (r: Self)
        ensures
            r.wf(),
            r@ == (PlayerView {
                muted: state.muted,
                volume: if state.volume > 100 {
                    100u8
                } else {
                    state.volume
                },
                done: false,
                status: PlaybackStatus::Paused,
                elapsed: None,
                duration: None,
            }),
            r.sent() == seq![ToProcess::<S>::Volume(effective_level(r@.muted, r@.volume))],
            r.received() == Seq::<FromProcess>::empty(),
            r.played() == Seq::<Track>::empty(),
            r.sought() == Seq::<u64>::empty(),
            r.pending() is None,
    {
        let mut player = Player::new(to_process_tx, from_process_rx);
        player.volume = if state.volume > 100 {
            100
        } else {
            state.volume
        };
        player.muted = state.muted;
        player.send_volume();
        assert(player.sent@ =~= seq![ToProcess::<S>::Volume(effective_level(player@.muted, player@.volume))]);
        player
    }

    /// Hands `msg` to the engine's channel; when the channel is full it is
    /// dropped.
    fn post(&mut self, msg: ToProcess<S>)
        ensures
            final(self)@ == old(self)@,
            final(self).same_requests(old(self)),
            final(self).sent() == old(self).sent().push(msg),
    {
        let ghost m = msg;
        let _ = send(&mut self.to_process_tx, msg);
        self.sent = Ghost(self.sent@.push(m));
    }

    fn send_volume(&mut self)
        ensures
            final(self)@ == old(self)@,
            final(self).same_requests(old(self)),
            final(self).sent() == old(self).sent().push(
                ToProcess::Volume(effective_level(old(self)@.muted, old(self)@.volume)),
            ),
    {
        let level = if self.muted {
            0
        } else {
            self.volume
        };
        self.post(ToProcess::Volume(level));
    }

    /// Takes one report of the engine into account.
    pub fn apply(&mut self, msg: FromProcess)
        ensures
            final(self)@ == after_reports(old(self)@, seq![msg]),
            final(self).received() == old(self).received().push(msg),
            final(self).sent() == old(self).sent(),
            final(self).played() == old(self).played(),
            final(self).sought() == old(self).sought(),
            final(self).pending() == old(self).pending(),
    {
        proof {
            assert(seq![msg].drop_last() =~= Seq::<FromProcess>::empty());
            reveal_with_fuel(after_reports, 2);
        }
        match msg {
            FromProcess::Playhead(d) => {
                self.elapsed = Some(d);
            },
            FromProcess::IsDone => {
                self.done = true;
            },
        }
        self.received = Ghost(self.received@.push(msg));
    }

    /// Takes the engine's pending reports into account, at most as many as its
    /// channel holds: the player ends as the reports it took in, in order, leave
    /// it. Which reports are waiting depends on the engine's thread.
    pub fn update(&mut self)
        requires
            old(self).wf(),
        ensures
            final(self).wf(),
            final(self).received().len() >= old(self).received().len(),
            final(self).received().take(old(self).received().len() as int) == old(self).received(),
            final(self)@ == after_reports(
                old(self)@,
                final(self).received().skip(old(self).received().len() as int),
            ),
            final(self).sent() == old(self).sent(),
            final(self).played() == old(self).played(),
            final(self).sought() == old(self).sought(),
            final(self).pending() == old(self).pending(),
    {
        let ghost start = self.received@.len();
        let mut n: usize = 0;
        assert(self.received@.skip(start as int) =~= Seq::<FromProcess>::empty());
        while n < FROM_PROCESS_CAPACITY
            invariant
                self.received@.len() >= start,
                self.received@.take(start as int) == old(self).received(),
                self@ == after_reports(old(self)@, self.received@.skip(start as int)),
                self@.volume == old(self)@.volume,
                self.sent() == old(self).sent(),
                self.played() == old(self).played(),
                self.sought() == old(self).sought(),
                self.pending() == old(self).pending(),
            decreases FROM_PROCESS_CAPACITY - n,
        {
            match receive(&mut self.from_process_rx) {
                Some(msg) => {
                    let ghost before = self.received@;
                    self.apply(msg);
                    proof {
                        assert(self.received@.take(start as int) =~= before.take(start as int));
                        let tail = self.received@.skip(start as int);
                        assert(tail =~= before.skip(start as int).push(msg));
                        lemma_after_report(old(self)@, before.skip(start as int), msg);
                        lemma_after_reports_keeps(old(self)@, tail);
                    }
                },
                None => break,
            }
            n = n + 1;
        }
    }

    /// Hands the engine `stream`, `num_frames` frames long at `sample_rate`, whose
    /// playhead stands on frame `start_frame`, to play with `status` from
    /// `start` milliseconds. Opening the stream and seeking it to `start` is the
    /// caller's part.
    pub fn replace_inner(
        &mut self,
        stream: S,
        sample_rate: u32,
        num_frames: u64,
        start_frame: u64,
        status: PlaybackStatus,
        start: u64,
    )
        requires
            old(self).wf(),
            sample_rate > 0,
        ensures
            final(self).wf(),
            final(self)@ == (PlayerView {
                duration: Some(frames_to_ms(num_frames, sample_rate)),
                elapsed: Some(start),
                status,
                done: false,
                ..old(self)@
            }),
            final(self).same_requests(old(self)),
            final(self).sent() == old(self).sent().push(
                ToProcess::UseStream { stream, sample_rate, start: start_frame, status },
            ),
    {
        self.duration = Some(frames_ms(num_frames, sample_rate));
        self.elapsed = Some(start);
        self.status = status;
        self.done = false;
        self.post(ToProcess::UseStream { stream, sample_rate, start: start_frame, status });
    }

    /// Loads a track paused at `start` milliseconds, as a session resumes.
    pub fn revive(&mut self, stream: S, sample_rate: u32, num_frames: u64, start_frame: u64, start: u64)
        requires
            old(self).wf(),
            sample_rate > 0,
        ensures
            final(self).wf(),
            final(self)@ == (PlayerView {
                duration: Some(frames_to_ms(num_frames, sample_rate)),
                elapsed: Some(start),
                status: PlaybackStatus::Paused,
                done: false,
                ..old(self)@
            }),
            final(self).same_requests(old(self)),
            final(self).sent() == old(self).sent().push(
                ToProcess::UseStream { stream, sample_rate, start: start_frame, status: PlaybackStatus::Paused },
            ),
    {
        self.replace_inner(stream, sample_rate, num_frames, start_frame, PlaybackStatus::Paused, start);
    }

    /// The track a caller asked to play and that waits to be opened; it is
    /// taken, so the request is served once.
    pub fn take_pending(&mut self) -> (r: Option<Track>)
        ensures
            r == old(self).pending(),
            final(self).pending() is None,
            final(self)@ == old(self)@,
            final(self).sent() == old(self).sent(),
            final(self).played() == old(self).played(),
            final(self).sought() == old(self).sought(),
            final(self).received() == old(self).received(),
    {
        self.pending.take()
    }

    /// Whether a loaded track has played to its end.
    pub fn done(&self) -> (r: bool)
        ensures
            r == (self@.duration is Some && self@.done),
    {
        self.duration.is_some() && self.done
    }

    /// Asks the engine to move the playhead to `position` milliseconds.
    pub fn seek(&mut self, position: u64)
        ensures
            final(self)@ == old(self)@,
            final(self).sent() == old(self).sent().push(ToProcess::SeekTo(position)),
            final(self).sought() == old(self).sought().push(position),
            final(self).played() == old(self).played(),
            final(self).received() == old(self).received(),
            final(self).pending() == old(self).pending(),
    {
        self.post(ToProcess::SeekTo(position));
        self.sought = Ghost(self.sought@.push(position));
    }

    /// Switches between paused and playing.
    pub fn toggle(&mut self)
        ensures
            final(self)@ == (PlayerView { status: old(self)@.status.inverted(), ..old(self)@ }),
            final(self).same_requests(old(self)),
            final(self).sent() == old(self).sent().push(ToProcess::Status(old(self)@.status.inverted())),
    {
        let status = self.status.invert();
        self.status = status;
        self.post(ToProcess::Status(status));
    }

    /// Sets the transport state.
    pub fn pause(&mut self, status: PlaybackStatus)
        ensures
            final(self)@ == (PlayerView { status, ..old(self)@ }),
            final(self).same_requests(old(self)),
            final(self).sent() == old(self).sent().push(ToProcess::Status(status)),
    {
        self.status = status;
        self.post(ToProcess::Status(status));
    }

    /// Volume in percent, kept while muted.
    pub fn volume(&self) -> (r: u8)
        ensures
            r == self@.volume,
    {
        self.volume
    }

    /// Whether playback is paused.
    pub fn paused(&self) -> (r: bool)
        ensures
            r == (self@.status == PlaybackStatus::Paused),
    {
        self.status == PlaybackStatus::Paused
    }

    /// Length of the loaded track in milliseconds.
    pub fn duration(&self) -> (r: Option<u64>)
        ensures
            r == self@.duration,
    {
        self.duration
    }

    /// Playhead of the loaded track in milliseconds, as last reported.
    pub fn elapsed(&self) -> (r: Option<u64>)
        ensures
            r == self@.elapsed,
    {
        self.elapsed
    }

    /// Mutes, or unmutes; the stored volume stays as it is. The engine is sent
    /// the new level: zero when muted, the volume when not.
    pub fn mute(&mut self)
        requires
            old(self).wf(),
        ensures
            final(self).wf(),
            final(self)@ == (PlayerView { muted: !old(self)@.muted, ..old(self)@ }),
            final(self).same_requests(old(self)),
            final(self).sent() == old(self).sent().push(
                ToProcess::Volume(effective_level(final(self)@.muted, final(self)@.volume)),
            ),
    {
        self.muted = !self.muted;
        self.send_volume();
    }

    /// Whether output is muted.
    pub fn muted(&self) -> (r: bool)
        ensures
            r == self@.muted,
    {
        self.muted
    }

    /// Raises the volume by `amt` percent, up to 100, and sends the engine the
    /// resulting level (still zero while muted).
    pub fn i_vol(&mut self, amt: u8)
        requires
            old(self).wf(),
        ensures
            final(self).wf(),
            final(self)@ == (PlayerView {
                volume: if old(self)@.volume + amt > 100 {
                    100u8
                } else {
                    (old(self)@.volume + amt) as u8
                },
                ..old(self)@
            }),
            final(self).same_requests(old(self)),
            final(self).sent() == old(self).sent().push(
                ToProcess::Volume(effective_level(final(self)@.muted, final(self)@.volume)),
            ),
    {
        let raised = self.volume.saturating_add(amt);
        self.volume = if raised > 100 {
            100
        } else {
            raised
        };
        self.send_volume();
    }

    /// Lowers the volume by `amt` percent, down to 0, and sends the engine the
    /// resulting level (still zero while muted).
    pub fn d_vol(&mut self, amt: u8)
        requires
            old(self).wf(),
        ensures
            final(self).wf(),
            final(self)@ == (PlayerView {
                volume: if old(self)@.volume < amt {
                    0u8
                } else {
                    (old(self)@.volume - amt) as u8
                },
                ..old(self)@
            }),
            final(self).same_requests(old(self)),
            final(self).sent() == old(self).sent().push(
                ToProcess::Volume(effective_level(final(self)@.muted, final(self)@.volume)),
            ),
    {
        self.volume = self.volume.saturating_sub(amt);
        self.send_volume();
    }

    /// Sets the volume to `vol` percent and sends the engine the resulting level
    /// (still zero while muted).
    pub fn set_volume(&mut self, vol: u8)
        requires
            vol <= 100,
        ensures
            final(self).wf(),
            final(self)@ == (PlayerView { volume: vol, ..old(self)@ }),
            final(self).same_requests(old(self)),
            final(self).sent() == old(self).sent().push(ToProcess::Volume(effective_level(old(self)@.muted, vol))),
    {
        self.volume = vol;
        self.send_volume();
    }

    /// The amplitude factor for the player's level, in millionths: the cube of
    /// the volume as a fraction, or zero while muted.
    pub fn effective_amplitude(&self) -> (r: u32)
        requires
            self.wf(),
        ensures
            r == self@.effective_amplitude(),
    {
        let level = if self.muted {
            0
        } else {
            self.volume
        };
        amplitude_of(level)
    }
}

impl<S> Playable for Player<S> {
    closed spec fn played(&self) -> Seq<Track> {
        self.played@
    }

    closed spec fn sought(&self) -> Seq<u64> {
        self.sought@
    }

    open spec fn finished(&self) -> bool {
        self@.duration is Some && self@.done
    }

    /// Records `track` as the one to play next; nothing else changes and
    /// nothing is sent. The caller opens it and hands the stream over with
    /// [`Player::replace_inner`]; when it cannot be opened the player stays as it
    /// is.
    fn replace(&mut self, track: &Track)
        ensures
            final(self).pending() == Some(*track),
            final(self)@ == old(self)@,
            final(self).sent() == old(self).sent(),
            final(self).received() == old(self).received(),
    {
        self.pending = Some(track.duplicate());
        self.played = Ghost(self.played@.push(*track));
    }

    fn seek(&mut self, position: u64) {
        Player::seek(self, position);
    }

    fn done(&self) -> (r: bool) {
        Player::done(self)
    }
}

proof fn lemma_after_report(v: PlayerView, reports: Seq<FromProcess>, msg: FromProcess)
    ensures
        after_reports(v, reports.push(msg)) == after_reports(after_reports(v, reports), seq![msg]),
{
    assert(reports.push(msg).drop_last() =~= reports);
    assert(seq![msg].drop_last() =~= Seq::<FromProcess>::empty());
    reveal_with_fuel(after_reports, 2);
}

/// Reports move only the playhead and the end-of-track flag.
proof fn lemma_after_reports_keeps(v: PlayerView, reports: Seq<FromProcess>)
    ensures
        after_reports(v, reports).volume == v.volume,
        after_reports(v, reports).muted == v.muted,
        after_reports(v, reports).status == v.status,
        after_reports(v, reports).duration == v.duration,
    decreases reports.len(),
{
    if reports.len() > 0 {
        lemma_after_reports_keeps(v, reports.drop_last());
    }
}

/// Full volume plays at full amplitude, half volume at an eighth of it, and a
/// muted player plays at none whatever its volume.
pub proof fn lemma_gain_curve(view: PlayerView)
    ensures
        amplitude(100) == 1_000_000,
        amplitude(50) == 125_000,
        view.muted ==> view.effective_amplitude() == 0,
{
}

/// Muting and then unmuting gives back exactly the amplitude from before, and
/// leaves the stored volume alone throughout.
pub proof fn lemma_unmute_restores(before: PlayerView, muted: PlayerView, after: PlayerView)
    requires
        !before.muted,
        muted == (PlayerView { muted: !before.muted, ..before }),
        after == (PlayerView { muted: !muted.muted, ..muted }),
    ensures
        muted.volume == before.volume,
        muted.effective_amplitude() == 0,
        after.effective_amplitude() == before.effective_amplitude(),
        after == before,
{
}

} // verus!
