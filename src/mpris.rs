//! The media-player bridge of the desktop bus as the player sees it: the
//! commands that arrive from it and the changes it is told about.
use std::sync::mpsc::{Receiver, Sender};
use vstd::prelude::*;

use crate::state::State;

verus! {

#[verifier::external_type_specification]
#[verifier::external_body]
#[verifier::reject_recursive_types(T)]
pub struct ExSender<T>(Sender<T>);

#[verifier::external_type_specification]
#[verifier::external_body]
#[verifier::reject_recursive_types(T)]
pub struct ExReceiver<T>(Receiver<T>);

/// Relies on `std::sync::mpsc::Sender::send`: queues `value` unless the receiver
/// is gone; never blocks.
#[verifier::external_body]
fn notify<T>(tx: &Sender<T>, value: T) {
    let _ = tx.send(value);
}

/// Relies on `std::sync::mpsc::Receiver::try_recv`: the oldest queued value, if
/// any; never blocks. What is queued depends on the other thread.
#[verifier::external_body]
fn poll<T>(rx: &Receiver<T>) -> (r: Option<T>) {
    rx.try_recv().ok()
}

/// A command that came over the bus. Times are in milliseconds.
#[derive(Debug, Clone, Copy, PartialEq, Eq, Structural)]
pub enum MprisEvent {
    Next,
    Prev,
    Toggle,
    Pause,
    Play,
    Seek(u64),
    SeekBack(u64),
    Shuffle(bool),
    Volume(u8),
}

/// A change the bus is told about.
#[derive(Debug, Clone, Copy, PartialEq, Eq, Structural)]
pub enum MprisUpdate {
    PlayerStatus,
    Shuffle,
    Volume,
    Metadata,
}

/// The player's end of the bus bridge.
#[derive(Debug)]
pub struct Mpris {
    /// Commands from the bus.
    rx: Receiver<MprisEvent>,
    /// Changes for the bus to announce.
    up: Sender<MprisUpdate>,
}

impl Mpris {
    /// The bridge over channels whose other ends the bus service holds.
    pub fn from_channels(rx: Receiver<MprisEvent>, up: Sender<MprisUpdate>) -> (r: Self) {
        Mpris { rx, up }
    }

    /// Tells the bus about a change.
    pub fn update(&self, updated: MprisUpdate) {
        notify(&self.up, updated);
    }

    /// The next command from the bus, if one is waiting.
    pub fn recv(&self) -> (r: Option<MprisEvent>) {
        poll(&self.rx)
    }
}

/// The command for a relative seek of `offset` microseconds: backwards when
/// negative, in whole milliseconds.
pub open spec fn seek_command(offset: i64) -> MprisEvent {
    if offset < 0 {
        MprisEvent::SeekBack(((-offset) / 1000) as u64)
    } else {
        MprisEvent::Seek((offset / 1000) as u64)
    }
}

/// The command for a relative seek of `offset` microseconds.
pub fn seek_event(offset: i64) -> (r: MprisEvent)
    ensures
        r == seek_command(offset),
{
    if offset < 0 {
        let back: u64 = if offset == i64::MIN {
            (i64::MAX as u64) + 1
        } else {
            (-offset) as u64
        };
        MprisEvent::SeekBack(back / 1000)
    } else {
        MprisEvent::Seek((offset as u64) / 1000)
    }
}

/// The playback status the bus shows: stopped with no track, else paused or
/// playing.
pub fn playback_status(state: &State) -> (r: &'static str)
    ensures
        state.track is None ==> r@ == "Stopped"@,
        state.track is Some && state.paused ==> r@ == "Paused"@,
        state.track is Some && !state.paused ==> r@ == "Playing"@,
{
    if state.track.is_none() {
        "Stopped"
    } else if state.paused {
        "Paused"
    } else {
        "Playing"
    }
}

/// The position the bus shows, in microseconds: the time played, zero when
/// unknown.
pub fn position(state: &State) -> (r: i64)
    ensures
        r == (match state.elapsed {
            Some(e) => if e * 1000 > i64::MAX {
                i64::MAX
            } else {
                (e * 1000) as i64
            },
            None => 0,
        }),
{
    match state.elapsed {
        Some(e) => if e > (i64::MAX as u64) / 1000 {
            i64::MAX
        } else {
            (e * 1000) as i64
        },
        None => 0,
    }
}

} // verus!
