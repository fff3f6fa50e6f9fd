//! The two bounded single-producer/single-consumer channels between the control
//! thread and the audio callback, and the messages they carry.
use rtrb::{Consumer, Producer};
use vstd::prelude::*;

use crate::status::PlaybackStatus;

verus! {

/// Room of the channel from the control thread to the engine.
pub const TO_PROCESS_CAPACITY: usize = 64;

/// Room of the channel from the engine to the control thread.
pub const FROM_PROCESS_CAPACITY: usize = 256;

#[verifier::external_type_specification]
#[verifier::external_body]
#[verifier::reject_recursive_types(T)]
pub struct ExProducer<T>(Producer<T>);

#[verifier::external_type_specification]
#[verifier::external_body]
#[verifier::reject_recursive_types(T)]
pub struct ExConsumer<T>(Consumer<T>);

/// Relies on `rtrb::Producer::push`: queues `value` when a slot is free and
/// hands it back as `PushError::Full` otherwise; never blocks. Whether a slot is
/// free depends on the other thread, so nothing is promised of the result.
#[verifier::external_body]
pub(crate) fn send<T>(tx: &mut Producer<T>, value: T) -> (sent: bool) {
    tx.push(value).is_ok()
}

/// Relies on `rtrb::Consumer::pop`: the oldest queued value, or `PopError::Empty`;
/// never blocks. What is queued depends on the other thread.
#[verifier::external_body]
pub(crate) fn receive<T>(rx: &mut Consumer<T>) -> (r: Option<T>) {
    rx.pop().ok()
}

/// A command from the control thread to the engine. `S` is the decoded stream.
pub enum ToProcess<S> {
    /// Play from `stream` from now on. `sample_rate` is its rate in frames per
    /// second and `start` the frame its playhead stands on.
    UseStream { stream: S, sample_rate: u32, start: u64, status: PlaybackStatus },
    /// Adopt this transport state.
    Status(PlaybackStatus),
    /// Adopt this volume, in percent.
    Volume(u8),
    /// Move the playhead to this many milliseconds.
    SeekTo(u64),
}

/// A report from the engine to the control thread.
#[derive(Debug, Clone, Copy, PartialEq, Eq, Structural)]
pub enum FromProcess {
    /// The playhead stands at this many milliseconds.
    Playhead(u64),
    /// The stream has played to its end.
    IsDone,
}

/// Milliseconds that `frames` frames last at `rate` frames per second, rounded
/// down; at most `u64::MAX`.
pub open spec fn frames_to_ms(frames: u64, rate: u32) -> u64 {
    let ms = frames * 1000 / (rate as int);
    if ms > u64::MAX {
        u64::MAX
    } else {
        ms as u64
    }
}

/// The frame at `ms` milliseconds into a stream of `rate` frames per second,
/// rounded to the nearest; at most `u64::MAX`.
pub open spec fn ms_to_frame(ms: u64, rate: u32) -> u64 {
    let f = (ms * rate + 500) / 1000;
    if f > u64::MAX {
        u64::MAX
    } else {
        f as u64
    }
}

/// Length of `frames` frames at `rate` frames per second, in milliseconds.
pub fn frames_ms(frames: u64, rate: u32) -> (r: u64)
    requires
        rate > 0,
    ensures
        r == frames_to_ms(frames, rate),
{
    let ms: u128 = (frames as u128) * 1000 / (rate as u128);
    if ms > u64::MAX as u128 {
        u64::MAX
    } else {
        ms as u64
    }
}

/// The frame to seek to for a position of `ms` milliseconds at `rate` frames per
/// second.
pub fn start_frame(ms: u64, rate: u32) -> (r: u64)
    ensures
        r == ms_to_frame(ms, rate),
{
    assert((ms as u128) * (rate as u128) <= u64::MAX as u128 * u32::MAX as u128) by (nonlinear_arith);
    let f: u128 = ((ms as u128) * (rate as u128) + 500) / 1000;
    if f > u64::MAX as u128 {
        u64::MAX
    } else {
        f as u64
    }
}

} // verus!
