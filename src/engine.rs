//! The decisions the audio callback takes: which commands it adopts, whether it
//! renders or stays silent, whether it converts sample rates, what it reports.
//! Decoding and the samples themselves stay with the caller.
use rtrb::{Consumer, Producer};
use vstd::prelude::*;

use crate::channel::{
    frames_ms, frames_to_ms, ms_to_frame, receive, send, start_frame, FromProcess, ToProcess,
    TO_PROCESS_CAPACITY,
};
use crate::player::{amplitude, amplitude_of, DEFAULT_VOLUME};
use crate::status::PlaybackStatus;

verus! {

/// Whether a stream at `stream_rate` must be converted to play on a device at
/// `device_rate`.
pub open spec fn needs_resampling(device_rate: u32, stream_rate: u32) -> bool {
    device_rate != stream_rate
}

/// Whether a stream at `stream_rate` must be converted to play on a device at
/// `device_rate`: exactly when the rates differ.
pub fn needs_resampler(device_rate: u32, stream_rate: u32) -> (r: bool)
    ensures
        r == needs_resampling(device_rate, stream_rate),
{
    device_rate != stream_rate
}

/// What the caller has to do after a command was adopted.
#[derive(Debug, Clone, Copy, PartialEq, Eq, Structural)]
pub enum Applied {
    /// A new stream is in place: drop buffered samples and build a converter
    /// when `resample` is set, or drop the converter.
    Swapped { resample: bool },
    /// Seek the stream to `frame` and drop buffered samples.
    Seeked { frame: u64 },
    /// Nothing beyond the state change.
    Adopted,
}

/// The engine seen as values.
pub struct ProcessView {
    pub has_stream: bool,
    pub stream_rate: u32,
    pub device_rate: u32,
    pub resample: bool,
    pub status: PlaybackStatus,
    pub volume: u8,
    pub done: bool,
}

/// State of the real-time engine. `S` is the decoded stream; the caller reads
/// from it and keeps the sample buffers and the rate converter. A ghost log
/// keeps every report handed to the control thread's channel.
#[verifier::reject_recursive_types(S)]
pub struct Process<S> {
    stream: Option<S>,
    stream_rate: u32,
    device_rate: u32,
    resample: bool,
    status: PlaybackStatus,
    volume: u8,
    done: bool,
    from_main_rx: Consumer<ToProcess<S>>,
    to_main_tx: Producer<FromProcess>,
    reported: Ghost<Seq<FromProcess>>,
}

impl<S> View for Process<S> {
    type V = ProcessView;

    closed spec fn view(&self) -> ProcessView {
        ProcessView {
            has_stream: self.stream is Some,
            stream_rate: self.stream_rate,
            device_rate: self.device_rate,
            resample: self.resample,
            status: self.status,
            volume: self.volume,
            done: self.done,
        }
    }
}

/// The engine after adopting `msg`, and what is left for the caller to do.
pub open spec fn adopted<S>(before: ProcessView, msg: ToProcess<S>) -> (ProcessView, Applied) {
    match msg {
        ToProcess::UseStream { stream, sample_rate, start, status } => (
            ProcessView {
                has_stream: true,
                stream_rate: sample_rate,
                resample: needs_resampling(before.device_rate, sample_rate),
                status,
                done: false,
                ..before
            },
            Applied::Swapped { resample: needs_resampling(before.device_rate, sample_rate) },
        ),
        ToProcess::Status(s) => (ProcessView { status: s, ..before }, Applied::Adopted),
        ToProcess::Volume(v) => (
            ProcessView {
                volume: if v > 100 {
                    100u8
                } else {
                    v
                },
                ..before
            },
            Applied::Adopted,
        ),
        ToProcess::SeekTo(ms) => if before.has_stream {
            (before, Applied::Seeked { frame: ms_to_frame(ms, before.stream_rate) })
        } else {
            (before, Applied::Adopted)
        },
    }
}

/// The reports that adopting `msg` sends: the playhead of a new stream, and
/// that of a seek when a stream is in place.
pub open spec fn adoption_reports<S>(before: ProcessView, msg: ToProcess<S>) -> Seq<FromProcess> {
    match msg {
        ToProcess::UseStream { stream, sample_rate, start, status } => seq![
            FromProcess::Playhead(frames_to_ms(start, sample_rate)),
        ],
        ToProcess::SeekTo(ms) => if before.has_stream {
            seq![FromProcess::Playhead(ms)]
        } else {
            Seq::empty()
        },
        _ => Seq::empty(),
    }
}

impl<S> Process<S> {
    /// Reports handed to the control thread's channel, oldest first.
    pub closed spec fn reported(&self) -> Seq<FromProcess> {
        self.reported@
    }

    fn post(&mut self, msg: FromProcess)
        ensures
            final(self)@ == old(self)@,
            final(self).reported() == old(self).reported().push(msg),
    {
        let _ = send(&mut self.to_main_tx, msg);
        self.reported = Ghost(self.reported@.push(msg));
    }

    pub open spec fn wf(&self) -> bool {
        &&& self@.has_stream ==> self@.stream_rate > 0
        &&& self@.volume <= 100
    }

    /// An engine for a device at `device_rate`, with no stream, paused, at the
    /// default volume.
    pub fn new(device_rate: u32, from_main_rx: Consumer<ToProcess<S>>, to_main_tx: Producer<FromProcess>) -> (r: Self)
        ensures
            r.wf(),
            r@ == (ProcessView {
                has_stream: false,
                stream_rate: 0,
                device_rate,
                resample: false,
                status: PlaybackStatus::Paused,
                volume: DEFAULT_VOLUME,
                done: false,
            }),
            r.reported() == Seq::<FromProcess>::empty(),
    {
        Process {
            stream: None,
            stream_rate: 0,
            device_rate,
            resample: false,
            status: PlaybackStatus::Paused,
            volume: DEFAULT_VOLUME,
            done: false,
            from_main_rx,
            to_main_tx,
            reported: Ghost(Seq::empty()),
        }
    }

    /// Adopts one command. A new stream replaces the old one, which is handed
    /// back; its playhead and that of a seek are reported. A volume above 100 is
    /// taken as 100.
    pub fn apply(&mut self, msg: ToProcess<S>) -> (r: (Applied, Option<S>))
        requires
            old(self).wf(),
            msg is UseStream ==> msg->UseStream_sample_rate > 0,
        ensures
            final(self).wf(),
            (final(self)@, r.0) == adopted(old(self)@, msg),
            final(self).reported() == old(self).reported() + adoption_reports(old(self)@, msg),
    {
        let ghost before = self.reported@;
        match msg {
            ToProcess::UseStream { stream, sample_rate, start, status } => {
                self.post(FromProcess::Playhead(frames_ms(start, sample_rate)));
                assert(self.reported@ =~= before + seq![FromProcess::Playhead(frames_to_ms(start, sample_rate))]);
                let resample = needs_resampler(self.device_rate, sample_rate);
                let old_stream = self.stream.take();
                self.stream = Some(stream);
                self.stream_rate = sample_rate;
                self.resample = resample;
                self.status = status;
                self.done = false;
                (Applied::Swapped { resample }, old_stream)
            },
            ToProcess::Status(s) => {
                self.status = s;
                assert(self.reported@ =~= before + Seq::<FromProcess>::empty());
                (Applied::Adopted, None)
            },
            ToProcess::Volume(v) => {
                self.volume = if v > 100 {
                    100
                } else {
                    v
                };
                assert(self.reported@ =~= before + Seq::<FromProcess>::empty());
                (Applied::Adopted, None)
            },
            ToProcess::SeekTo(ms) => {
                if self.stream.is_some() {
                    let frame = start_frame(ms, self.stream_rate);
                    self.post(FromProcess::Playhead(ms));
                    assert(self.reported@ =~= before + seq![FromProcess::Playhead(ms)]);
                    (Applied::Seeked { frame }, None)
                } else {
                    assert(self.reported@ =~= before + Seq::<FromProcess>::empty());
                    (Applied::Adopted, None)
                }
            },
        }
    }

    /// Takes the next pending command, if any, and adopts it. A stream without a
    /// sample rate is refused and handed back; that is the only command left
    /// unadopted. What arrives depends on the
    /// control thread; whatever it is, the engine changes only as adopting some
    /// command would change it.
    pub fn receive(&mut self) -> (r: Option<(Applied, Option<S>)>)
        requires
            old(self).wf(),
        ensures
            final(self).wf(),
            r is None ==> final(self)@ == old(self)@ && final(self).reported() == old(self).reported(),
            r is Some ==> (r.unwrap().0 == Applied::Adopted && r.unwrap().1 is Some && final(self)@ == old(self)@
                && final(self).reported() == old(self).reported()) || exists|m: ToProcess<S>|
                (final(self)@, r.unwrap().0) == #[trigger] adopted(old(self)@, m) && final(self).reported()
                    == old(self).reported() + adoption_reports(old(self)@, m),
    {
        match receive(&mut self.from_main_rx) {
            Some(ToProcess::UseStream { stream, sample_rate, start, status }) => {
                if sample_rate == 0 {
                    return Some((Applied::Adopted, Some(stream)));
                }
                let ghost before = self@;
                let msg = ToProcess::UseStream { stream, sample_rate, start, status };
                let ghost m = msg;
                let r = self.apply(msg);
                assert((self@, r.0) == adopted(before, m));
                assert(self.reported() == old(self).reported() + adoption_reports(before, m));
                Some(r)
            },
            Some(msg) => {
                let ghost before = self@;
                let ghost m = msg;
                let r = self.apply(msg);
                assert((self@, r.0) == adopted(before, m));
                assert(self.reported() == old(self).reported() + adoption_reports(before, m));
                Some(r)
            },
            None => None,
        }
    }

    /// The stream in place, to read and seek.
    pub fn stream_mut(&mut self) -> (r: Option<&mut S>)
        ensures
            r is Some <==> old(self)@.has_stream,
            final(self)@ == old(self)@,
            final(self).reported() == old(self).reported(),
    {
        self.stream.as_mut()
    }

    /// The stream in place.
    pub fn stream_ref(&self) -> (r: Option<&S>)
        ensures
            r is Some <==> self@.has_stream,
    {
        self.stream.as_ref()
    }

    /// Most commands one callback adopts, so that it ends in bounded time.
    pub fn drain_limit(&self) -> (r: usize)
        ensures
            r == TO_PROCESS_CAPACITY,
    {
        TO_PROCESS_CAPACITY
    }

    /// Whether this callback renders audio: a stream is in place, has not ended,
    /// has data ready, and playback is on. Otherwise the output is silence.
    pub fn should_render(&self, ready: bool) -> (r: bool)
        ensures
            r == (self@.has_stream && !self@.done && ready && self@.status == PlaybackStatus::Play),
    {
        self.stream.is_some() && !self.done && ready && self.status == PlaybackStatus::Play
    }

    /// The stream ran out: mark playback done and tell the control thread.
    pub fn end_of_stream(&mut self)
        ensures
            final(self)@ == (ProcessView { done: true, ..old(self)@ }),
            final(self).reported() == old(self).reported().push(FromProcess::IsDone),
    {
        self.done = true;
        self.post(FromProcess::IsDone);
    }

    /// Reports the playhead of the stream, which stands on frame `frames`.
    pub fn report(&mut self, frames: u64) -> (r: Option<u64>)
        requires
            old(self).wf(),
        ensures
            final(self)@ == old(self)@,
            r == (if old(self)@.has_stream {
                Some(frames_to_ms(frames, old(self)@.stream_rate))
            } else {
                None::<u64>
            }),
            r is Some ==> final(self).reported() == old(self).reported().push(FromProcess::Playhead(r.unwrap())),
            r is None ==> final(self).reported() == old(self).reported(),
    {
        if self.stream.is_some() {
            let ms = frames_ms(frames, self.stream_rate);
            self.post(FromProcess::Playhead(ms));
            Some(ms)
        } else {
            None
        }
    }

    /// Whether the stream in place is converted to the device's rate.
    pub fn resampling(&self) -> (r: bool)
        ensures
            r == self@.resample,
    {
        self.resample
    }

    /// Rate of the stream in place, in frames per second.
    pub fn stream_rate(&self) -> (r: u32)
        ensures
            r == self@.stream_rate,
    {
        self.stream_rate
    }

    /// Amplitude factor applied to each sample, in millionths: the cube of the
    /// volume as a fraction.
    pub fn gain(&self) -> (r: u32)
        requires
            self.wf(),
        ensures
            r == amplitude(self@.volume),
    {
        amplitude_of(self.volume)
    }
}

} // verus!
