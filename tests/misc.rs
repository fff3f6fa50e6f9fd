use maym::channel::{FromProcess, ToProcess, FROM_PROCESS_CAPACITY, TO_PROCESS_CAPACITY};
use maym::discord::{presence, retry_due, timestamps, timestamps_at, RETRY_WAIT_MS};
use maym::mpris::{playback_status, position, seek_event, Mpris, MprisEvent, MprisUpdate};
use maym::player::Player;
use maym::queue::Queue;
use maym::state::State;
use maym::text::fmt_duration;
use maym::track::{Tags, Track};
use maym::tui::{Tui, _default_true};
use rtrb::RingBuffer;
use std::sync::mpsc::channel;
use std::time::Duration;

#[test]
fn time() {
    let duration = Duration::from_secs(100);
    let elapsed = Duration::ZERO;

    let (start, end) = timestamps(duration.as_millis() as u64, elapsed.as_millis() as u64);
    assert_eq!(end - start, duration.as_millis() as i64);

    let duration = Duration::from_secs(50);
    let elapsed = Duration::from_secs(25);

    let (start, end) = timestamps(duration.as_millis() as u64, elapsed.as_millis() as u64);
    assert_eq!(end - start, duration.as_millis() as i64);
}

#[test]
fn timestamps_reach_back_from_now() {
    let (start, end) = timestamps(10_000, 4_000);
    assert!(start > 1_600_000_000_000);
    assert_eq!(end - start, 10_000);
    assert_eq!(timestamps_at(100_000, 30_000, 20_000), (80_000, 110_000));
    assert_eq!(timestamps_at(5, 10, 20), (-15, -5));
}

#[test]
fn durations_format_as_minutes_and_seconds() {
    assert_eq!(fmt_duration(0), "00:00");
    assert_eq!(fmt_duration(61_999), "01:01");
    assert_eq!(fmt_duration(599_000), "09:59");
    assert_eq!(fmt_duration(3_725_000), "02:05");
}

#[test]
fn bus_seek_offsets() {
    assert_eq!(seek_event(5_000_000), MprisEvent::Seek(5_000));
    assert_eq!(seek_event(-2_500_000), MprisEvent::SeekBack(2_500));
    assert_eq!(seek_event(0), MprisEvent::Seek(0));
    assert_eq!(seek_event(i64::MIN), MprisEvent::SeekBack(9_223_372_036_854_775));
}

fn track(path: &str) -> Track {
    Track::with_tags(path.to_string(), Tags { track: Some(1), ..Tags::default() })
}

#[test]
fn bus_status_and_position() {
    let mut state = State::default();
    assert_eq!(playback_status(&state), "Stopped");
    assert_eq!(position(&state), 0);
    state.track = Some(track("a.mp3"));
    assert_eq!(playback_status(&state), "Paused");
    state.paused = false;
    assert_eq!(playback_status(&state), "Playing");
    state.elapsed = Some(1_500);
    assert_eq!(position(&state), 1_500_000);
    state.elapsed = Some(u64::MAX);
    assert_eq!(position(&state), i64::MAX);
}

#[test]
fn bus_channels() {
    let (tx, rx) = channel::<MprisEvent>();
    let (up, ups) = channel::<MprisUpdate>();
    let mpris = Mpris::from_channels(rx, up);
    assert_eq!(mpris.recv(), None);
    tx.send(MprisEvent::Volume(30)).unwrap();
    tx.send(MprisEvent::Next).unwrap();
    assert_eq!(mpris.recv(), Some(MprisEvent::Volume(30)));
    assert_eq!(mpris.recv(), Some(MprisEvent::Next));
    mpris.update(MprisUpdate::Shuffle);
    assert_eq!(ups.try_recv().ok(), Some(MprisUpdate::Shuffle));
}

#[test]
fn tick_follows_player_and_queue() {
    let (to_process_tx, _from_main_rx) = RingBuffer::<ToProcess<()>>::new(TO_PROCESS_CAPACITY);
    let (mut to_main_tx, from_process_rx) = RingBuffer::<FromProcess>::new(FROM_PROCESS_CAPACITY);
    let mut player = Player::new(to_process_tx, from_process_rx);
    let mut queue = Queue::from_parts(Some("dir".to_string()), vec![track("a"), track("b")], false);
    let mut state = State::default();

    let changes = state.tick(&mut player, &queue);
    assert!(changes.volume && changes.shuffle && changes.queue);
    assert!(!changes.status && !changes.track);
    assert_eq!(state.volume, 45);
    assert!(!state.shuffle);
    assert_eq!(state.queue.as_deref(), Some("dir"));

    let _ = queue.next(&mut player);
    player.toggle();
    to_main_tx.push(FromProcess::Playhead(1_234)).unwrap();
    let changes = state.tick(&mut player, &queue);
    assert!(changes.track && changes.status);
    assert!(!changes.volume && !changes.shuffle && !changes.queue);
    assert_eq!(state.track.as_ref().map(|t| t.path()), Some("a"));
    assert!(!state.paused);
    assert_eq!(state.elapsed, Some(1_234));
    assert_eq!(state.elapsed_duration(), None);

    let changes = state.tick(&mut player, &queue);
    assert!(!changes.track && !changes.status && !changes.volume);
}

#[test]
fn defaults() {
    let state = State::default();
    assert_eq!(state.volume, 50);
    assert!(state.paused && state.shuffle && !state.muted);
    assert!(_default_true());
    let _ = Tui::new();
}

#[test]
fn error_messages() {
    assert_eq!(maym::error::QueueError::OutOfBounds.message(), "index out of bounds");
    assert_eq!(maym::error::QueueError::NoTracks.message(), "queue is empty");
}

#[test]
fn reconnect_after_the_wait() {
    assert!(!retry_due(Some(0)));
    assert!(!retry_due(Some(RETRY_WAIT_MS - 1)));
    assert!(retry_due(Some(RETRY_WAIT_MS)));
    assert!(retry_due(None));
}

#[test]
fn presence_follows_the_track() {
    let mut state = State::default();
    assert!(presence(&state).is_none());

    state.track = Some(Track::with_tags(
        "a.mp3".to_string(),
        Tags { title: Some("Song".to_string()), ..Tags::default() },
    ));
    let p = presence(&state).unwrap();
    assert_eq!((p.details.as_str(), p.state.as_str()), ("Song", "unknown artist"));
    assert!(p.paused && p.start.is_none() && p.end.is_none());

    state.paused = false;
    assert!(presence(&state).is_none());

    state.elapsed = Some(5_000);
    state.duration = Some(65_000);
    let p = presence(&state).unwrap();
    assert!(!p.paused);
    assert_eq!(p.end.unwrap() - p.start.unwrap(), 65_000);

    state.paused = true;
    let p = presence(&state).unwrap();
    assert!(p.start.is_some() && p.end.is_none());
}
