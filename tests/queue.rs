use maym::channel::{FromProcess, ToProcess, FROM_PROCESS_CAPACITY, TO_PROCESS_CAPACITY};
use maym::error::QueueError;
use maym::queue::{shuffle_pick, Listing, Queue};
use maym::status::PlaybackStatus;
use maym::state::State;
use maym::track::{Tags, Track};
use rtrb::{Consumer, Producer, RingBuffer};

/// A player as the queue drives it, with the engine's ends of its channels,
/// collecting what it was asked to play and where to seek.
struct Player {
    inner: maym::player::Player<()>,
    rx: Consumer<ToProcess<()>>,
    tx: Producer<FromProcess>,
    replaced: Vec<String>,
    seeks: Vec<u64>,
}

impl Player {
    fn new() -> Player {
        let (to_process_tx, rx) = RingBuffer::<ToProcess<()>>::new(TO_PROCESS_CAPACITY);
        let (tx, from_process_rx) = RingBuffer::<FromProcess>::new(FROM_PROCESS_CAPACITY);
        Player { inner: maym::player::Player::new(to_process_tx, from_process_rx), rx, tx, replaced: Vec::new(), seeks: Vec::new() }
    }

    /// Collects the track request and the seek commands made since the last call.
    fn sync(&mut self) {
        if let Some(track) = self.inner.take_pending() {
            self.replaced.push(track.path().to_string());
        }
        while let Ok(msg) = self.rx.pop() {
            if let ToProcess::SeekTo(position) = msg {
                self.seeks.push(position);
            }
        }
    }

    /// Loads a track and lets the engine report that it ended.
    fn finish(&mut self) {
        self.inner.replace_inner((), 1_000, 1_000, 0, PlaybackStatus::Play, 0);
        self.tx.push(FromProcess::IsDone).unwrap();
        self.inner.update();
    }
}

fn numbered(path: &str, number: u32) -> Track {
    let tags = Tags { track: Some(number), title: Some(format!("title {number:02}")), ..Tags::default() };
    Track::with_tags(path.to_string(), tags)
}

/// The audio files found below a mock directory, in the order a scan meets them.
fn files(path: &str) -> Option<Vec<Track>> {
    match path {
        "mock/list 01" => Some(vec![
            numbered("mock/list 01/sub 01/track 04.mp3", 4),
            numbered("mock/list 01/sub 01/track 05.mp3", 5),
            numbered("mock/list 01/sub 02/track 02.mp3", 2),
            numbered("mock/list 01/sub 02/track 03.mp3", 3),
            numbered("mock/list 01/track 00.mp3", 0),
            numbered("mock/list 01/track 01.mp3", 1),
        ]),
        "mock/list 02" => Some(vec![
            numbered("mock/list 02/track 03.mp3", 3),
            numbered("mock/list 02/track 01.mp3", 1),
            numbered("mock/list 02/track 05.mp3", 5),
            numbered("mock/list 02/track 02.mp3", 2),
            numbered("mock/list 02/track 04.mp3", 4),
        ]),
        _ => None,
    }
}

fn listing(path: &str) -> Option<Listing> {
    files(path).map(|files| Listing { is_dir: true, files })
}

fn track(path: &str) -> Result<Track, QueueError> {
    for dir in ["mock/list 01", "mock/list 02"] {
        for t in files(dir).unwrap() {
            if t.path() == path {
                return Ok(t);
            }
        }
    }
    Track::new(path.to_string(), false, false, Tags::default())
}

fn list(path: &str) -> Result<Vec<Track>, QueueError> {
    match files(path) {
        Some(found) => Track::directory(path, true, found),
        None => Err(QueueError::NotADirectory(path.to_string())),
    }
}

fn queue(path: &str) -> Result<Queue, QueueError> {
    let tracks = list(path)?;
    Ok(Queue::from_parts(Some(path.to_string()), tracks, false))
}

fn mock(queue: Option<&str>, track_path: Option<&str>) -> Result<State, QueueError> {
    let track = match track_path {
        Some(p) => Some(track(p)?),
        None => None,
    };
    Ok(State {
        volume: 45,
        paused: true,
        muted: false,
        elapsed: None,
        duration: None,
        queue: queue.map(|q| q.to_string()),
        shuffle: true,
        track,
    })
}

#[test]
fn seq() -> Result<(), QueueError> {
    let t0 = track("mock/list 01/track 00.mp3")?;
    let t1 = track("mock/list 01/track 01.mp3")?;
    let t2 = track("mock/list 01/sub 02/track 02.mp3")?;
    let t5 = track("mock/list 01/sub 01/track 05.mp3")?;

    let mut player = Player::new();
    let mut queue = queue("mock/list 01")?;

    queue.next(&mut player.inner);
    assert_eq!(queue.track(), Some(&t0));

    queue.next(&mut player.inner);
    assert_eq!(queue.track(), Some(&t1));

    queue.next(&mut player.inner);
    assert_eq!(queue.track(), Some(&t2));

    queue.next(&mut player.inner);
    queue.next(&mut player.inner);
    queue.next(&mut player.inner);
    queue.next(&mut player.inner);

    assert_eq!(queue.track(), Some(&t0));

    queue.last(&mut player.inner);
    assert_eq!(queue.track(), Some(&t5));

    Ok(())
}

#[test]
fn last_seq() -> Result<(), QueueError> {
    let t1 = track("mock/list 01/track 01.mp3")?;
    let t2 = track("mock/list 01/sub 02/track 02.mp3")?;
    let t5 = track("mock/list 01/sub 01/track 05.mp3")?;

    let mut player = Player::new();
    let mut queue = queue("mock/list 01")?;

    assert_eq!(queue.track(), None);

    queue.next(&mut player.inner);
    assert_eq!(queue.history_len(), 0);

    queue.last(&mut player.inner);
    assert_eq!(queue.track(), Some(&t5));

    queue.next(&mut player.inner);
    queue.next(&mut player.inner);
    queue.next(&mut player.inner);

    assert_eq!(queue.track(), Some(&t2));

    queue.last(&mut player.inner);
    assert_eq!(queue.track(), Some(&t1));

    Ok(())
}

#[test]
fn shuf() -> Result<(), QueueError> {
    let mut player = Player::new();
    let mut queue = queue("mock/list 01")?;

    queue.shuffle();
    assert!(queue.is_shuffle());

    queue.next(&mut player.inner);
    queue.next(&mut player.inner);
    queue.next(&mut player.inner);

    let tt = queue.index();

    queue.next(&mut player.inner);
    queue.last(&mut player.inner);
    queue.last(&mut player.inner);
    queue.next(&mut player.inner);

    assert_eq!(queue.index(), tt);
    assert_eq!(queue.history_index(), 2);
    assert_eq!(queue.history_len(), 4);

    queue.shuffle();
    assert!(!queue.is_shuffle());
    assert_eq!(queue.history_len(), 0);

    Ok(())
}

#[test]
fn idx() -> Result<(), QueueError> {
    let t1 = track("mock/list 01/track 01.mp3")?;
    let t2 = track("mock/list 01/sub 02/track 02.mp3")?;

    let mut player = Player::new();
    let mut queue = queue("mock/list 01")?;

    queue.next(&mut player.inner);
    queue.next(&mut player.inner);
    queue.next(&mut player.inner);
    queue.last(&mut player.inner);

    queue.select_idx(2, &mut player.inner)?;
    assert_eq!(queue.track(), Some(&t2));

    assert_eq!(queue.history_len(), 0);

    queue.select_idx(1, &mut player.inner)?;
    assert_eq!(queue.track(), Some(&t1));

    Ok(())
}

#[test]
fn path() -> Result<(), QueueError> {
    let t0 = track("mock/list 01/track 00.mp3")?;
    let t4 = track("mock/list 01/sub 01/track 04.mp3")?;

    let mut player = Player::new();
    let mut queue = queue("mock/list 01")?;

    queue.next(&mut player.inner);
    queue.next(&mut player.inner);
    queue.next(&mut player.inner);
    queue.last(&mut player.inner);

    queue.select_path("mock/list 01/sub 01/track 04.mp3", &mut player.inner)?;
    assert_eq!(queue.track(), Some(&t4));

    assert_eq!(queue.history_len(), 0);

    queue.select_path("mock/list 01/track 00.mp3", &mut player.inner)?;
    assert_eq!(queue.track(), Some(&t0));

    Ok(())
}

#[test]
fn dot_queue() -> Result<(), QueueError> {
    let mut queue = queue("mock/list 01")?;
    let list02 = list("mock/list 02")?;

    assert_eq!(queue.tracks().len(), 6);

    queue.queue("mock/list 02".to_string(), listing("mock/list 02").unwrap())?;
    assert_eq!(queue.tracks(), &list02[..]);
    assert_eq!(queue.tracks().len(), 5);

    Ok(())
}

#[test]
fn queue_state() -> Result<(), QueueError> {
    let empty = mock(None, None)?;
    let queue = Queue::with_state(&empty, None)?;

    assert!(queue.path().is_none());
    assert!(queue.tracks().is_empty());
    assert!(queue.index().is_none());

    let no_exists = mock(Some("mock/list 04"), Some("mock/list 01/track 01.mp3"))?;
    let queue = Queue::with_state(&no_exists, listing("mock/list 04"))?;

    assert!(queue.path().is_none());
    assert!(queue.tracks().is_empty());
    assert!(queue.index().is_none());

    let no_track = mock(Some("mock/list 01"), None)?;
    let queue = Queue::with_state(&no_track, listing("mock/list 01"))?;

    assert_eq!(queue.path(), Some("mock/list 01"));
    assert_eq!(queue.tracks().len(), 6);
    assert!(queue.index().is_none());

    let track_not_in_list = mock(Some("mock/list 01"), Some("mock/list 02/track 01.mp3"))?;
    let queue = Queue::with_state(&track_not_in_list, listing("mock/list 01"))?;

    assert!(queue.path().is_some());
    assert_eq!(queue.tracks().len(), 6);
    assert!(queue.index().is_none());

    let exists = mock(Some("mock/list 01"), Some("mock/list 01/track 01.mp3"))?;
    let t = track("mock/list 01/track 01.mp3")?;
    let queue = Queue::with_state(&exists, listing("mock/list 01"))?;

    assert!(queue.path().is_some());
    assert_eq!(queue.tracks().len(), 6);
    assert_eq!(queue.track(), Some(&t));

    Ok(())
}

fn abc() -> Queue {
    let tracks = vec![numbered("C", 3), numbered("A", 1), numbered("B", 2)];
    let sorted = Track::directory("dir", true, tracks).unwrap();
    Queue::from_parts(Some("dir".to_string()), sorted, false)
}

#[test]
fn next_walks_the_list_and_wraps() {
    let mut player = Player::new();
    let mut queue = abc();
    let names: Vec<&str> = queue.tracks().iter().map(|t| t.path()).collect();
    assert_eq!(names, vec!["A", "B", "C"]);

    queue.next(&mut player.inner).unwrap();
    player.sync();
    assert_eq!(queue.track().unwrap().path(), "A");
    queue.next(&mut player.inner).unwrap();
    player.sync();
    assert_eq!(queue.track().unwrap().path(), "B");
    queue.next(&mut player.inner).unwrap();
    player.sync();
    assert_eq!(queue.track().unwrap().path(), "C");
    queue.next(&mut player.inner).unwrap();
    player.sync();
    assert_eq!(queue.track().unwrap().path(), "A");

    queue.last(&mut player.inner);
    player.sync();
    assert_eq!(queue.track().unwrap().path(), "C");
    assert_eq!(player.replaced, vec!["A", "B", "C", "A", "C"]);
}

#[test]
fn sequential_order_has_period_len() {
    let mut player = Player::new();
    let mut queue = queue("mock/list 01").unwrap();
    queue.select_idx(3, &mut player.inner).unwrap();
    for k in 1..=13usize {
        queue.next(&mut player.inner);
        assert_eq!(queue.index(), Some((3 + k) % 6));
    }
}

#[test]
fn shuffle_never_repeats_the_current_track() {
    for len in [2usize, 3, 6] {
        let tracks: Vec<Track> = (0..len).map(|i| numbered(&format!("t{i}"), i as u32)).collect();
        let mut queue = Queue::from_parts(None, tracks, true);
        let mut player = Player::new();
        let mut before = None;
        for _ in 0..200 {
            queue.next(&mut player.inner);
            let now = queue.index();
            assert!(now.unwrap() < len);
            assert_ne!(now, before);
            before = now;
        }
    }
}

#[test]
fn shuffle_with_one_track_repeats_it() {
    let mut queue = Queue::from_parts(None, vec![numbered("only", 1)], true);
    let mut player = Player::new();
    queue.next(&mut player.inner);
    queue.next(&mut player.inner);
    assert_eq!(queue.index(), Some(0));
}

#[test]
fn shuffle_with_no_history_has_no_previous() {
    let mut queue = abc();
    let mut player = Player::new();
    queue.shuffle();
    queue.last(&mut player.inner);
    assert_eq!(queue.index(), None);
}

#[test]
fn selection_clears_history_for_next() {
    let mut queue = queue("mock/list 01").unwrap();
    let mut player = Player::new();
    queue.shuffle();
    for _ in 0..5 {
        queue.next(&mut player.inner);
    }
    queue.last(&mut player.inner);
    queue.last(&mut player.inner);
    assert!(queue.history_len() > 1);

    queue.select_idx(0, &mut player.inner).unwrap();
    assert_eq!(queue.history_len(), 0);
    queue.next(&mut player.inner);
    assert_eq!(queue.history_len(), 1);
    assert_ne!(queue.index(), Some(0));

    queue.select_path("mock/list 01/track 01.mp3", &mut player.inner).unwrap();
    assert_eq!(queue.history_len(), 0);
}

#[test]
fn next_on_an_empty_list_fails() {
    let mut player = Player::new();
    let mut empty = Queue::from_parts(None, Vec::new(), false);
    assert!(matches!(empty.next(&mut player.inner), Err(QueueError::NoTracks)));
    assert_eq!(empty.index(), None);
    player.sync();
    assert!(player.replaced.is_empty());
}

#[test]
fn selection_errors() {
    let mut player = Player::new();
    let mut empty = Queue::from_parts(None, Vec::new(), false);
    assert!(matches!(empty.select_idx(0, &mut player.inner), Err(QueueError::OutOfBounds)));
    assert!(matches!(empty.select_path("x", &mut player.inner), Err(QueueError::NoTrack(p)) if p == "x"));

    let mut queue = abc();
    assert!(matches!(queue.select_idx(3, &mut player.inner), Err(QueueError::OutOfBounds)));
    match queue.select_path("D", &mut player.inner) {
        Err(QueueError::NoTrack(p)) => assert_eq!(p, "D"),
        other => panic!("unexpected {other:?}"),
    }
    assert_eq!(queue.index(), None);
    player.sync();
    assert!(player.replaced.is_empty());
}

#[test]
fn queue_refuses_a_file() {
    let mut queue = abc();
    let result = queue.queue("file.mp3".to_string(), Listing { is_dir: false, files: Vec::new() });
    assert!(matches!(result, Err(QueueError::NotADirectory(p)) if p == "file.mp3"));
    assert_eq!(queue.tracks().len(), 3);
    assert_eq!(queue.path(), Some("dir"));

    let state = mock(Some("file.mp3"), None).unwrap();
    let result = Queue::with_state(&state, Some(Listing { is_dir: false, files: Vec::new() }));
    assert!(matches!(result, Err(QueueError::NotADirectory(_))));
}

#[test]
fn track_lookup_errors() {
    assert!(matches!(
        Track::new("gone.mp3".to_string(), false, false, Tags::default()),
        Err(QueueError::NoTrack(p)) if p == "gone.mp3"
    ));
    assert!(matches!(
        Track::new("dir".to_string(), true, true, Tags::default()),
        Err(QueueError::IsDirectory(p)) if p == "dir"
    ));
    let t = Track::new("a.mp3".to_string(), true, false, Tags { track: Some(7), ..Tags::default() }).unwrap();
    assert_eq!(t.path(), "a.mp3");
    assert_eq!(t.track(), Some(7));
    assert_eq!(t.title(), None);
}

fn timed(elapsed: Option<u64>, duration: Option<u64>) -> State {
    State { elapsed, duration, ..State::default() }
}

#[test]
fn seek_forward_past_the_end_plays_next() {
    let mut player = Player::new();
    let mut queue = abc();
    queue.next(&mut player.inner);
    assert_eq!(queue.index(), Some(0));

    queue.seek_i(&mut player.inner, &timed(Some(10_000), Some(60_000)), 5_000);
    player.sync();
    assert_eq!(player.seeks, vec![15_000]);
    assert_eq!(queue.index(), Some(0));

    queue.seek_i(&mut player.inner, &timed(Some(58_000), Some(60_000)), 5_000);
    player.sync();
    assert_eq!(player.seeks, vec![15_000]);
    assert_eq!(queue.index(), Some(1));
    assert_eq!(player.replaced.last().map(String::as_str), Some("B"));

    queue.seek_i(&mut player.inner, &timed(Some(55_000), Some(60_000)), 5_000);
    assert_eq!(queue.index(), Some(2));
}

#[test]
fn seek_backward_stops_at_start() {
    let mut player = Player::new();
    let mut queue = abc();
    queue.seek_d(&mut player.inner, &timed(Some(3_000), Some(60_000)), 5_000);
    player.sync();
    assert!(player.seeks.is_empty());
    queue.next(&mut player.inner);
    queue.seek_d(&mut player.inner, &timed(Some(3_000), Some(60_000)), 5_000);
    queue.seek_d(&mut player.inner, &timed(Some(30_000), Some(60_000)), 5_000);
    queue.restart(&mut player.inner);
    player.sync();
    assert_eq!(player.seeks, vec![0, 25_000, 0]);
}

#[test]
fn done_advances_only_when_finished() {
    let mut player = Player::new();
    let mut queue = abc();
    queue.next(&mut player.inner);
    queue.done(&mut player.inner);
    assert_eq!(queue.index(), Some(0));
    player.finish();
    queue.done(&mut player.inner);
    assert_eq!(queue.index(), Some(1));
}

#[test]
fn set_shuffle_clears_history_only_on_change() {
    let mut player = Player::new();
    let mut queue = abc();
    queue.set_shuffle(true);
    queue.next(&mut player.inner);
    queue.next(&mut player.inner);
    assert_eq!(queue.history_len(), 2);
    queue.set_shuffle(true);
    assert_eq!(queue.history_len(), 2);
    queue.set_shuffle(false);
    assert_eq!(queue.history_len(), 0);
    assert!(!queue.is_shuffle());
}

#[test]
fn seek_positions() {
    let mut player = Player::new();
    let mut queue = abc();
    assert_eq!(queue.seek_d_position(&timed(Some(3_000), Some(60_000)), 5_000), None);
    queue.next(&mut player.inner);
    assert_eq!(queue.seek_d_position(&timed(Some(3_000), Some(60_000)), 5_000), Some(0));
    assert_eq!(queue.seek_d_position(&timed(Some(9_000), None), 5_000), Some(4_000));
    assert_eq!(queue.seek_d_position(&timed(None, Some(60_000)), 5_000), None);
    assert_eq!(queue.seek_i_position(&timed(Some(3_000), Some(60_000)), 5_000), Some(8_000));
    assert_eq!(queue.seek_i_position(&timed(Some(55_000), Some(60_000)), 5_000), None);
    assert_eq!(queue.seek_i_position(&timed(Some(3_000), None), 5_000), None);
    assert_eq!(queue.seek_i_position(&timed(Some(u64::MAX), Some(u64::MAX)), 1), None);
}

#[test]
fn shuffle_draws_skip_the_current_track() {
    assert_eq!(shuffle_pick(0, 4, Some(0)), 1);
    assert_eq!(shuffle_pick(1, 4, Some(2)), 1);
    assert_eq!(shuffle_pick(2, 4, Some(2)), 3);
    assert_eq!(shuffle_pick(2, 4, Some(3)), 2);
    assert_eq!(shuffle_pick(3, 4, None), 3);
}

#[test]
fn resume_takes_the_saved_time() {
    let mut player = Player::new();
    let mut queue = abc();
    assert!(queue.resume(&timed(Some(4_000), None)).is_none());
    queue.select_idx(1, &mut player.inner).unwrap();
    let (track, at) = queue.resume(&timed(Some(4_000), None)).unwrap();
    assert_eq!((track.path(), at), ("B", 4_000));
    let (_, at) = queue.resume(&timed(None, None)).unwrap();
    assert_eq!(at, 0);
}
