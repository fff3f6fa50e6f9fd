//! Timing of the rich-presence activity shown while a track plays.
use std::time::{SystemTime, UNIX_EPOCH};
use vstd::prelude::*;

use crate::state::State;

verus! {

/// Relies on `SystemTime::now` and `SystemTime::duration_since(UNIX_EPOCH)`:
/// milliseconds since the Unix epoch, `None` when the clock stands before it or
/// the count does not fit.
#[verifier::external_body]
fn now_ms() -> (r: Option<u64>) {
    match SystemTime::now().duration_since(UNIX_EPOCH) {
        Ok(d) => u64::try_from(d.as_millis()).ok(),
        Err(_) => None,
    }
}

/// `v` held within the range of `i64`.
pub open spec fn clamp_i64(v: int) -> i64 {
    if v < i64::MIN {
        i64::MIN
    } else if v > i64::MAX {
        i64::MAX
    } else {
        v as i64
    }
}

/// Start and end, in milliseconds since the epoch, of a track of `duration`
/// that has played for `elapsed` at time `now`.
pub open spec fn span(now: u64, duration: u64, elapsed: u64) -> (i64, i64) {
    (clamp_i64(now - elapsed), clamp_i64(now - elapsed + duration))
}

fn clamp(v: i128) -> (r: i64)
    ensures
        r == clamp_i64(v as int),
{
    if v < i64::MIN as i128 {
        i64::MIN
    } else if v > i64::MAX as i128 {
        i64::MAX
    } else {
        v as i64
    }
}

/// Start and end of a track of `duration` milliseconds that has played for
/// `elapsed` milliseconds at time `now`.
pub fn timestamps_at(now: u64, duration: u64, elapsed: u64) -> (r: (i64, i64))
    ensures
        r == span(now, duration, elapsed),
{
    let start: i128 = now as i128 - elapsed as i128;
    (clamp(start), clamp(start + duration as i128))
}

/// Start and end, in milliseconds since the epoch, of a track of `duration`
/// milliseconds that has played for `elapsed` milliseconds until now; the two
/// lie `duration` apart.
pub fn timestamps(duration: u64, elapsed: u64) -> (r: (i64, i64))
    ensures
        exists|now: u64| r == span(now, duration, elapsed),
{
    let now = match now_ms() {
        Some(n) => n,
        None => 0,
    };
    timestamps_at(now, duration, elapsed)
}

/// A span whose start lies within `i64` ends exactly `duration` later, as long
/// as that too lies within `i64`.
pub proof fn lemma_span_length(now: u64, duration: u64, elapsed: u64)
    requires
        i64::MIN <= now - elapsed,
        now - elapsed + duration <= i64::MAX,
    ensures
        span(now, duration, elapsed).1 - span(now, duration, elapsed).0 == duration,
{
}

/// Milliseconds to wait after a failed connection before trying again.
pub const RETRY_WAIT_MS: u64 = 30_000;

/// Whether to connect again `since` milliseconds after the last failure; when
/// that time is unknown (the clock went back), at once.
pub fn retry_due(since: Option<u64>) -> (r: bool)
    ensures
        r == match since {
            Some(ms) => ms >= RETRY_WAIT_MS,
            None => true,
        },
{
    match since {
        Some(ms) => ms >= RETRY_WAIT_MS,
        None => true,
    }
}

/// What the activity shows: title and artist, whether playback is paused, and
/// the start and end of the track in milliseconds since the epoch.
#[derive(Debug)]
pub struct Presence {
    pub details: String,
    pub state: String,
    pub paused: bool,
    pub start: Option<i64>,
    pub end: Option<i64>,
}

/// `text`, or `fallback` when it is missing.
pub open spec fn or_text(text: Option<String>, fallback: Seq<char>) -> Seq<char> {
    match text {
        Some(t) => t@,
        None => fallback,
    }
}

fn text_or(text: &Option<String>, fallback: &str) -> (r: String)
    ensures
        r@ == or_text(*text, fallback@),
{
    match text {
        Some(t) => t.clone(),
        None => fallback.to_owned(),
    }
}

/// The activity for `state`, taking the time now: none without a track, nor
/// while playing with the times unknown. Paused, it shows when the track started
/// if the times are known; playing, when it started and when it ends.
pub fn presence(state: &State) -> (r: Option<Presence>)
    ensures
        state.track is None ==> r is None,
        state.track is Some && !state.paused && (state.elapsed is None || state.duration is None) ==> r is None,
        r is Some ==> {
            let p = r.unwrap();
            let t = state.track.unwrap();
            &&& state.track is Some
            &&& p.details@ == or_text(t.title, "unknown title"@)
            &&& p.state@ == or_text(t.artist, "unknown artist"@)
            &&& p.paused == state.paused
            &&& (state.elapsed is None || state.duration is None) ==> p.start is None && p.end is None
            &&& (state.elapsed is Some && state.duration is Some) ==> exists|now: u64| {
                let s = #[trigger] span(now, state.duration.unwrap(), state.elapsed.unwrap());
                &&& p.start == Some(s.0)
                &&& p.end == if state.paused {
                    None::<i64>
                } else {
                    Some(s.1)
                }
            }
        },
        state.track is Some && state.paused ==> r is Some,
        state.track is Some && state.elapsed is Some && state.duration is Some ==> r is Some,
{
    let track = match &state.track {
        Some(t) => t,
        None => return None,
    };
    let times = state.elapsed_duration();
    if !state.paused && times.is_none() {
        return None;
    }
    let (start, end) = match times {
        Some((elapsed, duration)) => {
            let (s, e) = timestamps(duration, elapsed);
            (Some(s), if state.paused {
                None
            } else {
                Some(e)
            })
        },
        None => (None, None),
    };
    Some(
        Presence {
            details: text_or(&track.title, "unknown title"),
            state: text_or(&track.artist, "unknown artist"),
            paused: state.paused,
            start,
            end,
        },
    )
}

} // verus!
