//! Transport state of the audio engine.
use vstd::prelude::*;

verus! {

/// Whether the engine is producing audio or holding its position.
#[derive(Debug, Clone, Copy, PartialEq, Eq, Structural)]
pub enum PlaybackStatus {
    Paused,
    Play,
}

impl PlaybackStatus {
    /// The other state.
    pub open spec fn inverted(self) -> PlaybackStatus {
        match self {
            PlaybackStatus::Paused => PlaybackStatus::Play,
            PlaybackStatus::Play => PlaybackStatus::Paused,
        }
    }

    /// Returns the other state: `Paused` becomes `Play` and `Play` becomes `Paused`.
    pub fn invert(self) -> (r: Self)
        ensures
            r == self.inverted(),
            r != self,
    {
        match self {
            PlaybackStatus::Paused => PlaybackStatus::Play,
            PlaybackStatus::Play => PlaybackStatus::Paused,
        }
    }
}

} // verus!
