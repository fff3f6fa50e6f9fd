//! Core of a terminal music player: the playback queue with its bounded
//! history, track ordering, the control handle of the audio engine and the
//! decisions the real-time engine takes on each callback.
pub mod browse;
pub mod channel;
pub mod discord;
pub mod engine;
pub mod error;
pub mod history;
pub mod mpris;
pub mod nav;
pub mod order;
pub mod player;
pub mod queue;
pub mod state;
pub mod status;
pub mod text;
pub mod track;
pub mod tui;
