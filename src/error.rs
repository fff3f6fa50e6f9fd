//! Errors of the playback queue.
use vstd::prelude::*;

verus! {

/// What can go wrong when tracks are looked up or a directory is queued.
#[derive(Debug)]
pub enum QueueError {
    /// No track at this path.
    NoTrack(String),
    /// The queue holds no tracks.
    NoTracks,
    /// The path is a directory, not a track.
    IsDirectory(String),
    /// The index is past the end of the track list.
    OutOfBounds,
    /// The path is not a directory.
    NotADirectory(String),
    /// Reading the file system failed, with the reason.
    IoError(String),
}

impl QueueError {
    /// A line of text describing the error.
    pub fn message(&self) -> (r: String)
        ensures
            r@ == match self {
                QueueError::NoTrack(_) => "couldn't find track"@,
                QueueError::NoTracks => "queue is empty"@,
                QueueError::IsDirectory(_) => "is directory"@,
                QueueError::OutOfBounds => "index out of bounds"@,
                QueueError::NotADirectory(_) => "not a directory"@,
                QueueError::IoError(_) => "io error"@,
            },
    {
        match self {
            QueueError::NoTrack(_) => "couldn't find track".to_owned(),
            QueueError::NoTracks => "queue is empty".to_owned(),
            QueueError::IsDirectory(_) => "is directory".to_owned(),
            QueueError::OutOfBounds => "index out of bounds".to_owned(),
            QueueError::NotADirectory(_) => "not a directory".to_owned(),
            QueueError::IoError(_) => "io error".to_owned(),
        }
    }
}

} // verus!
