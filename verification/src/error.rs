//! Errors of track operations.

use vstd::prelude::*;

verus! {

/// Why an operation on a track or through a handle failed.
#[derive(Clone, Copy, Debug, PartialEq, Eq, Structural)]
pub enum TrackError {
    /// The track is gone: it was dropped before it could answer.
    Finished,
    /// The track's audio source cannot seek, so it can neither jump to a
    /// position nor loop.
    SeekUnsupported,
}

/// Result of an operation on a track or through a handle.
pub type TrackResult<T> = Result<T, TrackError>;

impl TrackError {
    /// The result of an operation that needs a source that can seek: it goes
    /// ahead where the source can, and fails with `SeekUnsupported` where it
    /// cannot.
    pub open spec fn unless_seekable(seekable: bool) -> TrackResult<()> {
        if seekable {
            Ok(())
        } else {
            Err(TrackError::SeekUnsupported)
        }
    }

    /// The text that describes each error.
    pub open spec fn text(self) -> Seq<char> {
        match self {
            TrackError::Finished => "track ended"@,
            TrackError::SeekUnsupported => "track did not support seeking"@,
        }
    }

    /// A short description of the error, for people.
    pub fn message(&self) -> (s: &'static str)
        ensures
            s@ == self.text(),
    {
        match self {
            TrackError::Finished => "track ended",
            TrackError::SeekUnsupported => "track did not support seeking",
        }
    }
}

} // verus!
