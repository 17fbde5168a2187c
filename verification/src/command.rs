//! The commands that handles queue for a track.

use vstd::prelude::*;
use crate::looping::LoopState;
use crate::source::AudioSource;
use crate::state::{TrackState, Volume};
use crate::time::Timespan;
use crate::track::Track;

verus! {

/// A request to a track, queued by a handle and applied by the thread that
/// drives the track.
pub enum TrackCommand<A, E> {
    /// Set the track playing.
    Play,
    /// Pause the track.
    Pause,
    /// Stop the track for good.
    Stop,
    /// Set the gain.
    Volume(Volume),
    /// Jump to a position.
    Seek(Timespan),
    /// Attach an event to the track. The track passes it on to the event side
    /// of the mixer as it is.
    AddEvent(E),
    /// Run an action against the track.
    Do(A),
    /// Send a copy of the track's state down this reply queue.
    Request(flume::Sender<TrackState>),
    /// Set the loops that are left.
    Loop(LoopState),
    /// Get the audio source ready to play.
    MakePlayable,
}

/// Work that a caller wants done on the track itself, by the thread that
/// drives it.
///
/// The action is moved into the queue, run once when its command is applied,
/// and gone after that. It runs on the thread that drives the track and may do
/// to the track whatever a holder of the track can do.
///
/// The trait promises nothing about what an action does, so by itself a
/// processed action leaves nothing known of the track. An implementation may
/// promise more on its own `perform`. Where every action of a kind keeps to
/// the rules of [`Track::carried_over`], [`Track::process_commands`] keeps to
/// them as well.
pub trait TrackAction<S: AudioSource, E>: Sized {
    /// Runs the action.
    fn perform(self, track: &mut Track<S, Self, E>);
}

} // verus!
