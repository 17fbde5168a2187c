//! Handles: the shareable capability to control a track from any thread.

use std::sync::Arc;
use vstd::prelude::*;
use crate::channel::{bounded, recv, send};
use crate::command::TrackCommand;
use crate::error::{TrackError, TrackResult};
use crate::looping::LoopState;
use crate::source::Metadata;
use crate::state::{TrackState, Volume};
use crate::time::Timespan;

verus! {

/// Calls `std::sync::Arc::clone`, which returns another pointer to the same
/// allocation: what the two point to is one value.
#[verifier::external_body]
fn share<T>(a: &Arc<T>) -> (b: Arc<T>)
    ensures
        b == *a,
{
    Arc::clone(a)
}

#[verifier::reject_recursive_types(A)]
#[verifier::reject_recursive_types(E)]
struct InnerHandle<A, E> {
    command_channel: flume::Sender<TrackCommand<A, E>>,
    seekable: bool,
    uuid: uuid::Uuid,
    metadata: Metadata,
}

/// A capability to control one track.
///
/// Every holder of a handle has the same rights; cloning a handle is cheap and
/// gives one more holder. A handle never waits for the track: each operation
/// puts a command on the track's queue and returns. The one exception is
/// [`TrackHandle::get_info`], which waits for the track's answer.
#[verifier::reject_recursive_types(A)]
#[verifier::reject_recursive_types(E)]
pub struct TrackHandle<A, E> {
    inner: Arc<InnerHandle<A, E>>,
}

/// A question about a track's state that has been queued and not yet answered.
pub struct StateRequest {
    reply: flume::Receiver<TrackState>,
}

impl StateRequest {
    /// What the asker is told: the state if the track sent one, and that the
    /// track is gone if the reply queue was closed without an answer.
    pub open spec fn outcome(reply: Option<TrackState>) -> TrackResult<TrackState> {
        match reply {
            Some(state) => Ok(state),
            None => Err(TrackError::Finished),
        }
    }

    /// Turns what came down the reply queue into the asker's result.
    pub fn settle(reply: Option<TrackState>) -> (r: TrackResult<TrackState>)
        ensures
            r == Self::outcome(reply),
    {
        match reply {
            Some(state) => Ok(state),
            None => Err(TrackError::Finished),
        }
    }

    /// Waits until the track has answered, or until the question has been
    /// thrown away unanswered. The thread that calls this is the only one that
    /// waits.
    ///
    /// A question is thrown away when it is sent to a track that is gone, when
    /// the track drops it, or, if it was still on the queue when the track
    /// went away, when the last handle to that track goes too.
    pub fn wait(self) -> (r: TrackResult<TrackState>)
        ensures
            r is Err ==> r == Err::<TrackState, TrackError>(TrackError::Finished),
    {
        Self::settle(recv(&self.reply))
    }
}

impl<A, E> Clone for TrackHandle<A, E> {
    /// One more handle to the same track, with the same rights.
    fn clone(&self) -> (h: Self)
        ensures
            h == *self,
    {
        TrackHandle { inner: share(&self.inner) }
    }
}

impl<A, E> TrackHandle<A, E> {
    /// The identifier of the track that this handle controls.
    pub closed spec fn id(&self) -> uuid::Uuid {
        self.inner.uuid
    }

    /// Whether the track's source could seek when the handle was made.
    pub closed spec fn can_seek(&self) -> bool {
        self.inner.seekable
    }

    /// What is known about the track's audio.
    pub closed spec fn about(&self) -> Metadata {
        self.inner.metadata
    }

    /// The queue that this handle puts its commands on.
    pub closed spec fn queue(&self) -> flume::Sender<TrackCommand<A, E>> {
        self.inner.command_channel
    }

    /// A handle that puts its commands on `command_channel`.
    pub fn new(
        command_channel: flume::Sender<TrackCommand<A, E>>,
        seekable: bool,
        uuid: uuid::Uuid,
        metadata: Metadata,
    ) -> (h: Self)
        ensures
            h.queue() == command_channel,
            h.can_seek() == seekable,
            h.id() == uuid,
            h.about() == metadata,
    {
        TrackHandle { inner: Arc::new(InnerHandle { command_channel, seekable, uuid, metadata }) }
    }

    /// Asks the track to play.
    pub fn play(&self) {
        self.send(TrackCommand::Play)
    }

    /// Asks the track to pause.
    pub fn pause(&self) {
        self.send(TrackCommand::Pause)
    }

    /// Asks the track to stop for good.
    pub fn stop(&self) {
        self.send(TrackCommand::Stop)
    }

    /// Asks the track to take this gain.
    pub fn set_volume(&self, volume: Volume) {
        self.send(TrackCommand::Volume(volume))
    }

    /// Asks the track to get its source ready to play.
    pub fn make_playable(&self) {
        self.send(TrackCommand::MakePlayable)
    }

    /// Whether the track's source could seek when the handle was made.
    pub fn is_seekable(&self) -> (b: bool)
        ensures
            b == self.can_seek(),
    {
        self.inner.seekable
    }

    /// Asks the track to jump to `position`. Where the source cannot seek,
    /// nothing is queued and the call fails.
    pub fn seek_time(&self, position: Timespan) -> (r: TrackResult<()>)
        ensures
            r == TrackError::unless_seekable(self.can_seek()),
    {
        if self.is_seekable() {
            self.send(TrackCommand::Seek(position));
            Ok(())
        } else {
            Err(TrackError::SeekUnsupported)
        }
    }

    /// Asks that `event` be attached to the track.
    pub fn add_event(&self, event: E) {
        self.send(TrackCommand::AddEvent(event))
    }

    /// Asks the track's thread to run `action` against the track.
    pub fn action(&self, action: A) {
        self.send(TrackCommand::Do(action))
    }

    /// Queues a question about the track's state and returns without waiting
    /// for the answer. The answer will show the effect of every command that
    /// this handle queued before the question.
    pub fn request_info(&self) -> (pending: StateRequest) {
        let (tx, rx) = bounded(1);
        self.send(TrackCommand::Request(tx));
        StateRequest { reply: rx }
    }

    /// Asks the track for a copy of its state and waits for it. Fails with
    /// [`TrackError::Finished`] where the track is gone.
    pub fn get_info(&self) -> (r: TrackResult<TrackState>)
        ensures
            r is Err ==> r == Err::<TrackState, TrackError>(TrackError::Finished),
    {
        self.request_info().wait()
    }

    /// Asks the track to loop for ever. Where the source cannot seek, nothing
    /// is queued and the call fails.
    pub fn enable_loop(&self) -> (r: TrackResult<()>)
        ensures
            r == TrackError::unless_seekable(self.can_seek()),
    {
        self.set_loops(LoopState::Infinite)
    }

    /// Asks the track not to loop any more. Where the source cannot seek,
    /// nothing is queued and the call fails.
    pub fn disable_loop(&self) -> (r: TrackResult<()>)
        ensures
            r == TrackError::unless_seekable(self.can_seek()),
    {
        self.set_loops(LoopState::Finite(0))
    }

    /// Asks the track to loop `count` more times. Where the source cannot
    /// seek, nothing is queued and the call fails.
    pub fn loop_for(&self, count: usize) -> (r: TrackResult<()>)
        ensures
            r == TrackError::unless_seekable(self.can_seek()),
    {
        self.set_loops(LoopState::Finite(count))
    }

    /// The identifier of the track that this handle controls.
    pub fn uuid(&self) -> (id: uuid::Uuid)
        ensures
            id == self.id(),
    {
        self.inner.uuid
    }

    /// What is known about the track's audio.
    pub fn metadata(&self) -> (m: &Metadata)
        ensures
            *m == self.about(),
    {
        &self.inner.metadata
    }

    /// Puts `cmd` on the track's queue. The queue has no limit, so this never
    /// waits; where the track is gone the command is dropped.
    pub fn send(&self, cmd: TrackCommand<A, E>) {
        let _ = send(&self.inner.command_channel, cmd);
    }

    fn set_loops(&self, loops: LoopState) -> (r: TrackResult<()>)
        ensures
            r == TrackError::unless_seekable(self.can_seek()),
    {
        if self.is_seekable() {
            self.send(TrackCommand::Loop(loops));
            Ok(())
        } else {
            Err(TrackError::SeekUnsupported)
        }
    }
}

} // verus!
