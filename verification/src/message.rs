//! What a track tells the event side of the mixer.

use vstd::prelude::*;
use crate::channel::send;
use crate::looping::LoopState;
use crate::mode::PlayMode;
use crate::state::{TrackState, Volume};
use crate::time::Timespan;

verus! {

/// One change to the state of a track.
#[derive(Clone, Copy, Debug, PartialEq, Eq, Structural)]
pub enum TrackStateChange {
    /// The play mode is now this.
    Mode(PlayMode),
    /// The gain is now this.
    Volume(Volume),
    /// The position is now this.
    Position(Timespan),
    /// The loops left are now these. The flag says that a command asked for
    /// the change, rather than a loop having been played.
    Loops(LoopState, bool),
    /// The whole state is now this.
    Total(TrackState),
}

/// A notification to the event side of the mixer. Each names the track by its
/// index in the mix.
#[derive(Debug, PartialEq, Eq)]
pub enum EventMessage<E> {
    /// The state of a track changed.
    ChangeState(usize, TrackStateChange),
    /// An event is to be attached to a track.
    AddTrackEvent(usize, E),
}

/// What a track owes the outside world once a command has been applied.
pub enum Outbound<E> {
    /// A notification for the event side of the mixer.
    Notify(EventMessage<E>),
    /// An answer to whoever asked for the track's state: the state, and the
    /// reply queue to put it on.
    Reply(flume::Sender<TrackState>, TrackState),
    /// Nothing.
    Nothing,
}

/// The mixer's connection to its event side: a queue that takes notifications.
#[verifier::reject_recursive_types(E)]
pub struct Interconnect<E> {
    events: flume::Sender<EventMessage<E>>,
}

impl<E> Interconnect<E> {
    /// The queue that notifications are put on.
    pub closed spec fn events(&self) -> flume::Sender<EventMessage<E>> {
        self.events
    }

    /// A connection that puts its notifications on `events`.
    pub fn new(events: flume::Sender<EventMessage<E>>) -> (ic: Interconnect<E>)
        ensures
            ic.events() == events,
    {
        Interconnect { events }
    }

    /// Puts `msg` on the queue if anyone is still listening, and drops it
    /// otherwise. Nobody is told which of the two happened.
    pub fn publish(&self, msg: EventMessage<E>) {
        let _ = send(&self.events, msg);
    }
}

} // verus!
