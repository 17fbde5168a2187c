//! The control object of one track, and how it is made.

use vstd::prelude::*;
use crate::channel::{try_recv, unbounded, send, Polled};
use crate::command::{TrackAction, TrackCommand};
use crate::error::{TrackError, TrackResult};
use crate::handle::TrackHandle;
use crate::looping::LoopState;
use crate::message::{EventMessage, Interconnect, Outbound, TrackStateChange};
use crate::mode::PlayMode;
use crate::source::AudioSource;
use crate::state::{TrackState, Volume};
use crate::time::{Timespan, TIMESTEP_NANOS};

verus! {

/// A `uuid` identifier, carried as an opaque value.
#[verifier::external_type_specification]
#[verifier::external_body]
pub struct ExUuid(uuid::Uuid);

/// Calls `uuid::Uuid::new_v4`, which draws a random identifier from the
/// system's source of random bytes, and gives up where the system has none to
/// give. Nothing is claimed of the identifier.
#[verifier::external_body]
fn fresh_uuid() -> (id: uuid::Uuid) {
    uuid::Uuid::new_v4()
}

/// Control object for the playback of one audio source.
///
/// The thread that drives the mixer owns the track and is the only one to
/// change it. Once per frame it calls [`Track::step_frame`] and
/// [`Track::process_commands`]. Everyone else holds a [`TrackHandle`].
#[verifier::reject_recursive_types(A)]
#[verifier::reject_recursive_types(E)]
pub struct Track<S, A, E> {
    playing: PlayMode,
    volume: Volume,
    source: S,
    position: Timespan,
    play_time: Timespan,
    events: Option<Vec<E>>,
    commands: flume::Receiver<TrackCommand<A, E>>,
    handle: TrackHandle<A, E>,
    loops: LoopState,
    uuid: uuid::Uuid,
}

impl<S, A, E> View for Track<S, A, E> {
    type V = TrackState;

    /// The state of the track that can be observed from outside.
    closed spec fn view(&self) -> TrackState {
        TrackState {
            playing: self.playing,
            volume: self.volume,
            position: self.position,
            play_time: self.play_time,
            loops: self.loops,
        }
    }
}

impl<S, A, E> Track<S, A, E> {
    /// The identifier of the track.
    pub closed spec fn id(&self) -> uuid::Uuid {
        self.uuid
    }

    /// The audio source that the track plays.
    pub closed spec fn source(&self) -> S {
        self.source
    }

    /// The events attached to the track itself, as long as the mixer has not
    /// taken them.
    pub closed spec fn local_events(&self) -> Option<Seq<E>> {
        match self.events {
            Some(list) => Some(list@),
            None => None,
        }
    }

    /// The track's own handle.
    pub closed spec fn own_handle(&self) -> TrackHandle<A, E> {
        self.handle
    }

    /// The queue that the track takes its commands from.
    pub closed spec fn inbox(&self) -> flume::Receiver<TrackCommand<A, E>> {
        self.commands
    }

    /// `self` has the identifier, the local events, the handle and the command
    /// queue of `before`.
    pub open spec fn same_wiring(&self, before: &Self) -> bool {
        &&& self.id() == before.id()
        &&& self.local_events() == before.local_events()
        &&& self.own_handle() == before.own_handle()
        &&& self.inbox() == before.inbox()
    }

    /// `self` differs from `before` in its observable state at most.
    pub open spec fn same_but_state(&self, before: &Self) -> bool {
        &&& self.same_wiring(before)
        &&& self.source() == before.source()
    }

    /// What stands between any two moments of a track's life, as long as
    /// nothing but commands is applied to it in between: the track keeps its
    /// identifier, its local events, its handle and its queue; the time it has
    /// played is not touched; and once it is stopped or has ended, its mode
    /// stays.
    pub open spec fn carried_over(before: &Self, after: &Self) -> bool {
        &&& after.same_wiring(before)
        &&& after@.play_time == before@.play_time
        &&& before@.playing.done() ==> after@.playing == before@.playing
    }

    /// Sets the track playing, unless it is finished.
    pub fn play(&mut self) -> (ret: &mut Self)
        ensures
            ret@ == old(self)@.with_mode(old(self)@.playing.next(PlayMode::Play)),
            old(self)@.playing.done() ==> ret@ == old(self)@,
            ret.same_but_state(old(self)),
            *final(self) == *final(ret),
    {
        self.set_playing(PlayMode::Play)
    }

    /// Pauses the track, unless it is finished.
    pub fn pause(&mut self) -> (ret: &mut Self)
        ensures
            ret@ == old(self)@.with_mode(old(self)@.playing.next(PlayMode::Pause)),
            old(self)@.playing.done() ==> ret@ == old(self)@,
            ret.same_but_state(old(self)),
            *final(self) == *final(ret),
    {
        self.set_playing(PlayMode::Pause)
    }

    /// Stops the track for good. A track that is stopped or has ended cannot
    /// be started again.
    pub fn stop(&mut self) -> (ret: &mut Self)
        ensures
            ret@ == old(self)@.with_mode(old(self)@.playing.next(PlayMode::Stop)),
            old(self)@.playing.done() ==> ret@ == old(self)@,
            ret.same_but_state(old(self)),
            *final(self) == *final(ret),
    {
        self.set_playing(PlayMode::Stop)
    }

    /// Marks the track as having played to its end. The mixer calls this when
    /// the source has run out and no loop is left.
    pub fn end(&mut self) -> (ret: &mut Self)
        ensures
            ret@ == old(self)@.with_mode(old(self)@.playing.next(PlayMode::End)),
            old(self)@.playing.done() ==> ret@ == old(self)@,
            ret.same_but_state(old(self)),
            *final(self) == *final(ret),
    {
        self.set_playing(PlayMode::End)
    }

    fn set_playing(&mut self, new_state: PlayMode) -> (ret: &mut Self)
        ensures
            ret@ == old(self)@.with_mode(old(self)@.playing.next(new_state)),
            ret.same_but_state(old(self)),
            *final(self) == *final(ret),
    {
        self.playing = self.playing.change_to(new_state);
        self
    }

    /// The play mode of the track.
    pub fn playing(&self) -> (mode: PlayMode)
        ensures
            mode == self@.playing,
    {
        self.playing
    }

    /// Sets the gain. Any value is taken as it is.
    pub fn set_volume(&mut self, volume: Volume) -> (ret: &mut Self)
        ensures
            ret@ == old(self)@.with_volume(volume),
            ret.same_but_state(old(self)),
            *final(self) == *final(ret),
    {
        self.volume = volume;
        self
    }

    /// The gain of the track.
    pub fn volume(&self) -> (volume: Volume)
        ensures
            volume == self@.volume,
    {
        self.volume
    }

    /// The time played within the current loop.
    pub fn position(&self) -> (position: Timespan)
        ensures
            position == self@.position,
    {
        self.position
    }

    /// The time that the track has played since it was made, over all loops.
    pub fn play_time(&self) -> (play_time: Timespan)
        ensures
            play_time == self@.play_time,
    {
        self.play_time
    }

    /// The loops that the track has left.
    pub fn loops(&self) -> (loops: LoopState)
        ensures
            loops == self@.loops,
    {
        self.loops
    }

    /// What a change of loops comes to, given whether the source can seek: on
    /// a source that can, the loops are set; on one that cannot, the call
    /// fails and the track stays as it is.
    pub fn settle_loops(&mut self, seekable: bool, loops: LoopState) -> (r: TrackResult<()>)
        ensures
            r == TrackError::unless_seekable(seekable),
            final(self)@ == if seekable {
                old(self)@.with_loops(loops)
            } else {
                old(self)@
            },
            final(self).same_but_state(old(self)),
            !seekable ==> *final(self) == *old(self),
    {
        if seekable {
            self.loops = loops;
            Ok(())
        } else {
            Err(TrackError::SeekUnsupported)
        }
    }

    /// Asks for one more loop at the end of the audio. Returns whether the
    /// track may start over, and takes that loop off a finite count.
    pub fn do_loop(&mut self) -> (again: bool)
        ensures
            again == old(self)@.loops.permits(),
            final(self)@ == old(self)@.with_loops(old(self)@.loops.consumed()),
            final(self).same_but_state(old(self)),
    {
        self.loops.consume_one_loop()
    }

    /// Moves both clocks of the track on by one frame. The mixer calls this
    /// once for every frame it processes, whether or not the frame was heard.
    pub fn step_frame(&mut self)
        requires
            old(self)@.can_step(),
        ensures
            final(self)@ == old(self)@.stepped(),
            final(self)@.position.nanos() == old(self)@.position.nanos() + TIMESTEP_NANOS,
            final(self)@.play_time.nanos() == old(self)@.play_time.nanos() + TIMESTEP_NANOS,
            final(self).same_but_state(old(self)),
    {
        let frame = Timespan::timestep();
        self.position = self.position.extended_by(frame);
        self.play_time = self.play_time.extended_by(frame);
    }

    /// A copy of the track's observable state.
    pub fn state(&self) -> (state: TrackState)
        ensures
            state == self@,
    {
        TrackState {
            playing: self.playing,
            volume: self.volume,
            position: self.position,
            play_time: self.play_time,
            loops: self.loops,
        }
    }

    /// What a seek comes to, given the source's answer: where the source
    /// reached a position, that is the track's position from now on, and it is
    /// returned; where it reached none, the call fails and the track stays as
    /// it is.
    pub fn settle_seek(&mut self, reached: Option<Timespan>) -> (r: TrackResult<Timespan>)
        ensures
            r == match reached {
                Some(t) => Ok::<Timespan, TrackError>(t),
                None => Err(TrackError::SeekUnsupported),
            },
            final(self)@ == match reached {
                Some(t) => old(self)@.with_position(t),
                None => old(self)@,
            },
            final(self).same_but_state(old(self)),
            reached is None ==> *final(self) == *old(self),
    {
        match reached {
            Some(t) => {
                self.position = t;
                Ok(t)
            },
            None => Err(TrackError::SeekUnsupported),
        }
    }

    /// The audio source that the track plays.
    pub fn source_ref(&self) -> (source: &S)
        ensures
            *source == self.source(),
    {
        &self.source
    }

    /// The audio source that the track plays, for the mixer to read from. What
    /// is done to the source through this leaves the rest of the track alone.
    pub fn source_mut(&mut self) -> (source: &mut S)
        ensures
            *source == old(self).source(),
            final(self).source() == *final(source),
            final(self)@ == old(self)@,
            final(self).same_wiring(old(self)),
    {
        &mut self.source
    }

    /// The identifier of the track.
    pub fn uuid(&self) -> (id: uuid::Uuid)
        ensures
            id == self.id(),
    {
        self.uuid
    }

    /// One more handle to this track.
    pub fn handle(&self) -> (handle: TrackHandle<A, E>)
        ensures
            handle == self.own_handle(),
    {
        self.handle.clone()
    }

    /// Attaches `event` to the track itself, to go to the mixer with it.
    /// Returns whether it was kept: once the mixer has taken the local events,
    /// none can be added.
    pub fn attach_event(&mut self, event: E) -> (kept: bool)
        ensures
            kept == old(self).local_events().is_some(),
            final(self).local_events() == match old(self).local_events() {
                Some(list) => Some(list.push(event)),
                None => None,
            },
            final(self)@ == old(self)@,
            final(self).id() == old(self).id(),
            final(self).source() == old(self).source(),
            final(self).own_handle() == old(self).own_handle(),
            final(self).inbox() == old(self).inbox(),
    {
        match &mut self.events {
            Some(list) => {
                list.push(event);
                true
            },
            None => false,
        }
    }

    /// Hands the track's local events over, leaving none behind. The mixer
    /// does this once, when it takes the track in.
    pub fn take_events(&mut self) -> (taken: Option<Vec<E>>)
        ensures
            match taken {
                Some(list) => old(self).local_events() == Some(list@),
                None => old(self).local_events() is None,
            },
            final(self).local_events() is None,
            final(self)@ == old(self)@,
            final(self).id() == old(self).id(),
            final(self).source() == old(self).source(),
            final(self).own_handle() == old(self).own_handle(),
            final(self).inbox() == old(self).inbox(),
    {
        self.events.take()
    }
}

impl<S: AudioSource, A, E> Track<S, A, E> {
    /// `answer` is something that the track's source may say when asked
    /// whether it can seek.
    pub open spec fn source_said_seekable(&self, answer: bool) -> bool {
        call_ensures(S::is_seekable, (&self.source(),), answer)
    }

    /// A new track that plays `source`, takes its commands from `commands` and
    /// is known by the identifier of `handle`.
    ///
    /// [`create_player`] is the usual way to make a track.
    pub fn new_raw(
        source: S,
        commands: flume::Receiver<TrackCommand<A, E>>,
        handle: TrackHandle<A, E>,
    ) -> (track: Self)
        ensures
            track@ == TrackState::initial(),
            track@.position.nanos() == 0,
            track@.play_time.nanos() == 0,
            track.id() == handle.id(),
            track.source() == source,
            track.inbox() == commands,
            track.own_handle() == handle,
            track.local_events() == Some(Seq::<E>::empty()),
    {
        let uuid = handle.uuid();
        Track {
            playing: PlayMode::default(),
            volume: Volume::default(),
            source,
            position: Timespan::zero(),
            play_time: Timespan::zero(),
            events: Some(Vec::new()),
            commands,
            handle,
            loops: LoopState::Finite(0),
            uuid,
        }
    }

    /// Sets the loops that the track has left.
    ///
    /// Looping needs a source that can seek. The source is asked; where it
    /// cannot, the call fails with [`TrackError::SeekUnsupported`] and the
    /// track stays as it is.
    pub fn set_loops(&mut self, loops: LoopState) -> (r: TrackResult<()>)
        ensures
            final(self).same_but_state(old(self)),
            match r {
                Ok(_) => {
                    &&& old(self).source_said_seekable(true)
                    &&& final(self)@ == old(self)@.with_loops(loops)
                },
                Err(e) => {
                    &&& old(self).source_said_seekable(false)
                    &&& e == TrackError::SeekUnsupported
                    &&& *final(self) == *old(self)
                },
            },
    {
        let seekable = self.source.is_seekable();
        self.settle_loops(seekable, loops)
    }

    /// Gets the audio source ready to play now, if it had put that off. For
    /// any other source this does nothing.
    pub fn make_playable(&mut self)
        ensures
            final(self)@ == old(self)@,
            final(self).same_wiring(old(self)),
            exists|source: &mut S|
                {
                    &&& *source == old(self).source()
                    &&& *final(source) == final(self).source()
                    &&& #[trigger] call_ensures(S::make_playable, (source,), ())
                },
    {
        self.source.make_playable();
    }

    /// Jumps to `pos` in the audio.
    ///
    /// The source is asked to seek to `pos`. The position it reaches, which
    /// need not be `pos` exactly, becomes the track's position and is
    /// returned. Where the source cannot seek, and so reaches no position, the
    /// call fails with [`TrackError::SeekUnsupported`] and the track's state
    /// stays as it is. The time played is never changed by a seek.
    ///
    /// The last clause ties the result to the source: it is what the track's
    /// own source answered when asked for `pos`, and the source is left as
    /// that call left it.
    pub fn seek_time(&mut self, pos: Timespan) -> (r: TrackResult<Timespan>)
        ensures
            final(self).same_wiring(old(self)),
            match r {
                Ok(t) => final(self)@ == old(self)@.with_position(t),
                Err(e) => e == TrackError::SeekUnsupported && final(self)@ == old(self)@,
            },
            exists|source: &mut S, reached: Option<Timespan>|
                {
                    &&& *source == old(self).source()
                    &&& *final(source) == final(self).source()
                    &&& #[trigger] call_ensures(S::seek_time, (source, pos), reached)
                    &&& r == match reached {
                        Some(t) => Ok::<Timespan, TrackError>(t),
                        None => Err(TrackError::SeekUnsupported),
                    }
                },
    {
        let reached = self.source.seek_time(pos);
        self.settle_seek(reached)
    }
}

impl<S: AudioSource, A: TrackAction<S, E>, E> Track<S, A, E> {
    /// What a request for the mode `requested` does to a track, and what is
    /// reported of it: the mode follows the rule of [`PlayMode::next`], nothing
    /// else changes, and the report carries the mode that the track is in
    /// afterwards, whether or not it changed.
    pub open spec fn mode_effect(
        before: &Self,
        index: usize,
        requested: PlayMode,
        after: &Self,
        owed: Outbound<E>,
    ) -> bool {
        &&& after@ == before@.with_mode(before@.playing.next(requested))
        &&& after.same_but_state(before)
        &&& owed == Outbound::Notify(
            EventMessage::<E>::ChangeState(index, TrackStateChange::Mode(after@.playing)),
        )
    }

    /// What applying `cmd` does to the track at place `index` in the mix, and
    /// what the track owes the outside world for it.
    ///
    /// Where the audio source has a say (a seek, a change of loops), both
    /// outcomes are described: the change together with its notification, or
    /// no change and no notification. Of an action nothing is known but that
    /// the state it leaves behind is reported in full. A request for the state
    /// changes nothing and is owed the state as it is at that moment, which
    /// shows every command applied before it.
    pub open spec fn effect(
        before: &Self,
        index: usize,
        cmd: TrackCommand<A, E>,
        after: &Self,
        owed: Outbound<E>,
    ) -> bool {
        match cmd {
            TrackCommand::Play => Self::mode_effect(before, index, PlayMode::Play, after, owed),
            TrackCommand::Pause => Self::mode_effect(before, index, PlayMode::Pause, after, owed),
            TrackCommand::Stop => Self::mode_effect(before, index, PlayMode::Stop, after, owed),
            TrackCommand::Volume(volume) => {
                &&& after@ == before@.with_volume(volume)
                &&& after.same_but_state(before)
                &&& owed == Outbound::Notify(
                    EventMessage::<E>::ChangeState(index, TrackStateChange::Volume(volume)),
                )
            },
            TrackCommand::Seek(_) => {
                &&& after.same_wiring(before)
                &&& match owed {
                    Outbound::Notify(
                        EventMessage::ChangeState(i, TrackStateChange::Position(reached)),
                    ) => {
                        &&& i == index
                        &&& after@ == before@.with_position(reached)
                    },
                    Outbound::Nothing => after@ == before@,
                    _ => false,
                }
            },
            TrackCommand::AddEvent(event) => {
                &&& *after == *before
                &&& owed == Outbound::Notify(EventMessage::<E>::AddTrackEvent(index, event))
            },
            TrackCommand::Do(_) => {
                owed == Outbound::Notify(
                    EventMessage::<E>::ChangeState(index, TrackStateChange::Total(after@)),
                )
            },
            TrackCommand::Request(reply) => {
                &&& *after == *before
                &&& owed == Outbound::<E>::Reply(reply, before@)
            },
            TrackCommand::Loop(loops) => {
                &&& after.same_but_state(before)
                &&& match owed {
                    Outbound::Notify(
                        EventMessage::ChangeState(i, TrackStateChange::Loops(now, asked)),
                    ) => {
                        &&& i == index
                        &&& now == loops
                        &&& asked
                        &&& after@ == before@.with_loops(loops)
                        &&& before.source_said_seekable(true)
                    },
                    Outbound::Nothing => after@ == before@ && before.source_said_seekable(false),
                    _ => false,
                }
            },
            TrackCommand::MakePlayable => {
                &&& after@ == before@
                &&& after.same_wiring(before)
                &&& owed is Nothing
            },
        }
    }

    /// Applying `cmd` can turn the track `before` into the track `after`:
    /// [`Track::effect`] allows the step, for something or other that is owed.
    pub open spec fn turns(index: usize, before: Self, cmd: TrackCommand<A, E>, after: Self) -> bool {
        exists|owed: Outbound<E>| #[trigger] Self::effect(&before, index, cmd, &after, owed)
    }

    /// `trace` follows a track through a round in which `cmds` were applied to
    /// it one after the other: it holds the track as it was before the first
    /// command and as it was after each, and every step from one to the next is
    /// one that [`Track::effect`] allows for that command.
    pub open spec fn follows(index: usize, cmds: Seq<TrackCommand<A, E>>, trace: Seq<Self>) -> bool {
        &&& trace.len() == cmds.len() + 1
        &&& forall|i: int|
            #![trigger cmds[i]]
            0 <= i < cmds.len() ==> Self::turns(index, trace[i], cmds[i], trace[i + 1])
    }

    /// Applies one command to the track, and returns what the track owes the
    /// outside world for it: a notification, an answer, or nothing.
    ///
    /// An action is run against the track, and the track afterwards is what
    /// the action made of it. The rules of [`Track::carried_over`] hold across
    /// every command but an action, and across an action too if no action of
    /// the kind `A` ever breaks them.
    pub fn apply_command(&mut self, index: usize, cmd: TrackCommand<A, E>) -> (owed: Outbound<E>)
        ensures
            Self::effect(old(self), index, cmd, final(self), owed),
            cmd is Do ==> exists|t: &mut Self|
                {
                    &&& *t == *old(self)
                    &&& *final(t) == *final(self)
                    &&& #[trigger] call_ensures(A::perform, (cmd->Do_0, t), ())
                },
            !(cmd is Do) ==> Self::carried_over(old(self), final(self)),
            (forall|act: A, t: &mut Self| #[trigger]
                call_ensures(A::perform, (act, t), ()) ==> Self::carried_over(t, final(t)))
                ==> Self::carried_over(old(self), final(self)),
    {
        match cmd {
            TrackCommand::Play => {
                self.play();
                Outbound::Notify(
                    EventMessage::ChangeState(index, TrackStateChange::Mode(self.playing)),
                )
            },
            TrackCommand::Pause => {
                self.pause();
                Outbound::Notify(
                    EventMessage::ChangeState(index, TrackStateChange::Mode(self.playing)),
                )
            },
            TrackCommand::Stop => {
                self.stop();
                Outbound::Notify(
                    EventMessage::ChangeState(index, TrackStateChange::Mode(self.playing)),
                )
            },
            TrackCommand::Volume(volume) => {
                self.set_volume(volume);
                Outbound::Notify(
                    EventMessage::ChangeState(index, TrackStateChange::Volume(self.volume)),
                )
            },
            TrackCommand::Seek(time) => {
                match self.seek_time(time) {
                    Ok(reached) => Outbound::Notify(
                        EventMessage::ChangeState(index, TrackStateChange::Position(reached)),
                    ),
                    Err(_) => Outbound::Nothing,
                }
            },
            TrackCommand::AddEvent(event) => Outbound::Notify(
                EventMessage::AddTrackEvent(index, event),
            ),
            TrackCommand::Do(action) => {
                action.perform(self);
                Outbound::Notify(
                    EventMessage::ChangeState(index, TrackStateChange::Total(self.state())),
                )
            },
            TrackCommand::Request(reply) => Outbound::Reply(reply, self.state()),
            TrackCommand::Loop(loops) => {
                match self.set_loops(loops) {
                    Ok(_) => Outbound::Notify(
                        EventMessage::ChangeState(index, TrackStateChange::Loops(self.loops, true)),
                    ),
                    Err(_) => Outbound::Nothing,
                }
            },
            TrackCommand::MakePlayable => {
                self.make_playable();
                Outbound::Nothing
            },
        }
    }

    /// Acts on what one poll of the command queue found. A command is applied
    /// and more may follow; an empty queue, or one that every handle has let
    /// go of, ends the round and leaves the track as it is.
    ///
    /// Returns what the track owes the outside world, and whether to poll
    /// again.
    pub fn on_poll(&mut self, index: usize, polled: Polled<TrackCommand<A, E>>) -> (r: (
        Outbound<E>,
        bool,
    ))
        ensures
            match polled {
                Polled::Ready(cmd) => r.1 && Self::effect(old(self), index, cmd, final(self), r.0),
                Polled::Empty | Polled::Disconnected => {
                    &&& !r.1
                    &&& r.0 is Nothing
                    &&& *final(self) == *old(self)
                },
            },
            polled matches Polled::Ready(cmd) ==> (cmd is Do ==> exists|t: &mut Self|
                {
                    &&& *t == *old(self)
                    &&& *final(t) == *final(self)
                    &&& #[trigger] call_ensures(A::perform, (cmd->Do_0, t), ())
                }),
            (forall|act: A, t: &mut Self| #[trigger]
                call_ensures(A::perform, (act, t), ()) ==> Self::carried_over(t, final(t)))
                ==> Self::carried_over(old(self), final(self)),
    {
        match polled {
            Polled::Ready(cmd) => (self.apply_command(index, cmd), true),
            Polled::Empty => (Outbound::Nothing, false),
            Polled::Disconnected => (Outbound::Nothing, false),
        }
    }

    /// Takes every command that is waiting off the queue, applies each in the
    /// order in which it was queued, and hands on what is owed for it: a
    /// notification to the event side of the mixer, or an answer to whoever
    /// asked for the state. The mixer calls this once per frame, for the track
    /// at place `index` in the mix.
    ///
    /// The call never waits. It does not fail either: not where every handle
    /// is gone, and not where nobody takes what is handed on.
    ///
    /// Which commands were waiting is for the queue to say. Whatever they
    /// were, the track afterwards is the track before with a run of commands
    /// applied to it in turn: each step of the run is one that
    /// [`Track::effect`] allows for its command, and where the command was an
    /// action, the step is what that action made of the track. A round that
    /// finds nothing waiting is the run of no commands, and leaves the track as
    /// it is. The rules of [`Track::carried_over`] hold across the call, as
    /// long as no action of the kind `A` ever breaks them.
    pub fn process_commands(&mut self, index: usize, ic: &Interconnect<E>)
        ensures
            exists|cmds: Seq<TrackCommand<A, E>>, trace: Seq<Self>|
                {
                    &&& #[trigger] Self::follows(index, cmds, trace)
                    &&& trace[0] == *old(self)
                    &&& trace[cmds.len() as int] == *final(self)
                    &&& forall|i: int|
                        #![trigger cmds[i]]
                        0 <= i < cmds.len() && cmds[i] is Do ==> exists|t: &mut Self|
                            {
                                &&& *t == trace[i]
                                &&& *final(t) == trace[i + 1]
                                &&& #[trigger] call_ensures(A::perform, (cmds[i]->Do_0, t), ())
                            }
                },
            (forall|act: A, t: &mut Self| #[trigger]
                call_ensures(A::perform, (act, t), ()) ==> Self::carried_over(t, final(t)))
                ==> Self::carried_over(old(self), final(self)),
    {
        let ghost mut cmds: Seq<TrackCommand<A, E>> = Seq::empty();
        let ghost mut trace: Seq<Self> = seq![*self];
        let mut budget: usize = usize::MAX;
        while budget > 0
            invariant
                Self::follows(index, cmds, trace),
                trace[0] == *old(self),
                trace[cmds.len() as int] == *self,
                forall|i: int|
                    #![trigger cmds[i]]
                    0 <= i < cmds.len() && cmds[i] is Do ==> exists|t: &mut Self|
                        {
                            &&& *t == trace[i]
                            &&& *final(t) == trace[i + 1]
                            &&& #[trigger] call_ensures(A::perform, (cmds[i]->Do_0, t), ())
                        },
                (forall|act: A, t: &mut Self| #[trigger]
                    call_ensures(A::perform, (act, t), ()) ==> Self::carried_over(t, final(t)))
                    ==> Self::carried_over(old(self), self),
            decreases budget,
        {
            let ghost done = cmds;
            let ghost seen = trace;
            let polled = try_recv(&self.commands);
            let ghost found = polled;
            let (owed, more) = self.on_poll(index, polled);
            proof {
                if let Polled::Ready(cmd) = found {
                    cmds = done.push(cmd);
                    trace = seen.push(*self);
                    let last = done.len() as int;
                    assert(Self::effect(&trace[last], index, cmds[last], &trace[last + 1], owed));
                    assert forall|i: int|
                        #![trigger cmds[i]]
                        0 <= i < cmds.len() implies Self::turns(
                        index,
                        trace[i],
                        cmds[i],
                        trace[i + 1],
                    ) by {
                        if i < done.len() {
                            assert(cmds[i] == done[i]);
                            assert(trace[i] == seen[i]);
                            assert(trace[i + 1] == seen[i + 1]);
                        }
                    }
                }
            }
            match owed {
                Outbound::Notify(msg) => ic.publish(msg),
                Outbound::Reply(to, state) => {
                    let _ = send(&to, state);
                },
                Outbound::Nothing => {},
            }
            if !more {
                break;
            }
            budget = budget - 1;
        }
    }
}

/// Makes a track for `source`, with a fresh random identifier, and the first
/// handle to it.
pub fn create_player<S: AudioSource, A: TrackAction<S, E>, E>(source: S) -> (made: (
    Track<S, A, E>,
    TrackHandle<A, E>,
))
    ensures
        made.0.id() == made.1.id(),
        made.0@ == TrackState::initial(),
        made.0@.position.nanos() == 0,
        made.0@.play_time.nanos() == 0,
        made.0.source() == source,
        made.0.own_handle() == made.1,
        made.0.local_events() == Some(Seq::<E>::empty()),
        call_ensures(S::is_seekable, (&source,), made.1.can_seek()),
        call_ensures(S::metadata, (&source,), made.1.about()),
{
    create_player_with_uuid(source, fresh_uuid())
}

/// Makes a track for `source` that is known by `uuid`, and the first handle
/// to it. The two share a new, empty command queue.
pub fn create_player_with_uuid<S: AudioSource, A: TrackAction<S, E>, E>(
    source: S,
    uuid: uuid::Uuid,
) -> (made: (Track<S, A, E>, TrackHandle<A, E>))
    ensures
        made.0.id() == uuid,
        made.1.id() == uuid,
        made.0@ == TrackState::initial(),
        made.0@.position.nanos() == 0,
        made.0@.play_time.nanos() == 0,
        made.0.source() == source,
        made.0.own_handle() == made.1,
        made.0.local_events() == Some(Seq::<E>::empty()),
        call_ensures(S::is_seekable, (&source,), made.1.can_seek()),
        call_ensures(S::metadata, (&source,), made.1.about()),
{
    let (tx, rx) = unbounded();
    let can_seek = source.is_seekable();
    let metadata = source.metadata();
    let handle = TrackHandle::new(tx, can_seek, uuid, metadata);
    let player = Track::new_raw(source, rx, handle.clone());
    (player, handle)
}

} // verus!
