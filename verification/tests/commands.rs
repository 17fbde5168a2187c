use tracks::{
    create_player, AudioSource, EventMessage, Interconnect, LoopState, Metadata, Outbound,
    PlayMode, Polled, StateRequest, Timespan, Track, TrackAction, TrackCommand, TrackError,
    TrackHandle, TrackState, TrackStateChange, Volume,
};

struct Tape {
    seekable: bool,
    warmed: u32,
}

impl AudioSource for Tape {
    fn is_seekable(&self) -> bool {
        self.seekable
    }

    fn seek_time(&mut self, pos: Timespan) -> Option<Timespan> {
        if self.seekable {
            Timespan::from_nanos(pos.as_nanos() / 1_000_000 * 1_000_000)
        } else {
            None
        }
    }

    fn make_playable(&mut self) {
        self.warmed += 1;
    }

    fn metadata(&self) -> Metadata {
        Metadata::default()
    }
}

enum Act {
    Halve,
    PauseAndLoop(usize),
    Rewind,
}

impl TrackAction<Tape, String> for Act {
    fn perform(self, track: &mut Track<Tape, Act, String>) {
        match self {
            Act::Halve => {
                let now = f32::from_bits(track.volume().to_bits());
                track.set_volume(gain(now / 2.0));
            },
            Act::PauseAndLoop(n) => {
                track.pause();
                let _ = track.set_loops(LoopState::Finite(n));
            },
            Act::Rewind => {
                let _ = track.seek_time(Timespan::zero());
            },
        }
    }
}

type Deck = Track<Tape, Act, String>;
type Remote = TrackHandle<Act, String>;
type Note = EventMessage<String>;

struct Rig {
    track: Deck,
    handle: Remote,
    ic: Interconnect<String>,
    notes: flume::Receiver<Note>,
}

impl Rig {
    fn new(seekable: bool) -> Rig {
        let (track, handle) = create_player(Tape { seekable, warmed: 0 });
        let (tx, notes) = flume::unbounded();
        Rig { track, handle, ic: Interconnect::new(tx), notes }
    }

    fn tick(&mut self, index: usize) -> Vec<Note> {
        self.track.process_commands(index, &self.ic);
        self.notes.try_iter().collect()
    }
}

fn gain(g: f32) -> Volume {
    Volume::from_bits(g.to_bits())
}

fn span(nanos: u128) -> Timespan {
    Timespan::from_nanos(nanos).unwrap()
}

fn initial() -> TrackState {
    TrackState {
        playing: PlayMode::Play,
        volume: gain(1.0),
        position: Timespan::zero(),
        play_time: Timespan::zero(),
        loops: LoopState::Finite(0),
    }
}

fn mode(index: usize, m: PlayMode) -> Note {
    EventMessage::ChangeState(index, TrackStateChange::Mode(m))
}

#[test]
fn an_empty_queue_changes_nothing() {
    let mut rig = Rig::new(true);
    assert_eq!(rig.tick(0), vec![]);
    assert_eq!(rig.track.state(), initial());
}

#[test]
fn mode_commands_are_applied_and_reported() {
    let mut rig = Rig::new(true);
    rig.handle.pause();
    assert_eq!(rig.tick(3), vec![mode(3, PlayMode::Pause)]);
    assert_eq!(rig.track.playing(), PlayMode::Pause);
    rig.handle.play();
    assert_eq!(rig.tick(3), vec![mode(3, PlayMode::Play)]);
    assert_eq!(rig.track.playing(), PlayMode::Play);
    rig.handle.stop();
    assert_eq!(rig.tick(4), vec![mode(4, PlayMode::Stop)]);
    assert_eq!(rig.track.playing(), PlayMode::Stop);
}

#[test]
fn a_finished_track_reports_the_mode_it_kept() {
    let mut rig = Rig::new(true);
    rig.handle.stop();
    rig.handle.play();
    rig.handle.pause();
    assert_eq!(
        rig.tick(0),
        vec![mode(0, PlayMode::Stop), mode(0, PlayMode::Stop), mode(0, PlayMode::Stop)]
    );
    assert_eq!(rig.track.playing(), PlayMode::Stop);
    rig.track.end();
    assert_eq!(rig.track.playing(), PlayMode::Stop);
}

#[test]
fn commands_are_applied_in_the_order_they_were_sent() {
    let mut rig = Rig::new(true);
    rig.handle.pause();
    rig.handle.set_volume(gain(0.5));
    rig.handle.play();
    rig.handle.set_volume(gain(0.25));
    assert_eq!(
        rig.tick(1),
        vec![
            mode(1, PlayMode::Pause),
            EventMessage::ChangeState(1, TrackStateChange::Volume(gain(0.5))),
            mode(1, PlayMode::Play),
            EventMessage::ChangeState(1, TrackStateChange::Volume(gain(0.25))),
        ]
    );
    assert_eq!(rig.track.state(), TrackState { volume: gain(0.25), ..initial() });
}

#[test]
fn the_last_volume_of_two_handles_wins() {
    let mut rig = Rig::new(true);
    let a = rig.handle.clone();
    let b = a.clone();
    a.set_volume(gain(0.2));
    b.set_volume(gain(0.8));
    rig.tick(0);
    assert_eq!(f32::from_bits(rig.track.state().volume.to_bits()), 0.8);
    assert_eq!(a.uuid(), b.uuid());
}

#[test]
fn every_handle_sees_the_same_state() {
    let mut rig = Rig::new(true);
    let a = rig.handle.clone();
    let b = rig.track.handle();
    a.pause();
    b.set_volume(gain(0.6));
    let asked_by_a = a.request_info();
    let asked_by_b = b.request_info();
    rig.tick(0);
    let want = TrackState { playing: PlayMode::Pause, volume: gain(0.6), ..initial() };
    assert_eq!(asked_by_a.wait(), Ok(want));
    assert_eq!(asked_by_b.wait(), Ok(want));
    assert_eq!(rig.track.state(), want);
}

#[test]
fn a_request_sees_every_command_sent_before_it() {
    let mut rig = Rig::new(true);
    rig.handle.pause();
    rig.handle.set_volume(gain(0.4));
    rig.handle.loop_for(5).unwrap();
    rig.handle.seek_time(Timespan::from_millis(60)).unwrap();
    let asked = rig.handle.request_info();
    rig.handle.set_volume(gain(0.9));
    rig.handle.stop();
    rig.tick(0);
    assert_eq!(
        asked.wait(),
        Ok(TrackState {
            playing: PlayMode::Pause,
            volume: gain(0.4),
            position: Timespan::from_millis(60),
            play_time: Timespan::zero(),
            loops: LoopState::Finite(5),
        })
    );
    assert_eq!(rig.track.playing(), PlayMode::Stop);
    assert_eq!(rig.track.volume(), gain(0.9));
}

#[test]
fn a_request_is_not_reported_to_the_event_side() {
    let mut rig = Rig::new(true);
    let asked = rig.handle.request_info();
    assert_eq!(rig.tick(0), vec![]);
    assert_eq!(asked.wait(), Ok(initial()));
    assert_eq!(rig.track.state(), initial());
}

#[test]
fn a_request_to_a_dropped_track_fails() {
    let rig = Rig::new(true);
    let handle = rig.handle.clone();
    drop(rig);
    assert_eq!(handle.get_info(), Err(TrackError::Finished));
    assert_eq!(handle.request_info().wait(), Err(TrackError::Finished));
}

#[test]
fn a_request_left_on_the_queue_fails_once_the_queue_is_gone() {
    let rig = Rig::new(true);
    let handle = rig.handle.clone();
    let asked = handle.request_info();
    drop(rig);
    drop(handle);
    assert_eq!(asked.wait(), Err(TrackError::Finished));
}

#[test]
fn commands_to_a_dropped_track_are_let_go() {
    let rig = Rig::new(true);
    let handle = rig.handle.clone();
    drop(rig);
    handle.play();
    handle.pause();
    handle.stop();
    handle.set_volume(gain(0.5));
    handle.make_playable();
    handle.add_event(String::from("late"));
    handle.action(Act::Halve);
    assert_eq!(handle.seek_time(Timespan::zero()), Ok(()));
    assert_eq!(handle.enable_loop(), Ok(()));
}

#[test]
fn settle_tells_an_answer_from_silence() {
    assert_eq!(StateRequest::settle(Some(initial())), Ok(initial()));
    assert_eq!(StateRequest::settle(None), Err(TrackError::Finished));
}

#[test]
fn a_track_outlives_its_handles() {
    let Rig { mut track, handle, ic, notes } = Rig::new(true);
    handle.pause();
    drop(handle);
    track.process_commands(0, &ic);
    assert_eq!(track.playing(), PlayMode::Pause);
    assert_eq!(notes.try_iter().count(), 1);
    track.process_commands(0, &ic);
    track.process_commands(0, &ic);
    track.step_frame();
    assert_eq!(track.playing(), PlayMode::Pause);
    assert_eq!(notes.try_iter().count(), 0);
}

#[test]
fn a_track_goes_on_when_nobody_listens() {
    let Rig { mut track, handle, ic, notes } = Rig::new(true);
    drop(notes);
    handle.pause();
    handle.set_volume(gain(0.3));
    handle.add_event(String::from("unheard"));
    track.process_commands(0, &ic);
    assert_eq!(
        track.state(),
        TrackState { playing: PlayMode::Pause, volume: gain(0.3), ..initial() }
    );
}

#[test]
fn a_seek_is_reported_with_the_position_reached() {
    let mut rig = Rig::new(true);
    assert_eq!(rig.handle.seek_time(span(2_345_678)), Ok(()));
    assert_eq!(
        rig.tick(2),
        vec![EventMessage::ChangeState(2, TrackStateChange::Position(span(2_000_000)))]
    );
    assert_eq!(rig.track.position(), span(2_000_000));
}

#[test]
fn a_handle_refuses_to_seek_a_source_that_cannot() {
    let mut rig = Rig::new(false);
    assert_eq!(rig.handle.seek_time(span(5)), Err(TrackError::SeekUnsupported));
    assert_eq!(rig.handle.enable_loop(), Err(TrackError::SeekUnsupported));
    assert_eq!(rig.handle.disable_loop(), Err(TrackError::SeekUnsupported));
    assert_eq!(rig.handle.loop_for(2), Err(TrackError::SeekUnsupported));
    assert_eq!(rig.tick(0), vec![]);
    assert_eq!(rig.track.state(), initial());
}

#[test]
fn a_refused_seek_or_loop_is_not_reported() {
    let mut rig = Rig::new(false);
    rig.track.step_frame();
    let before = rig.track.state();
    rig.handle.send(TrackCommand::Seek(span(5)));
    rig.handle.send(TrackCommand::Loop(LoopState::Infinite));
    rig.handle.pause();
    assert_eq!(rig.tick(0), vec![mode(0, PlayMode::Pause)]);
    assert_eq!(rig.track.state(), TrackState { playing: PlayMode::Pause, ..before });
}

#[test]
fn loops_are_set_and_reported_as_asked_for() {
    let mut rig = Rig::new(true);
    assert_eq!(rig.handle.loop_for(3), Ok(()));
    assert_eq!(
        rig.tick(5),
        vec![EventMessage::ChangeState(5, TrackStateChange::Loops(LoopState::Finite(3), true))]
    );
    assert_eq!(rig.handle.enable_loop(), Ok(()));
    assert_eq!(
        rig.tick(5),
        vec![EventMessage::ChangeState(5, TrackStateChange::Loops(LoopState::Infinite, true))]
    );
    assert_eq!(rig.track.loops(), LoopState::Infinite);
    assert_eq!(rig.handle.disable_loop(), Ok(()));
    assert_eq!(
        rig.tick(5),
        vec![EventMessage::ChangeState(5, TrackStateChange::Loops(LoopState::Finite(0), true))]
    );
    assert_eq!(rig.track.loops(), LoopState::Finite(0));
}

#[test]
fn an_event_is_passed_on_as_it_is() {
    let mut rig = Rig::new(true);
    rig.handle.add_event(String::from("on end: say goodbye"));
    assert_eq!(
        rig.tick(9),
        vec![EventMessage::AddTrackEvent(9, String::from("on end: say goodbye"))]
    );
    assert_eq!(rig.track.state(), initial());
    assert_eq!(rig.track.take_events(), Some(Vec::new()));
}

#[test]
fn an_action_runs_once_and_the_whole_state_is_reported() {
    let mut rig = Rig::new(true);
    rig.handle.action(Act::Halve);
    let halved = TrackState { volume: gain(0.5), ..initial() };
    assert_eq!(rig.tick(1), vec![EventMessage::ChangeState(1, TrackStateChange::Total(halved))]);
    assert_eq!(rig.tick(1), vec![]);
    assert_eq!(rig.track.state(), halved);
    rig.handle.action(Act::PauseAndLoop(4));
    let paused =
        TrackState { playing: PlayMode::Pause, loops: LoopState::Finite(4), ..halved };
    assert_eq!(rig.tick(1), vec![EventMessage::ChangeState(1, TrackStateChange::Total(paused))]);
    rig.track.step_frame();
    rig.handle.action(Act::Rewind);
    let rewound = TrackState { play_time: Timespan::from_millis(20), ..paused };
    assert_eq!(rig.tick(1), vec![EventMessage::ChangeState(1, TrackStateChange::Total(rewound))]);
}

#[test]
fn make_playable_is_passed_to_the_source_in_silence() {
    let mut rig = Rig::new(true);
    rig.handle.make_playable();
    assert_eq!(rig.tick(0), vec![]);
    assert_eq!(rig.track.source_ref().warmed, 1);
    assert_eq!(rig.track.state(), initial());
}

fn notified(owed: Outbound<String>) -> Option<Note> {
    match owed {
        Outbound::Notify(note) => Some(note),
        _ => None,
    }
}

#[test]
fn apply_command_returns_what_is_owed() {
    let mut rig = Rig::new(true);
    assert_eq!(
        notified(rig.track.apply_command(6, TrackCommand::Pause)),
        Some(mode(6, PlayMode::Pause))
    );
    assert_eq!(
        notified(rig.track.apply_command(6, TrackCommand::Volume(gain(2.0)))),
        Some(EventMessage::ChangeState(6, TrackStateChange::Volume(gain(2.0))))
    );
    assert_eq!(
        notified(rig.track.apply_command(6, TrackCommand::Seek(span(1_999_999)))),
        Some(EventMessage::ChangeState(6, TrackStateChange::Position(span(1_000_000))))
    );
    assert_eq!(
        notified(rig.track.apply_command(6, TrackCommand::AddEvent(String::from("e")))),
        Some(EventMessage::AddTrackEvent(6, String::from("e")))
    );
    assert!(matches!(rig.track.apply_command(6, TrackCommand::MakePlayable), Outbound::Nothing));
    assert_eq!(rig.track.source_ref().warmed, 1);
    assert_eq!(rig.notes.try_iter().count(), 0);
}

#[test]
fn a_request_is_owed_the_state_on_its_own_queue() {
    let mut rig = Rig::new(true);
    rig.track.pause().set_volume(gain(0.75));
    let (tx, rx) = flume::bounded(1);
    match rig.track.apply_command(0, TrackCommand::Request(tx)) {
        Outbound::Reply(to, state) => {
            assert_eq!(state, rig.track.state());
            assert_eq!(state.playing, PlayMode::Pause);
            to.send(state).unwrap();
        },
        _ => panic!("a request is owed a reply"),
    }
    assert_eq!(rx.try_recv(), Ok(rig.track.state()));
}

#[test]
fn a_refused_command_is_owed_nothing() {
    let mut rig = Rig::new(false);
    assert!(matches!(
        rig.track.apply_command(0, TrackCommand::Seek(span(5))),
        Outbound::Nothing
    ));
    assert!(matches!(
        rig.track.apply_command(0, TrackCommand::Loop(LoopState::Finite(1))),
        Outbound::Nothing
    ));
    assert_eq!(rig.track.state(), initial());
}

#[test]
fn a_poll_that_found_nothing_ends_the_round() {
    let mut rig = Rig::new(true);
    rig.track.pause();
    let before = rig.track.state();
    assert!(matches!(rig.track.on_poll(0, Polled::Empty), (Outbound::Nothing, false)));
    assert!(matches!(rig.track.on_poll(0, Polled::Disconnected), (Outbound::Nothing, false)));
    assert_eq!(rig.track.state(), before);
    let (owed, more) = rig.track.on_poll(0, Polled::Ready(TrackCommand::Play));
    assert!(more);
    assert_eq!(notified(owed), Some(mode(0, PlayMode::Play)));
}

#[test]
fn a_request_whose_asker_left_is_dropped() {
    let mut rig = Rig::new(true);
    drop(rig.handle.request_info());
    rig.handle.pause();
    assert_eq!(rig.tick(0), vec![mode(0, PlayMode::Pause)]);
}
