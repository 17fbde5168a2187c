use tracks::{LoopState, PlayMode, TrackError};

const ALL: [PlayMode; 4] = [PlayMode::Play, PlayMode::Pause, PlayMode::Stop, PlayMode::End];

#[test]
fn a_new_mode_is_play() {
    assert_eq!(PlayMode::default(), PlayMode::Play);
}

#[test]
fn only_stop_and_end_are_done() {
    assert!(!PlayMode::Play.is_done());
    assert!(!PlayMode::Pause.is_done());
    assert!(PlayMode::Stop.is_done());
    assert!(PlayMode::End.is_done());
}

#[test]
fn a_live_track_takes_any_mode() {
    for from in [PlayMode::Play, PlayMode::Pause] {
        for to in ALL {
            assert_eq!(from.change_to(to), to);
        }
    }
}

#[test]
fn a_stopped_track_stays_stopped() {
    for to in ALL {
        assert_eq!(PlayMode::Stop.change_to(to), PlayMode::Stop);
    }
}

#[test]
fn an_ended_track_stays_ended() {
    for to in ALL {
        assert_eq!(PlayMode::End.change_to(to), PlayMode::End);
    }
}

#[test]
fn no_request_revives_a_finished_track() {
    let requests = [
        PlayMode::Pause,
        PlayMode::Play,
        PlayMode::Stop,
        PlayMode::Play,
        PlayMode::Pause,
        PlayMode::End,
        PlayMode::Play,
    ];
    let mut mode = PlayMode::Play;
    let mut seen = Vec::new();
    for request in requests {
        mode = mode.change_to(request);
        seen.push(mode);
    }
    assert_eq!(
        seen,
        vec![
            PlayMode::Pause,
            PlayMode::Play,
            PlayMode::Stop,
            PlayMode::Stop,
            PlayMode::Stop,
            PlayMode::Stop,
            PlayMode::Stop,
        ]
    );
}

#[test]
fn every_run_of_requests_leaves_a_finished_track_alone() {
    for start in [PlayMode::Stop, PlayMode::End] {
        for a in ALL {
            for b in ALL {
                for c in ALL {
                    assert_eq!(start.change_to(a).change_to(b).change_to(c), start);
                }
            }
        }
    }
}

#[test]
fn a_new_loop_state_has_no_loops() {
    assert_eq!(LoopState::default(), LoopState::Finite(0));
}

#[test]
fn no_loops_left_denies() {
    let mut loops = LoopState::Finite(0);
    assert!(!loops.consume_one_loop());
    assert_eq!(loops, LoopState::Finite(0));
}

#[test]
fn three_loops_are_granted_three_times() {
    let mut loops = LoopState::Finite(3);
    assert!(loops.consume_one_loop());
    assert_eq!(loops, LoopState::Finite(2));
    assert!(loops.consume_one_loop());
    assert_eq!(loops, LoopState::Finite(1));
    assert!(loops.consume_one_loop());
    assert_eq!(loops, LoopState::Finite(0));
    assert!(!loops.consume_one_loop());
    assert!(!loops.consume_one_loop());
    assert_eq!(loops, LoopState::Finite(0));
}

#[test]
fn endless_loops_never_deny() {
    let mut loops = LoopState::Infinite;
    for _ in 0..1000 {
        assert!(loops.consume_one_loop());
        assert_eq!(loops, LoopState::Infinite);
    }
}

#[test]
fn the_largest_count_goes_down_by_one() {
    let mut loops = LoopState::Finite(usize::MAX);
    assert!(loops.consume_one_loop());
    assert_eq!(loops, LoopState::Finite(usize::MAX - 1));
}

#[test]
fn errors_describe_themselves() {
    assert_eq!(TrackError::Finished.message(), "track ended");
    assert_eq!(TrackError::SeekUnsupported.message(), "track did not support seeking");
}
