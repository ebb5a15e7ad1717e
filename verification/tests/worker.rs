use genesis::{LoadEvent, LoadState};

const STATES: [LoadState; 5] = [
    LoadState::Spawning,
    LoadState::Opening,
    LoadState::Reading,
    LoadState::Complete,
    LoadState::Error,
];

const EVENTS: [LoadEvent; 4] =
    [LoadEvent::Started, LoadEvent::Opened, LoadEvent::Finished, LoadEvent::Failed];

fn rank(state: LoadState) -> u8 {
    match state {
        LoadState::Spawning => 0,
        LoadState::Opening => 1,
        LoadState::Reading => 2,
        LoadState::Complete => 3,
        LoadState::Error => 3,
    }
}

#[test]
fn worker_starts_spawning() {
    assert_eq!(LoadState::new(), LoadState::Spawning);
    assert!(!LoadState::new().is_terminal());
}

#[test]
fn worker_walks_through_the_stages() {
    let s = LoadState::new();
    let s = s.advance(LoadEvent::Started);
    assert_eq!(s, LoadState::Opening);
    let s = s.advance(LoadEvent::Opened);
    assert_eq!(s, LoadState::Reading);
    let s = s.advance(LoadEvent::Finished);
    assert_eq!(s, LoadState::Complete);
    assert!(s.is_terminal());
}

#[test]
fn failure_reaches_error_from_every_stage_that_is_not_final() {
    assert_eq!(LoadState::Spawning.advance(LoadEvent::Failed), LoadState::Error);
    assert_eq!(LoadState::Opening.advance(LoadEvent::Failed), LoadState::Error);
    assert_eq!(LoadState::Reading.advance(LoadEvent::Failed), LoadState::Error);
    assert!(LoadState::Error.is_terminal());
}

#[test]
fn final_states_do_not_move() {
    for event in EVENTS {
        assert_eq!(LoadState::Complete.advance(event), LoadState::Complete);
        assert_eq!(LoadState::Error.advance(event), LoadState::Error);
    }
}

#[test]
fn no_event_moves_a_state_back() {
    for state in STATES {
        for event in EVENTS {
            assert!(rank(state.advance(event)) >= rank(state));
        }
    }
}

#[test]
fn events_out_of_turn_change_nothing() {
    assert_eq!(LoadState::Spawning.advance(LoadEvent::Opened), LoadState::Spawning);
    assert_eq!(LoadState::Spawning.advance(LoadEvent::Finished), LoadState::Spawning);
    assert_eq!(LoadState::Opening.advance(LoadEvent::Started), LoadState::Opening);
    assert_eq!(LoadState::Opening.advance(LoadEvent::Finished), LoadState::Opening);
    assert_eq!(LoadState::Reading.advance(LoadEvent::Started), LoadState::Reading);
    assert_eq!(LoadState::Reading.advance(LoadEvent::Opened), LoadState::Reading);
}
