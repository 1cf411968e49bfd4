use netplay::{
    Connected, ConnectingEvent, ConnectingState, GameState, InputMapping, JoypadInput, Netplay,
    NetplayBuildConfiguration, NetplaySession, NetplayState, RomHash, SnapshotWindow, StartMethod,
    StepReport, SyncOutcome, MAX_PLAYERS,
};

fn config() -> NetplayBuildConfiguration {
    NetplayBuildConfiguration {
        server_url: String::from("https://netplay.example"),
    }
}

fn hash() -> RomHash {
    RomHash {
        bytes: [
            0x01, 0x23, 0x45, 0x67, 0x89, 0xab, 0xcd, 0xef, 0x01, 0x23, 0x45, 0x67, 0x89, 0xab,
            0xcd, 0xef,
        ],
    }
}

const HASH_HEX: &str = "0123456789abcdef0123456789abcdef";

fn initial_state() -> GameState {
    GameState {
        frame: 0,
        data: vec![1, 2, 3, 4],
    }
}

fn inputs() -> [JoypadInput; MAX_PLAYERS] {
    [JoypadInput(0), JoypadInput(0)]
}

fn idle_report() -> StepReport {
    StepReport {
        attempt1: ConnectingEvent::Pending,
        attempt2: ConnectingEvent::Pending,
        session: SyncOutcome::Fault,
    }
}

fn session(mapping: Option<InputMapping>, older_frame: u64, newer_frame: u64) -> NetplaySession {
    NetplaySession {
        input_mapping: mapping,
        last_confirmed_game_states: SnapshotWindow {
            older: GameState {
                frame: older_frame,
                data: vec![7],
            },
            newer: GameState {
                frame: newer_frame,
                data: vec![8],
            },
        },
    }
}

fn fresh_disconnected() -> Netplay<netplay::Disconnected> {
    let mut id = Some(String::from("player-one"));
    Netplay::new(config(), &mut id, hash(), initial_state())
}

/// Drives a fresh session to `Connected` through the public API, handing the
/// transport a session with the given mapping and snapshot frames.
fn connected(
    mapping: Option<InputMapping>,
    older_frame: u64,
    newer_frame: u64,
) -> Netplay<Connected> {
    let state = fresh_disconnected().join_by_name("room");
    let report = StepReport {
        attempt1: ConnectingEvent::Connected(session(mapping, older_frame, newer_frame)),
        attempt2: ConnectingEvent::Pending,
        session: SyncOutcome::Fault,
    };
    match state.advance(inputs(), report) {
        NetplayState::Connected(netplay) => netplay,
        _ => panic!("expected the session to connect"),
    }
}

fn resuming(older_frame: u64, newer_frame: u64) -> Netplay<netplay::Resuming> {
    let netplay = connected(
        Some(InputMapping { ids: [0, 1] }),
        older_frame,
        newer_frame,
    );
    match NetplayState::Connected(netplay).advance(inputs(), idle_report()) {
        NetplayState::Resuming(netplay) => netplay,
        _ => panic!("expected a fault to enter the resume strategy"),
    }
}

fn start_state_of(attempt: &ConnectingState) -> &netplay::StartState {
    match attempt {
        ConnectingState::InProgress(StartMethod::Resume(start)) => start,
        _ => panic!("expected an in-progress resume attempt"),
    }
}

#[test]
fn new_keeps_a_supplied_identifier() {
    let mut id = Some(String::from("player-one"));
    let netplay = Netplay::new(config(), &mut id, hash(), initial_state());
    assert_eq!(id, Some(String::from("player-one")));
    assert_eq!(netplay.netplay_id, "player-one");
    assert_eq!(netplay.rom_hash, hash());
    assert_eq!(netplay.initial_game_state, initial_state());
}

#[test]
fn new_generates_an_identifier_when_missing() {
    let mut id = None;
    let netplay = Netplay::new(config(), &mut id, hash(), initial_state());
    let stored = id.expect("a generated identifier is stored back");
    assert_eq!(stored.len(), 36);
    assert_eq!(netplay.netplay_id, stored);
}

#[test]
fn join_by_name_derives_the_session_id() {
    let state = fresh_disconnected().join_by_name("room");
    match state {
        NetplayState::Connecting(netplay) => match netplay.state {
            ConnectingState::InProgress(StartMethod::Join(start, room)) => {
                assert_eq!(room, "room");
                assert_eq!(start.session_id, format!("room_{}", HASH_HEX));
                assert!(start.input_mapping.is_none());
                assert_eq!(start.game_state, initial_state());
            }
            _ => panic!("expected an in-progress join attempt"),
        },
        _ => panic!("expected a connecting session"),
    }
}

#[test]
fn join_by_an_empty_name_still_separates_name_and_hash() {
    let state = fresh_disconnected().join_by_name("");
    match state {
        NetplayState::Connecting(netplay) => match netplay.state {
            ConnectingState::InProgress(StartMethod::Join(start, room)) => {
                assert_eq!(room, "");
                assert_eq!(start.session_id, format!("_{}", HASH_HEX));
            }
            _ => panic!("expected an in-progress join attempt"),
        },
        _ => panic!("expected a connecting session"),
    }
}

#[test]
fn match_with_random_uses_the_hash_alone() {
    let state = fresh_disconnected().match_with_random();
    match state {
        NetplayState::Connecting(netplay) => match netplay.state {
            ConnectingState::InProgress(StartMethod::MatchWithRandom(start)) => {
                assert_eq!(start.session_id, HASH_HEX);
                assert!(start.input_mapping.is_none());
            }
            _ => panic!("expected an in-progress random match"),
        },
        _ => panic!("expected a connecting session"),
    }
}

#[test]
fn advance_on_disconnected_is_a_noop() {
    let state = NetplayState::Disconnected(fresh_disconnected());
    match state.advance(inputs(), idle_report()) {
        NetplayState::Disconnected(netplay) => {
            assert_eq!(netplay.netplay_id, "player-one");
        }
        _ => panic!("a disconnected session must stay disconnected"),
    }
}

#[test]
fn connection_failure_reports_the_reason_and_stays_failed() {
    let state = fresh_disconnected().join_by_name("room");
    let report = StepReport {
        attempt1: ConnectingEvent::Failed(String::from("no route to peer")),
        attempt2: ConnectingEvent::Pending,
        session: SyncOutcome::Fault,
    };
    let failed = match state.advance(inputs(), report) {
        NetplayState::Failed(netplay) => netplay,
        _ => panic!("a failed attempt must fail the session"),
    };
    assert_eq!(failed.state.reason, "no route to peer");
    match NetplayState::Failed(failed).advance(inputs(), idle_report()) {
        NetplayState::Failed(netplay) => {
            assert_eq!(netplay.state.reason, "no route to peer");
        }
        _ => panic!("a failed session must stay failed under advance"),
    }
}

#[test]
fn connecting_stays_connecting_while_pending() {
    let state = fresh_disconnected().join_by_name("room");
    match state.advance(inputs(), idle_report()) {
        NetplayState::Connecting(netplay) => {
            assert!(matches!(
                netplay.state,
                ConnectingState::InProgress(StartMethod::Join(..))
            ));
        }
        _ => panic!("a pending attempt must keep the session connecting"),
    }
}

#[test]
fn connecting_recovers_the_session_id_on_connection() {
    let netplay = connected(None, 1, 2);
    assert_eq!(netplay.state.session_id, format!("room_{}", HASH_HEX));
    assert_eq!(netplay.netplay_id, "player-one");
}

#[test]
fn connected_assigns_the_default_mapping() {
    let netplay = connected(None, 1, 2);
    match NetplayState::Connected(netplay).advance(inputs(), idle_report()) {
        NetplayState::Connected(netplay) => {
            assert_eq!(
                netplay.state.netplay_session.input_mapping,
                Some(InputMapping { ids: [0, 1] })
            );
            let window = &netplay.state.netplay_session.last_confirmed_game_states;
            assert_eq!(window.older.frame, 1);
            assert_eq!(window.newer.frame, 2);
        }
        _ => panic!("assigning the default mapping must keep the session connected"),
    }
}

#[test]
fn connected_rolls_the_window_forward_on_success() {
    let netplay = connected(Some(InputMapping { ids: [0, 1] }), 1, 2);
    let report = StepReport {
        attempt1: ConnectingEvent::Pending,
        attempt2: ConnectingEvent::Pending,
        session: SyncOutcome::Advanced(SnapshotWindow {
            older: GameState {
                frame: 2,
                data: vec![8],
            },
            newer: GameState {
                frame: 3,
                data: vec![9],
            },
        }),
    };
    match NetplayState::Connected(netplay).advance(inputs(), report) {
        NetplayState::Connected(netplay) => {
            let window = &netplay.state.netplay_session.last_confirmed_game_states;
            assert_eq!(window.older.frame, 2);
            assert_eq!(window.newer.frame, 3);
            assert_eq!(netplay.state.session_id, format!("room_{}", HASH_HEX));
        }
        _ => panic!("a successful step must keep the session connected"),
    }
}

#[test]
fn fault_enters_resuming_with_both_snapshots() {
    let netplay = resuming(10, 20);
    let start1 = start_state_of(&netplay.state.attempt1);
    let start2 = start_state_of(&netplay.state.attempt2);
    assert_eq!(start1.game_state.frame, 20);
    assert_eq!(start2.game_state.frame, 10);
    assert_eq!(start1.session_id, format!("room_{}", HASH_HEX));
    assert_eq!(start2.session_id, start1.session_id);
    assert_eq!(start1.input_mapping, Some(InputMapping { ids: [0, 1] }));
    assert_eq!(start2.input_mapping, start1.input_mapping);
}

#[test]
fn resuming_stays_resuming_while_both_pending() {
    let netplay = resuming(10, 20);
    match NetplayState::Resuming(netplay).advance(inputs(), idle_report()) {
        NetplayState::Resuming(netplay) => {
            assert_eq!(start_state_of(&netplay.state.attempt1).game_state.frame, 20);
            assert_eq!(start_state_of(&netplay.state.attempt2).game_state.frame, 10);
        }
        _ => panic!("two pending attempts must keep the session resuming"),
    }
}

#[test]
fn resuming_fallback_wins_when_it_connects_alone() {
    let netplay = resuming(10, 20);
    let report = StepReport {
        attempt1: ConnectingEvent::Pending,
        attempt2: ConnectingEvent::Connected(session(Some(InputMapping { ids: [0, 1] }), 9, 10)),
        session: SyncOutcome::Fault,
    };
    match NetplayState::Resuming(netplay).advance(inputs(), report) {
        NetplayState::Connecting(netplay) => match netplay.state {
            ConnectingState::Connected(attempt) => {
                // The carried attempt is the fallback one, seeded from the
                // older snapshot.
                assert_eq!(
                    attempt
                        .state
                        .last_confirmed_game_states
                        .newer
                        .frame,
                    10
                );
                match attempt.start_method {
                    StartMethod::Resume(start) => assert_eq!(start.game_state.frame, 10),
                    _ => panic!("a resume attempt must carry a resume start method"),
                }
            }
            _ => panic!("the carried attempt must be connected"),
        },
        _ => panic!("a connected fallback attempt must re-enter connecting"),
    }
}

#[test]
fn resuming_tie_prefers_the_newest_snapshot() {
    let netplay = resuming(10, 20);
    let report = StepReport {
        attempt1: ConnectingEvent::Connected(session(Some(InputMapping { ids: [0, 1] }), 19, 20)),
        attempt2: ConnectingEvent::Connected(session(Some(InputMapping { ids: [0, 1] }), 9, 10)),
        session: SyncOutcome::Fault,
    };
    match NetplayState::Resuming(netplay).advance(inputs(), report) {
        NetplayState::Connecting(netplay) => match netplay.state {
            ConnectingState::Connected(attempt) => {
                assert_eq!(
                    attempt
                        .state
                        .last_confirmed_game_states
                        .newer
                        .frame,
                    20
                );
                match attempt.start_method {
                    StartMethod::Resume(start) => assert_eq!(start.game_state.frame, 20),
                    _ => panic!("a resume attempt must carry a resume start method"),
                }
            }
            _ => panic!("the carried attempt must be connected"),
        },
        _ => panic!("two connected attempts must re-enter connecting"),
    }
}

#[test]
fn cancel_from_connecting_returns_to_disconnected() {
    let state = fresh_disconnected().join_by_name("room");
    match state {
        NetplayState::Connecting(netplay) => {
            let idle = netplay.cancel();
            assert_eq!(idle.netplay_id, "player-one");
            assert_eq!(idle.rom_hash, hash());
        }
        _ => panic!("expected a connecting session"),
    }
}

#[test]
fn cancel_from_resuming_returns_to_disconnected() {
    let netplay = resuming(10, 20);
    let idle = netplay.cancel();
    assert_eq!(idle.netplay_id, "player-one");
    assert_eq!(idle.rom_hash, hash());
}

#[test]
fn failed_resume_returns_to_disconnected_and_drops_the_reason() {
    let state = fresh_disconnected().join_by_name("room");
    let report = StepReport {
        attempt1: ConnectingEvent::Failed(String::from("timed out")),
        attempt2: ConnectingEvent::Pending,
        session: SyncOutcome::Fault,
    };
    match state.advance(inputs(), report) {
        NetplayState::Failed(netplay) => {
            let idle = netplay.resume();
            assert_eq!(idle.netplay_id, "player-one");
        }
        _ => panic!("a failed attempt must fail the session"),
    }
}

#[test]
fn disconnect_then_join_keeps_the_context() {
    let netplay = connected(None, 1, 2);
    let original_id = netplay.netplay_id.clone();
    let idle = netplay.disconnect();
    assert_eq!(idle.netplay_id, original_id);
    match idle.join_by_name("second-room") {
        NetplayState::Connecting(netplay) => {
            assert_eq!(netplay.netplay_id, original_id);
            assert_eq!(netplay.rom_hash, hash());
            assert_eq!(netplay.initial_game_state, initial_state());
            assert_eq!(netplay.config.server_url, "https://netplay.example");
            match netplay.state {
                ConnectingState::InProgress(StartMethod::Join(start, _)) => {
                    assert_eq!(start.session_id, format!("second-room_{}", HASH_HEX));
                }
                _ => panic!("expected an in-progress join attempt"),
            }
        }
        _ => panic!("expected a connecting session"),
    }
}
