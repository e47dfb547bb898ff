use ncspot_controller::decode::decode_line;
use ncspot_controller::hook::{
    console_line, hook_delay_ms, hook_env, invocation_for_event, stopped_invocation,
};
use ncspot_controller::monitor::{initial_state, step, LoopAction, LoopEvent, LoopState};

#[test]
fn machine_starts_waiting() {
    let (state, actions) = initial_state();
    assert_eq!(state, LoopState::AwaitingSocket);
    assert_eq!(actions, vec![LoopAction::WaitForSocket]);
}

#[test]
fn machine_connects_when_socket_appears() {
    let (state, actions) = step(&LoopState::AwaitingSocket, &LoopEvent::SocketReady);
    assert_eq!(state, LoopState::Connecting);
    assert_eq!(actions, vec![LoopAction::Connect]);

    let (state, actions) = step(&LoopState::Connecting, &LoopEvent::Connected);
    assert_eq!(state, LoopState::Reading);
    assert_eq!(actions, vec![LoopAction::ReadLine]);
}

#[test]
fn machine_retries_after_refused_connection_without_stopped() {
    let (state, actions) = step(&LoopState::Connecting, &LoopEvent::ConnectFailed);
    assert_eq!(state, LoopState::AwaitingSocket);
    assert_eq!(actions, vec![LoopAction::WaitForSocket]);
    assert!(actions.iter().all(|a| !matches!(a, LoopAction::Emit(_))));
}

#[test]
fn malformed_line_keeps_reading_and_next_valid_line_dispatches() {
    let (state, actions) = step(
        &LoopState::Reading,
        &LoopEvent::LineReceived("{oops".to_string()),
    );
    assert_eq!(state, LoopState::Reading);
    assert_eq!(actions, vec![LoopAction::ReadLine]);

    let (state, actions) = step(
        &LoopState::Reading,
        &LoopEvent::LineReceived(r#"{"mode":"Stopped","playable":null}"#.to_string()),
    );
    assert_eq!(state, LoopState::Reading);
    assert_eq!(actions.len(), 2);
    match &actions[0] {
        LoopAction::Emit(inv) => assert_eq!(console_line(inv), "stopped|||"),
        other => panic!("expected a dispatch first, got {:?}", other),
    }
    assert_eq!(actions[1], LoopAction::ReadLine);
}

#[test]
fn connection_loss_emits_exactly_one_stopped_before_waiting() {
    let (state, actions) = step(&LoopState::Reading, &LoopEvent::ConnectionLost);
    assert_eq!(state, LoopState::AwaitingSocket);
    assert_eq!(actions.len(), 2);
    match &actions[0] {
        LoopAction::Emit(inv) => {
            assert_eq!(inv.state, "stopped");
            assert_eq!(inv.artist, "");
            assert_eq!(inv.title, "");
            assert_eq!(inv.album, "");
            assert_eq!(console_line(inv), "stopped|||");
        },
        other => panic!("expected the stopped dispatch first, got {:?}", other),
    }
    assert_eq!(actions[1], LoopAction::WaitForSocket);
    let emits = actions
        .iter()
        .filter(|a| matches!(a, LoopAction::Emit(_)))
        .count();
    assert_eq!(emits, 1);
}

#[test]
fn only_playing_hooks_are_delayed() {
    let playing = decode_line(
        r#"{"mode":{"Playing":{"secs_since_epoch":1,"nanos_since_epoch":0}},"playable":null}"#,
    )
    .unwrap();
    let finished = decode_line(r#"{"mode":"FinishedTrack","playable":null}"#).unwrap();
    let paused = decode_line(r#"{"mode":{"Paused":{"secs":1,"nanos":0}},"playable":null}"#).unwrap();

    assert_eq!(hook_delay_ms(&invocation_for_event(&playing)), 500);
    assert_eq!(hook_delay_ms(&invocation_for_event(&finished)), 0);
    assert_eq!(hook_delay_ms(&invocation_for_event(&paused)), 0);
    assert_eq!(hook_delay_ms(&stopped_invocation()), 0);
}

#[test]
fn console_line_is_ready_before_any_hook_delay_applies() {
    // The console line is a pure function of the invocation, computed without
    // consulting the delay; a finished event immediately followed by a
    // playing event yields both lines at once while only the playing hook
    // waits.
    let finished = decode_line(r#"{"mode":"FinishedTrack","playable":null}"#).unwrap();
    let playing = decode_line(
        r#"{"mode":{"Playing":{"secs_since_epoch":1,"nanos_since_epoch":0}},"playable":null}"#,
    )
    .unwrap();
    let f_inv = invocation_for_event(&finished);
    let p_inv = invocation_for_event(&playing);
    assert_eq!(console_line(&f_inv), "finished|||");
    assert_eq!(console_line(&p_inv), "playing|||");
    assert_eq!(hook_delay_ms(&f_inv), 0);
    assert_eq!(hook_delay_ms(&p_inv), 500);
}

#[test]
fn hook_environment_names_and_values() {
    let event = decode_line(
        r#"{"mode":{"Paused":{"secs":9,"nanos":0}},"playable":{"title":"T","album":"L","artists":["A","B"]}}"#,
    )
    .unwrap();
    let inv = invocation_for_event(&event);
    let env = hook_env(&inv);
    assert_eq!(env.len(), 4);
    assert_eq!(env[0], ("NCSPOT_STATE".to_string(), "paused".to_string()));
    assert_eq!(env[1], ("NCSPOT_ARTIST".to_string(), "A, B".to_string()));
    assert_eq!(env[2], ("NCSPOT_TITLE".to_string(), "T".to_string()));
    assert_eq!(env[3], ("NCSPOT_ALBUM".to_string(), "L".to_string()));
}

#[test]
fn events_out_of_place_are_ignored() {
    let (state, actions) = step(&LoopState::AwaitingSocket, &LoopEvent::ConnectionLost);
    assert_eq!(state, LoopState::AwaitingSocket);
    assert!(actions.is_empty());
    let (state, actions) = step(
        &LoopState::Connecting,
        &LoopEvent::LineReceived("{}".to_string()),
    );
    assert_eq!(state, LoopState::Connecting);
    assert!(actions.is_empty());
}

#[test]
fn empty_artist_list_joins_to_empty_field() {
    let event = decode_line(
        r#"{"mode":{"Paused":{"secs":0,"nanos":0}},"playable":{"title":"T","album":"L","artists":[]}}"#,
    )
    .unwrap();
    let inv = invocation_for_event(&event);
    assert_eq!(console_line(&inv), "paused||T|L");
}
