use racetime::bot::HandleErrorContext;
use racetime::connection::{
    Callback, FailureKind, HandleAction, HandleEvent, HandleFailure, HandlePhase, HandleState,
    IoErrorKind, MessageKind, ReadOutcome, ReconnectReason, SendOutcome, callback_context,
    is_restart_close_reason, react_to_read,
};

/// Feeds the events in turn, checking each is accepted, and returns the actions asked for.
fn drive(mut state: HandleState, events: Vec<HandleEvent>) -> (HandleState, Vec<HandleAction>) {
    let mut actions = Vec::new();
    for event in events {
        assert!(state.accepts(&event), "event {event:?} not accepted in {state:?}");
        let (next, action) = state.step(event);
        state = next;
        actions.push(action);
    }
    (state, actions)
}

fn reading(waiting: bool) -> HandleState {
    HandleState { waiting_for_probe_response: waiting, phase: HandlePhase::Reading }
}

fn started() -> HandleState {
    let (state, action) = HandleState::start();
    assert_eq!(action, HandleAction::Invoke(Callback::New));
    assert_eq!(state.phase, HandlePhase::Starting);
    let (state, action) = state.step(HandleEvent::CallbackDone);
    assert_eq!(action, HandleAction::Read);
    state
}

#[test]
fn server_keepalives_do_not_trigger_liveness_probes() {
    // The server pings every half timeout: each ping is answered, should_stop is
    // asked, and reading resumes; no probe is ever sent. Then finished race data
    // arrives and the handler ends.
    let mut events = Vec::new();
    for _ in 0..3 {
        events.push(HandleEvent::Read(ReadOutcome::Ping));
        events.push(HandleEvent::Sent(SendOutcome::Sent));
        events.push(HandleEvent::ShouldStop(false));
    }
    events.push(HandleEvent::Read(ReadOutcome::Text(Some(MessageKind::RaceData))));
    events.push(HandleEvent::RaceDataStored);
    events.push(HandleEvent::ShouldStop(true));
    events.push(HandleEvent::CallbackDone);
    let (state, actions) = drive(started(), events);
    assert!(!actions.contains(&HandleAction::SendProbe));
    assert_eq!(&actions[0..3], &[
        HandleAction::SendPong,
        HandleAction::Invoke(Callback::ShouldStop),
        HandleAction::Read,
    ]);
    assert_eq!(&actions[9..], &[
        HandleAction::StoreRaceData,
        HandleAction::Invoke(Callback::ShouldStop),
        HandleAction::Invoke(Callback::End),
        HandleAction::Finish(Ok(())),
    ]);
    assert_eq!(state.phase, HandlePhase::Finished);
}

#[test]
fn silent_connection_reconnects_until_fresh_race_data_arrives() {
    // A silent read leads to one probe; a second silent read, with the probe
    // unanswered, leads to a reconnect; after it, fresh finished race data ends
    // the handler.
    let events = vec![
        HandleEvent::Read(ReadOutcome::TimedOut),
        HandleEvent::ShouldStop(false),
        HandleEvent::Sent(SendOutcome::Sent),
        HandleEvent::Read(ReadOutcome::TimedOut),
        HandleEvent::ShouldStop(false),
        HandleEvent::Reconnected,
        HandleEvent::Read(ReadOutcome::Text(Some(MessageKind::RaceData))),
        HandleEvent::RaceDataStored,
        HandleEvent::ShouldStop(true),
        HandleEvent::CallbackDone,
    ];
    let (state, actions) = drive(started(), events);
    assert_eq!(actions, vec![
        HandleAction::Invoke(Callback::ShouldStop),
        HandleAction::SendProbe,
        HandleAction::Read,
        HandleAction::Invoke(Callback::ShouldStop),
        HandleAction::Reconnect(ReconnectReason::NoProbeResponse),
        HandleAction::Read,
        HandleAction::StoreRaceData,
        HandleAction::Invoke(Callback::ShouldStop),
        HandleAction::Invoke(Callback::End),
        HandleAction::Finish(Ok(())),
    ]);
    assert_eq!(state.phase, HandlePhase::Finished);
}

#[test]
fn probe_flag_set_after_probe_and_cleared_by_any_frame() {
    let (state, _) = drive(started(), vec![
        HandleEvent::Read(ReadOutcome::TimedOut),
        HandleEvent::ShouldStop(false),
        HandleEvent::Sent(SendOutcome::Sent),
    ]);
    assert!(state.waiting_for_probe_response);
    for outcome in [ReadOutcome::Pong, ReadOutcome::Ping, ReadOutcome::Text(Some(MessageKind::ChatMessage))] {
        let (next, _) = react_to_read(true, outcome);
        assert!(!next.waiting_for_probe_response);
    }
    let (next, action) = state.step(HandleEvent::Read(ReadOutcome::Pong));
    assert_eq!(next, reading(false));
    assert_eq!(action, HandleAction::Read);
}

#[test]
fn race_data_is_stored_before_should_stop_and_callback() {
    let (state, actions) = drive(reading(false), vec![
        HandleEvent::Read(ReadOutcome::Text(Some(MessageKind::RaceData))),
        HandleEvent::RaceDataStored,
        HandleEvent::ShouldStop(false),
        HandleEvent::CallbackDone,
        HandleEvent::ShouldStop(false),
    ]);
    assert_eq!(actions, vec![
        HandleAction::StoreRaceData,
        HandleAction::Invoke(Callback::ShouldStop),
        HandleAction::Invoke(Callback::Message(MessageKind::RaceData)),
        HandleAction::Invoke(Callback::ShouldStop),
        HandleAction::Read,
    ]);
    assert_eq!(state, reading(false));
}

#[test]
fn message_callback_failure_names_its_context() {
    let (_, actions) = drive(reading(false), vec![
        HandleEvent::Read(ReadOutcome::Text(Some(MessageKind::Error))),
        HandleEvent::CallbackFailed,
    ]);
    assert_eq!(actions[0], HandleAction::Invoke(Callback::Message(MessageKind::Error)));
    assert_eq!(actions[1], HandleAction::Finish(Err(HandleFailure {
        ctx: HandleErrorContext::ServerError,
        kind: FailureKind::Handler,
    })));
    assert_eq!(callback_context(MessageKind::ChatPurge), HandleErrorContext::ChatPurge);
    assert_eq!(callback_context(MessageKind::Pong), HandleErrorContext::Pong);
}

#[test]
fn undecodable_text_fails_in_decode_context() {
    let (state, action) = reading(true).step(HandleEvent::Read(ReadOutcome::Text(None)));
    assert_eq!(action, HandleAction::Finish(Err(HandleFailure {
        ctx: HandleErrorContext::Decode,
        kind: FailureKind::Decode,
    })));
    assert_eq!(state.phase, HandlePhase::Finished);
}

#[test]
fn restart_close_reasons_reconnect_others_fail() {
    assert!(is_restart_close_reason("CloudFlare WebSocket proxy restarting"));
    assert!(is_restart_close_reason("keepalive ping timeout"));
    assert!(!is_restart_close_reason("keepalive ping timeout "));
    let (_, action) = reading(false).step(HandleEvent::Read(ReadOutcome::Close(Some(
        "keepalive ping timeout".to_string(),
    ))));
    assert_eq!(action, HandleAction::Reconnect(ReconnectReason::ClosedByServer));
    let (_, action) = reading(false).step(HandleEvent::Read(ReadOutcome::Close(Some("bye".to_string()))));
    assert_eq!(action, HandleAction::Finish(Err(HandleFailure {
        ctx: HandleErrorContext::Recv,
        kind: FailureKind::UnexpectedMessageType,
    })));
    let (_, action) = reading(false).step(HandleEvent::Read(ReadOutcome::Close(None)));
    assert_eq!(action, HandleAction::Finish(Err(HandleFailure {
        ctx: HandleErrorContext::Recv,
        kind: FailureKind::UnexpectedMessageType,
    })));
}

#[test]
fn read_errors_reconnect_or_fail() {
    for kind in [IoErrorKind::ConnectionReset, IoErrorKind::UnexpectedEof] {
        let (state, action) = reading(true).step(HandleEvent::Read(ReadOutcome::Io(kind)));
        assert_eq!(action, HandleAction::Reconnect(ReconnectReason::UnexpectedEndOfFile));
        assert_eq!(state.phase, HandlePhase::Reconnecting);
        let (state, action) = state.step(HandleEvent::Reconnected);
        assert_eq!((state, action), (reading(false), HandleAction::Read));
    }
    let (_, action) = reading(false).step(HandleEvent::Read(ReadOutcome::ResetWithoutClosingHandshake));
    assert_eq!(action, HandleAction::Reconnect(ReconnectReason::ResetWithoutClosingHandshake));
    let recv_error = HandleAction::Finish(Err(HandleFailure {
        ctx: HandleErrorContext::Recv,
        kind: FailureKind::ReadError,
    }));
    let (_, action) = reading(false).step(HandleEvent::Read(ReadOutcome::Io(IoErrorKind::Other)));
    assert_eq!(action, recv_error);
    let (_, action) = reading(false).step(HandleEvent::Read(ReadOutcome::OtherError));
    assert_eq!(action, recv_error);
    let (_, action) = reading(false).step(HandleEvent::Read(ReadOutcome::EndOfStream));
    assert_eq!(action, HandleAction::Finish(Err(HandleFailure {
        ctx: HandleErrorContext::Recv,
        kind: FailureKind::EndOfStream,
    })));
    let (_, action) = reading(false).step(HandleEvent::Read(ReadOutcome::OtherFrame));
    assert_eq!(action, HandleAction::Finish(Err(HandleFailure {
        ctx: HandleErrorContext::Recv,
        kind: FailureKind::UnexpectedMessageType,
    })));
}

#[test]
fn failed_reconnect_and_pong_errors() {
    let (_, actions) = drive(reading(false), vec![
        HandleEvent::Read(ReadOutcome::ResetWithoutClosingHandshake),
        HandleEvent::ReconnectFailed,
    ]);
    assert_eq!(actions[1], HandleAction::Finish(Err(HandleFailure {
        ctx: HandleErrorContext::Reconnect,
        kind: FailureKind::Reconnect,
    })));
    let (_, actions) = drive(reading(false), vec![
        HandleEvent::Read(ReadOutcome::Ping),
        HandleEvent::Sent(SendOutcome::TimedOut),
    ]);
    assert_eq!(actions[1], HandleAction::Finish(Err(HandleFailure {
        ctx: HandleErrorContext::Ping,
        kind: FailureKind::SendTimedOut,
    })));
    let (_, actions) = drive(reading(false), vec![
        HandleEvent::Read(ReadOutcome::Ping),
        HandleEvent::Sent(SendOutcome::Failed("broken pipe".to_string())),
    ]);
    assert_eq!(actions[1], HandleAction::Finish(Err(HandleFailure {
        ctx: HandleErrorContext::Ping,
        kind: FailureKind::SendFailed,
    })));
}

#[test]
fn failed_probe_reconnects_with_reason() {
    let (_, actions) = drive(reading(false), vec![
        HandleEvent::Read(ReadOutcome::TimedOut),
        HandleEvent::ShouldStop(false),
        HandleEvent::Sent(SendOutcome::Failed("broken pipe".to_string())),
    ]);
    assert_eq!(actions[2], HandleAction::Reconnect(ReconnectReason::ProbeSendFailed("broken pipe".to_string())));
    let (_, actions) = drive(reading(false), vec![
        HandleEvent::Read(ReadOutcome::TimedOut),
        HandleEvent::ShouldStop(false),
        HandleEvent::Sent(SendOutcome::TimedOut),
    ]);
    assert_eq!(actions[2], HandleAction::Reconnect(ReconnectReason::ProbeSendTimedOut));
}

#[test]
fn silent_read_ends_when_handler_stops() {
    let (_, actions) = drive(reading(true), vec![
        HandleEvent::Read(ReadOutcome::TimedOut),
        HandleEvent::ShouldStop(true),
        HandleEvent::CallbackFailed,
    ]);
    assert_eq!(actions[1], HandleAction::Invoke(Callback::End));
    assert_eq!(actions[2], HandleAction::Finish(Err(HandleFailure {
        ctx: HandleErrorContext::End,
        kind: FailureKind::Handler,
    })));
    let (_, actions) = drive(reading(false), vec![
        HandleEvent::Read(ReadOutcome::TimedOut),
        HandleEvent::CallbackFailed,
    ]);
    assert_eq!(actions[1], HandleAction::Finish(Err(HandleFailure {
        ctx: HandleErrorContext::ShouldStop,
        kind: FailureKind::Handler,
    })));
}

#[test]
fn constructor_failure_and_finished_state() {
    let (state, _) = HandleState::start();
    let (state, action) = state.step(HandleEvent::CallbackFailed);
    assert_eq!(action, HandleAction::Finish(Err(HandleFailure {
        ctx: HandleErrorContext::New,
        kind: FailureKind::Handler,
    })));
    assert!(!state.accepts(&HandleEvent::CallbackDone));
    assert!(!state.accepts(&HandleEvent::Read(ReadOutcome::Ping)));
    assert!(!reading(false).accepts(&HandleEvent::CallbackDone));
}
