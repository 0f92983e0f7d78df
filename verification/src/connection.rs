//! How a race room connection reacts to what the server sends and to the
//! handler's answers.
//!
//! The connection is driven step by step: the driver performs the action that
//! the last step asked for and reports what came of it as the next event. The
//! driver holds the payloads (the decoded message, the error values); the steps
//! decide what happens to them.
use vstd::prelude::*;
use vstd::string::*;

use crate::bot::HandleErrorContext;
use crate::text::str_eq;

verus! {

/// The kinds of message the server sends in a race room.
#[derive(Debug, Clone, Copy, PartialEq, Eq, Structural)]
pub enum MessageKind {
    ChatHistory,
    ChatMessage,
    ChatPin,
    ChatUnpin,
    ChatDelete,
    ChatPurge,
    Error,
    Pong,
    RaceData,
    RaceRenders,
    RaceSplit,
}

/// The error context of the handler callback for a message kind.
pub open spec fn message_context(kind: MessageKind) -> HandleErrorContext {
    match kind {
        MessageKind::ChatHistory => HandleErrorContext::ChatHistory,
        MessageKind::ChatMessage => HandleErrorContext::ChatMessage,
        MessageKind::ChatPin => HandleErrorContext::ChatPin,
        MessageKind::ChatUnpin => HandleErrorContext::ChatUnpin,
        MessageKind::ChatDelete => HandleErrorContext::ChatDelete,
        MessageKind::ChatPurge => HandleErrorContext::ChatPurge,
        MessageKind::Error => HandleErrorContext::ServerError,
        MessageKind::Pong => HandleErrorContext::Pong,
        MessageKind::RaceData => HandleErrorContext::RaceData,
        MessageKind::RaceRenders => HandleErrorContext::RaceRenders,
        MessageKind::RaceSplit => HandleErrorContext::RaceSplit,
    }
}

/// The error context of the handler callback for a message kind.
pub fn callback_context(kind: MessageKind) -> (r: HandleErrorContext)
    ensures
        r == message_context(kind),
{
    match kind {
        MessageKind::ChatHistory => HandleErrorContext::ChatHistory,
        MessageKind::ChatMessage => HandleErrorContext::ChatMessage,
        MessageKind::ChatPin => HandleErrorContext::ChatPin,
        MessageKind::ChatUnpin => HandleErrorContext::ChatUnpin,
        MessageKind::ChatDelete => HandleErrorContext::ChatDelete,
        MessageKind::ChatPurge => HandleErrorContext::ChatPurge,
        MessageKind::Error => HandleErrorContext::ServerError,
        MessageKind::Pong => HandleErrorContext::Pong,
        MessageKind::RaceData => HandleErrorContext::RaceData,
        MessageKind::RaceRenders => HandleErrorContext::RaceRenders,
        MessageKind::RaceSplit => HandleErrorContext::RaceSplit,
    }
}

/// The kinds of I/O error that a read can end with.
#[derive(Debug, Clone, Copy, PartialEq, Eq, Structural)]
pub enum IoErrorKind {
    ConnectionReset,
    UnexpectedEof,
    Other,
}

/// What a read from the websocket came back with.
#[derive(Debug, PartialEq, Eq)]
pub enum ReadOutcome {
    /// A text frame, with the kind of the message it held, or `None` where it
    /// could not be decoded.
    Text(Option<MessageKind>),
    /// A ping frame from the server.
    Ping,
    /// A pong frame from the server.
    Pong,
    /// A close frame, with the reason it gave, or `None` where it held no frame.
    Close(Option<String>),
    /// A binary or raw frame.
    OtherFrame,
    /// An I/O error of the given kind.
    Io(IoErrorKind),
    /// The server reset the connection without a closing handshake.
    ResetWithoutClosingHandshake,
    /// Any other websocket error.
    OtherError,
    /// The stream ended.
    EndOfStream,
    /// Nothing arrived within the network timeout.
    TimedOut,
}

/// What sending a frame (a pong or a liveness probe) came to.
#[derive(Debug, PartialEq, Eq)]
pub enum SendOutcome {
    Sent,
    /// The send failed, with the error's description.
    Failed(String),
    TimedOut,
}

/// What the driver reports after performing an action.
#[derive(Debug, PartialEq, Eq)]
pub enum HandleEvent {
    /// The outcome of a read.
    Read(ReadOutcome),
    /// A handler callback (the constructor, a message callback or `end`) returned successfully.
    CallbackDone,
    /// A handler callback returned an error.
    CallbackFailed,
    /// The `should_stop` callback answered.
    ShouldStop(bool),
    /// The received race data now stands in the room's data.
    RaceDataStored,
    /// The outcome of sending a pong or a probe.
    Sent(SendOutcome),
    /// A new connection replaced the old one.
    Reconnected,
    /// Reconnecting failed.
    ReconnectFailed,
}

/// The handler callbacks the connection invokes.
#[derive(Debug, Clone, Copy, PartialEq, Eq, Structural)]
pub enum Callback {
    /// The handler's constructor.
    New,
    /// The callback for a received message.
    Message(MessageKind),
    ShouldStop,
    End,
}

/// Why the connection reconnects.
#[derive(Debug, PartialEq, Eq)]
pub enum ReconnectReason {
    ClosedByServer,
    UnexpectedEndOfFile,
    ResetWithoutClosingHandshake,
    NoProbeResponse,
    /// Sending the probe failed, with the error's description.
    ProbeSendFailed(String),
    ProbeSendTimedOut,
}

/// The words with which a reconnect is announced.
pub open spec fn reconnect_reason_text(reason: ReconnectReason) -> Seq<char> {
    match reason {
        ReconnectReason::ClosedByServer => "WebSocket connection closed by server"@,
        ReconnectReason::UnexpectedEndOfFile => "unexpected end of file while waiting for message from server"@,
        ReconnectReason::ResetWithoutClosingHandshake => "connection reset without closing handshake while waiting for message from server"@,
        ReconnectReason::NoProbeResponse => "no response to WebSocket liveness probe"@,
        ReconnectReason::ProbeSendFailed(e) => "failed to send WebSocket liveness probe: "@ + e@,
        ReconnectReason::ProbeSendTimedOut => "timed out sending WebSocket liveness probe"@,
    }
}

impl ReconnectReason {
    /// The words with which a reconnect for this reason is announced.
    pub fn description(&self) -> (r: String)
        ensures
            r@ == reconnect_reason_text(*self),
    {
        match self {
            ReconnectReason::ClosedByServer => String::from_str("WebSocket connection closed by server"),
            ReconnectReason::UnexpectedEndOfFile => String::from_str(
                "unexpected end of file while waiting for message from server",
            ),
            ReconnectReason::ResetWithoutClosingHandshake => String::from_str(
                "connection reset without closing handshake while waiting for message from server",
            ),
            ReconnectReason::NoProbeResponse => String::from_str("no response to WebSocket liveness probe"),
            ReconnectReason::ProbeSendFailed(e) => String::from_str(
                "failed to send WebSocket liveness probe: ",
            ).concat(e.as_str()),
            ReconnectReason::ProbeSendTimedOut => String::from_str(
                "timed out sending WebSocket liveness probe",
            ),
        }
    }
}

/// What kind of failure ended the handling of a room.
#[derive(Debug, Clone, Copy, PartialEq, Eq, Structural)]
pub enum FailureKind {
    /// A handler callback returned an error.
    Handler,
    /// A server message could not be decoded.
    Decode,
    /// Sending timed out.
    SendTimedOut,
    /// Sending failed.
    SendFailed,
    /// Reconnecting failed.
    Reconnect,
    /// The server sent a frame of an unexpected type.
    UnexpectedMessageType,
    /// Reading failed.
    ReadError,
    /// The server closed the stream.
    EndOfStream,
}

/// Why the handling of a room failed.
#[derive(Debug, Clone, Copy, PartialEq, Eq, Structural)]
pub struct HandleFailure {
    pub ctx: HandleErrorContext,
    pub kind: FailureKind,
}

/// What the driver is asked to do next.
#[derive(Debug, PartialEq, Eq)]
pub enum HandleAction {
    /// Read the next frame, within the network timeout.
    Read,
    /// Put the received race data in place of the room's data.
    StoreRaceData,
    /// Invoke a handler callback.
    Invoke(Callback),
    /// Answer the server's ping with a pong carrying its payload.
    SendPong,
    /// Send a liveness probe (a ping).
    SendProbe,
    /// Open a new connection in place of the current one.
    Reconnect(ReconnectReason),
    /// Stop handling the room, with this result.
    Finish(Result<(), HandleFailure>),
}

/// What the connection should do after the `should_stop` callback said to go on.
#[derive(Debug, Clone, Copy, PartialEq, Eq, Structural)]
pub enum AfterStopCheck {
    /// Read the next frame.
    Read,
    /// Call the `race_data` callback for the race data just stored.
    RaceDataCallback,
    /// Decide on a liveness probe after a silent read.
    Probe,
}

/// What the connection is waiting for.
#[derive(Debug, Clone, Copy, PartialEq, Eq, Structural)]
pub enum HandlePhase {
    /// The handler is being constructed.
    Starting,
    /// A read is under way.
    Reading,
    /// Received race data is being stored.
    StoringRaceData,
    /// A message callback is running.
    Dispatching(MessageKind),
    /// The `should_stop` callback is running.
    CheckingStop(AfterStopCheck),
    /// The `end` callback is running.
    Ending,
    /// A pong is being sent.
    AnsweringPing,
    /// A liveness probe is being sent.
    Probing,
    /// A new connection is being opened.
    Reconnecting,
    /// Handling has ended.
    Finished,
}

/// The state of a race room connection.
#[derive(Debug, Clone, Copy, PartialEq, Eq, Structural)]
pub struct HandleState {
    /// A liveness probe was sent and nothing has been received since.
    pub waiting_for_probe_response: bool,
    pub phase: HandlePhase,
}

/// The reasons given in close frames after which the connection is reopened.
pub open spec fn is_restart_reason(reason: Seq<char>) -> bool {
    reason == "CloudFlare WebSocket proxy restarting"@ || reason == "keepalive ping timeout"@
}

/// Whether `event` answers what the connection in `state` is waiting for.
pub open spec fn accepts(state: HandleState, event: HandleEvent) -> bool {
    match state.phase {
        HandlePhase::Starting | HandlePhase::Dispatching(_) | HandlePhase::Ending => (event
            is CallbackDone) || (event is CallbackFailed),
        HandlePhase::Reading => event is Read,
        HandlePhase::StoringRaceData => event is RaceDataStored,
        HandlePhase::CheckingStop(_) => (event is ShouldStop) || (event is CallbackFailed),
        HandlePhase::AnsweringPing | HandlePhase::Probing => event is Sent,
        HandlePhase::Reconnecting => (event is Reconnected) || (event is ReconnectFailed),
        HandlePhase::Finished => false,
    }
}

/// A state in the given phase with the given probe flag.
pub open spec fn in_phase(waiting: bool, phase: HandlePhase) -> HandleState {
    HandleState { waiting_for_probe_response: waiting, phase }
}

/// The end of handling with a failure.
pub open spec fn failure(ctx: HandleErrorContext, kind: FailureKind) -> HandleAction {
    HandleAction::Finish(Err(HandleFailure { ctx, kind }))
}

/// How the connection reacts to a read outcome, given the probe flag.
pub open spec fn read_step(waiting: bool, outcome: ReadOutcome) -> (HandleState, HandleAction) {
    match outcome {
        ReadOutcome::Text(None) => (
            in_phase(false, HandlePhase::Finished),
            failure(HandleErrorContext::Decode, FailureKind::Decode),
        ),
        ReadOutcome::Text(Some(kind)) => if kind is RaceData {
            (in_phase(false, HandlePhase::StoringRaceData), HandleAction::StoreRaceData)
        } else {
            (
                in_phase(false, HandlePhase::Dispatching(kind)),
                HandleAction::Invoke(Callback::Message(kind)),
            )
        },
        ReadOutcome::Ping => (in_phase(false, HandlePhase::AnsweringPing), HandleAction::SendPong),
        ReadOutcome::Pong => (in_phase(false, HandlePhase::Reading), HandleAction::Read),
        ReadOutcome::Close(reason) => if reason matches Some(r) && is_restart_reason(r@) {
            (
                in_phase(waiting, HandlePhase::Reconnecting),
                HandleAction::Reconnect(ReconnectReason::ClosedByServer),
            )
        } else {
            (
                in_phase(waiting, HandlePhase::Finished),
                failure(HandleErrorContext::Recv, FailureKind::UnexpectedMessageType),
            )
        },
        ReadOutcome::OtherFrame => (
            in_phase(waiting, HandlePhase::Finished),
            failure(HandleErrorContext::Recv, FailureKind::UnexpectedMessageType),
        ),
        ReadOutcome::Io(kind) => if kind is Other {
            (
                in_phase(waiting, HandlePhase::Finished),
                failure(HandleErrorContext::Recv, FailureKind::ReadError),
            )
        } else {
            (
                in_phase(waiting, HandlePhase::Reconnecting),
                HandleAction::Reconnect(ReconnectReason::UnexpectedEndOfFile),
            )
        },
        ReadOutcome::ResetWithoutClosingHandshake => (
            in_phase(waiting, HandlePhase::Reconnecting),
            HandleAction::Reconnect(ReconnectReason::ResetWithoutClosingHandshake),
        ),
        ReadOutcome::OtherError => (
            in_phase(waiting, HandlePhase::Finished),
            failure(HandleErrorContext::Recv, FailureKind::ReadError),
        ),
        ReadOutcome::EndOfStream => (
            in_phase(waiting, HandlePhase::Finished),
            failure(HandleErrorContext::Recv, FailureKind::EndOfStream),
        ),
        ReadOutcome::TimedOut => (
            in_phase(waiting, HandlePhase::CheckingStop(AfterStopCheck::Probe)),
            HandleAction::Invoke(Callback::ShouldStop),
        ),
    }
}

/// One step of a race room connection: the state it moves to and the action it
/// asks for, when `event` arrives in `state`. An event that the state does not
/// accept leaves it unchanged.
pub open spec fn handle_step(state: HandleState, event: HandleEvent) -> (HandleState, HandleAction) {
    let waiting = state.waiting_for_probe_response;
    let ask_stop = |after: AfterStopCheck|
        (in_phase(waiting, HandlePhase::CheckingStop(after)), HandleAction::Invoke(Callback::ShouldStop));
    if !accepts(state, event) {
        (state, HandleAction::Read)
    } else {
        match state.phase {
            HandlePhase::Starting => if event is CallbackDone {
                (in_phase(waiting, HandlePhase::Reading), HandleAction::Read)
            } else {
                (
                    in_phase(waiting, HandlePhase::Finished),
                    failure(HandleErrorContext::New, FailureKind::Handler),
                )
            },
            HandlePhase::Reading => read_step(waiting, event->Read_0),
            HandlePhase::StoringRaceData => ask_stop(AfterStopCheck::RaceDataCallback),
            HandlePhase::Dispatching(kind) => if event is CallbackDone {
                ask_stop(AfterStopCheck::Read)
            } else {
                (
                    in_phase(waiting, HandlePhase::Finished),
                    failure(message_context(kind), FailureKind::Handler),
                )
            },
            HandlePhase::CheckingStop(after) => match event {
                HandleEvent::ShouldStop(true) => (
                    in_phase(waiting, HandlePhase::Ending),
                    HandleAction::Invoke(Callback::End),
                ),
                HandleEvent::ShouldStop(false) => match after {
                    AfterStopCheck::Read => (in_phase(waiting, HandlePhase::Reading), HandleAction::Read),
                    AfterStopCheck::RaceDataCallback => (
                        in_phase(waiting, HandlePhase::Dispatching(MessageKind::RaceData)),
                        HandleAction::Invoke(Callback::Message(MessageKind::RaceData)),
                    ),
                    AfterStopCheck::Probe => if waiting {
                        (
                            in_phase(waiting, HandlePhase::Reconnecting),
                            HandleAction::Reconnect(ReconnectReason::NoProbeResponse),
                        )
                    } else {
                        (in_phase(waiting, HandlePhase::Probing), HandleAction::SendProbe)
                    },
                },
                _ => (
                    in_phase(waiting, HandlePhase::Finished),
                    failure(HandleErrorContext::ShouldStop, FailureKind::Handler),
                ),
            },
            HandlePhase::Ending => if event is CallbackDone {
                (in_phase(waiting, HandlePhase::Finished), HandleAction::Finish(Ok(())))
            } else {
                (
                    in_phase(waiting, HandlePhase::Finished),
                    failure(HandleErrorContext::End, FailureKind::Handler),
                )
            },
            HandlePhase::AnsweringPing => match event->Sent_0 {
                SendOutcome::Sent => ask_stop(AfterStopCheck::Read),
                SendOutcome::Failed(_) => (
                    in_phase(waiting, HandlePhase::Finished),
                    failure(HandleErrorContext::Ping, FailureKind::SendFailed),
                ),
                SendOutcome::TimedOut => (
                    in_phase(waiting, HandlePhase::Finished),
                    failure(HandleErrorContext::Ping, FailureKind::SendTimedOut),
                ),
            },
            HandlePhase::Probing => match event->Sent_0 {
                SendOutcome::Sent => (in_phase(true, HandlePhase::Reading), HandleAction::Read),
                SendOutcome::Failed(e) => (
                    in_phase(waiting, HandlePhase::Reconnecting),
                    HandleAction::Reconnect(ReconnectReason::ProbeSendFailed(e)),
                ),
                SendOutcome::TimedOut => (
                    in_phase(waiting, HandlePhase::Reconnecting),
                    HandleAction::Reconnect(ReconnectReason::ProbeSendTimedOut),
                ),
            },
            HandlePhase::Reconnecting => if event is Reconnected {
                (in_phase(false, HandlePhase::Reading), HandleAction::Read)
            } else {
                (
                    in_phase(waiting, HandlePhase::Finished),
                    failure(HandleErrorContext::Reconnect, FailureKind::Reconnect),
                )
            },
            HandlePhase::Finished => (state, HandleAction::Read),
        }
    }
}

impl HandleState {
    /// A connection that is about to construct its handler, with no probe outstanding;
    /// its first action is to invoke the constructor.
    pub fn start() -> (r: (HandleState, HandleAction))
        ensures
            r.0 == in_phase(false, HandlePhase::Starting),
            r.1 == HandleAction::Invoke(Callback::New),
    {
        (
            HandleState { waiting_for_probe_response: false, phase: HandlePhase::Starting },
            HandleAction::Invoke(Callback::New),
        )
    }

    /// Whether `event` answers what this connection is waiting for.
    pub fn accepts(&self, event: &HandleEvent) -> (r: bool)
        ensures
            r == accepts(*self, *event),
    {
        match self.phase {
            HandlePhase::Starting | HandlePhase::Dispatching(_) | HandlePhase::Ending => matches!(
                event,
                HandleEvent::CallbackDone | HandleEvent::CallbackFailed
            ),
            HandlePhase::Reading => matches!(event, HandleEvent::Read(_)),
            HandlePhase::StoringRaceData => matches!(event, HandleEvent::RaceDataStored),
            HandlePhase::CheckingStop(_) => matches!(
                event,
                HandleEvent::ShouldStop(_) | HandleEvent::CallbackFailed
            ),
            HandlePhase::AnsweringPing | HandlePhase::Probing => matches!(
                event,
                HandleEvent::Sent(_)
            ),
            HandlePhase::Reconnecting => matches!(
                event,
                HandleEvent::Reconnected | HandleEvent::ReconnectFailed
            ),
            HandlePhase::Finished => false,
        }
    }

    /// Takes one step on `event`, which the connection must accept: the new state
    /// and the action to perform next.
    pub fn step(self, event: HandleEvent) -> (r: (HandleState, HandleAction))
        requires
            accepts(self, event),
        ensures
            r == handle_step(self, event),
    {
        let waiting = self.waiting_for_probe_response;
        match self.phase {
            HandlePhase::Starting => match event {
                HandleEvent::CallbackDone => (
                    HandleState { waiting_for_probe_response: waiting, phase: HandlePhase::Reading },
                    HandleAction::Read,
                ),
                _ => (
                    HandleState { waiting_for_probe_response: waiting, phase: HandlePhase::Finished },
                    fail(HandleErrorContext::New, FailureKind::Handler),
                ),
            },
            HandlePhase::Reading => match event {
                HandleEvent::Read(outcome) => react_to_read(waiting, outcome),
                _ => (self, HandleAction::Read),
            },
            HandlePhase::StoringRaceData => check_stop(waiting, AfterStopCheck::RaceDataCallback),
            HandlePhase::Dispatching(kind) => match event {
                HandleEvent::CallbackDone => check_stop(waiting, AfterStopCheck::Read),
                _ => (
                    HandleState { waiting_for_probe_response: waiting, phase: HandlePhase::Finished },
                    fail(callback_context(kind), FailureKind::Handler),
                ),
            },
            HandlePhase::CheckingStop(after) => match event {
                HandleEvent::ShouldStop(true) => (
                    HandleState { waiting_for_probe_response: waiting, phase: HandlePhase::Ending },
                    HandleAction::Invoke(Callback::End),
                ),
                HandleEvent::ShouldStop(false) => match after {
                    AfterStopCheck::Read => (
                        HandleState { waiting_for_probe_response: waiting, phase: HandlePhase::Reading },
                        HandleAction::Read,
                    ),
                    AfterStopCheck::RaceDataCallback => (
                        HandleState {
                            waiting_for_probe_response: waiting,
                            phase: HandlePhase::Dispatching(MessageKind::RaceData),
                        },
                        HandleAction::Invoke(Callback::Message(MessageKind::RaceData)),
                    ),
                    AfterStopCheck::Probe => if waiting {
                        (
                            HandleState {
                                waiting_for_probe_response: waiting,
                                phase: HandlePhase::Reconnecting,
                            },
                            HandleAction::Reconnect(ReconnectReason::NoProbeResponse),
                        )
                    } else {
                        (
                            HandleState { waiting_for_probe_response: waiting, phase: HandlePhase::Probing },
                            HandleAction::SendProbe,
                        )
                    },
                },
                _ => (
                    HandleState { waiting_for_probe_response: waiting, phase: HandlePhase::Finished },
                    fail(HandleErrorContext::ShouldStop, FailureKind::Handler),
                ),
            },
            HandlePhase::Ending => match event {
                HandleEvent::CallbackDone => (
                    HandleState { waiting_for_probe_response: waiting, phase: HandlePhase::Finished },
                    HandleAction::Finish(Ok(())),
                ),
                _ => (
                    HandleState { waiting_for_probe_response: waiting, phase: HandlePhase::Finished },
                    fail(HandleErrorContext::End, FailureKind::Handler),
                ),
            },
            HandlePhase::AnsweringPing => match event {
                HandleEvent::Sent(SendOutcome::Sent) => check_stop(waiting, AfterStopCheck::Read),
                HandleEvent::Sent(SendOutcome::Failed(_)) => (
                    HandleState { waiting_for_probe_response: waiting, phase: HandlePhase::Finished },
                    fail(HandleErrorContext::Ping, FailureKind::SendFailed),
                ),
                _ => (
                    HandleState { waiting_for_probe_response: waiting, phase: HandlePhase::Finished },
                    fail(HandleErrorContext::Ping, FailureKind::SendTimedOut),
                ),
            },
            HandlePhase::Probing => match event {
                HandleEvent::Sent(SendOutcome::Sent) => (
                    HandleState { waiting_for_probe_response: true, phase: HandlePhase::Reading },
                    HandleAction::Read,
                ),
                HandleEvent::Sent(SendOutcome::Failed(e)) => (
                    HandleState { waiting_for_probe_response: waiting, phase: HandlePhase::Reconnecting },
                    HandleAction::Reconnect(ReconnectReason::ProbeSendFailed(e)),
                ),
                _ => (
                    HandleState { waiting_for_probe_response: waiting, phase: HandlePhase::Reconnecting },
                    HandleAction::Reconnect(ReconnectReason::ProbeSendTimedOut),
                ),
            },
            HandlePhase::Reconnecting => match event {
                HandleEvent::Reconnected => (
                    HandleState { waiting_for_probe_response: false, phase: HandlePhase::Reading },
                    HandleAction::Read,
                ),
                _ => (
                    HandleState { waiting_for_probe_response: waiting, phase: HandlePhase::Finished },
                    fail(HandleErrorContext::Reconnect, FailureKind::Reconnect),
                ),
            },
            HandlePhase::Finished => (self, HandleAction::Read),
        }
    }
}

/// The end of handling with a failure.
fn fail(ctx: HandleErrorContext, kind: FailureKind) -> (r: HandleAction)
    ensures
        r == failure(ctx, kind),
{
    HandleAction::Finish(Err(HandleFailure { ctx, kind }))
}

/// Asks the `should_stop` callback, to go on as `after` says if it answers `false`.
fn check_stop(waiting: bool, after: AfterStopCheck) -> (r: (HandleState, HandleAction))
    ensures
        r == (in_phase(waiting, HandlePhase::CheckingStop(after)), HandleAction::Invoke(
            Callback::ShouldStop,
        )),
{
    (
        HandleState { waiting_for_probe_response: waiting, phase: HandlePhase::CheckingStop(after) },
        HandleAction::Invoke(Callback::ShouldStop),
    )
}

/// Whether a close frame's reason calls for reopening the connection.
pub fn is_restart_close_reason(reason: &str) -> (r: bool)
    ensures
        r == is_restart_reason(reason@),
{
    str_eq(reason, "CloudFlare WebSocket proxy restarting") || str_eq(reason, "keepalive ping timeout")
}

/// How the connection reacts to a read outcome, given the probe flag.
pub fn react_to_read(waiting: bool, outcome: ReadOutcome) -> (r: (HandleState, HandleAction))
    ensures
        r == read_step(waiting, outcome),
{
    match outcome {
        ReadOutcome::Text(None) => (
            HandleState { waiting_for_probe_response: false, phase: HandlePhase::Finished },
            fail(HandleErrorContext::Decode, FailureKind::Decode),
        ),
        ReadOutcome::Text(Some(kind)) => match kind {
            MessageKind::RaceData => (
                HandleState { waiting_for_probe_response: false, phase: HandlePhase::StoringRaceData },
                HandleAction::StoreRaceData,
            ),
            _ => (
                HandleState { waiting_for_probe_response: false, phase: HandlePhase::Dispatching(kind) },
                HandleAction::Invoke(Callback::Message(kind)),
            ),
        },
        ReadOutcome::Ping => (
            HandleState { waiting_for_probe_response: false, phase: HandlePhase::AnsweringPing },
            HandleAction::SendPong,
        ),
        ReadOutcome::Pong => (
            HandleState { waiting_for_probe_response: false, phase: HandlePhase::Reading },
            HandleAction::Read,
        ),
        ReadOutcome::Close(reason) => {
            let restart = match &reason {
                Some(r) => is_restart_close_reason(r.as_str()),
                None => false,
            };
            if restart {
                (
                    HandleState { waiting_for_probe_response: waiting, phase: HandlePhase::Reconnecting },
                    HandleAction::Reconnect(ReconnectReason::ClosedByServer),
                )
            } else {
                (
                    HandleState { waiting_for_probe_response: waiting, phase: HandlePhase::Finished },
                    fail(HandleErrorContext::Recv, FailureKind::UnexpectedMessageType),
                )
            }
        },
        ReadOutcome::OtherFrame => (
            HandleState { waiting_for_probe_response: waiting, phase: HandlePhase::Finished },
            fail(HandleErrorContext::Recv, FailureKind::UnexpectedMessageType),
        ),
        ReadOutcome::Io(kind) => match kind {
            IoErrorKind::Other => (
                HandleState { waiting_for_probe_response: waiting, phase: HandlePhase::Finished },
                fail(HandleErrorContext::Recv, FailureKind::ReadError),
            ),
            _ => (
                HandleState { waiting_for_probe_response: waiting, phase: HandlePhase::Reconnecting },
                HandleAction::Reconnect(ReconnectReason::UnexpectedEndOfFile),
            ),
        },
        ReadOutcome::ResetWithoutClosingHandshake => (
            HandleState { waiting_for_probe_response: waiting, phase: HandlePhase::Reconnecting },
            HandleAction::Reconnect(ReconnectReason::ResetWithoutClosingHandshake),
        ),
        ReadOutcome::OtherError => (
            HandleState { waiting_for_probe_response: waiting, phase: HandlePhase::Finished },
            fail(HandleErrorContext::Recv, FailureKind::ReadError),
        ),
        ReadOutcome::EndOfStream => (
            HandleState { waiting_for_probe_response: waiting, phase: HandlePhase::Finished },
            fail(HandleErrorContext::Recv, FailureKind::EndOfStream),
        ),
        ReadOutcome::TimedOut => check_stop(waiting, AfterStopCheck::Probe),
    }
}

/// The state reached and the actions asked for when `events` arrive in turn,
/// starting in `state`.
pub open spec fn run(state: HandleState, events: Seq<HandleEvent>) -> (HandleState, Seq<HandleAction>)
    decreases events.len(),
{
    if events.len() == 0 {
        (state, seq![])
    } else {
        let (next, action) = handle_step(state, events[0]);
        let (last, actions) = run(next, events.drop_first());
        (last, seq![action] + actions)
    }
}

/// Whether a read outcome is a frame received from the server that is not an error.
pub open spec fn is_keepalive_or_message(outcome: ReadOutcome) -> bool {
    (outcome is Text) || (outcome is Ping) || (outcome is Pong)
}

/// Receiving a text, ping or pong frame means the connection is alive: no probe
/// is outstanding afterwards.
pub proof fn lemma_received_frame_clears_probe(state: HandleState, outcome: ReadOutcome)
    requires
        state.phase is Reading,
        is_keepalive_or_message(outcome),
    ensures
        !handle_step(state, HandleEvent::Read(outcome)).0.waiting_for_probe_response,
{
}

/// A liveness probe is sent only after a silent read, once the handler has said
/// not to stop, and only while no earlier probe is outstanding.
pub proof fn lemma_probe_only_when_none_outstanding(state: HandleState, event: HandleEvent)
    requires
        handle_step(state, event).1 == HandleAction::SendProbe,
    ensures
        state.phase == HandlePhase::CheckingStop(AfterStopCheck::Probe),
        !state.waiting_for_probe_response,
        event == HandleEvent::ShouldStop(false),
{
}

/// When a probe is outstanding and the connection stays silent for another
/// interval, the connection is reopened instead of probed again.
pub proof fn lemma_unanswered_probe_reconnects(state: HandleState)
    requires
        state.phase == HandlePhase::CheckingStop(AfterStopCheck::Probe),
        state.waiting_for_probe_response,
    ensures
        handle_step(state, HandleEvent::ShouldStop(false)).1 == HandleAction::Reconnect(
            ReconnectReason::NoProbeResponse,
        ),
{
}

/// The probe flag is raised only by a probe that was sent successfully.
pub proof fn lemma_probe_flag_raised_only_by_sent_probe(state: HandleState, event: HandleEvent)
    requires
        !state.waiting_for_probe_response,
        handle_step(state, event).0.waiting_for_probe_response,
    ensures
        state.phase is Probing,
        event == HandleEvent::Sent(SendOutcome::Sent),
{
}

/// After a successful reconnect, no probe is outstanding and reading resumes.
pub proof fn lemma_reconnect_resumes_reading(state: HandleState)
    requires
        state.phase is Reconnecting,
    ensures
        handle_step(state, HandleEvent::Reconnected) == (
            in_phase(false, HandlePhase::Reading),
            HandleAction::Read,
        ),
{
}

/// The handler's `end` callback is invoked only when `should_stop` answered `true`.
pub proof fn lemma_end_only_after_stop(state: HandleState, event: HandleEvent)
    requires
        handle_step(state, event).1 == HandleAction::Invoke(Callback::End),
    ensures
        state.phase is CheckingStop,
        event == HandleEvent::ShouldStop(true),
{
}

/// Once finished, a connection accepts nothing and stays finished.
pub proof fn lemma_finished_is_final(state: HandleState, event: HandleEvent)
    requires
        state.phase is Finished,
    ensures
        !accepts(state, event),
        handle_step(state, event).0 == state,
{
}

/// Whether the connection is about to decide on, or is sending, a probe.
pub open spec fn probing_phase(phase: HandlePhase) -> bool {
    phase == HandlePhase::CheckingStop(AfterStopCheck::Probe) || phase == HandlePhase::Probing
}

/// As long as no read times out (the server's keepalives and messages keep
/// arriving), the connection never sends a liveness probe.
pub proof fn lemma_no_probe_without_silence(state: HandleState, events: Seq<HandleEvent>)
    requires
        !probing_phase(state.phase),
        forall|i: int| 0 <= i < events.len() ==> events[i] != HandleEvent::Read(ReadOutcome::TimedOut),
    ensures
        !probing_phase(run(state, events).0.phase),
        forall|i: int| 0 <= i < run(state, events).1.len() ==> run(state, events).1[i] != HandleAction::SendProbe,
    decreases events.len(),
{
    if events.len() > 0 {
        let (next, action) = handle_step(state, events[0]);
        assert(!probing_phase(next.phase));
        assert(action != HandleAction::SendProbe);
        let rest = events.drop_first();
        assert forall|i: int| 0 <= i < rest.len() implies rest[i] != HandleEvent::Read(
            ReadOutcome::TimedOut,
        ) by {
            assert(rest[i] == events[i + 1]);
        }
        lemma_no_probe_without_silence(next, rest);
        let acts = run(state, events).1;
        assert(acts == seq![action] + run(next, rest).1);
        assert forall|i: int| 0 <= i < acts.len() implies acts[i] != HandleAction::SendProbe by {
            if i > 0 {
                assert(acts[i] == run(next, rest).1[i - 1]);
            }
        }
    }
}

/// Whatever the connection was going to do after asking `should_stop` (read on
/// after a message or a ping, call `race_data`, or decide on a probe), an answer
/// of `true` runs the handler's `end` callback next and nothing else, and an
/// answer of `false` never does; once `end` returns, handling ends successfully.
pub proof fn lemma_stop_answer_decides(waiting: bool, after: AfterStopCheck)
    ensures
        handle_step(
            HandleState { waiting_for_probe_response: waiting, phase: HandlePhase::CheckingStop(after) },
            HandleEvent::ShouldStop(true),
        ) == (
            HandleState { waiting_for_probe_response: waiting, phase: HandlePhase::Ending },
            HandleAction::Invoke(Callback::End),
        ),
        handle_step(
            HandleState { waiting_for_probe_response: waiting, phase: HandlePhase::CheckingStop(after) },
            HandleEvent::ShouldStop(false),
        ).1 != HandleAction::Invoke(Callback::End),
        handle_step(
            HandleState { waiting_for_probe_response: waiting, phase: HandlePhase::CheckingStop(after) },
            HandleEvent::ShouldStop(false),
        ).0.phase != HandlePhase::Ending,
        handle_step(
            HandleState { waiting_for_probe_response: waiting, phase: HandlePhase::Ending },
            HandleEvent::CallbackDone,
        ).1 == HandleAction::Finish(Ok(())),
{
}

} // verus!
