//! The client bridge: one connection, one request, one reply, per call.
//!
//! Caller and worker live and die separately, so nothing is kept between
//! calls. Each call reads the supervisor's recorded identity, computes the
//! rendezvous endpoint from it, connects, sends its one request and waits
//! for its one reply. A call that fails is not tried again here: a request
//! may be expensive, and whoever wants another attempt makes another call.

use crate::endpoint::{lemma_socket_path_injective, socket_path, socket_path_of};
use crate::errors::{failure_message, missing_message, PgError};
use vstd::prelude::*;
use vstd::string::StringExecFns;

verus! {

/// Why a call gave no reply.
#[derive(Debug, PartialEq, Eq)]
pub enum CallError {
    /// The worker could not be reached, for the cause given. `endpoint` is
    /// where it was looked for, or nothing where no identity was on record
    /// to look with.
    Unreachable { endpoint: Option<String>, cause: String },
    /// The worker answered with an error; this is its message.
    ServiceError(String),
}

impl CallError {
    /// The message with which the host reports the error.
    pub open spec fn host_message(self) -> Seq<char> {
        match self {
            CallError::Unreachable { endpoint: None, cause } => missing_message(cause@),
            CallError::Unreachable { endpoint: Some(path), cause } => failure_message(
                "Couldn't connect worker stream "@ + path@,
                cause@,
            ),
            CallError::ServiceError(message) => failure_message(
                "Worker process returned error"@,
                message@,
            ),
        }
    }

    /// The error as the host reports it.
    pub fn pg_error(self) -> (error: PgError)
        ensures
            error.message@ == self.host_message(),
    {
        match self {
            CallError::Unreachable { endpoint: None, cause } => PgError::missing(cause.as_str()),
            CallError::Unreachable { endpoint: Some(path), cause } => {
                let what = String::from_str("Couldn't connect worker stream ").concat(
                    path.as_str(),
                );
                PgError::failed(what.as_str(), cause.as_str())
            },
            CallError::ServiceError(message) => PgError::failed(
                "Worker process returned error",
                message.as_str(),
            ),
        }
    }
}

/// How far a call has come.
#[derive(Clone, Copy, Debug, PartialEq, Eq, Structural)]
pub enum CallState {
    /// Nothing has been done.
    Idle,
    /// A connection to the endpoint of the supervisor with this identity is
    /// being opened.
    Connecting(i64),
    /// The request is sent; the reply is awaited.
    Awaiting,
    /// The call is over.
    Done,
}

/// What the caller reports to the call.
#[derive(Debug, PartialEq, Eq)]
pub enum CallEvent {
    /// The recorded identity of the supervisor was read: this is it, or
    /// there was none.
    Begun(Option<i64>),
    /// The connection is open.
    Connected,
    /// The connection could not be opened, for the cause given.
    ConnectFailed(String),
    /// The reply has arrived.
    Replied,
    /// The worker answered with an error; this is its message.
    Refused(String),
}

/// What the caller is to do next.
#[derive(Debug, PartialEq, Eq)]
pub enum CallAction {
    /// Open a connection to this endpoint, and report `Connected` or
    /// `ConnectFailed`.
    Connect(String),
    /// Send the request, wait for the reply, and report `Replied` or
    /// `Refused`.
    Send,
    /// Hand the reply to whoever made the call.
    Deliver,
    /// Hand this error to whoever made the call.
    Fail(CallError),
    /// Nothing: the event does not concern the call in its state.
    Nothing,
}

/// The kinds of things a call asks for.
#[derive(Clone, Copy, Debug, PartialEq, Eq, Structural)]
pub enum Move {
    /// To open a connection.
    Connect,
    /// To send the request.
    Send,
    /// To hand over the reply.
    Deliver,
    /// To hand over an error.
    Fail,
    /// Nothing.
    Nothing,
}

impl CallAction {
    /// The kind of the action.
    pub open spec fn kind(self) -> Move {
        match self {
            CallAction::Connect(_) => Move::Connect,
            CallAction::Send => Move::Send,
            CallAction::Deliver => Move::Deliver,
            CallAction::Fail(_) => Move::Fail,
            CallAction::Nothing => Move::Nothing,
        }
    }
}

/// The state that follows `state` on `event`.
pub open spec fn next_state(state: CallState, event: CallEvent) -> CallState {
    match (state, event) {
        (CallState::Idle, CallEvent::Begun(Some(pid))) => CallState::Connecting(pid),
        (CallState::Idle, CallEvent::Begun(None)) => CallState::Done,
        (CallState::Connecting(_), CallEvent::Connected) => CallState::Awaiting,
        (CallState::Connecting(_), CallEvent::ConnectFailed(_)) => CallState::Done,
        (CallState::Awaiting, CallEvent::Replied) => CallState::Done,
        (CallState::Awaiting, CallEvent::Refused(_)) => CallState::Done,
        (state, _) => state,
    }
}

/// The kind of thing that is asked for on `event` in `state`.
pub open spec fn next_move(state: CallState, event: CallEvent) -> Move {
    match (state, event) {
        (CallState::Idle, CallEvent::Begun(Some(_))) => Move::Connect,
        (CallState::Idle, CallEvent::Begun(None)) => Move::Fail,
        (CallState::Connecting(_), CallEvent::Connected) => Move::Send,
        (CallState::Connecting(_), CallEvent::ConnectFailed(_)) => Move::Fail,
        (CallState::Awaiting, CallEvent::Replied) => Move::Deliver,
        (CallState::Awaiting, CallEvent::Refused(_)) => Move::Fail,
        (_, _) => Move::Nothing,
    }
}

/// Whether `action` is what a call to the worker of extension `ext_name`
/// asks for on `event` in `state`.
pub open spec fn is_next_action(
    ext_name: Seq<char>,
    state: CallState,
    event: CallEvent,
    action: CallAction,
) -> bool {
    &&& action.kind() == next_move(state, event)
    &&& match (state, event, action) {
        (CallState::Idle, CallEvent::Begun(Some(pid)), CallAction::Connect(path)) => path@
            == socket_path_of(ext_name, pid as int),
        (CallState::Idle, CallEvent::Begun(None), CallAction::Fail(error)) => {
            &&& error matches CallError::Unreachable { endpoint: None, cause }
            &&& cause@ == "Couldn't get PID"@
        },
        (
            CallState::Connecting(pid),
            CallEvent::ConnectFailed(reason),
            CallAction::Fail(error),
        ) => {
            &&& error matches CallError::Unreachable { endpoint: Some(path), cause }
            &&& path@ == socket_path_of(ext_name, pid as int)
            &&& cause == reason
        },
        (CallState::Awaiting, CallEvent::Refused(message), CallAction::Fail(error)) => error
            == CallError::ServiceError(message),
        (_, _, _) => true,
    }
}

/// One call to the worker.
#[derive(Debug)]
pub struct ClientCall {
    state: CallState,
    ext_name: String,
}

impl ClientCall {
    /// How far the call has come.
    pub closed spec fn state(&self) -> CallState {
        self.state
    }

    /// The extension whose worker is called.
    pub closed spec fn extension(&self) -> Seq<char> {
        self.ext_name@
    }

    /// A call to the worker of extension `ext_name`, not yet begun.
    pub fn new(ext_name: &str) -> (call: Self)
        ensures
            call.state() == CallState::Idle,
            call.extension() == ext_name@,
    {
        ClientCall { state: CallState::Idle, ext_name: String::from_str(ext_name) }
    }

    /// How far the call has come.
    pub fn current(&self) -> (state: CallState)
        ensures
            state == self.state(),
    {
        self.state
    }

    /// Takes the report of the caller and says what to do next.
    pub fn step(&mut self, event: CallEvent) -> (action: CallAction)
        ensures
            final(self).extension() == old(self).extension(),
            final(self).state() == next_state(old(self).state(), event),
            is_next_action(old(self).extension(), old(self).state(), event, action),
    {
        match (self.state, event) {
            (CallState::Idle, CallEvent::Begun(Some(pid))) => {
                self.state = CallState::Connecting(pid);
                CallAction::Connect(socket_path(self.ext_name.as_str(), pid))
            },
            (CallState::Idle, CallEvent::Begun(None)) => {
                self.state = CallState::Done;
                CallAction::Fail(
                    CallError::Unreachable {
                        endpoint: None,
                        cause: String::from_str("Couldn't get PID"),
                    },
                )
            },
            (CallState::Connecting(_), CallEvent::Connected) => {
                self.state = CallState::Awaiting;
                CallAction::Send
            },
            (CallState::Connecting(pid), CallEvent::ConnectFailed(cause)) => {
                self.state = CallState::Done;
                CallAction::Fail(
                    CallError::Unreachable {
                        endpoint: Some(socket_path(self.ext_name.as_str(), pid)),
                        cause,
                    },
                )
            },
            (CallState::Awaiting, CallEvent::Replied) => {
                self.state = CallState::Done;
                CallAction::Deliver
            },
            (CallState::Awaiting, CallEvent::Refused(message)) => {
                self.state = CallState::Done;
                CallAction::Fail(CallError::ServiceError(message))
            },
            (_, _) => CallAction::Nothing,
        }
    }
}

/// The state of a call that was in `state` and has been given `events`,
/// first to last.
pub open spec fn state_after(state: CallState, events: Seq<CallEvent>) -> CallState
    decreases events.len(),
{
    if events.len() == 0 {
        state
    } else {
        next_state(state_after(state, events.drop_last()), events.last())
    }
}

/// How often a call that was in `state` asks for something of kind `kind`
/// in the course of `events`.
pub open spec fn times_asked(state: CallState, events: Seq<CallEvent>, kind: Move) -> nat
    decreases events.len(),
{
    if events.len() == 0 {
        0
    } else {
        let earlier = events.drop_last();
        times_asked(state, earlier, kind) + if next_move(
            state_after(state, earlier),
            events.last(),
        ) == kind {
            1nat
        } else {
            0nat
        }
    }
}

/// One connection, one request, one outcome, no retry. Whatever is
/// reported to a call, in whatever order, it asks for at most one
/// connection, sends at most one request, and ends at most once, with the
/// reply or with an error; and a call that is over stays over.
pub proof fn lemma_one_exchange_per_call(events: Seq<CallEvent>)
    ensures
        times_asked(CallState::Idle, events, Move::Connect) <= 1,
        times_asked(CallState::Idle, events, Move::Send) <= 1,
        times_asked(CallState::Idle, events, Move::Deliver) + times_asked(
            CallState::Idle,
            events,
            Move::Fail,
        ) <= 1,
        times_asked(CallState::Idle, events, Move::Deliver) + times_asked(
            CallState::Idle,
            events,
            Move::Fail,
        ) == 1 <==> state_after(CallState::Idle, events) is Done,
        state_after(CallState::Idle, events) is Idle ==> times_asked(
            CallState::Idle,
            events,
            Move::Connect,
        ) == 0,
        (state_after(CallState::Idle, events) is Idle || state_after(
            CallState::Idle,
            events,
        ) is Connecting) ==> times_asked(CallState::Idle, events, Move::Send) == 0,
    decreases events.len(),
{
    if events.len() > 0 {
        lemma_one_exchange_per_call(events.drop_last());
    }
}

/// A call that is over stays over, and asks for nothing more.
pub proof fn lemma_done_is_final(events: Seq<CallEvent>, kind: Move)
    ensures
        state_after(CallState::Done, events) == CallState::Done,
        kind != Move::Nothing ==> times_asked(CallState::Done, events, kind) == 0,
    decreases events.len(),
{
    if events.len() > 0 {
        lemma_done_is_final(events.drop_last(), kind);
    }
}

/// Client and worker meet. A call that begins with the identity that the
/// supervisor handed to its worker connects to the very endpoint at which
/// that worker binds; a call that begins with any other identity, or that
/// is made for another extension, connects elsewhere. Nothing but the
/// extension's name and the identity goes into either side's address.
pub proof fn lemma_client_meets_worker(
    ext_name: Seq<char>,
    pid: i64,
    worker_ext_name: Seq<char>,
    worker_pid: i64,
    action: CallAction,
)
    requires
        is_next_action(ext_name, CallState::Idle, CallEvent::Begun(Some(pid)), action),
    ensures
        action is Connect,
        action->Connect_0@ == socket_path_of(worker_ext_name, worker_pid as int) <==> ext_name
            == worker_ext_name && pid == worker_pid,
{
    if action->Connect_0@ == socket_path_of(worker_ext_name, worker_pid as int) {
        lemma_socket_path_injective(ext_name, pid as int, worker_ext_name, worker_pid as int);
    }
}

} // verus!
