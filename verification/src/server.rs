//! The worker server: binding the rendezvous endpoint, serving, shutting
//! down.
//!
//! The server passes through the states Unbound, Bound, Serving,
//! ShuttingDown and Terminated. Every step that touches the filesystem or
//! the network is done by the caller, who reports how it went; the server
//! decides what comes next. A server that cannot bind never serves.

use crate::endpoint::{socket_path, socket_path_of};
use crate::errors::{failure_message, PgError};
use vstd::prelude::*;
use vstd::string::StringExecFns;

verus! {

/// The permissions of the rendezvous artifact: any local process may
/// connect.
pub const SOCKET_MODE: u32 = 0o777;

/// How long to sleep between two looks at the termination signal.
pub const SIGNAL_POLL_MILLIS: u64 = 500;

/// Why the server could not secure its endpoint.
#[derive(Debug, PartialEq, Eq)]
pub enum BindError {
    /// The rendezvous artifact could not be created.
    Create { path: String, cause: String },
    /// The permissions of the rendezvous artifact could not be set.
    Permissions { path: String, cause: String },
}

impl BindError {
    /// The text that describes the failure.
    pub open spec fn message_of(self) -> Seq<char> {
        match self {
            BindError::Create { path, cause } => "Couldn't create socket at "@ + path@ + ": "@
                + cause@,
            BindError::Permissions { path, cause } => "Couldn't set permissions for "@ + path@
                + ": "@ + cause@,
        }
    }

    /// Describes the failure.
    pub fn message(&self) -> (text: String)
        ensures
            text@ == self.message_of(),
    {
        match self {
            BindError::Create { path, cause } => String::from_str(
                "Couldn't create socket at ",
            ).concat(path.as_str()).concat(": ").concat(cause.as_str()),
            BindError::Permissions { path, cause } => String::from_str(
                "Couldn't set permissions for ",
            ).concat(path.as_str()).concat(": ").concat(cause.as_str()),
        }
    }

    /// The message with which the host reports the failure.
    pub open spec fn host_message(self) -> Seq<char> {
        match self {
            BindError::Create { path, cause } => failure_message(
                "Couldn't create socket at "@ + path@,
                cause@,
            ),
            BindError::Permissions { path, cause } => failure_message(
                "Couldn't set permissions for "@ + path@,
                cause@,
            ),
        }
    }

    /// The failure as the host reports it.
    pub fn pg_error(self) -> (error: PgError)
        ensures
            error.message@ == self.host_message(),
    {
        match self {
            BindError::Create { path, cause } => {
                let what = String::from_str("Couldn't create socket at ").concat(path.as_str());
                PgError::failed(what.as_str(), cause.as_str())
            },
            BindError::Permissions { path, cause } => {
                let what = String::from_str("Couldn't set permissions for ").concat(
                    path.as_str(),
                );
                PgError::failed(what.as_str(), cause.as_str())
            },
        }
    }
}

/// The steps of binding, in the order in which they are taken.
#[derive(Clone, Copy, Debug, PartialEq, Eq, Structural)]
pub enum BindStep {
    /// Nothing has been done yet.
    Idle,
    /// An artifact that an earlier instance may have left is being removed.
    Clearing,
    /// The artifact is being created.
    Creating,
    /// The permissions of the artifact are being set.
    Securing,
}

/// The state of a worker server.
#[derive(Debug, PartialEq, Eq)]
pub enum ServerState {
    /// The endpoint is not bound yet; binding has come as far as the step.
    Unbound(BindStep),
    /// The endpoint is bound and secured.
    Bound,
    /// Connections are accepted and requests are served.
    Serving,
    /// No new work is accepted; requests in flight are completed.
    ShuttingDown,
    /// The server has stopped.
    Terminated,
    /// Binding failed: the server never serves.
    Failed(BindError),
}

/// How the removal of a stale artifact went.
#[derive(Debug, PartialEq, Eq)]
pub enum Removal {
    /// There was an artifact, and it is gone.
    Removed,
    /// There was none.
    NotFound,
    /// The removal failed otherwise.
    Failed(String),
}

/// What the caller reports to the server.
#[derive(Debug, PartialEq, Eq)]
pub enum ServerEvent {
    /// The worker has started.
    Started,
    /// The removal of a stale artifact was tried.
    Cleared(Removal),
    /// The artifact was created.
    Created,
    /// The artifact could not be created, for the cause given.
    CreateFailed(String),
    /// The permissions of the artifact were set.
    Secured,
    /// The permissions could not be set, for the cause given.
    SecureFailed(String),
    /// The server loop has taken the listener and accepts connections.
    Accepting,
    /// The termination signal was received.
    TerminationSignal,
    /// All requests in flight have been completed.
    Drained,
}

/// What the caller is to do next.
#[derive(Debug, PartialEq, Eq)]
pub enum ServerAction {
    /// Remove the artifact at the endpoint, if there is one, and report
    /// `Cleared`.
    RemoveStale,
    /// Create the artifact at the endpoint, and report `Created` or
    /// `CreateFailed`.
    CreateArtifact,
    /// Set the permissions of the artifact to `mode`, and report `Secured`
    /// or `SecureFailed`.
    SetPermissions { mode: u32 },
    /// Start accepting connections, each request going to the inference
    /// service, and report `Accepting`.
    Serve,
    /// Stop accepting connections, complete the requests in flight, and
    /// report `Drained`.
    Drain,
    /// Leave.
    Exit,
    /// Give up: the endpoint cannot be had.
    Abort(BindError),
    /// Nothing: the event does not concern the server in its state.
    Nothing,
}

/// The state that follows `state` on `event`, for a server whose endpoint
/// is `path`.
pub open spec fn next_state(state: ServerState, path: String, event: ServerEvent) -> ServerState {
    match (state, event) {
        (ServerState::Unbound(BindStep::Idle), ServerEvent::Started) => ServerState::Unbound(
            BindStep::Clearing,
        ),
        (ServerState::Unbound(BindStep::Clearing), ServerEvent::Cleared(_)) => ServerState::Unbound(
            BindStep::Creating,
        ),
        (ServerState::Unbound(BindStep::Creating), ServerEvent::Created) => {
            ServerState::Unbound(BindStep::Securing)
        },
        (ServerState::Unbound(BindStep::Creating), ServerEvent::CreateFailed(cause)) => {
            ServerState::Failed(BindError::Create { path, cause })
        },
        (ServerState::Unbound(BindStep::Securing), ServerEvent::Secured) => {
            ServerState::Bound
        },
        (ServerState::Unbound(BindStep::Securing), ServerEvent::SecureFailed(cause)) => {
            ServerState::Failed(BindError::Permissions { path, cause })
        },
        (ServerState::Bound, ServerEvent::Accepting) => ServerState::Serving,
        (ServerState::Bound, ServerEvent::TerminationSignal) => ServerState::ShuttingDown,
        (ServerState::Serving, ServerEvent::TerminationSignal) => ServerState::ShuttingDown,
        (ServerState::ShuttingDown, ServerEvent::Drained) => ServerState::Terminated,
        (state, _) => state,
    }
}

/// What the caller is told on `event`, for a server in `state` whose
/// endpoint is `path`.
pub open spec fn next_action(state: ServerState, path: String, event: ServerEvent) -> ServerAction {
    match (state, event) {
        (ServerState::Unbound(BindStep::Idle), ServerEvent::Started) => ServerAction::RemoveStale,
        (ServerState::Unbound(BindStep::Clearing), ServerEvent::Cleared(_)) => {
            ServerAction::CreateArtifact
        },
        (ServerState::Unbound(BindStep::Creating), ServerEvent::Created) => {
            ServerAction::SetPermissions { mode: SOCKET_MODE }
        },
        (ServerState::Unbound(BindStep::Creating), ServerEvent::CreateFailed(cause)) => {
            ServerAction::Abort(BindError::Create { path, cause })
        },
        (ServerState::Unbound(BindStep::Securing), ServerEvent::Secured) => {
            ServerAction::Serve
        },
        (ServerState::Unbound(BindStep::Securing), ServerEvent::SecureFailed(cause)) => {
            ServerAction::Abort(BindError::Permissions { path, cause })
        },
        (ServerState::Bound, ServerEvent::TerminationSignal) => ServerAction::Drain,
        (ServerState::Serving, ServerEvent::TerminationSignal) => ServerAction::Drain,
        (ServerState::ShuttingDown, ServerEvent::Drained) => ServerAction::Exit,
        (_, _) => ServerAction::Nothing,
    }
}

/// A worker server.
#[derive(Debug)]
pub struct WorkerServer {
    state: ServerState,
    path: String,
}

impl WorkerServer {
    /// The state of the server.
    pub closed spec fn state(&self) -> ServerState {
        self.state
    }

    /// The endpoint of the server.
    pub closed spec fn endpoint(&self) -> String {
        self.path
    }

    /// The server of extension `ext_name` under the supervisor with process
    /// id `pid`. It is unbound, and nothing has been touched.
    pub fn new(ext_name: &str, pid: i64) -> (server: Self)
        ensures
            server.state() == ServerState::Unbound(BindStep::Idle),
            server.endpoint()@ == socket_path_of(ext_name@, pid as int),
    {
        WorkerServer {
            state: ServerState::Unbound(BindStep::Idle),
            path: socket_path(ext_name, pid),
        }
    }

    /// The endpoint at which the server binds.
    pub fn path(&self) -> (path: &String)
        ensures
            *path == self.endpoint(),
    {
        &self.path
    }

    /// The state of the server.
    pub fn current(&self) -> (state: &ServerState)
        ensures
            *state == self.state(),
    {
        &self.state
    }

    /// Takes the report of the caller and says what to do next.
    pub fn step(&mut self, event: ServerEvent) -> (action: ServerAction)
        ensures
            final(self).state() == next_state(old(self).state(), old(self).endpoint(), event),
            action == next_action(old(self).state(), old(self).endpoint(), event),
            final(self).endpoint() == old(self).endpoint(),
    {
        match (&self.state, event) {
            (ServerState::Unbound(BindStep::Idle), ServerEvent::Started) => {
                self.state = ServerState::Unbound(BindStep::Clearing);
                ServerAction::RemoveStale
            },
            (ServerState::Unbound(BindStep::Clearing), ServerEvent::Cleared(_)) => {
                self.state = ServerState::Unbound(BindStep::Creating);
                ServerAction::CreateArtifact
            },
            (ServerState::Unbound(BindStep::Creating), ServerEvent::Created) => {
                self.state = ServerState::Unbound(BindStep::Securing);
                ServerAction::SetPermissions { mode: SOCKET_MODE }
            },
            (ServerState::Unbound(BindStep::Creating), ServerEvent::CreateFailed(cause)) => {
                let kept = cause.clone();
                self.state = ServerState::Failed(
                    BindError::Create { path: self.path.clone(), cause: kept },
                );
                ServerAction::Abort(BindError::Create { path: self.path.clone(), cause })
            },
            (ServerState::Unbound(BindStep::Securing), ServerEvent::Secured) => {
                self.state = ServerState::Bound;
                ServerAction::Serve
            },
            (ServerState::Unbound(BindStep::Securing), ServerEvent::SecureFailed(cause)) => {
                let kept = cause.clone();
                self.state = ServerState::Failed(
                    BindError::Permissions { path: self.path.clone(), cause: kept },
                );
                ServerAction::Abort(BindError::Permissions { path: self.path.clone(), cause })
            },
            (ServerState::Bound, ServerEvent::Accepting) => {
                self.state = ServerState::Serving;
                ServerAction::Nothing
            },
            (ServerState::Bound, ServerEvent::TerminationSignal) => {
                self.state = ServerState::ShuttingDown;
                ServerAction::Drain
            },
            (ServerState::Serving, ServerEvent::TerminationSignal) => {
                self.state = ServerState::ShuttingDown;
                ServerAction::Drain
            },
            (ServerState::ShuttingDown, ServerEvent::Drained) => {
                self.state = ServerState::Terminated;
                ServerAction::Exit
            },
            (_, _) => ServerAction::Nothing,
        }
    }
}

/// Starts the worker of extension `ext_name` for the supervisor whose
/// process id is `pid`: the server, which has begun to bind, and the first
/// thing to do for it, which is to remove what an earlier instance may have
/// left at the endpoint.
pub fn background_main(ext_name: &str, pid: i64) -> (started: (WorkerServer, ServerAction))
    ensures
        started.0.state() == ServerState::Unbound(BindStep::Clearing),
        started.0.endpoint()@ == socket_path_of(ext_name@, pid as int),
        started.1 == ServerAction::RemoveStale,
{
    let mut server = WorkerServer::new(ext_name, pid);
    let action = server.step(ServerEvent::Started);
    (server, action)
}

/// What a serving worker does after a look at the termination signal.
#[derive(Clone, Copy, Debug, PartialEq, Eq, Structural)]
pub enum Watch {
    /// The signal has not come: sleep for `millis` milliseconds and look
    /// again.
    Sleep { millis: u64 },
    /// The signal has come: report `TerminationSignal`.
    Stop,
}

/// Decides what a serving worker does after a look at the termination
/// signal. Without the signal the worker waits on, for as long as it takes.
pub fn watch_signal(received: bool) -> (watch: Watch)
    ensures
        watch == if received {
            Watch::Stop
        } else {
            (Watch::Sleep { millis: SIGNAL_POLL_MILLIS })
        },
{
    if received {
        Watch::Stop
    } else {
        Watch::Sleep { millis: SIGNAL_POLL_MILLIS }
    }
}

/// The state of a server with endpoint `path` that was in `state` and has
/// been given `events`, first to last.
pub open spec fn state_after(state: ServerState, path: String, events: Seq<ServerEvent>) -> ServerState
    decreases events.len(),
{
    if events.len() == 0 {
        state
    } else {
        next_state(state_after(state, path, events.drop_last()), path, events.last())
    }
}

/// Whether the server has stopped serving for good.
pub open spec fn stopping(state: ServerState) -> bool {
    state is ShuttingDown || state is Terminated
}

/// Whether `events` tell of an artifact that was created and, later,
/// secured.
pub open spec fn bound_in(events: Seq<ServerEvent>) -> bool {
    exists|i: int, j: int|
        0 <= i < j < events.len() && #[trigger] events[i] == ServerEvent::Created
            && #[trigger] events[j] == ServerEvent::Secured
}

/// Whether `events` tell of an artifact that was created.
pub open spec fn created_in(events: Seq<ServerEvent>) -> bool {
    exists|i: int| 0 <= i < events.len() && #[trigger] events[i] == ServerEvent::Created
}

/// Endpoint lifecycle. A server that starts removes what an earlier
/// instance may have left before it creates its own artifact, and it goes
/// on to create it whatever the removal found: an artifact, none, or a
/// failure. With creation and permissions in order it serves. This holds
/// for every start, so a restart at the same endpoint binds like the first
/// start did.
pub proof fn lemma_stale_artifact_does_not_block(path: String, removal: Removal)
    ensures
        ({
            let fresh = ServerState::Unbound(BindStep::Idle);
            let clearing = next_state(fresh, path, ServerEvent::Started);
            let creating = next_state(clearing, path, ServerEvent::Cleared(removal));
            let securing = next_state(creating, path, ServerEvent::Created);
            let bound = next_state(securing, path, ServerEvent::Secured);
            let serving = next_state(bound, path, ServerEvent::Accepting);
            &&& next_action(fresh, path, ServerEvent::Started)
                == ServerAction::RemoveStale
            &&& next_action(clearing, path, ServerEvent::Cleared(removal))
                == ServerAction::CreateArtifact
            &&& next_action(creating, path, ServerEvent::Created)
                == (ServerAction::SetPermissions { mode: SOCKET_MODE })
            &&& next_action(securing, path, ServerEvent::Secured)
                == ServerAction::Serve
            &&& bound == ServerState::Bound
            &&& serving == ServerState::Serving
        }),
{
}

/// No serving without an endpoint. Whatever is reported to a fresh server,
/// it is bound, serving or past serving only if the creation of the
/// artifact and, after it, the setting of its permissions were reported as
/// done; and it is told to serve only at the moment it becomes bound.
pub proof fn lemma_no_service_without_bind(path: String, events: Seq<ServerEvent>)
    ensures
        ({
            let state = state_after(ServerState::Unbound(BindStep::Idle), path, events);
            &&& state == ServerState::Unbound(BindStep::Securing) ==> created_in(events)
            &&& (state is Bound || state is Serving || stopping(state)) ==> bound_in(events)
            &&& forall|event: ServerEvent| #[trigger]
                next_action(state, path, event) is Serve ==> next_state(
                    state,
                    path,
                    event,
                ) is Bound
        }),
    decreases events.len(),
{
    if events.len() > 0 {
        let earlier = events.drop_last();
        let before = state_after(ServerState::Unbound(BindStep::Idle), path, earlier);
        let state = state_after(ServerState::Unbound(BindStep::Idle), path, events);
        let last = events.len() - 1;
        lemma_no_service_without_bind(path, earlier);
        if created_in(earlier) {
            let i = choose|i: int|
                0 <= i < earlier.len() && #[trigger] earlier[i] == ServerEvent::Created;
            assert(events[i] == ServerEvent::Created);
            if state is Bound && before == ServerState::Unbound(BindStep::Securing) {
                assert(events[last] == ServerEvent::Secured);
                assert(bound_in(events));
            }
        }
        if bound_in(earlier) {
            let (i, j) = choose|i: int, j: int|
                0 <= i < j < earlier.len() && #[trigger] earlier[i] == ServerEvent::Created
                    && #[trigger] earlier[j] == ServerEvent::Secured;
            assert(events[i] == ServerEvent::Created);
            assert(events[j] == ServerEvent::Secured);
        }
        if state == ServerState::Unbound(BindStep::Securing) && before != state {
            assert(events[last] == ServerEvent::Created);
        }
    }
}

/// A failed bind is fatal. A server that could not bind stays as it is,
/// whatever is reported to it, and is never told to do anything again.
pub proof fn lemma_failed_bind_is_fatal(error: BindError, path: String, events: Seq<ServerEvent>)
    ensures
        state_after(ServerState::Failed(error), path, events) == ServerState::Failed(error),
        forall|event: ServerEvent| #[trigger]
            next_action(ServerState::Failed(error), path, event) == ServerAction::Nothing,
    decreases events.len(),
{
    if events.len() > 0 {
        lemma_failed_bind_is_fatal(error, path, events.drop_last());
    }
}

/// Shutdown is one-way. Once the termination signal has moved the server
/// out of serving it never accepts work again: it stays shutting down until
/// the requests in flight are done, then stays terminated.
pub proof fn lemma_shutdown_is_final(state: ServerState, path: String, events: Seq<ServerEvent>)
    requires
        stopping(state),
    ensures
        stopping(state_after(state, path, events)),
        state is Terminated ==> state_after(state, path, events) is Terminated,
        forall|event: ServerEvent| !(#[trigger] next_action(state, path, event) is Serve),
    decreases events.len(),
{
    if events.len() > 0 {
        lemma_shutdown_is_final(state, path, events.drop_last());
    }
}

} // verus!
