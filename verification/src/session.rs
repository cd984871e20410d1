use vstd::prelude::*;

verus! {

/// Delay in milliseconds before the dashboard session attempts to
/// reconnect to the pipeline's API server.
pub const RECONNECT_DELAY: u64 = 5000;

/// How the dashboard command exits: cleanly, with an input/output
/// fault, or because the API server cannot be reached.
#[derive(Clone, Copy, Debug, PartialEq, Eq, Structural)]
pub enum ExitStatus {
    Success,
    IoError,
    Unavailable,
}

impl ExitStatus {
    /// The conventional process exit code for this outcome.
    pub fn code(&self) -> (r: i32)
        ensures
            *self is Success ==> r == 0,
            *self is IoError ==> r == 74,
            *self is Unavailable ==> r == 69,
    {
        match self {
            ExitStatus::Success => 0,
            ExitStatus::IoError => 74,
            ExitStatus::Unavailable => 69,
        }
    }
}

/// What the dashboard command decides before any session starts: it
/// refuses to run outside a teletype, and refuses to continue when the
/// API server fails its health check.
pub fn cmd_precheck(is_tty: bool, healthcheck_ok: bool) -> (r: Option<ExitStatus>)
    ensures
        !is_tty ==> r == Some(ExitStatus::IoError),
        is_tty && !healthcheck_ok ==> r == Some(ExitStatus::Unavailable),
        is_tty && healthcheck_ok ==> r is None,
{
    if !is_tty {
        Some(ExitStatus::IoError)
    } else if !healthcheck_ok {
        Some(ExitStatus::Unavailable)
    } else {
        None
    }
}

/// Where the reconnect session stands: about to fetch the initial
/// component state, about to open the subscription connection,
/// streaming updates, or finished for good.
#[derive(Clone, Copy, Debug, PartialEq, Eq, Structural)]
pub enum SessionState {
    Initializing,
    Connecting,
    Streaming,
    Finished,
}

/// What the outside work reported back for the pending step of the
/// session. A successful connection carries the timestamp the runner
/// observed, in nanoseconds since the Unix epoch.
#[derive(Clone, Copy, Debug, PartialEq, Eq, Structural)]
pub enum SessionEvent {
    InitSucceeded,
    InitFailed,
    ConnectSucceeded { connected_at: i64 },
    ConnectFailed,
    StreamsFinished,
}

/// What the runner must do next: wait before retrying, publish the
/// freshly fetched component state, announce the connection with its
/// timestamp and await the streams, announce the disconnect (and stop
/// for good when the session does not reconnect), or nothing when an
/// event does not belong to the current state.
#[derive(Clone, Copy, Debug, PartialEq, Eq, Structural)]
pub enum SessionAction {
    Backoff { delay_ms: u64 },
    PublishInitialState,
    AnnounceConnected { connected_at: i64 },
    AnnounceDisconnected { delay_ms: u64, shutdown: bool },
    Ignore,
}

/// One decision of the reconnect session, from state and event to the
/// next state and the action the runner performs. The runner owns all
/// outside work: fetching state, connecting, sleeping, sending updates.
pub fn session_step(state: SessionState, event: SessionEvent, no_reconnect: bool) -> (r: (
    SessionState,
    SessionAction,
))
    ensures
        state is Initializing && event is InitFailed ==> r == (
            SessionState::Initializing,
            SessionAction::Backoff { delay_ms: RECONNECT_DELAY },
        ),
        state is Initializing && event is InitSucceeded ==> r == (
            SessionState::Connecting,
            SessionAction::PublishInitialState,
        ),
        state is Connecting && event is ConnectFailed ==> r == (
            SessionState::Initializing,
            SessionAction::Backoff { delay_ms: RECONNECT_DELAY },
        ),
        state is Connecting && event is ConnectSucceeded ==> r == (
            SessionState::Streaming,
            SessionAction::AnnounceConnected {
                connected_at: event->ConnectSucceeded_connected_at,
            },
        ),
        state is Streaming && event is StreamsFinished ==> r == (
            if no_reconnect {
                SessionState::Finished
            } else {
                SessionState::Initializing
            },
            SessionAction::AnnounceDisconnected {
                delay_ms: RECONNECT_DELAY,
                shutdown: no_reconnect,
            },
        ),
        !event_fits(state, event) ==> r == (state, SessionAction::Ignore),
{
    match (state, event) {
        (SessionState::Initializing, SessionEvent::InitFailed) => (
            SessionState::Initializing,
            SessionAction::Backoff { delay_ms: RECONNECT_DELAY },
        ),
        (SessionState::Initializing, SessionEvent::InitSucceeded) => (
            SessionState::Connecting,
            SessionAction::PublishInitialState,
        ),
        (SessionState::Connecting, SessionEvent::ConnectFailed) => (
            SessionState::Initializing,
            SessionAction::Backoff { delay_ms: RECONNECT_DELAY },
        ),
        (SessionState::Connecting, SessionEvent::ConnectSucceeded { connected_at }) => (
            SessionState::Streaming,
            SessionAction::AnnounceConnected { connected_at },
        ),
        (SessionState::Streaming, SessionEvent::StreamsFinished) => (
            if no_reconnect {
                SessionState::Finished
            } else {
                SessionState::Initializing
            },
            SessionAction::AnnounceDisconnected {
                delay_ms: RECONNECT_DELAY,
                shutdown: no_reconnect,
            },
        ),
        _ => (state, SessionAction::Ignore),
    }
}

/// The events that belong to each state: each state awaits the outcome
/// of exactly one kind of outside work.
pub open spec fn event_fits(state: SessionState, event: SessionEvent) -> bool {
    match state {
        SessionState::Initializing => event is InitSucceeded || event is InitFailed,
        SessionState::Connecting => event is ConnectSucceeded || event is ConnectFailed,
        SessionState::Streaming => event is StreamsFinished,
        SessionState::Finished => false,
    }
}

/// How the dashboard command exits once the session is over: cleanly
/// when the dashboard ran and shut down, with an input/output fault
/// when rendering failed.
pub fn cmd_exit(dashboard_ok: bool) -> (r: ExitStatus)
    ensures
        dashboard_ok ==> r is Success,
        !dashboard_ok ==> r is IoError,
{
    if dashboard_ok {
        ExitStatus::Success
    } else {
        ExitStatus::IoError
    }
}

} // verus!
