use vstd::prelude::*;

verus! {

/// Error kinds of the agent, as surfaced to callers of the control plane.
#[derive(Clone, Copy, Debug, PartialEq, Eq, Structural)]
pub enum ErrorKind {
    /// The caller's arguments were rejected; nothing happened.
    InvalidArgument,
    /// The addressed workload is not registered.
    NotFound,
    /// The workload id is already registered.
    AlreadyExists,
    /// The command is not valid in the workload's current state.
    InvalidState,
    /// The hypervisor or OCI runtime returned non-success.
    BackendRejected,
    /// The hypervisor API socket did not appear within the deadline.
    SocketTimeout,
    /// The in-guest agent could not be reached over vsock.
    GuestAgentUnreachable,
    /// The prefix pool has no free sub-prefix of the requested length.
    PoolExhausted,
    /// A bounded command channel would have blocked for too long.
    Busy,
    /// File I/O, parsing, or any other internal failure.
    Internal,
}

/// Structured RPC status codes used by the API facade.
#[derive(Clone, Copy, Debug, PartialEq, Eq, Structural)]
pub enum StatusCode {
    InvalidArgument,
    NotFound,
    AlreadyExists,
    FailedPrecondition,
    Internal,
    Unavailable,
    ResourceExhausted,
}

/// The mapping from internal error kinds to RPC status codes.
pub open spec fn spec_status_of(e: ErrorKind) -> StatusCode {
    match e {
        ErrorKind::InvalidArgument => StatusCode::InvalidArgument,
        ErrorKind::NotFound => StatusCode::NotFound,
        ErrorKind::AlreadyExists => StatusCode::AlreadyExists,
        ErrorKind::InvalidState => StatusCode::FailedPrecondition,
        ErrorKind::BackendRejected => StatusCode::Internal,
        ErrorKind::SocketTimeout => StatusCode::Unavailable,
        ErrorKind::GuestAgentUnreachable => StatusCode::Unavailable,
        ErrorKind::PoolExhausted => StatusCode::ResourceExhausted,
        ErrorKind::Busy => StatusCode::Unavailable,
        ErrorKind::Internal => StatusCode::Internal,
    }
}

/// Maps an internal error kind onto the RPC status code the API returns.
pub fn status_of(e: ErrorKind) -> (r: StatusCode)
    ensures
        r == spec_status_of(e),
{
    match e {
        ErrorKind::InvalidArgument => StatusCode::InvalidArgument,
        ErrorKind::NotFound => StatusCode::NotFound,
        ErrorKind::AlreadyExists => StatusCode::AlreadyExists,
        ErrorKind::InvalidState => StatusCode::FailedPrecondition,
        ErrorKind::BackendRejected => StatusCode::Internal,
        ErrorKind::SocketTimeout => StatusCode::Unavailable,
        ErrorKind::GuestAgentUnreachable => StatusCode::Unavailable,
        ErrorKind::PoolExhausted => StatusCode::ResourceExhausted,
        ErrorKind::Busy => StatusCode::Unavailable,
        ErrorKind::Internal => StatusCode::Internal,
    }
}

/// A short diagnostic name for an error kind.
pub fn error_name(e: ErrorKind) -> (r: &'static str)
    ensures
        r@.len() > 0,
{
    proof {
        reveal_strlit("invalid argument");
        reveal_strlit("not found");
        reveal_strlit("already exists");
        reveal_strlit("invalid state");
        reveal_strlit("backend rejected");
        reveal_strlit("socket timeout");
        reveal_strlit("guest agent unreachable");
        reveal_strlit("pool exhausted");
        reveal_strlit("busy");
        reveal_strlit("internal");
    }
    match e {
        ErrorKind::InvalidArgument => "invalid argument",
        ErrorKind::NotFound => "not found",
        ErrorKind::AlreadyExists => "already exists",
        ErrorKind::InvalidState => "invalid state",
        ErrorKind::BackendRejected => "backend rejected",
        ErrorKind::SocketTimeout => "socket timeout",
        ErrorKind::GuestAgentUnreachable => "guest agent unreachable",
        ErrorKind::PoolExhausted => "pool exhausted",
        ErrorKind::Busy => "busy",
        ErrorKind::Internal => "internal",
    }
}

} // verus!
