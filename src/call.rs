use vstd::prelude::*;

verus! {

/// The canonical status codes of a gRPC call (`Success` is code 0, "OK").
#[derive(Clone, Copy, Debug, PartialEq, Eq, Structural)]
pub enum Code {
    Success,
    Cancelled,
    Unknown,
    InvalidArgument,
    DeadlineExceeded,
    NotFound,
    AlreadyExists,
    PermissionDenied,
    ResourceExhausted,
    FailedPrecondition,
    Aborted,
    OutOfRange,
    Unimplemented,
    Internal,
    Unavailable,
    DataLoss,
    Unauthenticated,
}

/// A status returned by the peer: a code and a message.
#[derive(Clone, Debug)]
pub struct Status {
    pub code: Code,
    pub message: String,
}

/// How a call ended when it did not complete normally.
#[derive(Clone, Debug)]
pub enum CallError {
    /// The peer answered with a non-OK status.
    Status(Status),
    /// The transport failed (connection reset, protocol violation, ...);
    /// the text describes the fault.
    Transport(String),
    /// The call was cancelled by the client.
    Cancelled,
}

} // verus!
