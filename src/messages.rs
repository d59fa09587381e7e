use vstd::prelude::*;
use crate::payload::{Payload, PayloadType};

verus! {

/// Request size of the large unary call, in bytes.
pub const LARGE_REQ_SIZE: usize = 271828;

/// Response size asked for by the large unary call, in bytes.
pub const LARGE_RSP_SIZE: i32 = 314159;

/// The empty message.
#[derive(Clone, Copy, Debug, PartialEq, Eq, Structural)]
pub struct Empty {}

/// A status the server is asked to answer with.
#[derive(Clone, Debug)]
pub struct EchoStatus {
    pub code: i32,
    pub message: String,
}

/// A unary request.
#[derive(Clone, Debug)]
pub struct SimpleRequest {
    pub response_type: PayloadType,
    pub response_size: i32,
    pub payload: Option<Payload>,
    pub response_status: Option<EchoStatus>,
}

/// A unary response.
#[derive(Clone, Debug)]
pub struct SimpleResponse {
    pub payload: Option<Payload>,
}

/// One message of a client stream.
#[derive(Clone, Debug)]
pub struct StreamingInputCallRequest {
    pub payload: Option<Payload>,
}

/// The answer to a client stream.
#[derive(Clone, Copy, Debug)]
pub struct StreamingInputCallResponse {
    pub aggregated_payload_size: i32,
}

/// The size of one response of a server stream.
#[derive(Clone, Copy, Debug)]
pub struct ResponseParameters {
    pub size: i32,
    pub interval_us: i32,
}

/// A request for a server stream (or one round of a bidirectional one).
#[derive(Clone, Debug)]
pub struct StreamingOutputCallRequest {
    pub response_type: PayloadType,
    pub response_parameters: Vec<ResponseParameters>,
    pub payload: Option<Payload>,
    pub response_status: Option<EchoStatus>,
}

/// One message of a server stream.
#[derive(Clone, Debug)]
pub struct StreamingOutputCallResponse {
    pub payload: Option<Payload>,
}

/// Length of the body of an optional payload; a missing payload has none.
pub open spec fn body_len(p: Option<Payload>) -> nat {
    match p {
        Some(p) => p.body@.len(),
        None => 0,
    }
}

/// Computes `body_len`.
pub fn payload_len(p: &Option<Payload>) -> (r: usize)
    ensures
        r == body_len(*p),
{
    match p {
        Some(p) => p.body.len(),
        None => 0,
    }
}

} // verus!
