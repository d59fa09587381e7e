use vstd::prelude::*;
use crate::messages::{
    body_len, EchoStatus, ResponseParameters, SimpleRequest, StreamingInputCallRequest,
    StreamingOutputCallRequest, LARGE_REQ_SIZE, LARGE_RSP_SIZE,
};
use crate::payload::{client_payload, Payload, PayloadType};

verus! {

/// Status code that the status scenario asks the server to answer with (UNKNOWN).
pub const ECHO_STATUS_CODE: i32 = 2;
/// Status message that the status scenario asks the server to answer with.
pub const ECHO_STATUS_MESSAGE: &'static str = "test status message";
/// Key of the leading metadata that the custom metadata scenario sends.
pub const INITIAL_METADATA_KEY: &'static str = "x-grpc-test-echo-initial";
/// Value of the leading metadata that the custom metadata scenario sends.
pub const INITIAL_METADATA_VALUE: &'static str = "test_initial_metadata_value";
/// Key of the trailing metadata that the custom metadata scenario sends.
pub const TRAILING_METADATA_KEY: &'static str = "x-grpc-test-echo-trailing-bin";

/// Value of the trailing metadata that the custom metadata scenario sends.
pub fn trailing_metadata_value() -> (r: Vec<u8>)
    ensures
        r@ == seq![0xabu8, 0xab, 0xab],
{
    vec![0xab, 0xab, 0xab]
}

/// The request of the large unary call: a payload of `LARGE_REQ_SIZE` bytes,
/// asking for `LARGE_RSP_SIZE` bytes back.
pub fn large_unary_request() -> (r: SimpleRequest)
    ensures
        r.response_type == PayloadType::Compressable,
        r.response_size == LARGE_RSP_SIZE,
        r.payload is Some,
        body_len(r.payload) == LARGE_REQ_SIZE,
        r.response_status is None,
{
    SimpleRequest {
        response_type: PayloadType::Compressable,
        response_size: LARGE_RSP_SIZE,
        payload: Some(client_payload(LARGE_REQ_SIZE)),
        response_status: None,
    }
}

/// The request of a cacheable unary call: a payload made of `body`, which
/// the caller makes distinct from run to run (a timestamp).
pub fn cacheable_request(body: Vec<u8>) -> (r: SimpleRequest)
    ensures
        r.response_type == PayloadType::Compressable,
        r.response_size == 0,
        r.payload == Some(Payload { type_: PayloadType::Compressable, body }),
        r.response_status is None,
{
    SimpleRequest {
        response_type: PayloadType::Compressable,
        response_size: 0,
        payload: Some(Payload { type_: PayloadType::Compressable, body }),
        response_status: None,
    }
}

/// The request that asks the server to fail with a given status.
pub fn status_request() -> (r: SimpleRequest)
    ensures
        r.response_type == PayloadType::Compressable,
        r.response_size == 1,
        body_len(r.payload) == 1,
        r.response_status matches Some(s) && s.code == ECHO_STATUS_CODE && s.message@
            == ECHO_STATUS_MESSAGE@,
{
    SimpleRequest {
        response_type: PayloadType::Compressable,
        response_size: 1,
        payload: Some(client_payload(1)),
        response_status: Some(
            EchoStatus { code: ECHO_STATUS_CODE, message: ECHO_STATUS_MESSAGE.to_owned() },
        ),
    }
}

/// The messages of a client stream: one payload per size, in order.
pub fn client_stream_requests(sizes: &Vec<usize>) -> (r: Vec<StreamingInputCallRequest>)
    ensures
        r@.len() == sizes@.len(),
        forall|i: int|
            0 <= i < sizes@.len() ==> (#[trigger] r@[i]).payload is Some && body_len(r@[i].payload)
                == sizes@[i],
{
    let mut out: Vec<StreamingInputCallRequest> = Vec::new();
    let mut i: usize = 0;
    while i < sizes.len()
        invariant
            i <= sizes@.len(),
            out@.len() == i,
            forall|j: int|
                0 <= j < i ==> (#[trigger] out@[j]).payload is Some && body_len(out@[j].payload)
                    == sizes@[j],
        decreases sizes@.len() - i,
    {
        out.push(StreamingInputCallRequest { payload: Some(client_payload(sizes[i])) });
        i = i + 1;
    }
    out
}

/// The response sizes that the server streaming and ping pong scenarios ask for.
pub fn streaming_response_sizes() -> (r: Vec<usize>)
    ensures
        r@ == seq![31415usize, 9, 2653, 58979],
{
    vec![31415, 9, 2653, 58979]
}

/// The request of a server stream: one response per size, in order.
pub fn server_streaming_request(sizes: &Vec<usize>) -> (r: StreamingOutputCallRequest)
    requires
        forall|i: int| 0 <= i < sizes@.len() ==> sizes@[i] <= i32::MAX,
    ensures
        r.response_type == PayloadType::Compressable,
        r.payload is None,
        r.response_status is None,
        r.response_parameters@.len() == sizes@.len(),
        forall|i: int|
            0 <= i < sizes@.len() ==> (#[trigger] r.response_parameters@[i]).size == sizes@[i]
                && r.response_parameters@[i].interval_us == 0,
{
    let mut params: Vec<ResponseParameters> = Vec::new();
    let mut i: usize = 0;
    while i < sizes.len()
        invariant
            i <= sizes@.len(),
            forall|j: int| 0 <= j < sizes@.len() ==> sizes@[j] <= i32::MAX,
            params@.len() == i,
            forall|j: int|
                0 <= j < i ==> (#[trigger] params@[j]).size == sizes@[j] && params@[j].interval_us
                    == 0,
        decreases sizes@.len() - i,
    {
        params.push(ResponseParameters { size: sizes[i] as i32, interval_us: 0 });
        i = i + 1;
    }
    StreamingOutputCallRequest {
        response_type: PayloadType::Compressable,
        response_parameters: params,
        payload: None,
        response_status: None,
    }
}

/// The request sizes of the ping pong rounds.
pub fn ping_pong_request_sizes() -> (r: Vec<usize>)
    ensures
        r@ == seq![27182usize, 8, 1828, 45904],
{
    vec![27182, 8, 1828, 45904]
}

/// The request of one ping pong round: a payload of the round's request size,
/// asking for one response of the round's response size.
pub fn ping_pong_request(request_size: usize, response_size: usize) -> (r: StreamingOutputCallRequest)
    requires
        response_size <= i32::MAX,
    ensures
        r.response_type == PayloadType::Compressable,
        r.payload is Some,
        body_len(r.payload) == request_size,
        r.response_status is None,
        r.response_parameters@.len() == 1,
        r.response_parameters@[0].size == response_size,
        r.response_parameters@[0].interval_us == 0,
{
    StreamingOutputCallRequest {
        response_type: PayloadType::Compressable,
        response_parameters: vec![ResponseParameters { size: response_size as i32, interval_us: 0 }],
        payload: Some(client_payload(request_size)),
        response_status: None,
    }
}

} // verus!
