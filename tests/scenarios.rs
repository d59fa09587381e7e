use interop::assertion::{all_passed, Diagnostic, TestAssertion};
use interop::call::{CallError, Code, Status};
use interop::messages::{
    Empty, SimpleResponse, StreamingInputCallResponse, StreamingOutputCallResponse, LARGE_REQ_SIZE,
    LARGE_RSP_SIZE,
};
use interop::payload::{client_payload, Payload, PayloadType};
use interop::requests::{
    client_stream_requests, large_unary_request, ping_pong_request, ping_pong_request_sizes,
    server_streaming_request, status_request, streaming_response_sizes, trailing_metadata_value,
    ECHO_STATUS_CODE, ECHO_STATUS_MESSAGE,
};
use interop::scenario::{
    cacheable_assertions, concurrent_large_unary_assertions, custom_metadata_assertions,
    empty_unary_assertions, large_unary_assertions, EchoedMetadata,
};
use interop::status::{
    cancel_after_begin_assertions, cancel_after_first_response_assertions, status_assertions,
    timeout_assertions, unimplemented_assertions,
};
use interop::stream::{
    aggregated_size_matches, client_streaming_assertions, client_streaming_sizes,
    empty_stream_assertions, stream_sizes_assertions,
};

fn response_of(len: usize) -> SimpleResponse {
    SimpleResponse { payload: Some(client_payload(len)) }
}

fn chunk(len: usize) -> StreamingOutputCallResponse {
    StreamingOutputCallResponse { payload: Some(client_payload(len)) }
}

fn status(code: Code, message: &str) -> CallError {
    CallError::Status(Status { code, message: message.to_string() })
}

fn is_passed(a: &TestAssertion, text: &str) -> bool {
    matches!(a, TestAssertion::Passed { description } if *description == text)
}

#[test]
fn payload_has_requested_length() {
    for len in [0usize, 1, 8, 1828, 27182, LARGE_REQ_SIZE] {
        let p = client_payload(len);
        assert_eq!(p.body.len(), len);
        assert_eq!(p.type_, PayloadType::Compressable);
    }
}

#[test]
fn empty_unary_against_echoing_peer() {
    let r = empty_unary_assertions(Ok(Empty {}));
    assert_eq!(r.len(), 2);
    assert!(is_passed(&r[0], "call must be successful"));
    assert!(is_passed(&r[1], "body must not be null"));
}

#[test]
fn empty_unary_call_failure_stops_checks() {
    let r = empty_unary_assertions(Err(CallError::Transport("connection reset".to_string())));
    assert_eq!(r.len(), 1);
    match &r[0] {
        TestAssertion::Failed { description, expression, why } => {
            assert_eq!(*description, "call must be successful");
            assert_eq!(*expression, "result.is_ok()");
            assert!(matches!(why, Some(Diagnostic::CallFailed(CallError::Transport(t))) if t == "connection reset"));
        }
        _ => panic!("expected a failed assertion"),
    }
}

#[test]
fn large_unary_with_requested_size() {
    let r = large_unary_assertions(Ok(response_of(314159)), 314159);
    assert_eq!(r.len(), 2);
    assert!(is_passed(&r[0], "call must be successful"));
    assert!(is_passed(&r[1], "body size matches requested size"));
}

#[test]
fn large_unary_with_short_body() {
    let r = large_unary_assertions(Ok(response_of(100)), 314159);
    assert_eq!(r.len(), 2);
    assert!(is_passed(&r[0], "call must be successful"));
    match &r[1] {
        TestAssertion::Failed { description, why, .. } => {
            assert_eq!(*description, "body size matches requested size");
            assert!(matches!(why, Some(Diagnostic::Size { actual: 100, expected: 314159 })));
        }
        _ => panic!("expected a failed assertion"),
    }
}

#[test]
fn large_unary_without_payload_counts_zero_bytes() {
    let r = large_unary_assertions(Ok(SimpleResponse { payload: None }), 10);
    assert!(matches!(&r[1], TestAssertion::Failed { why: Some(Diagnostic::Size { actual: 0, expected: 10 }), .. }));
}

#[test]
fn large_unary_request_sizes() {
    let req = large_unary_request();
    assert_eq!(req.response_size, LARGE_RSP_SIZE);
    assert_eq!(req.response_size, 314159);
    assert_eq!(req.payload.unwrap().body.len(), 271828);
}

#[test]
fn client_streaming_sums_chunks() {
    let sizes = client_streaming_sizes();
    assert_eq!(sizes, vec![27182, 8, 1828, 45904]);
    let reqs = client_stream_requests(&sizes);
    let sent: Vec<usize> = reqs.iter().map(|r| r.payload.as_ref().unwrap().body.len()).collect();
    assert_eq!(sent, sizes);
    let r = client_streaming_assertions(Ok(StreamingInputCallResponse { aggregated_payload_size: 74922 }));
    assert_eq!(r.len(), 2);
    assert!(is_passed(&r[0], "call must be successful"));
    assert!(is_passed(&r[1], "aggregated payload size must be 74922 bytes"));
}

#[test]
fn client_streaming_wrong_total() {
    let r = client_streaming_assertions(Ok(StreamingInputCallResponse { aggregated_payload_size: 74921 }));
    assert!(matches!(&r[1], TestAssertion::Failed { why: Some(Diagnostic::Size { actual: 74921, expected: 74922 }), .. }));
}

#[test]
fn aggregated_size_is_order_independent_sum() {
    assert!(aggregated_size_matches(&vec![27182, 8, 1828, 45904], 74922));
    assert!(aggregated_size_matches(&vec![45904, 1828, 8, 27182], 74922));
    assert!(!aggregated_size_matches(&vec![27182, 8, 1828], 74922));
    assert!(aggregated_size_matches(&vec![], 0));
    assert!(!aggregated_size_matches(&vec![usize::MAX, 1], 0));
    assert!(!aggregated_size_matches(&vec![5], -5));
}

#[test]
fn server_streaming_exact_sizes_pass() {
    let sizes = streaming_response_sizes();
    let req = server_streaming_request(&sizes);
    let asked: Vec<i32> = req.response_parameters.iter().map(|p| p.size).collect();
    assert_eq!(asked, vec![31415, 9, 2653, 58979]);
    let resp = sizes.iter().map(|s| chunk(*s)).collect();
    let r = stream_sizes_assertions(Ok(resp), &sizes);
    assert_eq!(r.len(), 3);
    assert!(all_passed(&r));
}

#[test]
fn server_streaming_reordered_or_missing_fails() {
    let sizes = streaming_response_sizes();
    let reordered = vec![chunk(9), chunk(31415), chunk(2653), chunk(58979)];
    let r = stream_sizes_assertions(Ok(reordered), &sizes);
    assert!(r[1].passed());
    match &r[2] {
        TestAssertion::Failed { why: Some(Diagnostic::Sizes { actual, expected }), .. } => {
            assert_eq!(actual, &vec![9, 31415, 2653, 58979]);
            assert_eq!(expected, &vec![31415, 9, 2653, 58979]);
        }
        _ => panic!("expected a failed size check"),
    }
    let missing = vec![chunk(31415), chunk(9), chunk(2653)];
    let r = stream_sizes_assertions(Ok(missing), &sizes);
    assert!(!r[1].passed());
    assert!(!r[2].passed());
    let doubled = vec![chunk(31415), chunk(9), chunk(2653), chunk(58979), chunk(58979)];
    let r = stream_sizes_assertions(Ok(doubled), &sizes);
    assert!(!r[1].passed());
    assert!(!r[2].passed());
}

#[test]
fn ping_pong_rounds() {
    let req_sizes = ping_pong_request_sizes();
    let rsp_sizes = streaming_response_sizes();
    let req = ping_pong_request(req_sizes[0], rsp_sizes[0]);
    assert_eq!(req.payload.unwrap().body.len(), 27182);
    assert_eq!(req.response_parameters.len(), 1);
    assert_eq!(req.response_parameters[0].size, 31415);
    let resp = rsp_sizes.iter().map(|s| chunk(*s)).collect();
    assert!(all_passed(&stream_sizes_assertions(Ok(resp), &rsp_sizes)));
}

#[test]
fn empty_stream_checks() {
    let r = empty_stream_assertions(Ok(vec![]));
    assert!(all_passed(&r));
    assert_eq!(r.len(), 2);
    let r = empty_stream_assertions(Ok(vec![chunk(1)]));
    assert!(matches!(&r[1], TestAssertion::Failed { why: Some(Diagnostic::Size { actual: 1, expected: 0 }), .. }));
}

#[test]
fn status_code_and_message_expected_failure() {
    let req = status_request();
    let echo = req.response_status.unwrap();
    assert_eq!(echo.code, ECHO_STATUS_CODE);
    assert_eq!(echo.message, ECHO_STATUS_MESSAGE);
    let r = status_assertions::<Empty>(Err(status(Code::Unknown, "test status message")), Code::Unknown, ECHO_STATUS_MESSAGE);
    assert_eq!(r.len(), 3);
    assert!(all_passed(&r));
    assert!(is_passed(&r[0], "call must fail with the requested status"));
}

#[test]
fn status_code_and_message_mismatch_and_faults() {
    let r = status_assertions::<Empty>(Err(status(Code::Internal, "other")), Code::Unknown, ECHO_STATUS_MESSAGE);
    assert!(r[0].passed());
    assert!(matches!(&r[1], TestAssertion::Failed { why: Some(Diagnostic::StatusCode { actual: Code::Internal, expected: Code::Unknown }), .. }));
    assert!(matches!(&r[2], TestAssertion::Failed { why: Some(Diagnostic::Text { expected: "test status message", .. }), .. }));
    let r = status_assertions::<Empty>(Err(CallError::Transport("reset".to_string())), Code::Unknown, ECHO_STATUS_MESSAGE);
    assert_eq!(r.len(), 1);
    assert!(matches!(&r[0], TestAssertion::Errored { .. }));
    let r = status_assertions(Ok(Empty {}), Code::Unknown, ECHO_STATUS_MESSAGE);
    assert_eq!(r.len(), 1);
    assert!(matches!(&r[0], TestAssertion::Failed { why: Some(Diagnostic::CallSucceeded), .. }));
}

#[test]
fn unimplemented_and_timeout() {
    assert!(unimplemented_assertions::<Empty>(Err(status(Code::Unimplemented, "")))[0].passed());
    assert!(!unimplemented_assertions::<Empty>(Err(status(Code::NotFound, "")))[0].passed());
    assert!(!unimplemented_assertions(Ok(Empty {}))[0].passed());
    assert!(timeout_assertions::<Empty>(Err(status(Code::DeadlineExceeded, "")))[0].passed());
    assert!(!timeout_assertions(Ok(Empty {}))[0].passed());
}

#[test]
fn cancellation_is_distinct() {
    assert!(cancel_after_begin_assertions::<Empty>(Err(CallError::Cancelled))[0].passed());
    assert!(matches!(&cancel_after_begin_assertions(Ok(Empty {}))[0], TestAssertion::Failed { why: Some(Diagnostic::CallSucceeded), .. }));
    assert!(matches!(&cancel_after_begin_assertions::<Empty>(Err(status(Code::Cancelled, "")))[0], TestAssertion::Failed { why: Some(Diagnostic::CallFailed(_)), .. }));
    let r = cancel_after_first_response_assertions::<Empty>(Ok(chunk(31415)), Err(CallError::Cancelled));
    assert_eq!(r.len(), 2);
    assert!(all_passed(&r));
    let r = cancel_after_first_response_assertions(Ok(chunk(31415)), Ok(Empty {}));
    assert!(!r[1].passed());
}

#[test]
fn custom_metadata_echo() {
    let initial = b"test_initial_metadata_value".to_vec();
    let trailing = trailing_metadata_value();
    assert_eq!(trailing, vec![0xab, 0xab, 0xab]);
    let echoed = EchoedMetadata { initial: Some(initial.clone()), trailing: Some(trailing.clone()) };
    assert!(all_passed(&custom_metadata_assertions(Ok(echoed), initial.clone(), trailing.clone())));
    let echoed = EchoedMetadata { initial: Some(initial.clone()), trailing: None };
    let r = custom_metadata_assertions(Ok(echoed), initial, trailing);
    assert!(r[1].passed());
    assert!(!r[2].passed());
}

#[test]
fn cacheable_responses_compared() {
    let body = |b: &[u8]| SimpleResponse { payload: Some(Payload { type_: PayloadType::Compressable, body: b.to_vec() }) };
    let r = cacheable_assertions(Ok(body(b"t1")), Ok(body(b"t1")));
    assert_eq!(r.len(), 3);
    assert!(all_passed(&r));
    let r = cacheable_assertions(Ok(body(b"t1")), Ok(body(b"t2")));
    assert!(!r[2].passed());
    let r = cacheable_assertions(Ok(body(b"t1")), Err(CallError::Cancelled));
    assert_eq!(r.len(), 2);
    assert!(!r[1].passed());
}

#[test]
fn concurrent_calls_checked_independently() {
    let r = concurrent_large_unary_assertions(
        vec![Ok(response_of(314159)), Ok(response_of(5)), Err(CallError::Cancelled)],
        314159,
    );
    assert_eq!(r.len(), 5);
    assert!(r[0].passed() && r[1].passed() && r[2].passed());
    assert!(!r[3].passed());
    assert!(!r[4].passed());
}
