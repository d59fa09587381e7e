use vstd::prelude::*;
use crate::assertion::{check, verdict, Diagnostic, TestAssertion};
use crate::call::CallError;
use crate::messages::{
    body_len, payload_len, Empty, SimpleResponse, StreamingInputCallResponse,
};

verus! {

pub const CALL_SUCCESSFUL: &'static str = "call must be successful";
pub const CALL_IS_OK: &'static str = "result.is_ok()";
pub const BODY_NOT_NULL: &'static str = "body must not be null";
pub const BODY_IS_EMPTY: &'static str = "body == Empty {}";
pub const BODY_SIZE: &'static str = "body size matches requested size";
pub const BODY_SIZE_IS_REQUESTED: &'static str = "body.payload.body.len() == response_size";

/// The leading assertion of a scenario: the call completed normally.
pub open spec fn call_verdict<T>(result: Result<T, CallError>) -> TestAssertion {
    match result {
        Ok(_) => TestAssertion::Passed { description: CALL_SUCCESSFUL },
        Err(e) => TestAssertion::Failed {
            description: CALL_SUCCESSFUL,
            expression: CALL_IS_OK,
            why: Some(Diagnostic::CallFailed(e)),
        },
    }
}

/// Splits a call's result into its leading assertion and its response.
pub fn call_assertion<T>(result: Result<T, CallError>) -> (r: (TestAssertion, Option<T>))
    ensures
        r.0 == call_verdict(result),
        r.1 == match result {
            Ok(v) => Some(v),
            Err(_) => None::<T>,
        },
{
    match result {
        Ok(v) => (TestAssertion::Passed { description: CALL_SUCCESSFUL }, Some(v)),
        Err(e) => (
            TestAssertion::Failed {
                description: CALL_SUCCESSFUL,
                expression: CALL_IS_OK,
                why: Some(Diagnostic::CallFailed(e)),
            },
            None,
        ),
    }
}

/// What the empty unary scenario yields for a call's result.
pub open spec fn empty_unary_spec(result: Result<Empty, CallError>) -> Seq<TestAssertion> {
    match result {
        Ok(_) => seq![
            call_verdict(result),
            TestAssertion::Passed { description: BODY_NOT_NULL },
        ],
        Err(_) => seq![call_verdict(result)],
    }
}

/// Evaluates the empty unary call: it succeeds and answers the empty message.
pub fn empty_unary_assertions(result: Result<Empty, CallError>) -> (r: Vec<TestAssertion>)
    ensures
        r@ == empty_unary_spec(result),
{
    let (lead, body) = call_assertion(result);
    let mut assertions = vec![lead];
    if let Some(body) = body {
        if body == (Empty {}) {
            assertions.push(TestAssertion::Passed { description: BODY_NOT_NULL });
        } else {
            assertions.push(
                TestAssertion::Failed { description: BODY_NOT_NULL, expression: BODY_IS_EMPTY, why: None },
            );
        }
    }
    assertions
}

/// What the large unary scenario yields when `requested` bytes were asked for.
pub open spec fn large_unary_spec(
    result: Result<SimpleResponse, CallError>,
    requested: usize,
) -> Seq<TestAssertion> {
    match result {
        Ok(body) => seq![
            call_verdict(result),
            verdict(
                BODY_SIZE,
                BODY_SIZE_IS_REQUESTED,
                body_len(body.payload) == requested,
                Diagnostic::Size {
                    actual: body_len(body.payload) as i64,
                    expected: requested as i64,
                },
            ),
        ],
        Err(_) => seq![call_verdict(result)],
    }
}

/// Evaluates a large unary call: it succeeds, and the payload of the
/// response holds exactly the requested number of bytes.
pub fn large_unary_assertions(result: Result<SimpleResponse, CallError>, requested: usize) -> (r:
    Vec<TestAssertion>)
    ensures
        r@ == large_unary_spec(result, requested),
{
    let (lead, body) = call_assertion(result);
    let mut assertions = vec![lead];
    if let Some(body) = body {
        let len = payload_len(&body.payload);
        let why = Diagnostic::Size { actual: len as i64, expected: requested as i64 };
        assertions.push(check(BODY_SIZE, BODY_SIZE_IS_REQUESTED, len == requested, why));
    }
    assertions
}

pub const INITIAL_ECHOED: &'static str = "leading metadata must echo the value sent";
pub const INITIAL_IS_SENT: &'static str = "initial_metadata == sent initial value";
pub const TRAILING_ECHOED: &'static str = "trailing metadata must echo the value sent";
pub const TRAILING_IS_SENT: &'static str = "trailing_metadata == sent trailing value";
pub const SECOND_CALL_SUCCESSFUL: &'static str = "second call must be successful";
pub const RESPONSES_IDENTICAL: &'static str = "cached response must match the first";
pub const RESPONSES_ARE_IDENTICAL: &'static str = "second.payload == first.payload";

/// The metadata values that the peer echoed back, as received.
#[derive(Clone, Debug)]
pub struct EchoedMetadata {
    pub initial: Option<Vec<u8>>,
    pub trailing: Option<Vec<u8>>,
}

/// The bytes of an optional value; a missing value has none.
pub open spec fn bytes_of(v: Option<Vec<u8>>) -> Option<Seq<u8>> {
    match v {
        Some(b) => Some(b@),
        None => None,
    }
}

/// Whether two byte strings are the same.
pub fn bytes_eq(a: &Vec<u8>, b: &Vec<u8>) -> (r: bool)
    ensures
        r == (a@ == b@),
{
    if a.len() != b.len() {
        return false;
    }
    let mut i: usize = 0;
    while i < a.len()
        invariant
            a@.len() == b@.len(),
            i <= a@.len(),
            forall|j: int| 0 <= j < i ==> a@[j] == b@[j],
        decreases a@.len() - i,
    {
        if a[i] != b[i] {
            return false;
        }
        i = i + 1;
    }
    assert(a@ =~= b@);
    true
}

/// Whether an optional byte string is present and equal to `b`.
fn echoes(a: &Option<Vec<u8>>, b: &Vec<u8>) -> (r: bool)
    ensures
        r == (bytes_of(*a) == Some(b@)),
{
    match a {
        Some(a) => bytes_eq(a, b),
        None => false,
    }
}

/// What the custom metadata scenario yields: the call succeeds, and both
/// values come back as they were sent.
pub open spec fn custom_metadata_spec(
    result: Result<EchoedMetadata, CallError>,
    initial: Vec<u8>,
    trailing: Vec<u8>,
) -> Seq<TestAssertion> {
    match result {
        Ok(m) => seq![
            call_verdict(result),
            verdict(
                INITIAL_ECHOED,
                INITIAL_IS_SENT,
                bytes_of(m.initial) == Some(initial@),
                Diagnostic::Bytes { actual: m.initial, expected: Some(initial) },
            ),
            verdict(
                TRAILING_ECHOED,
                TRAILING_IS_SENT,
                bytes_of(m.trailing) == Some(trailing@),
                Diagnostic::Bytes { actual: m.trailing, expected: Some(trailing) },
            ),
        ],
        Err(_) => seq![call_verdict(result)],
    }
}

/// Evaluates a call that sent `initial` as leading and `trailing` as
/// trailing metadata.
pub fn custom_metadata_assertions(
    result: Result<EchoedMetadata, CallError>,
    initial: Vec<u8>,
    trailing: Vec<u8>,
) -> (r: Vec<TestAssertion>)
    ensures
        r@ == custom_metadata_spec(result, initial, trailing),
{
    let (lead, echoed) = call_assertion(result);
    let mut assertions = vec![lead];
    if let Some(m) = echoed {
        let holds = echoes(&m.initial, &initial);
        let why = Diagnostic::Bytes { actual: m.initial, expected: Some(initial) };
        assertions.push(check(INITIAL_ECHOED, INITIAL_IS_SENT, holds, why));
        let holds = echoes(&m.trailing, &trailing);
        let why = Diagnostic::Bytes { actual: m.trailing, expected: Some(trailing) };
        assertions.push(check(TRAILING_ECHOED, TRAILING_IS_SENT, holds, why));
    }
    assertions
}

/// The body of a response's payload, if it has one.
pub open spec fn payload_body(r: SimpleResponse) -> Option<Vec<u8>> {
    match r.payload {
        Some(p) => Some(p.body),
        None => None,
    }
}

/// What the cacheable unary scenario yields for two identical calls: both
/// succeed, and the second answers the same payload as the first.
pub open spec fn cacheable_spec(
    first: Result<SimpleResponse, CallError>,
    second: Result<SimpleResponse, CallError>,
) -> Seq<TestAssertion> {
    match (first, second) {
        (Ok(a), Ok(b)) => seq![
            call_verdict(first),
            TestAssertion::Passed { description: SECOND_CALL_SUCCESSFUL },
            verdict(
                RESPONSES_IDENTICAL,
                RESPONSES_ARE_IDENTICAL,
                bytes_of(payload_body(b)) == bytes_of(payload_body(a)),
                Diagnostic::Bytes { actual: payload_body(b), expected: payload_body(a) },
            ),
        ],
        (Ok(_), Err(e)) => seq![
            call_verdict(first),
            TestAssertion::Failed {
                description: SECOND_CALL_SUCCESSFUL,
                expression: CALL_IS_OK,
                why: Some(Diagnostic::CallFailed(e)),
            },
        ],
        (Err(_), _) => seq![call_verdict(first)],
    }
}

/// The body of a response's payload, taken out of it.
fn take_body(r: SimpleResponse) -> (b: Option<Vec<u8>>)
    ensures
        b == payload_body(r),
{
    match r.payload {
        Some(p) => Some(p.body),
        None => None,
    }
}

/// Whether two optional byte strings hold the same bytes.
fn same_bytes(a: &Option<Vec<u8>>, b: &Option<Vec<u8>>) -> (r: bool)
    ensures
        r == (bytes_of(*a) == bytes_of(*b)),
{
    match (a, b) {
        (Some(x), Some(y)) => bytes_eq(x, y),
        (None, None) => true,
        _ => false,
    }
}

/// Evaluates two identical cacheable calls.
pub fn cacheable_assertions(
    first: Result<SimpleResponse, CallError>,
    second: Result<SimpleResponse, CallError>,
) -> (r: Vec<TestAssertion>)
    ensures
        r@ == cacheable_spec(first, second),
{
    let (lead, a) = call_assertion(first);
    let mut assertions = vec![lead];
    if let Some(a) = a {
        match second {
            Ok(b) => {
                assertions.push(TestAssertion::Passed { description: SECOND_CALL_SUCCESSFUL });
                let a = take_body(a);
                let b = take_body(b);
                let holds = same_bytes(&b, &a);
                let why = Diagnostic::Bytes { actual: b, expected: a };
                assertions.push(check(RESPONSES_IDENTICAL, RESPONSES_ARE_IDENTICAL, holds, why));
            },
            Err(e) => {
                assertions.push(
                    TestAssertion::Failed {
                        description: SECOND_CALL_SUCCESSFUL,
                        expression: CALL_IS_OK,
                        why: Some(Diagnostic::CallFailed(e)),
                    },
                );
            },
        }
    }
    assertions
}

/// The large unary assertions of each call, one call after the other.
pub open spec fn concurrent_spec(results: Seq<Result<SimpleResponse, CallError>>, requested: usize) -> Seq<
    TestAssertion,
>
    decreases results.len(),
{
    if results.len() == 0 {
        Seq::empty()
    } else {
        concurrent_spec(results.drop_last(), requested) + large_unary_spec(results.last(), requested)
    }
}

/// Evaluates large unary calls issued at once: each must meet the large
/// unary checks on its own; their assertions follow the order of `results`.
pub fn concurrent_large_unary_assertions(
    results: Vec<Result<SimpleResponse, CallError>>,
    requested: usize,
) -> (r: Vec<TestAssertion>)
    ensures
        r@ == concurrent_spec(results@, requested),
{
    let ghost all = results@;
    let mut rest = results;
    let mut assertions: Vec<TestAssertion> = Vec::new();
    let ghost mut i: int = 0;
    while rest.len() > 0
        invariant
            0 <= i <= all.len(),
            rest@ == all.skip(i),
            assertions@ == concurrent_spec(all.take(i), requested),
        decreases rest@.len(),
    {
        let result = rest.remove(0);
        let mut more = large_unary_assertions(result, requested);
        proof {
            assert(all.take(i + 1).drop_last() =~= all.take(i));
            assert(rest@ =~= all.skip(i + 1));
        }
        assertions.append(&mut more);
        proof {
            i = i + 1;
        }
    }
    proof {
        assert(all.take(i) =~= all);
    }
    assertions
}

} // verus!
