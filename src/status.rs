use vstd::prelude::*;
use crate::assertion::{check, verdict, Diagnostic, TestAssertion};
use crate::call::{CallError, Code, Status};
use crate::messages::StreamingOutputCallResponse;
use crate::scenario::{call_assertion, call_verdict};

verus! {

pub const CALL_MUST_FAIL: &'static str = "call must fail with the requested status";
pub const CALL_IS_ERR: &'static str = "result.is_err()";
pub const STATUS_CODE: &'static str = "status code must match requested code";
pub const STATUS_CODE_IS_REQUESTED: &'static str = "status.code == code";
pub const STATUS_MESSAGE: &'static str = "status message must match requested message";
pub const STATUS_MESSAGE_IS_REQUESTED: &'static str = "status.message == message";
pub const CALL_CANCELLED: &'static str = "call must be cancelled";
pub const CALL_IS_CANCELLED: &'static str = "result == Err(Cancelled)";
pub const UNIMPLEMENTED: &'static str = "call must fail with status unimplemented";
pub const DEADLINE_EXCEEDED: &'static str = "call must fail with status deadline exceeded";

/// Whether two texts are the same.
pub fn str_eq(a: &str, b: &str) -> (r: bool)
    ensures
        r == (a@ == b@),
{
    let n = a.unicode_len();
    if n != b.unicode_len() {
        return false;
    }
    let mut i: usize = 0;
    while i < n
        invariant
            n == a@.len(),
            n == b@.len(),
            i <= n,
            forall|j: int| 0 <= j < i ==> a@[j] == b@[j],
        decreases n - i,
    {
        if a.get_char(i) != b.get_char(i) {
            return false;
        }
        i = i + 1;
    }
    assert(a@ =~= b@);
    true
}

/// The assertion on a call that completed normally where a failure was asked for.
pub open spec fn unexpected_success(description: &'static str) -> TestAssertion {
    TestAssertion::Failed {
        description,
        expression: CALL_IS_ERR,
        why: Some(Diagnostic::CallSucceeded),
    }
}

/// What the status code and message scenario yields: the call must fail with
/// the requested status; the code and the message are then checked. A fault
/// of the transport, or a cancellation, is no status and is recorded as an
/// error, apart from a failure that was asked for.
pub open spec fn status_spec<T>(result: Result<T, CallError>, code: Code, message: &'static str) -> Seq<
    TestAssertion,
> {
    match result {
        Ok(_) => seq![unexpected_success(CALL_MUST_FAIL)],
        Err(CallError::Status(s)) => seq![
            TestAssertion::Passed { description: CALL_MUST_FAIL },
            verdict(
                STATUS_CODE,
                STATUS_CODE_IS_REQUESTED,
                s.code == code,
                Diagnostic::StatusCode { actual: s.code, expected: code },
            ),
            verdict(
                STATUS_MESSAGE,
                STATUS_MESSAGE_IS_REQUESTED,
                s.message@ == message@,
                Diagnostic::Text { actual: Some(s.message), expected: message },
            ),
        ],
        Err(e) => seq![TestAssertion::Errored { description: CALL_MUST_FAIL, error: e }],
    }
}

/// Evaluates a call that was asked to fail with `code` and `message`.
pub fn status_assertions<T>(result: Result<T, CallError>, code: Code, message: &'static str) -> (r:
    Vec<TestAssertion>)
    ensures
        r@ == status_spec(result, code, message),
{
    match result {
        Ok(_) => vec![
            TestAssertion::Failed {
                description: CALL_MUST_FAIL,
                expression: CALL_IS_ERR,
                why: Some(Diagnostic::CallSucceeded),
            },
        ],
        Err(CallError::Status(Status { code: actual, message: text })) => {
            let lead = TestAssertion::Passed { description: CALL_MUST_FAIL };
            let why = Diagnostic::StatusCode { actual, expected: code };
            let code_check = check(STATUS_CODE, STATUS_CODE_IS_REQUESTED, actual == code, why);
            let same = str_eq(text.as_str(), message);
            let why = Diagnostic::Text { actual: Some(text), expected: message };
            let message_check = check(STATUS_MESSAGE, STATUS_MESSAGE_IS_REQUESTED, same, why);
            vec![lead, code_check, message_check]
        },
        Err(e) => vec![TestAssertion::Errored { description: CALL_MUST_FAIL, error: e }],
    }
}

/// The assertion that a call failed with status `code`.
pub open spec fn code_spec<T>(result: Result<T, CallError>, code: Code, description: &'static str) -> TestAssertion {
    match result {
        Ok(_) => unexpected_success(description),
        Err(CallError::Status(s)) => verdict(
            description,
            STATUS_CODE_IS_REQUESTED,
            s.code == code,
            Diagnostic::StatusCode { actual: s.code, expected: code },
        ),
        Err(e) => TestAssertion::Errored { description, error: e },
    }
}

/// Evaluates a call that must fail with status `code`.
pub fn code_assertion<T>(result: Result<T, CallError>, code: Code, description: &'static str) -> (r:
    TestAssertion)
    ensures
        r == code_spec(result, code, description),
{
    match result {
        Ok(_) => TestAssertion::Failed {
            description,
            expression: CALL_IS_ERR,
            why: Some(Diagnostic::CallSucceeded),
        },
        Err(CallError::Status(s)) => {
            let actual = s.code;
            let why = Diagnostic::StatusCode { actual, expected: code };
            check(description, STATUS_CODE_IS_REQUESTED, actual == code, why)
        },
        Err(e) => TestAssertion::Errored { description, error: e },
    }
}

/// Evaluates a call to a method, or a service, that the peer does not implement.
pub fn unimplemented_assertions<T>(result: Result<T, CallError>) -> (r: Vec<TestAssertion>)
    ensures
        r@ == seq![code_spec(result, Code::Unimplemented, UNIMPLEMENTED)],
{
    vec![code_assertion(result, Code::Unimplemented, UNIMPLEMENTED)]
}

/// Evaluates a call whose deadline passes before the peer answers.
pub fn timeout_assertions<T>(result: Result<T, CallError>) -> (r: Vec<TestAssertion>)
    ensures
        r@ == seq![code_spec(result, Code::DeadlineExceeded, DEADLINE_EXCEEDED)],
{
    vec![code_assertion(result, Code::DeadlineExceeded, DEADLINE_EXCEEDED)]
}

/// The assertion that a call ended cancelled: passed only on a cancellation,
/// failed on a normal completion and on any other failure.
pub open spec fn cancel_spec<T>(result: Result<T, CallError>) -> TestAssertion {
    match result {
        Err(CallError::Cancelled) => TestAssertion::Passed { description: CALL_CANCELLED },
        Ok(_) => TestAssertion::Failed {
            description: CALL_CANCELLED,
            expression: CALL_IS_CANCELLED,
            why: Some(Diagnostic::CallSucceeded),
        },
        Err(e) => TestAssertion::Failed {
            description: CALL_CANCELLED,
            expression: CALL_IS_CANCELLED,
            why: Some(Diagnostic::CallFailed(e)),
        },
    }
}

/// Evaluates how a cancelled call ended.
pub fn cancel_assertion<T>(result: Result<T, CallError>) -> (r: TestAssertion)
    ensures
        r == cancel_spec(result),
{
    match result {
        Err(CallError::Cancelled) => TestAssertion::Passed { description: CALL_CANCELLED },
        Ok(_) => TestAssertion::Failed {
            description: CALL_CANCELLED,
            expression: CALL_IS_CANCELLED,
            why: Some(Diagnostic::CallSucceeded),
        },
        Err(e) => TestAssertion::Failed {
            description: CALL_CANCELLED,
            expression: CALL_IS_CANCELLED,
            why: Some(Diagnostic::CallFailed(e)),
        },
    }
}

/// Evaluates a call cancelled right after it was opened.
pub fn cancel_after_begin_assertions<T>(result: Result<T, CallError>) -> (r: Vec<TestAssertion>)
    ensures
        r@ == seq![cancel_spec(result)],
{
    vec![cancel_assertion(result)]
}

/// What cancelling after the first response yields: the first response must
/// arrive, and then the call must end cancelled.
pub open spec fn cancel_after_first_spec<T>(
    first: Result<StreamingOutputCallResponse, CallError>,
    terminal: Result<T, CallError>,
) -> Seq<TestAssertion> {
    match first {
        Ok(_) => seq![call_verdict(first), cancel_spec(terminal)],
        Err(_) => seq![call_verdict(first)],
    }
}

/// Evaluates a call cancelled after its first response.
pub fn cancel_after_first_response_assertions<T>(
    first: Result<StreamingOutputCallResponse, CallError>,
    terminal: Result<T, CallError>,
) -> (r: Vec<TestAssertion>)
    ensures
        r@ == cancel_after_first_spec(first, terminal),
{
    let (lead, resp) = call_assertion(first);
    let mut assertions = vec![lead];
    if resp.is_some() {
        assertions.push(cancel_assertion(terminal));
    }
    assertions
}

} // verus!
