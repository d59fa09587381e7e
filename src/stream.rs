use vstd::prelude::*;
use crate::assertion::{check, verdict, Diagnostic, TestAssertion};
use crate::call::CallError;
use crate::messages::{body_len, payload_len, StreamingInputCallResponse, StreamingOutputCallResponse};
use crate::scenario::{call_assertion, call_verdict};

verus! {

pub const AGGREGATED_SIZE: &'static str = "aggregated payload size must be 74922 bytes";
pub const AGGREGATED_IS_SUM: &'static str = "response.aggregated_payload_size == sum(chunk sizes)";
pub const RESPONSE_COUNT: &'static str = "response count must match requested count";
pub const RESPONSE_COUNT_IS_REQUESTED: &'static str = "responses.len() == sizes.len()";
pub const RESPONSE_SIZES: &'static str = "response sizes must match requested sizes";
pub const RESPONSE_SIZES_ARE_REQUESTED: &'static str = "response body sizes == sizes";
pub const STREAM_EMPTY: &'static str = "stream must be empty";
pub const STREAM_IS_EMPTY: &'static str = "responses.is_empty()";

/// The sum of a sequence of sizes.
pub open spec fn sum_sizes(s: Seq<usize>) -> int
    decreases s.len(),
{
    if s.len() == 0 {
        0
    } else {
        sum_sizes(s.drop_last()) + s.last()
    }
}

/// Summing two sequences one after the other adds their sums.
pub proof fn lemma_sum_sizes_append(a: Seq<usize>, b: Seq<usize>)
    ensures
        sum_sizes(a + b) == sum_sizes(a) + sum_sizes(b),
    decreases b.len(),
{
    if b.len() == 0 {
        assert(a + b =~= a);
    } else {
        assert((a + b).drop_last() =~= a + b.drop_last());
        lemma_sum_sizes_append(a, b.drop_last());
    }
}

/// No prefix sums to more than the whole sequence.
pub proof fn lemma_sum_sizes_prefix(s: Seq<usize>, k: int)
    requires
        0 <= k <= s.len(),
    ensures
        0 <= sum_sizes(s.take(k)) <= sum_sizes(s),
    decreases s.len() - k,
{
    if k < s.len() {
        lemma_sum_sizes_prefix(s, k + 1);
        assert(s.take(k + 1).drop_last() =~= s.take(k));
        assert(s.take(k + 1).last() == s[k]);
        lemma_sum_sizes_nonneg(s.take(k));
    } else {
        assert(s.take(k) =~= s);
        lemma_sum_sizes_nonneg(s);
    }
}

proof fn lemma_sum_sizes_nonneg(s: Seq<usize>)
    ensures
        sum_sizes(s) >= 0,
    decreases s.len(),
{
    if s.len() > 0 {
        lemma_sum_sizes_nonneg(s.drop_last());
    }
}

/// The total that a client stream reports does not depend on the order in
/// which its two parts were sent.
pub proof fn lemma_aggregate_order_independent(a: Seq<usize>, b: Seq<usize>)
    ensures
        sum_sizes(a + b) == sum_sizes(b + a),
{
    lemma_sum_sizes_append(a, b);
    lemma_sum_sizes_append(b, a);
}

/// Whether the size reported for a client stream is the sum of the sizes of
/// the chunks sent.
pub fn aggregated_size_matches(sizes: &Vec<usize>, reported: i32) -> (r: bool)
    ensures
        r == (reported as int == sum_sizes(sizes@)),
{
    let mut acc: u64 = 0;
    let mut i: usize = 0;
    while i < sizes.len()
        invariant
            i <= sizes@.len(),
            acc as int == sum_sizes(sizes@.take(i as int)),
            acc <= i32::MAX,
        decreases sizes@.len() - i,
    {
        proof {
            assert(sizes@.take(i as int + 1).drop_last() =~= sizes@.take(i as int));
        }
        if sizes[i] as u64 > i32::MAX as u64 - acc {
            proof {
                lemma_sum_sizes_prefix(sizes@, i as int + 1);
            }
            return false;
        }
        acc = acc + sizes[i] as u64;
        i = i + 1;
    }
    proof {
        assert(sizes@.take(i as int) =~= sizes@);
    }
    reported as i64 == acc as i64
}

/// The chunk sizes that the client streaming scenario sends, in order.
pub fn client_streaming_sizes() -> (r: Vec<usize>)
    ensures
        r@ == seq![27182usize, 8, 1828, 45904],
{
    vec![27182, 8, 1828, 45904]
}

/// What the client streaming scenario yields for a call's result.
pub open spec fn client_streaming_spec(result: Result<StreamingInputCallResponse, CallError>) -> Seq<
    TestAssertion,
> {
    match result {
        Ok(resp) => seq![
            call_verdict(result),
            verdict(
                AGGREGATED_SIZE,
                AGGREGATED_IS_SUM,
                resp.aggregated_payload_size == 74922,
                Diagnostic::Size { actual: resp.aggregated_payload_size as i64, expected: 74922 },
            ),
        ],
        Err(_) => seq![call_verdict(result)],
    }
}

/// Evaluates the client streaming call: it succeeds and the server reports
/// the sum of the chunk sizes sent.
pub fn client_streaming_assertions(result: Result<StreamingInputCallResponse, CallError>) -> (r: Vec<
    TestAssertion,
>)
    ensures
        r@ == client_streaming_spec(result),
{
    let (lead, resp) = call_assertion(result);
    let mut assertions = vec![lead];
    if let Some(resp) = resp {
        let sizes = client_streaming_sizes();
        proof {
            reveal_with_fuel(sum_sizes, 5);
        }
        let holds = aggregated_size_matches(&sizes, resp.aggregated_payload_size);
        let why = Diagnostic::Size { actual: resp.aggregated_payload_size as i64, expected: 74922 };
        assertions.push(check(AGGREGATED_SIZE, AGGREGATED_IS_SUM, holds, why));
    }
    assertions
}

/// The body sizes of a sequence of responses, in order.
pub open spec fn received_sizes(resp: Seq<StreamingOutputCallResponse>) -> Seq<int> {
    Seq::new(resp.len(), |i: int| body_len(resp[i].payload) as int)
}

/// A sequence of sizes as integers.
pub open spec fn size_ints(s: Seq<usize>) -> Seq<int> {
    Seq::new(s.len(), |i: int| s[i] as int)
}

/// A sequence of integers as `i64` values.
pub open spec fn as_i64s(s: Seq<int>) -> Seq<i64> {
    Seq::new(s.len(), |i: int| s[i] as i64)
}

/// The assertion that as many responses came as were asked for.
pub open spec fn count_verdict(resp: Seq<StreamingOutputCallResponse>, expected: Seq<usize>) -> TestAssertion {
    verdict(
        RESPONSE_COUNT,
        RESPONSE_COUNT_IS_REQUESTED,
        resp.len() == expected.len(),
        Diagnostic::Size { actual: resp.len() as i64, expected: expected.len() as i64 },
    )
}

/// Whether the assertion on the sizes of a stream holds, with the sizes
/// that were received and those asked for.
pub open spec fn sizes_verdict(a: TestAssertion, resp: Seq<StreamingOutputCallResponse>, expected: Seq<
    usize,
>) -> bool {
    let holds = received_sizes(resp) == size_ints(expected);
    &&& a.spec_description() == RESPONSE_SIZES
    &&& a.is_passed() == holds
    &&& !holds ==> match a {
        TestAssertion::Failed { expression, why: Some(Diagnostic::Sizes { actual, expected: e }), .. } => {
            &&& expression == RESPONSE_SIZES_ARE_REQUESTED
            &&& actual@ == as_i64s(received_sizes(resp))
            &&& e@ == as_i64s(size_ints(expected))
        },
        _ => false,
    }
}

/// A stream passes its count and size checks exactly when the sizes
/// received are the sizes asked for, in order: nothing reordered, left out
/// or repeated.
pub proof fn lemma_stream_checks_exact(
    resp: Seq<StreamingOutputCallResponse>,
    expected: Seq<usize>,
    count: TestAssertion,
    sizes: TestAssertion,
)
    requires
        count == count_verdict(resp, expected),
        sizes_verdict(sizes, resp, expected),
    ensures
        (count.is_passed() && sizes.is_passed()) <==> received_sizes(resp) == size_ints(expected),
{
    if received_sizes(resp) == size_ints(expected) {
        assert(received_sizes(resp).len() == size_ints(expected).len());
    }
}

/// The sizes of the responses, as `i64` values, and whether they are exactly
/// the sizes in `expected`.
fn collect_sizes(resp: &Vec<StreamingOutputCallResponse>, expected: &Vec<usize>) -> (r: (
    Vec<i64>,
    Vec<i64>,
    bool,
))
    ensures
        r.0@ == as_i64s(received_sizes(resp@)),
        r.1@ == as_i64s(size_ints(expected@)),
        r.2 == (received_sizes(resp@) == size_ints(expected@)),
{
    let mut actual: Vec<i64> = Vec::new();
    let mut same = resp.len() == expected.len();
    let mut i: usize = 0;
    while i < resp.len()
        invariant
            i <= resp@.len(),
            actual@ =~= as_i64s(received_sizes(resp@)).take(i as int),
            same == (resp@.len() == expected@.len() && forall|j: int|
                0 <= j < i ==> received_sizes(resp@)[j] == size_ints(expected@)[j]),
        decreases resp@.len() - i,
    {
        let len = payload_len(&resp[i].payload);
        assert(received_sizes(resp@)[i as int] == len as int);
        actual.push(#[verifier::truncate] (len as i64));
        if same && len != expected[i] {
            same = false;
        }
        i = i + 1;
    }
    let mut want: Vec<i64> = Vec::new();
    let mut k: usize = 0;
    while k < expected.len()
        invariant
            k <= expected@.len(),
            want@ =~= as_i64s(size_ints(expected@)).take(k as int),
        decreases expected@.len() - k,
    {
        want.push(#[verifier::truncate] (expected[k] as i64));
        k = k + 1;
    }
    proof {
        assert(actual@ =~= as_i64s(received_sizes(resp@)));
        assert(want@ =~= as_i64s(size_ints(expected@)));
        if same {
            assert(received_sizes(resp@) =~= size_ints(expected@));
        }
    }
    (actual, want, same)
}

/// Evaluates a stream of responses against the sizes that were asked for:
/// the call succeeds, the count matches, and each size matches in order.
pub fn stream_sizes_assertions(
    result: Result<Vec<StreamingOutputCallResponse>, CallError>,
    expected: &Vec<usize>,
) -> (r: Vec<TestAssertion>)
    ensures
        r@.len() == (if result is Ok { 3int } else { 1 }),
        r@[0] == call_verdict(result),
        result is Ok ==> r@[1] == count_verdict(result->Ok_0@, expected@),
        result is Ok ==> sizes_verdict(r@[2], result->Ok_0@, expected@),
{
    let (lead, resp) = call_assertion(result);
    let mut assertions = vec![lead];
    if let Some(resp) = resp {
        let count = resp.len();
        let why = Diagnostic::Size { actual: count as i64, expected: expected.len() as i64 };
        assertions.push(
            check(RESPONSE_COUNT, RESPONSE_COUNT_IS_REQUESTED, count == expected.len(), why),
        );
        let (actual, want, same) = collect_sizes(&resp, expected);
        let why = Diagnostic::Sizes { actual, expected: want };
        assertions.push(check(RESPONSE_SIZES, RESPONSE_SIZES_ARE_REQUESTED, same, why));
    }
    assertions
}

/// What the empty stream scenario yields: the call succeeds and no response comes.
pub open spec fn empty_stream_spec(result: Result<Vec<StreamingOutputCallResponse>, CallError>) -> Seq<
    TestAssertion,
> {
    match result {
        Ok(resp) => seq![
            call_verdict(result),
            verdict(
                STREAM_EMPTY,
                STREAM_IS_EMPTY,
                resp@.len() == 0,
                Diagnostic::Size { actual: resp@.len() as i64, expected: 0 },
            ),
        ],
        Err(_) => seq![call_verdict(result)],
    }
}

/// Evaluates a stream opened and closed at once, with no message sent.
pub fn empty_stream_assertions(result: Result<Vec<StreamingOutputCallResponse>, CallError>) -> (r: Vec<
    TestAssertion,
>)
    ensures
        r@ == empty_stream_spec(result),
{
    let (lead, resp) = call_assertion(result);
    let mut assertions = vec![lead];
    if let Some(resp) = resp {
        let count = resp.len();
        let why = Diagnostic::Size { actual: count as i64, expected: 0 };
        assertions.push(check(STREAM_EMPTY, STREAM_IS_EMPTY, count == 0, why));
    }
    assertions
}

} // verus!
