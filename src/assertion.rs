use vstd::prelude::*;
use crate::call::{CallError, Code};

verus! {

/// Diagnostic data attached to a failed assertion, free of any rendering.
#[derive(Clone, Debug)]
pub enum Diagnostic {
    /// The call did not complete normally.
    CallFailed(CallError),
    /// The call completed normally where it was expected not to.
    CallSucceeded,
    /// A size differs from the one expected.
    Size { actual: i64, expected: i64 },
    /// A sequence of sizes differs from the one expected.
    Sizes { actual: Vec<i64>, expected: Vec<i64> },
    /// A status code differs from the one expected.
    StatusCode { actual: Code, expected: Code },
    /// A text (a status message, a metadata value) differs from the one expected;
    /// `None` when it is missing.
    Text { actual: Option<String>, expected: &'static str },
    /// Bytes (a metadata value, a payload) differ from those expected;
    /// `None` when they are missing.
    Bytes { actual: Option<Vec<u8>>, expected: Option<Vec<u8>> },
}

/// The outcome of one check of a test case.
#[derive(Clone, Debug)]
pub enum TestAssertion {
    Passed { description: &'static str },
    Failed { description: &'static str, expression: &'static str, why: Option<Diagnostic> },
    Errored { description: &'static str, error: CallError },
}

impl TestAssertion {
    pub open spec fn is_passed(self) -> bool {
        self is Passed
    }

    pub fn passed(&self) -> (r: bool)
        ensures
            r == self.is_passed(),
    {
        if let TestAssertion::Passed { .. } = *self {
            true
        } else {
            false
        }
    }

    /// The description of the check.
    pub fn description(&self) -> (r: &'static str)
        ensures
            r == self.spec_description(),
    {
        match self {
            TestAssertion::Passed { description } => description,
            TestAssertion::Failed { description, .. } => description,
            TestAssertion::Errored { description, .. } => description,
        }
    }

    pub open spec fn spec_description(self) -> &'static str {
        match self {
            TestAssertion::Passed { description } => description,
            TestAssertion::Failed { description, .. } => description,
            TestAssertion::Errored { description, .. } => description,
        }
    }
}

/// The assertion for a check: passed when `holds`, else failed with the
/// predicate text and the diagnostic.
pub open spec fn verdict(
    description: &'static str,
    expression: &'static str,
    holds: bool,
    why: Diagnostic,
) -> TestAssertion {
    if holds {
        TestAssertion::Passed { description }
    } else {
        TestAssertion::Failed { description, expression, why: Some(why) }
    }
}

/// Turns a check into an assertion.
pub fn check(description: &'static str, expression: &'static str, holds: bool, why: Diagnostic) -> (r:
    TestAssertion)
    ensures
        r == verdict(description, expression, holds, why),
{
    if holds {
        TestAssertion::Passed { description }
    } else {
        TestAssertion::Failed { description, expression, why: Some(why) }
    }
}

/// True when every assertion passed.
pub fn all_passed(assertions: &Vec<TestAssertion>) -> (r: bool)
    ensures
        r == forall|i: int| 0 <= i < assertions@.len() ==> (#[trigger] assertions@[i]).is_passed(),
{
    let mut i: usize = 0;
    while i < assertions.len()
        invariant
            i <= assertions@.len(),
            forall|j: int| 0 <= j < i ==> (#[trigger] assertions@[j]).is_passed(),
        decreases assertions@.len() - i,
    {
        if !assertions[i].passed() {
            return false;
        }
        i = i + 1;
    }
    true
}

} // verus!
