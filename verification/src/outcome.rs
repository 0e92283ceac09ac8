//! Results of tests and the reasons for which a test counts as failed.

use crate::text::is_substring;
use vstd::prelude::*;
use vstd::std_specs::convert::FromSpecImpl;
use wasm_bindgen::JsValue;

verus! {

broadcast use vstd::string::group_string_axioms;

/// `wasm_bindgen::JsValue`: a handle to a value that lives on the JavaScript
/// side. Nothing is known of what it refers to; the harness only carries the
/// value that a failed test threw from the test to the report.
#[verifier::external_type_specification]
#[verifier::external_body]
pub struct ExJsValue(JsValue);

/// `JsValue::null` hands out the handle of JavaScript's `null`. Nothing is
/// claimed of it.
pub assume_specification[ JsValue::null ]() -> (value: JsValue);

/// What one resumption of a test body came to.
#[derive(Debug)]
pub enum Polled {
    /// The body ran to its end, with success or with the value it threw.
    Ready(Result<(), JsValue>),
    /// The body suspended and will ask to be resumed.
    Pending,
}

/// The outcome of a test as it is reported.
#[derive(Debug)]
pub enum TestResult {
    /// The test passed.
    Passed,
    /// The test failed with the value it threw.
    Failed(JsValue),
    /// The test was not run, for the reason given if there is one.
    Ignored(Option<String>),
}

/// Failure reasons.
#[derive(Debug)]
pub enum Failure {
    /// Normal failing test, with the value it threw.
    Error(JsValue),
    /// A test that should panic but did not.
    ShouldPanic,
    /// A test that should panic with a specific message, but panicked with a
    /// different message.
    ShouldPanicExpected,
}

/// The result of a test whose body ran to its end.
pub open spec fn finished(value: Result<(), JsValue>) -> TestResult {
    match value {
        Ok(_) => TestResult::Passed,
        Err(err) => TestResult::Failed(err),
    }
}

impl From<Result<(), JsValue>> for TestResult {
    fn from(value: Result<(), JsValue>) -> (result: TestResult) {
        match value {
            Ok(_) => TestResult::Passed,
            Err(err) => TestResult::Failed(err),
        }
    }
}

impl FromSpecImpl<Result<(), JsValue>> for TestResult {
    open spec fn obeys_from_spec() -> bool {
        true
    }

    open spec fn from_spec(value: Result<(), JsValue>) -> TestResult {
        finished(value)
    }
}

impl TestResult {
    /// The word that a result line shows for this result.
    pub open spec fn text(self) -> Seq<char> {
        match self {
            TestResult::Passed => "ok"@,
            TestResult::Failed(_) => "FAIL"@,
            TestResult::Ignored(None) => "ignored"@,
            TestResult::Ignored(Some(reason)) => "ignored, "@ + reason@,
        }
    }

    /// Renders this result as the word that a result line shows.
    pub fn to_text(&self) -> (text: String)
        ensures
            text@ == self.text(),
    {
        match self {
            TestResult::Passed => String::from_str("ok"),
            TestResult::Failed(_) => String::from_str("FAIL"),
            TestResult::Ignored(None) => String::from_str("ignored"),
            TestResult::Ignored(Some(reason)) => {
                let mut text = String::from_str("ignored, ");
                text.append(reason.as_str());
                text
            },
        }
    }
}

/// What is expected of a test's panic: nothing (`None`), a panic of any
/// message (`Some(None)`), or a panic whose message holds a given text.
pub open spec fn expectation(should_panic: Option<Option<&'static str>>) -> Option<
    Option<Seq<char>>,
> {
    match should_panic {
        None => None,
        Some(None) => Some(None),
        Some(Some(expected)) => Some(Some(expected@)),
    }
}

/// The reason for which a finished test counts as failed, or `None` where it
/// passes. A test of which no panic is expected passes unless it threw. A test
/// that should panic passes exactly when it threw and, where a message is
/// expected, the captured panic text holds that message.
pub open spec fn judged(
    should_panic: Option<Option<Seq<char>>>,
    result: TestResult,
    panic: Seq<char>,
) -> Option<Failure> {
    match should_panic {
        None => match result {
            TestResult::Failed(error) => Some(Failure::Error(error)),
            _ => None,
        },
        Some(expected) => match result {
            TestResult::Failed(_) => match expected {
                Some(message) => if is_substring(message, panic) {
                    None
                } else {
                    Some(Failure::ShouldPanicExpected)
                },
                None => None,
            },
            _ => Some(Failure::ShouldPanic),
        },
    }
}

/// What a resumption of a test body counts as, given what the boundary round
/// it caught and what the body reported if it got that far.
pub open spec fn resumption(caught: Result<(), JsValue>, polled: Option<Polled>) -> Polled {
    match polled {
        Some(outcome) => outcome,
        None => match caught {
            Err(thrown) => Polled::Ready(Err(thrown)),
            Ok(_) => Polled::Pending,
        },
    }
}

/// Turns one guarded resumption of a test body into its outcome. `polled` is
/// what the body reported, if it returned at all; `caught` holds the value
/// thrown where the guard intercepted an abort. What the body reported wins;
/// an abort before it could report completes the test with the thrown value.
/// A guard that caught nothing round a body that reported nothing does not
/// occur.
pub fn poll_outcome(caught: Result<(), JsValue>, polled: Option<Polled>) -> (outcome: Polled)
    requires
        polled is Some || caught is Err,
    ensures
        outcome == resumption(caught, polled),
{
    match polled {
        Some(outcome) => outcome,
        None => match caught {
            Err(thrown) => Polled::Ready(Err(thrown)),
            Ok(_) => unreached(),
        },
    }
}

} // verus!
