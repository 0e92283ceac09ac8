//! The text of the report: the line that opens a run, the block that
//! describes one failure, and the closing summary.

use crate::entry::{Test, TestView};
use crate::outcome::Failure;
use crate::text::{decimal, decimal_digits, tab, tabbed};
use vstd::prelude::*;

verus! {

broadcast use vstd::string::group_string_axioms;

/// The line that opens a run of `count` tests.
pub open spec fn announcement(count: nat) -> Seq<char> {
    "running "@ + decimal_digits(count) + if count == 1 {
        " test"@
    } else {
        " tests"@
    }
}

/// What one diagnostic stream adds to the block of a failure: nothing where
/// the stream is empty, otherwise a heading and the indented text.
pub open spec fn console_section(which: Seq<char>, output: Seq<char>) -> Seq<char> {
    if output.len() == 0 {
        Seq::empty()
    } else {
        which + " output:\n"@ + tabbed(output) + seq!['\n']
    }
}

/// A failure is recorded for a test that can have failed in that way: a panic
/// with a wrong message only for a test of which a message is expected.
pub open spec fn consistent(test: TestView, failure: Failure) -> bool {
    failure is ShouldPanicExpected ==> test.should_panic matches Some(Some(_))
}

/// The note on the expectation that a test did not meet. A test that simply
/// failed gets none.
pub open spec fn failure_note(test: TestView, failure: Failure) -> Seq<char> {
    match failure {
        Failure::ShouldPanic => "note: "@ + test.name + " did not panic as expected\n\n"@,
        Failure::ShouldPanicExpected => "note: panic did not contain expected string\n"@
            + "      panic message: `\""@ + test.output.panic + "\"`,\n"@
            + " expected substring: `\""@ + test.should_panic->0->0 + "\"`\n\n"@,
        Failure::Error(_) => Seq::empty(),
    }
}

/// What follows a simple failure's diagnostic output: the value that the test
/// threw, as text.
pub open spec fn thrown_section(failure: Failure, error: Seq<char>) -> Seq<char> {
    if failure is Error {
        "JS exception that was thrown:\n"@ + tabbed(error)
    } else {
        Seq::empty()
    }
}

/// Everything that is shown under the heading of a failure, before it is
/// indented: the note, each diagnostic stream that is not empty, and the
/// thrown value.
pub open spec fn failure_logs(test: TestView, failure: Failure, error: Seq<char>) -> Seq<char> {
    failure_note(test, failure) + console_section("debug"@, test.output.debug) + console_section(
        "log"@,
        test.output.log,
    ) + console_section("info"@, test.output.info) + console_section("warn"@, test.output.warn)
        + console_section("error"@, test.output.error) + thrown_section(failure, error)
}

/// The block that describes one failure.
pub open spec fn failure_report(test: TestView, failure: Failure, error: Seq<char>) -> Seq<char> {
    "---- "@ + test.name + " output ----\n"@ + tabbed(failure_logs(test, failure, error))
}

/// How the summary tells the time that the run took, if it was measured.
pub open spec fn time_taken(elapsed: Option<Seq<char>>) -> Seq<char> {
    match elapsed {
        Some(seconds) => "; finished in "@ + seconds + "s"@,
        None => Seq::empty(),
    }
}

/// The closing line of the report.
pub open spec fn summary(
    passed: nat,
    failed: nat,
    ignored: nat,
    filtered: nat,
    elapsed: Option<Seq<char>>,
) -> Seq<char> {
    "test result: "@ + (if failed == 0 {
        "ok"@
    } else {
        "FAILED"@
    }) + ". "@ + decimal_digits(passed) + " passed; "@ + decimal_digits(failed) + " failed; "@
        + decimal_digits(ignored) + " ignored; "@ + decimal_digits(filtered) + " filtered out"@
        + time_taken(elapsed) + "\n"@
}

/// What the console is told of a panic that was not expected: the message,
/// then where it happened.
pub open spec fn panic_notice(message: Seq<char>, stack: Seq<char>) -> Seq<char> {
    message + "\n\nStack:\n\n"@ + stack + "\n\n"@
}

/// Renders what the console is told of a panic that was not expected.
pub fn panic_report(message: &str, stack: &str) -> (notice: String)
    ensures
        notice@ == panic_notice(message@, stack@),
{
    let mut notice = String::from_str(message);
    notice.append("\n\nStack:\n\n");
    notice.append(stack);
    notice.append("\n\n");
    notice
}

/// The line that opens a run of `count` tests.
pub fn announce(count: usize) -> (line: String)
    ensures
        line@ == announcement(count as nat),
{
    let noun = if count == 1 {
        " test"
    } else {
        " tests"
    };
    let mut line = String::from_str("running ");
    line.append(decimal(count).as_str());
    line.append(noun);
    line
}

/// Adds the section of one diagnostic stream to the block of a failure.
pub fn accumulate_console_output(logs: &mut String, which: &str, output: &str)
    ensures
        final(logs)@ == old(logs)@ + console_section(which@, output@),
{
    if output.is_empty() {
        return ;
    }
    logs.append(which);
    logs.append(" output:\n");
    logs.append(tab(output).as_str());
    logs.push('\n');
}

/// Renders the block that describes one failure. `error` is the thrown value
/// as text; it is shown only for a test that simply failed.
pub fn print_failure(test: &Test, failure: &Failure, error: &str) -> (block: String)
    requires
        consistent(test@, *failure),
    ensures
        block@ == failure_report(test@, *failure, error@),
{
    let mut logs = String::new();
    match failure {
        Failure::ShouldPanic => {
            logs.append("note: ");
            logs.append(test.name.as_str());
            logs.append(" did not panic as expected\n\n");
        },
        Failure::ShouldPanicExpected => {
            logs.append("note: panic did not contain expected string\n");
            logs.append("      panic message: `\"");
            logs.append(test.output.panic.as_str());
            logs.append("\"`,\n");
            logs.append(" expected substring: `\"");
            match test.should_panic {
                Some(Some(expected)) => logs.append(expected),
                _ => {},
            }
            logs.append("\"`\n\n");
        },
        Failure::Error(_) => {},
    }
    accumulate_console_output(&mut logs, "debug", test.output.debug.as_str());
    accumulate_console_output(&mut logs, "log", test.output.log.as_str());
    accumulate_console_output(&mut logs, "info", test.output.info.as_str());
    accumulate_console_output(&mut logs, "warn", test.output.warn.as_str());
    accumulate_console_output(&mut logs, "error", test.output.error.as_str());
    match failure {
        Failure::Error(_) => {
            logs.append("JS exception that was thrown:\n");
            logs.append(tab(error).as_str());
        },
        _ => {},
    }
    assert(logs@ == failure_logs(test@, *failure, error@));
    let mut block = String::from_str("---- ");
    block.append(test.name.as_str());
    block.append(" output ----\n");
    block.append(tab(logs.as_str()).as_str());
    block
}

/// Renders the closing line of the report. `elapsed` is the time that the run
/// took, in seconds and already as text, where a timer was at hand.
pub fn summarize(
    passed: usize,
    failed: usize,
    ignored: usize,
    filtered: usize,
    elapsed: Option<&str>,
) -> (line: String)
    ensures
        line@ == summary(
            passed as nat,
            failed as nat,
            ignored as nat,
            filtered as nat,
            match elapsed {
                Some(seconds) => Some(seconds@),
                None => None,
            },
        ),
{
    let mut line = String::from_str("test result: ");
    line.append(
        if failed == 0 {
            "ok"
        } else {
            "FAILED"
        },
    );
    line.append(". ");
    line.append(decimal(passed).as_str());
    line.append(" passed; ");
    line.append(decimal(failed).as_str());
    line.append(" failed; ");
    line.append(decimal(ignored).as_str());
    line.append(" ignored; ");
    line.append(decimal(filtered).as_str());
    line.append(" filtered out");
    match elapsed {
        Some(seconds) => {
            line.append("; finished in ");
            line.append(seconds);
            line.append("s");
        },
        None => {},
    }
    line.append("\n");
    line
}

} // verus!
