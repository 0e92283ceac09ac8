use wasm_bindgen::JsValue;
use wasm_bindgen_test::context::{Context, Step};
use wasm_bindgen_test::entry::Test;
use wasm_bindgen_test::outcome::{Failure, Polled};
use wasm_bindgen_test::output::{Output, Stream};
use wasm_bindgen_test::report::{
    accumulate_console_output, announce, panic_report, print_failure, summarize,
};

fn strings(args: &[&str]) -> Vec<String> {
    args.iter().map(|s| s.to_string()).collect()
}

fn test_named(name: &str, should_panic: Option<Option<&'static str>>) -> Test {
    Test {
        name: name.to_string(),
        id: 0,
        output: Output::new(should_panic.is_some()),
        should_panic,
    }
}

#[test]
fn announce_counts_the_tests() {
    assert_eq!(announce(0), "running 0 tests");
    assert_eq!(announce(1), "running 1 test");
    assert_eq!(announce(2), "running 2 tests");
    assert_eq!(announce(120), "running 120 tests");
}

#[test]
fn run_announces_the_run() {
    let cx = Context::new();
    assert_eq!(cx.run(1), "running 1 test");
    assert_eq!(cx.run(17), "running 17 tests");
}

#[test]
fn summary_of_a_passing_run() {
    assert_eq!(
        summarize(3, 0, 0, 0, None),
        "test result: ok. 3 passed; 0 failed; 0 ignored; 0 filtered out\n"
    );
}

#[test]
fn summary_of_a_failing_run() {
    assert_eq!(
        summarize(10, 2, 3, 41, None),
        "test result: FAILED. 10 passed; 2 failed; 3 ignored; 41 filtered out\n"
    );
}

#[test]
fn summary_with_the_time_taken() {
    assert_eq!(
        summarize(1, 0, 0, 0, Some("0.25")),
        "test result: ok. 1 passed; 0 failed; 0 ignored; 0 filtered out; finished in 0.25s\n"
    );
}

#[test]
fn console_section_of_an_empty_stream_is_nothing() {
    let mut logs = "before".to_string();
    accumulate_console_output(&mut logs, "log", "");
    assert_eq!(logs, "before");
}

#[test]
fn console_section_has_a_heading_and_indented_text() {
    let mut logs = String::new();
    accumulate_console_output(&mut logs, "warn", "careful\nnow\n");
    assert_eq!(logs, "warn output:\n    careful\n    now\n\n");
    accumulate_console_output(&mut logs, "error", "x");
    assert_eq!(logs, "warn output:\n    careful\n    now\n\nerror output:\n    x\n\n");
}

#[test]
fn failure_block_of_a_thrown_error() {
    let mut test = test_named("breaks", None);
    test.output.record(Stream::Log, &strings(&["about", "to", "break"]));
    let block = print_failure(&test, &Failure::Error(JsValue::NULL), "Error: broke\n  at here");
    assert_eq!(
        block,
        "---- breaks output ----\n    log output:\n        about to break\n    \n    JS exception that was thrown:\n        Error: broke\n          at here\n"
    );
}

#[test]
fn failure_block_without_any_output() {
    let test = test_named("breaks", None);
    let block = print_failure(&test, &Failure::Error(JsValue::NULL), "");
    assert_eq!(block, "---- breaks output ----\n    JS exception that was thrown:\n");
}

#[test]
fn failure_block_shows_every_stream_that_is_not_empty() {
    let mut test = test_named("chatty", None);
    test.output.record(Stream::Error, &strings(&["e"]));
    test.output.record(Stream::Debug, &strings(&["d"]));
    test.output.record(Stream::Warn, &strings(&["w"]));
    test.output.record(Stream::Info, &strings(&["i"]));
    test.output.record(Stream::Log, &strings(&["l"]));
    let block = print_failure(&test, &Failure::Error(JsValue::NULL), "boom");
    assert_eq!(
        block,
        "---- chatty output ----\n    debug output:\n        d\n    \n    log output:\n        l\n    \n    info output:\n        i\n    \n    warn output:\n        w\n    \n    error output:\n        e\n    \n    JS exception that was thrown:\n        boom\n"
    );
}

#[test]
fn failure_block_of_a_missing_panic() {
    let test = test_named("quiet", Some(None));
    let block = print_failure(&test, &Failure::ShouldPanic, "not shown");
    assert_eq!(
        block,
        "---- quiet output ----\n    note: quiet did not panic as expected\n    \n"
    );
}

#[test]
fn failure_block_of_a_wrong_panic_message() {
    let mut test = test_named("loud", Some(Some("boom")));
    test.output.record_panic("other");
    test.output.record(Stream::Log, &strings(&["hello"]));
    let block = print_failure(&test, &Failure::ShouldPanicExpected, "not shown");
    assert_eq!(
        block,
        "---- loud output ----\n    note: panic did not contain expected string\n          panic message: `\"other\"`,\n     expected substring: `\"boom\"`\n    \n    log output:\n        hello\n    \n"
    );
}

fn failed_run() -> Context {
    let mut cx = Context::new();
    cx.filter(Some("t".to_string()));
    cx.execute("m::t_quiet", Some(None), None);
    cx.execute("m::t_bad", None, None);
    cx.execute("m::t_good", None, None);
    cx.execute("m::nope", None, None);
    cx.execute("m::t_later", None, Some(None));
    assert!(matches!(cx.advance(), Step::Resume(2)));
    cx.settle(Polled::Ready(Ok(())));
    assert!(matches!(cx.advance(), Step::Resume(1)));
    cx.record(Stream::Log, &strings(&["trying"]));
    cx.settle(Polled::Ready(Err(JsValue::NULL)));
    assert!(matches!(cx.advance(), Step::Resume(0)));
    cx.settle(Polled::Ready(Ok(())));
    assert!(matches!(cx.advance(), Step::Ready(false)));
    cx
}

#[test]
fn report_of_a_failed_run() {
    let cx = failed_run();
    let errors = vec!["Error: bad".to_string(), String::new()];
    let report = cx.print_results(&errors, Some("1.50"));
    assert_eq!(
        report,
        vec![
            "\nfailures:\n".to_string(),
            "---- t_bad output ----\n    log output:\n        trying\n    \n    JS exception that was thrown:\n        Error: bad\n".to_string(),
            "---- t_quiet output ----\n    note: t_quiet did not panic as expected\n    \n".to_string(),
            "failures:\n".to_string(),
            "    t_bad".to_string(),
            "    t_quiet".to_string(),
            "".to_string(),
            "test result: FAILED. 1 passed; 2 failed; 1 ignored; 1 filtered out; finished in 1.50s\n".to_string(),
        ]
    );
}

#[test]
fn report_can_be_rendered_again() {
    let cx = failed_run();
    let errors = vec!["Error: bad".to_string(), String::new()];
    let first = cx.print_results(&errors, None);
    let counts = (cx.succeeded(), cx.failures().len(), cx.ignored(), cx.filtered());
    let second = cx.print_results(&errors, None);
    assert_eq!(first, second);
    assert_eq!(
        counts,
        (cx.succeeded(), cx.failures().len(), cx.ignored(), cx.filtered())
    );
    assert_eq!(counts, (1, 2, 1, 1));
}

#[test]
fn panic_notice_holds_the_message_and_the_stack() {
    assert_eq!(
        panic_report("it broke", "at a\nat b"),
        "it broke\n\nStack:\n\nat a\nat b\n\n"
    );
    assert_eq!(panic_report("", ""), "\n\nStack:\n\n\n\n");
}
