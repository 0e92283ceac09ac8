use wasm_bindgen_test::output::{Output, Stream};

fn strings(args: &[&str]) -> Vec<String> {
    args.iter().map(|s| s.to_string()).collect()
}

#[test]
fn new_output_is_empty() {
    let out = Output::new(true);
    assert_eq!(out.debug, "");
    assert_eq!(out.log, "");
    assert_eq!(out.info, "");
    assert_eq!(out.warn, "");
    assert_eq!(out.error, "");
    assert_eq!(out.panic, "");
    assert!(out.should_panic);
    assert!(!Output::new(false).should_panic);
}

#[test]
fn record_joins_arguments_with_spaces() {
    let mut out = Output::new(false);
    out.record(Stream::Log, &strings(&["a", "b", "c"]));
    assert_eq!(out.log, "a b c\n");
}

#[test]
fn record_of_one_argument() {
    let mut out = Output::new(false);
    out.record(Stream::Warn, &strings(&["only"]));
    assert_eq!(out.warn, "only\n");
}

#[test]
fn record_without_arguments_writes_a_line_feed() {
    let mut out = Output::new(false);
    out.record(Stream::Info, &strings(&[]));
    assert_eq!(out.info, "\n");
}

#[test]
fn record_keeps_empty_arguments() {
    let mut out = Output::new(false);
    out.record(Stream::Debug, &strings(&["", "x", ""]));
    assert_eq!(out.debug, " x \n");
}

#[test]
fn record_appends_to_what_is_there() {
    let mut out = Output::new(false);
    out.record(Stream::Error, &strings(&["first"]));
    out.record(Stream::Error, &strings(&["second", "line"]));
    assert_eq!(out.error, "first\nsecond line\n");
}

#[test]
fn record_touches_one_stream_only() {
    let streams = [Stream::Debug, Stream::Log, Stream::Info, Stream::Warn, Stream::Error];
    for (at, which) in streams.iter().enumerate() {
        let mut out = Output::new(false);
        out.record(*which, &strings(&["x"]));
        let got = [&out.debug, &out.log, &out.info, &out.warn, &out.error];
        for (other, text) in got.iter().enumerate() {
            if other == at {
                assert_eq!(text.as_str(), "x\n");
            } else {
                assert_eq!(text.as_str(), "");
            }
        }
        assert_eq!(out.panic, "");
    }
}

#[test]
fn record_panic_appends_the_message() {
    let mut out = Output::new(false);
    assert!(out.record_panic("boom"));
    assert!(out.record_panic(" again"));
    assert_eq!(out.panic, "boom again");
    assert_eq!(out.log, "");
}

#[test]
fn record_panic_says_whether_the_panic_was_expected() {
    let mut expected = Output::new(true);
    assert!(!expected.record_panic("boom"));
    assert_eq!(expected.panic, "boom");
    let mut unexpected = Output::new(false);
    assert!(unexpected.record_panic("boom"));
}
