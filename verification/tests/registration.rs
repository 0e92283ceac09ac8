use wasm_bindgen_test::context::{Context, Decision, Phase, Registration};
use wasm_bindgen_test::outcome::TestResult;

fn scheduled(registration: &Registration) -> Option<usize> {
    match registration {
        Registration::Scheduled(id) => Some(*id),
        _ => None,
    }
}

#[test]
fn new_context_is_empty() {
    let cx = Context::new();
    assert_eq!(cx.succeeded(), 0);
    assert_eq!(cx.filtered(), 0);
    assert_eq!(cx.ignored(), 0);
    assert_eq!(cx.registered(), 0);
    assert!(cx.failures().is_empty());
    assert!(cx.pending().is_empty());
    assert!(cx.running().is_empty());
    assert!(cx.active().is_none());
    assert_eq!(cx.phase(), Phase::Idle);
}

#[test]
fn test_without_filter_is_scheduled() {
    let mut cx = Context::new();
    let registration = cx.execute("suite::works", None, None);
    assert_eq!(scheduled(&registration), Some(0));
    assert_eq!(cx.pending().len(), 1);
    assert_eq!(cx.pending()[0].name, "works");
    assert_eq!(cx.pending()[0].id, 0);
    assert_eq!(cx.pending()[0].should_panic, None);
    assert!(!cx.pending()[0].output.should_panic);
    assert_eq!(cx.pending()[0].output.log, "");
    assert_eq!(cx.filtered(), 0);
    assert_eq!(cx.ignored(), 0);
}

#[test]
fn filter_that_occurs_in_the_name_schedules() {
    let mut cx = Context::new();
    cx.filter(Some("bar".to_string()));
    let registration = cx.execute("foo::bar_baz", None, None);
    assert_eq!(scheduled(&registration), Some(0));
    assert_eq!(cx.pending().len(), 1);
    assert_eq!(cx.pending()[0].name, "bar_baz");
    assert_eq!(cx.filtered(), 0);
}

#[test]
fn filter_that_does_not_occur_filters_out() {
    let mut cx = Context::new();
    cx.filter(Some("qux".to_string()));
    let registration = cx.execute("foo::bar_baz", None, None);
    assert!(matches!(registration, Registration::Filtered));
    assert!(cx.pending().is_empty());
    assert_eq!(cx.filtered(), 1);
}

#[test]
fn filter_looks_at_the_name_without_its_module() {
    let mut cx = Context::new();
    cx.filter(Some("foo".to_string()));
    let registration = cx.execute("foo::bar_baz", None, None);
    assert!(matches!(registration, Registration::Filtered));
    assert_eq!(cx.filtered(), 1);
}

#[test]
fn empty_filter_schedules_everything() {
    let mut cx = Context::new();
    cx.filter(Some(String::new()));
    assert_eq!(scheduled(&cx.execute("a::one", None, None)), Some(0));
    assert_eq!(scheduled(&cx.execute("a::", None, None)), Some(1));
    assert_eq!(cx.filtered(), 0);
    assert_eq!(cx.pending().len(), 2);
}

#[test]
fn filter_must_occur_in_one_piece() {
    let mut cx = Context::new();
    cx.filter(Some("br".to_string()));
    assert!(matches!(
        cx.execute("foo::bar", None, None),
        Registration::Filtered
    ));
    cx.filter(Some("bar_baz_".to_string()));
    assert!(matches!(
        cx.execute("foo::bar_baz", None, None),
        Registration::Filtered
    ));
    cx.filter(Some("baz".to_string()));
    assert_eq!(scheduled(&cx.execute("foo::bar_baz", None, None)), Some(0));
}

#[test]
fn skip_pattern_filters_out() {
    let mut cx = Context::new();
    cx.skip(vec!["slow".to_string(), "net".to_string()]);
    assert!(matches!(
        cx.execute("m::fetch_net", None, None),
        Registration::Filtered
    ));
    assert!(matches!(
        cx.execute("m::slow_one", None, None),
        Registration::Filtered
    ));
    assert_eq!(scheduled(&cx.execute("m::quick", None, None)), Some(0));
    assert_eq!(cx.filtered(), 2);
    assert_eq!(cx.pending().len(), 1);
}

#[test]
fn skip_wins_over_a_filter_that_matches() {
    let mut cx = Context::new();
    cx.filter(Some("bar".to_string()));
    cx.skip(vec!["baz".to_string()]);
    assert!(matches!(
        cx.execute("foo::bar_baz", None, None),
        Registration::Filtered
    ));
    assert_eq!(cx.filtered(), 1);
    assert_eq!(cx.ignored(), 0);
}

#[test]
fn skip_wins_over_an_ignore_annotation() {
    let mut cx = Context::new();
    cx.skip(vec!["baz".to_string()]);
    assert!(matches!(
        cx.execute("foo::bar_baz", None, Some(None)),
        Registration::Filtered
    ));
    assert_eq!(cx.filtered(), 1);
    assert_eq!(cx.ignored(), 0);
}

#[test]
fn ignored_test_is_reported_and_counted() {
    let mut cx = Context::new();
    let registration = cx.execute("m::later", None, Some(None));
    match registration {
        Registration::Ignored(result) => {
            assert!(matches!(result, TestResult::Ignored(None)));
            assert_eq!(result.to_text(), "ignored");
        }
        other => panic!("unexpected registration {:?}", other),
    }
    assert_eq!(cx.ignored(), 1);
    assert!(cx.pending().is_empty());
}

#[test]
fn ignored_test_keeps_its_reason() {
    let mut cx = Context::new();
    let registration = cx.execute("m::later", None, Some(Some("needs a network")));
    match registration {
        Registration::Ignored(result) => {
            assert_eq!(result.to_text(), "ignored, needs a network");
        }
        other => panic!("unexpected registration {:?}", other),
    }
    assert_eq!(cx.ignored(), 1);
}

#[test]
fn ignored_test_runs_when_ignored_tests_are_included() {
    let mut cx = Context::new();
    cx.include_ignored(true);
    assert_eq!(
        scheduled(&cx.execute("m::later", None, Some(Some("why")))),
        Some(0)
    );
    assert_eq!(cx.ignored(), 0);
    assert_eq!(cx.pending().len(), 1);
}

#[test]
fn filter_comes_before_ignore() {
    let mut cx = Context::new();
    cx.filter(Some("zzz".to_string()));
    assert!(matches!(
        cx.execute("m::later", None, Some(None)),
        Registration::Filtered
    ));
    assert_eq!(cx.filtered(), 1);
    assert_eq!(cx.ignored(), 0);
}

#[test]
fn should_panic_sets_the_flag_of_the_output() {
    let mut cx = Context::new();
    cx.execute("m::a", Some(None), None);
    cx.execute("m::b", Some(Some("boom")), None);
    cx.execute("m::c", None, None);
    assert!(cx.pending()[0].output.should_panic);
    assert_eq!(cx.pending()[0].should_panic, Some(None));
    assert!(cx.pending()[1].output.should_panic);
    assert_eq!(cx.pending()[1].should_panic, Some(Some("boom")));
    assert!(!cx.pending()[2].output.should_panic);
}

#[test]
fn ids_count_the_scheduled_tests() {
    let mut cx = Context::new();
    cx.filter(Some("t".to_string()));
    assert_eq!(scheduled(&cx.execute("m::t0", None, None)), Some(0));
    assert!(matches!(
        cx.execute("m::no", None, None),
        Registration::Filtered
    ));
    assert_eq!(scheduled(&cx.execute("m::t1", None, None)), Some(1));
    assert!(matches!(
        cx.execute("m::t_ignored", None, Some(None)),
        Registration::Ignored(_)
    ));
    assert_eq!(scheduled(&cx.execute("m::t2", None, None)), Some(2));
    assert_eq!(cx.pending().len(), 3);
    assert_eq!(cx.pending()[2].name, "t2");
}

#[test]
fn every_registration_is_counted_once() {
    let mut cx = Context::new();
    cx.filter(Some("t".to_string()));
    cx.skip(vec!["skip".to_string()]);
    let names = ["m::t0", "m::no", "m::t_skip", "m::t1", "m::x", "m::t2"];
    for (at, name) in names.iter().enumerate() {
        let ignore = if at == 3 { Some(None) } else { None };
        let before = (cx.filtered(), cx.ignored(), cx.pending().len());
        cx.execute(name, None, ignore);
        let after = (cx.filtered(), cx.ignored(), cx.pending().len());
        let grown = (after.0 - before.0) + (after.1 - before.1) + (after.2 - before.2);
        assert_eq!(grown, 1);
        assert_eq!(cx.registered(), at + 1);
    }
    assert_eq!(cx.filtered(), 3);
    assert_eq!(cx.ignored(), 1);
    assert_eq!(cx.pending().len(), 2);
}

#[test]
fn execute_sync_and_execute_async_register_alike() {
    let mut cx = Context::new();
    cx.filter(Some("yes".to_string()));
    assert_eq!(scheduled(&cx.execute_sync("m::yes_sync", None, None)), Some(0));
    assert_eq!(
        scheduled(&cx.execute_async("m::yes_async", Some(None), None)),
        Some(1)
    );
    assert!(matches!(
        cx.execute_sync("m::no", None, None),
        Registration::Filtered
    ));
    assert!(matches!(
        cx.execute_async("m::no", None, None),
        Registration::Filtered
    ));
    assert!(matches!(
        cx.execute_async("m::yes_later", None, Some(None)),
        Registration::Ignored(_)
    ));
    assert_eq!(cx.pending().len(), 2);
    assert_eq!(cx.filtered(), 2);
    assert_eq!(cx.ignored(), 1);
}

#[test]
fn decide_follows_the_policy() {
    let mut cx = Context::new();
    assert_eq!(cx.decide("anything", false), Decision::Scheduled);
    assert_eq!(cx.decide("anything", true), Decision::Ignored);
    cx.filter(Some("any".to_string()));
    cx.skip(vec!["thing".to_string()]);
    assert_eq!(cx.decide("anything", false), Decision::Filtered);
    assert_eq!(cx.decide("any", false), Decision::Scheduled);
    assert_eq!(cx.decide("thing", false), Decision::Filtered);
    cx.include_ignored(true);
    assert_eq!(cx.decide("any", true), Decision::Scheduled);
}

#[test]
fn decide_changes_nothing() {
    let mut cx = Context::new();
    cx.filter(Some("x".to_string()));
    cx.decide("y", false);
    cx.decide("x", true);
    assert_eq!(cx.registered(), 0);
    assert_eq!(cx.filtered(), 0);
    assert_eq!(cx.ignored(), 0);
}
