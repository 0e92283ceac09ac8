//! What holds of every run, stated over the model of the state.

use crate::context::{ContextView, Decision, Phase, Step, CONCURRENCY};
use crate::entry::absent;
use crate::outcome::{judged, Polled, TestResult};
use crate::report::consistent;
use crate::output::Stream;
use crate::text::{is_substring, normalized};
use vstd::prelude::*;

verus! {

/// The state before anything is registered is one that a run can be in.
pub proof fn initial_state_is_well_formed()
    ensures
        ContextView::initial().wf(),
{
}

/// A registration leaves the run in a state that it can be in, as long as the
/// count of registrations fits the machine.
pub proof fn registration_keeps_invariant(
    cx: ContextView,
    name: Seq<char>,
    should_panic: Option<Option<Seq<char>>>,
    ignore: bool,
)
    requires
        cx.wf(),
        cx.registered() < usize::MAX,
    ensures
        cx.executed(name, should_panic, ignore).wf(),
{
}

/// Whatever the scheduler decides to do next, the run stays in a state that it
/// can be in.
pub proof fn advance_keeps_invariant(cx: ContextView)
    requires
        cx.wf(),
        cx.active is None,
    ensures
        cx.advanced().0.wf(),
{
}

/// Whatever a resumption comes to, the run stays in a state that it can be in.
pub proof fn settle_keeps_invariant(cx: ContextView, outcome: Polled)
    requires
        cx.wf(),
        cx.active is Some,
    ensures
        cx.settled(outcome).wf(),
        cx.settled(outcome).active is None,
{
    let next = cx.settled(outcome);
    assert forall|i: int| 0 <= i < next.failures.len() implies consistent(
        (#[trigger] next.failures[i]).0,
        next.failures[i].1,
    ) by {
        if i < cx.failures.len() {
            assert(next.failures[i] == cx.failures[i]);
        }
    }
}

/// A diagnostic emission leaves the run in a state that it can be in.
pub proof fn record_keeps_invariant(cx: ContextView, which: Stream, args: Seq<Seq<char>>)
    requires
        cx.wf(),
    ensures
        cx.recorded(which, args).wf(),
{
}

/// Every test that asked to be registered is in exactly one place: left out by
/// the filter or a skip pattern, ignored, passed, failed, pending or in
/// flight. When nothing is pending or in flight any more, every test is
/// filtered, ignored or retired with a result.
pub proof fn every_test_is_accounted_for(cx: ContextView)
    requires
        cx.wf(),
    ensures
        cx.registered() == cx.filtered + cx.ignored + cx.succeeded + cx.failures.len()
            + cx.pending.len() + cx.in_flight(),
        cx.pending.len() == 0 && cx.in_flight() == 0 ==> cx.registered() == cx.filtered
            + cx.ignored + cx.succeeded + cx.failures.len(),
{
}

/// A registration adds one to exactly one of three counts: filtered, ignored,
/// or accepted. An accepted test is put on the pending queue, and nothing else
/// is.
pub proof fn registration_counts_once(
    cx: ContextView,
    name: Seq<char>,
    should_panic: Option<Option<Seq<char>>>,
    ignore: bool,
)
    ensures
        ({
            let next = cx.executed(name, should_panic, ignore);
            match cx.decision(normalized(name), ignore) {
                Decision::Filtered => {
                    &&& next.filtered == cx.filtered + 1
                    &&& next.ignored == cx.ignored
                    &&& next.scheduled == cx.scheduled
                    &&& next.pending == cx.pending
                },
                Decision::Ignored => {
                    &&& next.filtered == cx.filtered
                    &&& next.ignored == cx.ignored + 1
                    &&& next.scheduled == cx.scheduled
                    &&& next.pending == cx.pending
                },
                Decision::Scheduled => {
                    &&& next.filtered == cx.filtered
                    &&& next.ignored == cx.ignored
                    &&& next.scheduled == cx.scheduled + 1
                    &&& next.pending.len() == cx.pending.len() + 1
                },
            }
        }),
{
}

/// A test that finishes leaves the tests in flight and is counted once: as
/// passed or as failed, never both.
pub proof fn retirement_counts_once(cx: ContextView, result: TestResult)
    requires
        cx.active is Some,
    ensures
        ({
            let next = cx.retired(result);
            &&& next.in_flight() + 1 == cx.in_flight()
            &&& next.pending == cx.pending
            &&& {
                ||| next.succeeded == cx.succeeded + 1 && next.failures == cx.failures
                ||| next.succeeded == cx.succeeded && next.failures.len() == cx.failures.len()
                    + 1
            }
        }),
{
}

/// With no skip pattern that applies and no ignore annotation in the way, a
/// test is scheduled exactly when the filter occurs in its name. A run without
/// a filter, or with the empty filter, schedules every such test.
pub proof fn filter_law(cx: ContextView, name: Seq<char>, ignore: bool)
    requires
        !cx.skips(name),
        !ignore || cx.include_ignored,
    ensures
        cx.decision(name, ignore) is Scheduled <==> (cx.filter matches Some(filter)
            ==> is_substring(filter, name)),
        cx.filter is None ==> cx.decision(name, ignore) is Scheduled,
        cx.filter == Some(Seq::<char>::empty()) ==> cx.decision(name, ignore) is Scheduled,
{
    let nothing = Seq::<char>::empty();
    assert(name.subrange(0int, 0int + nothing.len()) =~= nothing);
}

/// A test whose name holds one of the skip patterns is filtered out, whatever
/// the filter and the ignore annotation say.
pub proof fn skip_law(cx: ContextView, name: Seq<char>, ignore: bool)
    requires
        cx.skips(name),
    ensures
        cx.decision(name, ignore) is Filtered,
{
}

/// A test that should panic, with any message, passes exactly when its body
/// completes with an error. A test that should panic with a given text in the
/// message passes exactly when its body completes with an error and the
/// captured panic text holds that text.
pub proof fn should_panic_law(result: TestResult, panic: Seq<char>, expected: Seq<char>)
    ensures
        judged(Some(None), result, panic) is None <==> result is Failed,
        judged(Some(Some(expected)), result, panic) is None <==> result is Failed && is_substring(
            expected,
            panic,
        ),
{
}

/// The tests in flight never exceed the cap, the one under resumption
/// included.
pub proof fn in_flight_within_cap(cx: ContextView)
    requires
        cx.wf(),
    ensures
        cx.in_flight() <= CONCURRENCY,
        cx.running.len() + (if cx.active is Some {
            1nat
        } else {
            0nat
        }) <= CONCURRENCY,
{
}

/// The scheduler reports the end of the run exactly when nothing is pending
/// and nothing is in flight, and then says that the run passed exactly when no
/// test has failed.
pub proof fn completion_law(cx: ContextView)
    requires
        cx.wf(),
        cx.active is None,
    ensures
        cx.advanced().1 is Ready <==> cx.pending.len() == 0 && cx.in_flight() == 0,
        cx.advanced().1 matches Step::Ready(passed) ==> passed == (cx.failures.len() == 0),
        cx.advanced().1 is Pending ==> cx.in_flight() > 0,
{
}

/// A diagnostic emission reaches the output of the test under resumption and
/// nothing else: every pending test, every other test in flight and every
/// failed test keeps its output, and so do the other streams and the panic
/// text of the test under resumption. With no test under resumption nothing
/// changes at all.
pub proof fn isolation_law(cx: ContextView, which: Stream, args: Seq<Seq<char>>)
    ensures
        ({
            let next = cx.recorded(which, args);
            &&& next.pending == cx.pending
            &&& next.running == cx.running
            &&& next.failures == cx.failures
            &&& cx.active is None ==> next == cx
            &&& cx.active matches Some(test) ==> {
                &&& next.active matches Some(after)
                &&& after.name == test.name
                &&& after.id == test.id
                &&& after.output.panic == test.output.panic
                &&& forall|other: Stream|
                    other != which ==> after.output.stream(other) == test.output.stream(other)
            }
        }),
{
}

/// The scheduler hands the capture of output to one test at a time: the test
/// it asks to resume is the one under resumption, no other test that waits or
/// is in flight has its id, and after the resumption is settled no test is
/// under resumption.
pub proof fn capture_is_scoped(cx: ContextView, outcome: Polled)
    requires
        cx.wf(),
        cx.active is None,
    ensures
        cx.advanced().1 matches Step::Resume(id) ==> {
            &&& cx.advanced().0.active matches Some(test)
            &&& test.id == id
            &&& absent(id as nat, cx.advanced().0.pending)
            &&& absent(id as nat, cx.advanced().0.running)
            &&& cx.advanced().0.settled(outcome).active is None
        },
        !(cx.advanced().1 is Resume) ==> cx.advanced().0.active is None && cx.advanced().0.phase
            == Phase::Idle,
{
}

/// The counts of passed, filtered and ignored tests never go down, and a
/// failure that was recorded stays as it is: whatever happens next, the list
/// of failures only grows at its end.
pub proof fn records_are_kept(
    cx: ContextView,
    name: Seq<char>,
    should_panic: Option<Option<Seq<char>>>,
    ignore: bool,
    outcome: Polled,
    which: Stream,
    args: Seq<Seq<char>>,
)
    ensures
        grown(cx, cx.executed(name, should_panic, ignore)),
        grown(cx, cx.advanced().0),
        cx.active is Some ==> grown(cx, cx.settled(outcome)),
        grown(cx, cx.recorded(which, args)),
{
    if cx.active is Some {
        let next = cx.settled(outcome);
        assert(next.failures.take(cx.failures.len() as int) =~= cx.failures);
    }
    assert(cx.failures.take(cx.failures.len() as int) =~= cx.failures);
}

/// From `before` to `after` no count went down and no recorded failure
/// changed.
pub open spec fn grown(before: ContextView, after: ContextView) -> bool {
    &&& before.succeeded <= after.succeeded
    &&& before.filtered <= after.filtered
    &&& before.ignored <= after.ignored
    &&& before.scheduled <= after.scheduled
    &&& before.failures.len() <= after.failures.len()
    &&& after.failures.take(before.failures.len() as int) == before.failures
}

} // verus!
