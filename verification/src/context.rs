//! The state of a run and the rules by which it changes: registration under
//! the filter, skip and ignore policy, bounded cooperative scheduling, and
//! the retirement of finished tests.

use crate::entry::{absent, apart, distinct, tests, Test, TestView};
use crate::outcome::{expectation, finished, judged, Failure, Polled, TestResult};
use crate::output::{texts, Output, Stream};
use crate::report::{announce, consistent, failure_report, print_failure, summarize, summary};
use crate::text::{contains, has_separator, is_substring, normalize, normalized};
use vstd::prelude::*;
use wasm_bindgen::JsValue;

verus! {

broadcast use vstd::string::group_string_axioms;

/// Maximum number of tests that are in flight at the same time.
///
/// The default is 1 because tests share the state of their environment.
pub const CONCURRENCY: usize = 1;

/// Where a resumption of the scheduler stands.
#[derive(Clone, Copy, Debug, PartialEq, Eq, Structural)]
pub enum Phase {
    /// Between two resumptions.
    Idle,
    /// Resuming the tests in flight, from the last one down. The number is the
    /// count of in-flight tests that still have their turn to come.
    Sweep(usize),
    /// Admitting tests from the pending queue.
    Admit,
}

/// What the driver of a run has to do next.
#[derive(Clone, Copy, Debug, PartialEq, Eq, Structural)]
pub enum Step {
    /// Resume the body of the test with this id once, then report what came of
    /// it.
    Resume(usize),
    /// Tests are still in flight: yield, and come back when one of them wakes.
    Pending,
    /// The run is over. The flag says whether every test passed.
    Ready(bool),
}

/// What the policy makes of a test that asks to be registered.
#[derive(Clone, Copy, Debug, PartialEq, Eq, Structural)]
pub enum Decision {
    /// Left out by the filter or by a skip pattern.
    Filtered,
    /// Annotated as ignored, and ignored tests are not included.
    Ignored,
    /// Accepted for execution.
    Scheduled,
}

/// What became of a test that asked to be registered.
#[derive(Debug)]
pub enum Registration {
    /// Left out by the filter or by a skip pattern. Nothing is reported.
    Filtered,
    /// Ignored. The result to report at once holds the reason, if one was
    /// given.
    Ignored(TestResult),
    /// Put on the pending queue under this id.
    Scheduled(usize),
}

/// The state of a run.
pub struct Context {
    /// An optional filter used to restrict which tests are actually executed.
    filter: Option<String>,
    /// Include ignored tests.
    include_ignored: bool,
    /// Tests to skip.
    skip: Vec<String>,
    /// Counter of the number of tests that have succeeded.
    succeeded: usize,
    /// Counter of the number of tests that have been filtered.
    filtered: usize,
    /// Counter of the number of tests that have been ignored.
    ignored: usize,
    /// Counter of the number of tests that were accepted for execution.
    scheduled: usize,
    /// A list of all tests which have failed, each with the reason.
    failures: Vec<(Test, Failure)>,
    /// Remaining tests to execute. The last one is admitted first.
    remaining: Vec<Test>,
    /// Tests in flight that are not being resumed just now.
    running: Vec<Test>,
    /// The test that is being resumed, if any. Its output is the one that
    /// diagnostic emissions go to.
    active: Option<Test>,
    /// Where the current resumption of the scheduler stands.
    phase: Phase,
}

/// What a [`Context`] holds.
#[verifier::ext_equal]
pub struct ContextView {
    pub filter: Option<Seq<char>>,
    pub include_ignored: bool,
    pub skip: Seq<Seq<char>>,
    pub succeeded: nat,
    pub filtered: nat,
    pub ignored: nat,
    pub scheduled: nat,
    pub failures: Seq<(TestView, Failure)>,
    pub pending: Seq<TestView>,
    pub running: Seq<TestView>,
    pub active: Option<TestView>,
    pub phase: Phase,
}

/// The views of a list of failures.
pub open spec fn failed(list: Seq<(Test, Failure)>) -> Seq<(TestView, Failure)> {
    list.map_values(|entry: (Test, Failure)| (entry.0@, entry.1))
}

impl ContextView {
    /// The state before anything is configured or registered.
    pub open spec fn initial() -> ContextView {
        ContextView {
            filter: None,
            include_ignored: false,
            skip: Seq::empty(),
            succeeded: 0,
            filtered: 0,
            ignored: 0,
            scheduled: 0,
            failures: Seq::empty(),
            pending: Seq::empty(),
            running: Seq::empty(),
            active: None,
            phase: Phase::Idle,
        }
    }

    /// The number of tests in flight: admitted and not yet retired.
    pub open spec fn in_flight(self) -> nat {
        self.running.len() + if self.active is Some {
            1nat
        } else {
            0nat
        }
    }

    /// The number of tests that asked to be registered so far.
    pub open spec fn registered(self) -> nat {
        self.filtered + self.ignored + self.scheduled
    }

    /// What holds of every state of a run. The tests in flight never exceed
    /// the cap. Every test that was accepted is in exactly one place: passed,
    /// failed, pending or in flight. A test is under resumption only while the
    /// scheduler is. The id of a test that waits or is in flight is one that
    /// was given out, and no two such tests share an id.
    pub open spec fn wf(self) -> bool {
        &&& self.in_flight() <= CONCURRENCY
        &&& self.phase matches Phase::Sweep(left) ==> left <= self.running.len()
        &&& self.phase is Idle ==> self.active is None
        &&& self.scheduled == self.succeeded + self.failures.len() + self.pending.len()
            + self.in_flight()
        &&& self.registered() <= usize::MAX
        &&& forall|i: int|
            0 <= i < self.pending.len() ==> (#[trigger] self.pending[i]).id < self.scheduled
        &&& forall|i: int|
            0 <= i < self.running.len() ==> (#[trigger] self.running[i]).id < self.scheduled
        &&& self.active matches Some(test) ==> test.id < self.scheduled
        &&& distinct(self.pending)
        &&& distinct(self.running)
        &&& apart(self.pending, self.running)
        &&& self.active matches Some(test) ==> absent(test.id, self.pending) && absent(
            test.id,
            self.running,
        )
        &&& forall|i: int|
            0 <= i < self.failures.len() ==> consistent(
                (#[trigger] self.failures[i]).0,
                self.failures[i].1,
            )
    }

    /// Some skip pattern occurs in `name`.
    pub open spec fn skips(self, name: Seq<char>) -> bool {
        exists|k: int| 0 <= k < self.skip.len() && is_substring(#[trigger] self.skip[k], name)
    }

    /// What the policy makes of a test with the given name, already without
    /// its module path. The filter comes first, then the skip patterns, then
    /// the ignore annotation.
    pub open spec fn decision(self, name: Seq<char>, ignore: bool) -> Decision {
        if self.filter matches Some(filter) && !is_substring(filter, name) {
            Decision::Filtered
        } else if self.skips(name) {
            Decision::Filtered
        } else if ignore && !self.include_ignored {
            Decision::Ignored
        } else {
            Decision::Scheduled
        }
    }

    /// The state after a test asked to be registered under its qualified name.
    pub open spec fn executed(
        self,
        name: Seq<char>,
        should_panic: Option<Option<Seq<char>>>,
        ignore: bool,
    ) -> ContextView {
        match self.decision(normalized(name), ignore) {
            Decision::Filtered => ContextView { filtered: self.filtered + 1, ..self },
            Decision::Ignored => ContextView { ignored: self.ignored + 1, ..self },
            Decision::Scheduled => ContextView {
                scheduled: self.scheduled + 1,
                pending: self.pending.push(
                    TestView::fresh(normalized(name), self.scheduled, should_panic),
                ),
                ..self
            },
        }
    }
}

impl View for Context {
    type V = ContextView;

    closed spec fn view(&self) -> ContextView {
        ContextView {
            filter: match self.filter {
                Some(filter) => Some(filter@),
                None => None,
            },
            include_ignored: self.include_ignored,
            skip: texts(self.skip@),
            succeeded: self.succeeded as nat,
            filtered: self.filtered as nat,
            ignored: self.ignored as nat,
            scheduled: self.scheduled as nat,
            failures: failed(self.failures@),
            pending: tests(self.remaining@),
            running: tests(self.running@),
            active: match self.active {
                Some(test) => Some(test@),
                None => None,
            },
            phase: self.phase,
        }
    }
}

/// The reason of an ignore annotation as the result that reports it.
pub open spec fn ignored_result(result: TestResult, ignore: Option<Option<&'static str>>) -> bool {
    match ignore {
        Some(Some(reason)) => result matches TestResult::Ignored(Some(text)) && text@ == reason@,
        _ => result == TestResult::Ignored(None),
    }
}

/// What a registration hands back, given what the policy made of the test:
/// for an ignored test the result to report, for an accepted test its id.
pub open spec fn registers(
    registration: Registration,
    decision: Decision,
    ignore: Option<Option<&'static str>>,
    id: nat,
) -> bool {
    match decision {
        Decision::Filtered => registration is Filtered,
        Decision::Ignored => registration matches Registration::Ignored(result) && ignored_result(
            result,
            ignore,
        ),
        Decision::Scheduled => registration == Registration::Scheduled(id as usize),
    }
}

impl Context {
    /// The state is one that a run can be in.
    pub open spec fn wf(&self) -> bool {
        self@.wf()
    }

    /// Creates a new context ready to run tests: nothing configured, nothing
    /// registered.
    pub fn new() -> (context: Context)
        ensures
            context.wf(),
            context@ == ContextView::initial(),
    {
        let context = Context {
            filter: None,
            include_ignored: false,
            skip: Vec::new(),
            succeeded: 0,
            filtered: 0,
            ignored: 0,
            scheduled: 0,
            failures: Vec::new(),
            remaining: Vec::new(),
            running: Vec::new(),
            active: None,
            phase: Phase::Idle,
        };
        assert(context@ =~= ContextView::initial());
        context
    }

    /// Handle `--include-ignored` flag.
    pub fn include_ignored(&mut self, include_ignored: bool)
        ensures
            final(self)@ == (ContextView { include_ignored, ..old(self)@ }),
            old(self).wf() ==> final(self).wf(),
    {
        self.include_ignored = include_ignored;
    }

    /// Handle `--skip` arguments.
    pub fn skip(&mut self, skip: Vec<String>)
        ensures
            final(self)@ == (ContextView { skip: texts(skip@), ..old(self)@ }),
            old(self).wf() ==> final(self).wf(),
    {
        self.skip = skip;
    }

    /// Handle filter argument.
    pub fn filter(&mut self, filter: Option<String>)
        ensures
            final(self)@ == (ContextView {
                filter: match filter {
                    Some(text) => Some(text@),
                    None => None,
                },
                ..old(self)@
            }),
            old(self).wf() ==> final(self).wf(),
    {
        self.filter = filter;
    }

    /// Opens a run of `tests` tests: the line that announces it.
    pub fn run(&self, tests: usize) -> (line: String)
        ensures
            line@ == crate::report::announcement(tests as nat),
    {
        announce(tests)
    }

    /// Entry point for a synchronous test. The test is registered as
    /// [`Context::execute`] says; the driver keeps its body under the id that
    /// comes back, and resumes it when the scheduler says so.
    pub fn execute_sync(
        &mut self,
        name: &str,
        should_panic: Option<Option<&'static str>>,
        ignore: Option<Option<&'static str>>,
    ) -> (registration: Registration)
        requires
            old(self).wf(),
            has_separator(name@),
            old(self)@.registered() < usize::MAX,
            old(self)@.phase is Idle || old(self)@.decision(normalized(name@), ignore is Some)
                !is Scheduled,
        ensures
            final(self).wf(),
            final(self)@ == old(self)@.executed(name@, expectation(should_panic), ignore is Some),
            final(self)@.registered() == old(self)@.registered() + 1,
            registers(
                registration,
                old(self)@.decision(normalized(name@), ignore is Some),
                ignore,
                old(self)@.scheduled,
            ),
    {
        self.execute(name, should_panic, ignore)
    }

    /// Entry point for an asynchronous test. The test is registered as
    /// [`Context::execute`] says; the driver keeps its body under the id that
    /// comes back, and resumes it when the scheduler says so.
    pub fn execute_async(
        &mut self,
        name: &str,
        should_panic: Option<Option<&'static str>>,
        ignore: Option<Option<&'static str>>,
    ) -> (registration: Registration)
        requires
            old(self).wf(),
            has_separator(name@),
            old(self)@.registered() < usize::MAX,
            old(self)@.phase is Idle || old(self)@.decision(normalized(name@), ignore is Some)
                !is Scheduled,
        ensures
            final(self).wf(),
            final(self)@ == old(self)@.executed(name@, expectation(should_panic), ignore is Some),
            final(self)@.registered() == old(self)@.registered() + 1,
            registers(
                registration,
                old(self)@.decision(normalized(name@), ignore is Some),
                ignore,
                old(self)@.scheduled,
            ),
    {
        self.execute(name, should_panic, ignore)
    }

    /// Says what the policy makes of a test, given its name without the module
    /// path and whether it is annotated as ignored.
    pub fn decide(&self, name: &str, ignore: bool) -> (decision: Decision)
        ensures
            decision == self@.decision(name@, ignore),
    {
        match &self.filter {
            Some(filter) => {
                if !contains(name, filter.as_str()) {
                    return Decision::Filtered;
                }
            },
            None => {},
        }
        let mut k: usize = 0;
        while k < self.skip.len()
            invariant
                k <= self.skip.len(),
                forall|j: int| 0 <= j < k ==> !is_substring(#[trigger] texts(self.skip@)[j], name@),
            decreases self.skip.len() - k,
        {
            if contains(name, self.skip[k].as_str()) {
                assert(is_substring(texts(self.skip@)[k as int], name@));
                return Decision::Filtered;
            }
            k = k + 1;
        }
        if ignore && !self.include_ignored {
            return Decision::Ignored;
        }
        Decision::Scheduled
    }

    /// Registers a test under its qualified name, subject to the policy. A
    /// test that the filter or a skip pattern leaves out is counted as
    /// filtered. One that is annotated as ignored is counted as ignored,
    /// unless ignored tests are included. Every other test goes on the pending
    /// queue with an empty output buffer.
    ///
    /// A name holds its module path. No test can be put on the queue while the
    /// scheduler is being resumed.
    pub fn execute(
        &mut self,
        name: &str,
        should_panic: Option<Option<&'static str>>,
        ignore: Option<Option<&'static str>>,
    ) -> (registration: Registration)
        requires
            old(self).wf(),
            has_separator(name@),
            old(self)@.registered() < usize::MAX,
            old(self)@.phase is Idle || old(self)@.decision(normalized(name@), ignore is Some)
                !is Scheduled,
        ensures
            final(self).wf(),
            final(self)@ == old(self)@.executed(name@, expectation(should_panic), ignore is Some),
            final(self)@.registered() == old(self)@.registered() + 1,
            registers(
                registration,
                old(self)@.decision(normalized(name@), ignore is Some),
                ignore,
                old(self)@.scheduled,
            ),
    {
        let name = normalize(name);
        match self.decide(name, ignore.is_some()) {
            Decision::Filtered => {
                self.filtered = self.filtered + 1;
                Registration::Filtered
            },
            Decision::Ignored => {
                self.ignored = self.ignored + 1;
                let reason = match ignore {
                    Some(Some(reason)) => Some(reason.to_owned()),
                    _ => None,
                };
                Registration::Ignored(TestResult::Ignored(reason))
            },
            Decision::Scheduled => {
                let id = self.scheduled;
                let test = Test {
                    name: name.to_owned(),
                    id,
                    output: Output::new(should_panic.is_some()),
                    should_panic,
                };
                assert(test@ =~= TestView::fresh(name@, id as nat, expectation(should_panic)));
                self.scheduled = self.scheduled + 1;
                self.remaining.push(test);
                assert(tests(self.remaining@) =~= tests(old(self).remaining@).push(test@));
                Registration::Scheduled(id)
            },
        }
    }
}

impl ContextView {
    /// How many of the tests in flight still have their turn to come in the
    /// current resumption of the scheduler. A new resumption starts with all
    /// of them.
    pub open spec fn turns_left(self) -> nat {
        match self.phase {
            Phase::Idle => self.running.len(),
            Phase::Sweep(left) => left as nat,
            Phase::Admit => 0,
        }
    }

    /// The state after the scheduler has decided what to do next, and that
    /// decision. First every test in flight is resumed once, the last one
    /// first. Then tests are admitted from the pending queue, the one
    /// registered last first, while the cap allows. After that the scheduler
    /// yields if tests are in flight, and is done if none is.
    pub open spec fn advanced(self) -> (ContextView, Step) {
        let left = self.turns_left();
        if left > 0 {
            let test = self.running[left - 1];
            (
                ContextView {
                    running: self.running.remove(left - 1),
                    active: Some(test),
                    phase: Phase::Sweep((left - 1) as usize),
                    ..self
                },
                Step::Resume(test.id as usize),
            )
        } else if self.running.len() < CONCURRENCY && self.pending.len() > 0 {
            let test = self.pending.last();
            (
                ContextView {
                    pending: self.pending.drop_last(),
                    active: Some(test),
                    phase: Phase::Admit,
                    ..self
                },
                Step::Resume(test.id as usize),
            )
        } else if self.running.len() > 0 {
            (ContextView { phase: Phase::Idle, ..self }, Step::Pending)
        } else {
            (ContextView { phase: Phase::Idle, ..self }, Step::Ready(self.failures.len() == 0))
        }
    }

    /// The state after the test under resumption has suspended: it stays in
    /// flight, at the place it had there, or at the end if it was just
    /// admitted.
    pub open spec fn suspended(self) -> ContextView {
        ContextView {
            running: match self.phase {
                Phase::Sweep(left) => self.running.insert(left as int, self.active->0),
                _ => self.running.push(self.active->0),
            },
            active: None,
            ..self
        }
    }

    /// The state after the test under resumption has finished with `result`:
    /// it is counted as passed, or it joins the failures with the reason.
    pub open spec fn retired(self, result: TestResult) -> ContextView {
        let test = self.active->0;
        match judged(test.should_panic, result, test.output.panic) {
            None => ContextView { succeeded: self.succeeded + 1, active: None, ..self },
            Some(failure) => ContextView {
                failures: self.failures.push((test, failure)),
                active: None,
                ..self
            },
        }
    }

    /// The state after the driver has reported what a resumption came to.
    pub open spec fn settled(self, outcome: Polled) -> ContextView {
        match outcome {
            Polled::Pending => self.suspended(),
            Polled::Ready(result) => self.retired(finished(result)),
        }
    }

    /// The state after a diagnostic emission: it goes to the test under
    /// resumption, and nowhere if there is none.
    pub open spec fn recorded(self, which: Stream, args: Seq<Seq<char>>) -> ContextView {
        match self.active {
            Some(test) => ContextView {
                active: Some(TestView { output: test.output.recorded(which, args), ..test }),
                ..self
            },
            None => self,
        }
    }

    /// The state after the test under resumption has panicked with `message`.
    pub open spec fn panicked(self, message: Seq<char>) -> ContextView {
        let test = self.active->0;
        ContextView {
            active: Some(TestView { output: test.output.panicked(message), ..test }),
            ..self
        }
    }
}

/// What is reported of a test that has just been retired: its name, and
/// whether it passed.
pub open spec fn reported(line: (String, TestResult), test: TestView, result: TestResult) -> bool {
    &&& line.0@ == test.name
    &&& match judged(test.should_panic, result, test.output.panic) {
        None => line.1 is Passed,
        Some(_) => line.1 is Failed,
    }
}

impl Context {
    /// Decides what the driver has to do next, and prepares for it. Where the
    /// answer is to resume a test, that test is under resumption from now on:
    /// its output buffer is the one that diagnostic emissions go to, until the
    /// driver reports what came of the resumption.
    pub fn advance(&mut self) -> (step: Step)
        requires
            old(self).wf(),
            old(self)@.active is None,
        ensures
            final(self).wf(),
            final(self)@ == old(self)@.advanced().0,
            step == old(self)@.advanced().1,
            step is Resume <==> final(self)@.active is Some,
            step is Ready <==> old(self)@.pending.len() == 0 && old(self)@.in_flight() == 0,
            step matches Step::Ready(passed) ==> passed == (old(self)@.failures.len() == 0),
            final(self)@.registered() == old(self)@.registered(),
    {
        let left = match self.phase {
            Phase::Idle => self.running.len(),
            Phase::Sweep(left) => left,
            Phase::Admit => 0,
        };
        if left > 0 {
            let test = self.running.remove(left - 1);
            let id = test.id;
            self.active = Some(test);
            self.phase = Phase::Sweep(left - 1);
            assert(tests(self.running@) =~= tests(old(self).running@).remove(left - 1));
            assert(self@ =~= old(self)@.advanced().0);
            return Step::Resume(id);
        }
        if self.running.len() < CONCURRENCY {
            match self.remaining.pop() {
                Some(test) => {
                    let id = test.id;
                    self.active = Some(test);
                    self.phase = Phase::Admit;
                    assert(tests(self.remaining@) =~= tests(old(self).remaining@).drop_last());
                    assert(self@ =~= old(self)@.advanced().0);
                    return Step::Resume(id);
                },
                None => {},
            }
        }
        self.phase = Phase::Idle;
        assert(self@ =~= old(self)@.advanced().0);
        if self.running.len() != 0 {
            return Step::Pending;
        }
        Step::Ready(self.failures.len() == 0)
    }

    /// Retires the test under resumption, which has finished with `result`.
    ///
    /// A test of which no panic is expected passes unless it threw. A test that
    /// should panic passes exactly when it threw and, where a message is
    /// expected, its captured panic text holds that message. A test that
    /// passes is counted; one that does not joins the failures with the
    /// reason. The name and the result to report come back: a failure is
    /// reported with the null value in place of what was thrown, which stays
    /// with the failure.
    pub fn log_test_result(&mut self, result: TestResult) -> (line: (String, TestResult))
        requires
            old(self).wf(),
            old(self)@.active is Some,
            result !is Ignored,
        ensures
            final(self).wf(),
            final(self)@ == old(self)@.retired(result),
            reported(line, old(self)@.active->0, result),
            final(self)@.registered() == old(self)@.registered(),
    {
        let test = self.active.take().unwrap();
        let name = test.name.clone();
        let ghost before = failed(self.failures@);
        match test.should_panic {
            Some(should_panic) => {
                match result {
                    TestResult::Failed(_) => {
                        match should_panic {
                            Some(expected) => {
                                if !contains(test.output.panic.as_str(), expected) {
                                    self.failures.push((test, Failure::ShouldPanicExpected));
                                    assert(failed(self.failures@) =~= before.push(
                                        (test@, Failure::ShouldPanicExpected),
                                    ));
                                    assert(self@ =~= old(self)@.retired(result));
                                    return (name, TestResult::Failed(JsValue::null()));
                                }
                            },
                            None => {},
                        }
                        self.succeeded = self.succeeded + 1;
                        assert(self@ =~= old(self)@.retired(result));
                        (name, TestResult::Passed)
                    },
                    _ => {
                        self.failures.push((test, Failure::ShouldPanic));
                        assert(failed(self.failures@) =~= before.push(
                            (test@, Failure::ShouldPanic),
                        ));
                        assert(self@ =~= old(self)@.retired(result));
                        (name, TestResult::Failed(JsValue::null()))
                    },
                }
            },
            None => {
                match result {
                    TestResult::Failed(error) => {
                        self.failures.push((test, Failure::Error(error)));
                        assert(failed(self.failures@) =~= before.push(
                            (test@, Failure::Error(error)),
                        ));
                        assert(self@ =~= old(self)@.retired(result));
                        (name, TestResult::Failed(JsValue::null()))
                    },
                    _ => {
                        self.succeeded = self.succeeded + 1;
                        assert(self@ =~= old(self)@.retired(result));
                        (name, TestResult::Passed)
                    },
                }
            },
        }
    }

    /// Takes what one resumption of the test under resumption came to. A test
    /// that suspended stays in flight. A test that finished is retired, and
    /// its name and the result to report come back. Either way no test is
    /// under resumption afterwards.
    pub fn settle(&mut self, outcome: Polled) -> (line: Option<(String, TestResult)>)
        requires
            old(self).wf(),
            old(self)@.active is Some,
        ensures
            final(self).wf(),
            final(self)@ == old(self)@.settled(outcome),
            final(self)@.active is None,
            final(self)@.registered() == old(self)@.registered(),
            match outcome {
                Polled::Pending => line is None,
                Polled::Ready(result) => line matches Some(entry) && reported(
                    entry,
                    old(self)@.active->0,
                    finished(result),
                ),
            },
    {
        match outcome {
            Polled::Ready(result) => Some(self.log_test_result(TestResult::from(result))),
            Polled::Pending => {
                let test = self.active.take().unwrap();
                match self.phase {
                    Phase::Sweep(left) => {
                        self.running.insert(left, test);
                        assert(tests(self.running@) =~= tests(old(self).running@).insert(
                            left as int,
                            test@,
                        ));
                    },
                    _ => {
                        self.running.push(test);
                        assert(tests(self.running@) =~= tests(old(self).running@).push(test@));
                    },
                }
                assert(self@ =~= old(self)@.suspended());
                None
            },
        }
    }

    /// Handles one diagnostic emission on a stream. If a test is under
    /// resumption, the arguments go to that stream of its output, separated by
    /// spaces and followed by a line feed; no other test and no other stream
    /// changes. If none is, nothing happens.
    pub fn record(&mut self, which: Stream, args: &Vec<String>)
        ensures
            final(self)@ == old(self)@.recorded(which, texts(args@)),
            old(self).wf() ==> final(self).wf(),
    {
        match self.active.take() {
            Some(mut test) => {
                test.output.record(which, args);
                self.active = Some(test);
                assert(self@ =~= old(self)@.recorded(which, texts(args@)));
            },
            None => {
                assert(self@ =~= old(self)@);
            },
        }
    }

    /// Handles a panic of the test under resumption: its message joins the
    /// panic text of that test. Returns whether the panic was unexpected, in
    /// which case it is to be reported at once.
    pub fn panic_handling(&mut self, message: &str) -> (unexpected: bool)
        requires
            old(self)@.active is Some,
        ensures
            final(self)@ == old(self)@.panicked(message@),
            unexpected == !(old(self)@.active->0).output.should_panic,
            old(self).wf() ==> final(self).wf(),
    {
        let mut test = self.active.take().unwrap();
        let unexpected = test.output.record_panic(message);
        self.active = Some(test);
        assert(self@ =~= old(self)@.panicked(message@));
        unexpected
    }
}

/// The text that an optional string holds.
pub open spec fn optional_text(text: Option<&str>) -> Option<Seq<char>> {
    match text {
        Some(text) => Some(text@),
        None => None,
    }
}

impl ContextView {
    /// The blocks that describe the failures, in the order in which the tests
    /// were retired. `errors` holds, for each failure, the thrown value as
    /// text.
    pub open spec fn failure_blocks(self, errors: Seq<Seq<char>>) -> Seq<Seq<char>> {
        Seq::new(
            self.failures.len(),
            |i: int| failure_report(self.failures[i].0, self.failures[i].1, errors[i]),
        )
    }

    /// The names of the failed tests, each behind four spaces.
    pub open spec fn failure_names(self) -> Seq<Seq<char>> {
        Seq::new(self.failures.len(), |i: int| "    "@ + self.failures[i].0.name)
    }

    /// The lines of the final report. If any test failed: a heading, one block
    /// for each failure, a second heading and the names of the failed tests.
    /// Then, in any case, an empty line and the summary.
    pub open spec fn report(self, errors: Seq<Seq<char>>, elapsed: Option<Seq<char>>) -> Seq<
        Seq<char>,
    > {
        let detail = if self.failures.len() > 0 {
            seq!["\nfailures:\n"@] + self.failure_blocks(errors) + seq!["failures:\n"@]
                + self.failure_names()
        } else {
            Seq::empty()
        };
        detail + seq![
            Seq::<char>::empty(),
            summary(self.succeeded, self.failures.len(), self.ignored, self.filtered, elapsed),
        ]
    }
}

impl Context {
    /// Renders the final report, line by line. `errors` holds, for each
    /// failure and in the same order, the thrown value as text; it is shown
    /// for the tests that simply failed. `elapsed` is the time that the run
    /// took, in seconds and as text, where it was measured. The state of the
    /// run is left as it is.
    pub fn print_results(&self, errors: &Vec<String>, elapsed: Option<&str>) -> (lines: Vec<String>)
        requires
            self.wf(),
            errors.len() == self@.failures.len(),
        ensures
            texts(lines@) == self@.report(texts(errors@), optional_text(elapsed)),
    {
        let mut lines: Vec<String> = Vec::new();
        let count = self.failures.len();
        assert(failed(self.failures@).len() == count);
        if count > 0 {
            lines.push(String::from_str("\nfailures:\n"));
            let mut i: usize = 0;
            while i < count
                invariant
                    self.wf(),
                    i <= count,
                    count == self.failures.len(),
                    count == errors.len(),
                    texts(lines@) == seq!["\nfailures:\n"@] + self@.failure_blocks(
                        texts(errors@),
                    ).take(i as int),
                decreases count - i,
            {
                let ghost before = texts(lines@);
                let ghost blocks = self@.failure_blocks(texts(errors@));
                assert(failed(self.failures@)[i as int] == (
                    self.failures[i as int].0@,
                    self.failures[i as int].1,
                ));
                let block = print_failure(
                    &self.failures[i].0,
                    &self.failures[i].1,
                    errors[i].as_str(),
                );
                assert(block@ == blocks[i as int]);
                lines.push(block);
                assert(texts(lines@) =~= before.push(block@));
                assert(blocks.take(i + 1) =~= blocks.take(i as int).push(blocks[i as int]));
                i = i + 1;
            }
            assert(self@.failure_blocks(texts(errors@)).take(count as int)
                =~= self@.failure_blocks(texts(errors@)));
            let ghost before = texts(lines@);
            lines.push(String::from_str("failures:\n"));
            assert(texts(lines@) =~= before.push("failures:\n"@));
            let ghost head = texts(lines@);
            let mut i: usize = 0;
            while i < count
                invariant
                    i <= count,
                    count == self.failures.len(),
                    texts(lines@) == head + self@.failure_names().take(i as int),
                decreases count - i,
            {
                let ghost before = texts(lines@);
                let ghost names = self@.failure_names();
                assert(failed(self.failures@)[i as int].0 == self.failures[i as int].0@);
                let mut line = String::from_str("    ");
                line.append(self.failures[i].0.name.as_str());
                assert(line@ == names[i as int]);
                lines.push(line);
                assert(texts(lines@) =~= before.push(line@));
                assert(names.take(i + 1) =~= names.take(i as int).push(names[i as int]));
                i = i + 1;
            }
            assert(self@.failure_names().take(count as int) =~= self@.failure_names());
        }
        let ghost detail = texts(lines@);
        lines.push(String::new());
        let last = summarize(self.succeeded, count, self.ignored, self.filtered, elapsed);
        lines.push(last);
        assert(texts(lines@) =~= detail + seq![Seq::<char>::empty(), last@]);
        lines
    }

    /// The number of tests that have passed.
    pub fn succeeded(&self) -> (count: usize)
        ensures
            count == self@.succeeded,
    {
        self.succeeded
    }

    /// The number of tests that the filter or a skip pattern left out.
    pub fn filtered(&self) -> (count: usize)
        ensures
            count == self@.filtered,
    {
        self.filtered
    }

    /// The number of tests that were ignored.
    pub fn ignored(&self) -> (count: usize)
        ensures
            count == self@.ignored,
    {
        self.ignored
    }

    /// The number of tests that asked to be registered so far.
    pub fn registered(&self) -> (count: usize)
        requires
            self.wf(),
        ensures
            count == self@.registered(),
    {
        self.filtered + self.ignored + self.scheduled
    }

    /// The failed tests, each with the reason, in the order in which they were
    /// retired.
    pub fn failures(&self) -> (list: &Vec<(Test, Failure)>)
        ensures
            failed(list@) == self@.failures,
    {
        &self.failures
    }

    /// The tests that wait to be admitted. The last one is admitted first.
    pub fn pending(&self) -> (list: &Vec<Test>)
        ensures
            tests(list@) == self@.pending,
    {
        &self.remaining
    }

    /// The tests in flight that are not under resumption just now.
    pub fn running(&self) -> (list: &Vec<Test>)
        ensures
            tests(list@) == self@.running,
    {
        &self.running
    }

    /// The test under resumption, if there is one.
    pub fn active(&self) -> (test: Option<&Test>)
        ensures
            match test {
                Some(test) => self@.active == Some(test@),
                None => self@.active is None,
            },
    {
        self.active.as_ref()
    }

    /// Where the current resumption of the scheduler stands.
    pub fn phase(&self) -> (phase: Phase)
        ensures
            phase == self@.phase,
    {
        self.phase
    }
}

} // verus!
