//! A registered test.

use crate::outcome::expectation;
use crate::output::{Output, OutputView};
use vstd::prelude::*;

verus! {

/// One test that was accepted for execution. Its body is held by whoever
/// drives the run, under the test's `id`.
#[derive(Debug)]
pub struct Test {
    /// The name without its module path.
    pub name: String,
    /// The number under which the driver keeps the body of this test.
    pub id: usize,
    /// What the test has written so far.
    pub output: Output,
    /// Whether a panic is expected, and with which text in its message.
    pub should_panic: Option<Option<&'static str>>,
}

/// What a [`Test`] holds.
#[verifier::ext_equal]
pub struct TestView {
    pub name: Seq<char>,
    pub id: nat,
    pub output: OutputView,
    pub should_panic: Option<Option<Seq<char>>>,
}

impl View for Test {
    type V = TestView;

    open spec fn view(&self) -> TestView {
        TestView {
            name: self.name@,
            id: self.id as nat,
            output: self.output@,
            should_panic: expectation(self.should_panic),
        }
    }
}

impl TestView {
    /// A test as it is when it has just been registered: nothing captured, and
    /// a panic expected exactly when it is annotated so.
    pub open spec fn fresh(
        name: Seq<char>,
        id: nat,
        should_panic: Option<Option<Seq<char>>>,
    ) -> TestView {
        TestView { name, id, output: OutputView::empty(should_panic is Some), should_panic }
    }
}

/// No test of the list has the given id.
pub open spec fn absent(id: nat, list: Seq<TestView>) -> bool {
    forall|i: int| 0 <= i < list.len() ==> (#[trigger] list[i]).id != id
}

/// No two tests of the list share an id.
pub open spec fn distinct(list: Seq<TestView>) -> bool {
    forall|i: int, j: int|
        0 <= i < j < list.len() ==> (#[trigger] list[i]).id != (#[trigger] list[j]).id
}

/// No test of the first list shares an id with one of the second.
pub open spec fn apart(first: Seq<TestView>, second: Seq<TestView>) -> bool {
    forall|i: int, j: int|
        0 <= i < first.len() && 0 <= j < second.len() ==> (#[trigger] first[i]).id != (
        #[trigger] second[j]).id
}

/// The views of a list of tests.
pub open spec fn tests(list: Seq<Test>) -> Seq<TestView> {
    list.map_values(|t: Test| t@)
}

} // verus!
