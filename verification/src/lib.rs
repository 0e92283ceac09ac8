//! The scheduling core of a test harness for runtimes without processes.
//!
//! Tests are functions of one module, and a host drives them cooperatively.
//! This crate holds what such a harness decides: which tests are registered
//! under the filter, skip and ignore policy, in which order and how many at a
//! time they are resumed, which output belongs to which test, what counts as
//! a failure, and what the final report says. Polling the bodies of the
//! tests, writing to the console and reading the clock are left to the
//! driver, which asks a [`Context`] what to do next and tells it what came of
//! it.

pub mod context;
pub mod entry;
pub mod laws;
pub mod outcome;
pub mod output;
pub mod report;
pub mod termination;
pub mod text;

pub use context::Context;
pub use termination::Termination;
