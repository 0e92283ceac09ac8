//! The diagnostic output captured for one test.

use vstd::prelude::*;

verus! {

broadcast use vstd::string::group_string_axioms;

/// One of the five diagnostic streams.
#[derive(Clone, Copy, Debug, PartialEq, Eq, Structural)]
pub enum Stream {
    Debug,
    Log,
    Info,
    Warn,
    Error,
}

/// Captured output of one test: five diagnostic streams, the text of its
/// panics, and whether a panic is expected of it.
#[derive(Debug, Default)]
pub struct Output {
    pub debug: String,
    pub log: String,
    pub info: String,
    pub warn: String,
    pub error: String,
    pub panic: String,
    pub should_panic: bool,
}

/// What an [`Output`] holds.
#[verifier::ext_equal]
pub struct OutputView {
    pub debug: Seq<char>,
    pub log: Seq<char>,
    pub info: Seq<char>,
    pub warn: Seq<char>,
    pub error: Seq<char>,
    pub panic: Seq<char>,
    pub should_panic: bool,
}

/// The texts that a list of strings holds.
pub open spec fn texts(args: Seq<String>) -> Seq<Seq<char>> {
    args.map_values(|s: String| s@)
}

/// The arguments of one emission, separated by single spaces.
pub open spec fn joined(args: Seq<Seq<char>>) -> Seq<char>
    decreases args.len(),
{
    if args.len() == 0 {
        Seq::empty()
    } else if args.len() == 1 {
        args[0]
    } else {
        joined(args.drop_last()) + seq![' '] + args.last()
    }
}

impl OutputView {
    /// Nothing captured yet.
    pub open spec fn empty(should_panic: bool) -> OutputView {
        OutputView {
            debug: Seq::empty(),
            log: Seq::empty(),
            info: Seq::empty(),
            warn: Seq::empty(),
            error: Seq::empty(),
            panic: Seq::empty(),
            should_panic,
        }
    }

    /// The text captured on one stream.
    pub open spec fn stream(self, which: Stream) -> Seq<char> {
        match which {
            Stream::Debug => self.debug,
            Stream::Log => self.log,
            Stream::Info => self.info,
            Stream::Warn => self.warn,
            Stream::Error => self.error,
        }
    }

    /// This output with `more` added at the end of one stream.
    pub open spec fn appended(self, which: Stream, more: Seq<char>) -> OutputView {
        match which {
            Stream::Debug => OutputView { debug: self.debug + more, ..self },
            Stream::Log => OutputView { log: self.log + more, ..self },
            Stream::Info => OutputView { info: self.info + more, ..self },
            Stream::Warn => OutputView { warn: self.warn + more, ..self },
            Stream::Error => OutputView { error: self.error + more, ..self },
        }
    }

    /// This output after one emission on a stream: the arguments separated by
    /// spaces, then a line feed.
    pub open spec fn recorded(self, which: Stream, args: Seq<Seq<char>>) -> OutputView {
        self.appended(which, joined(args) + seq!['\n'])
    }

    /// This output after a panic with the given message.
    pub open spec fn panicked(self, message: Seq<char>) -> OutputView {
        OutputView { panic: self.panic + message, ..self }
    }
}

impl View for Output {
    type V = OutputView;

    open spec fn view(&self) -> OutputView {
        OutputView {
            debug: self.debug@,
            log: self.log@,
            info: self.info@,
            warn: self.warn@,
            error: self.error@,
            panic: self.panic@,
            should_panic: self.should_panic,
        }
    }
}

impl Output {
    /// A fresh buffer for a test of which a panic is or is not expected.
    pub fn new(should_panic: bool) -> (output: Output)
        ensures
            output@ == OutputView::empty(should_panic),
    {
        Output {
            debug: String::new(),
            log: String::new(),
            info: String::new(),
            warn: String::new(),
            error: String::new(),
            panic: String::new(),
            should_panic,
        }
    }

    /// Appends one emission to a stream: the arguments separated by single
    /// spaces, then a line feed. The other streams stay as they are.
    pub fn record(&mut self, which: Stream, args: &Vec<String>)
        ensures
            final(self)@ == old(self)@.recorded(which, texts(args@)),
    {
        let mut line = String::new();
        let mut idx: usize = 0;
        while idx < args.len()
            invariant
                idx <= args.len(),
                line@ == joined(texts(args@).take(idx as int)),
            decreases args.len() - idx,
        {
            let ghost so_far = texts(args@).take(idx as int);
            let ghost next = texts(args@).take(idx + 1);
            assert(next.drop_last() =~= so_far);
            if idx != 0 {
                line.push(' ');
            }
            line.append(args[idx].as_str());
            idx = idx + 1;
        }
        assert(texts(args@).take(args.len() as int) =~= texts(args@));
        line.push('\n');
        match which {
            Stream::Debug => self.debug.append(line.as_str()),
            Stream::Log => self.log.append(line.as_str()),
            Stream::Info => self.info.append(line.as_str()),
            Stream::Warn => self.warn.append(line.as_str()),
            Stream::Error => self.error.append(line.as_str()),
        }
    }

    /// Appends the message of a panic to the panic stream. Returns whether the
    /// panic was unexpected, in which case the caller reports it at once.
    pub fn record_panic(&mut self, message: &str) -> (unexpected: bool)
        ensures
            final(self)@ == old(self)@.panicked(message@),
            unexpected == !old(self).should_panic,
    {
        self.panic.append(message);
        !self.should_panic
    }
}

} // verus!
