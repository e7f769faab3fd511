//! Where the log goes.

use vstd::prelude::*;
use crate::text::{range_is, to_chars};

verus! {

/// The Output type
#[derive(Clone, Debug, PartialEq, Eq)]
pub enum Output {
    /// Standard Output
    Stdout,
    /// Standard Error
    Stderr,
    /// File Stream, by its path
    File(String),
}

/// An output as contracts see it.
pub enum OutputView {
    Stdout,
    Stderr,
    File(Seq<char>),
}

/// Whether a word names the standard output.
pub open spec fn names_stdout(text: Seq<char>) -> bool {
    text == "stdout"@ || text == "Stdout"@ || text == "StdOut"@ || text == "STDOUT"@ || text
        == "<stdout>"@
}

/// Whether a word names the standard error.
pub open spec fn names_stderr(text: Seq<char>) -> bool {
    text == "stderr"@ || text == "Stderr"@ || text == "StdErr"@ || text == "STDERR"@ || text
        == "<stderr>"@
}

/// The output that a word names: one of the standard streams, or else the
/// file at that path.
pub open spec fn output_of(text: Seq<char>) -> OutputView {
    if names_stdout(text) {
        OutputView::Stdout
    } else if names_stderr(text) {
        OutputView::Stderr
    } else {
        OutputView::File(text)
    }
}

impl View for Output {
    type V = OutputView;

    open spec fn view(&self) -> OutputView {
        match self {
            Output::Stdout => OutputView::Stdout,
            Output::Stderr => OutputView::Stderr,
            Output::File(path) => OutputView::File(path@),
        }
    }
}

impl Output {
    /// The name of the output: `<stdout>`, `<stderr>`, or the path of the file.
    pub open spec fn spec_name(self) -> Seq<char> {
        match self {
            Output::Stdout => "<stdout>"@,
            Output::Stderr => "<stderr>"@,
            Output::File(path) => path@,
        }
    }

    /// The name of the output.
    pub fn to_string(&self) -> (s: String)
        ensures
            s@ == self.spec_name(),
    {
        match self {
            Output::Stdout => "<stdout>".to_owned(),
            Output::Stderr => "<stderr>".to_owned(),
            Output::File(path) => path.clone(),
        }
    }

    /// Reads an output from a word. Every word names one.
    pub fn from_str(s: &str) -> (r: Result<Output, ()>)
        ensures
            r is Ok,
            r->Ok_0@ == output_of(s@),
    {
        let chars = to_chars(s);
        let n: usize = chars.len();
        assert(chars@.subrange(0, n as int) =~= s@);
        if range_is(&chars, 0, n, "stdout") || range_is(&chars, 0, n, "Stdout") || range_is(
            &chars,
            0,
            n,
            "StdOut",
        ) || range_is(&chars, 0, n, "STDOUT") || range_is(&chars, 0, n, "<stdout>") {
            Ok(Output::Stdout)
        } else if range_is(&chars, 0, n, "stderr") || range_is(&chars, 0, n, "Stderr")
            || range_is(&chars, 0, n, "StdErr") || range_is(&chars, 0, n, "STDERR") || range_is(
            &chars,
            0,
            n,
            "<stderr>",
        ) {
            Ok(Output::Stderr)
        } else {
            Ok(Output::File(s.to_owned()))
        }
    }

    /// The file at `path`.
    pub fn file(path: &str) -> (o: Output)
        ensures
            o@ == OutputView::File(path@),
    {
        Output::File(path.to_owned())
    }

    /// A copy of this output.
    pub fn duplicate(&self) -> (o: Output)
        ensures
            o@ == self@,
    {
        match self {
            Output::Stdout => Output::Stdout,
            Output::Stderr => Output::Stderr,
            Output::File(path) => Output::File(path.clone()),
        }
    }
}

impl Default for Output {
    fn default() -> (o: Output)
        ensures
            o == Output::Stderr,
    {
        Output::Stderr
    }
}

} // verus!
