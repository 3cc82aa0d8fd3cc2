//! The printer, and one invocation of it as a sequence of steps.
//!
//! The printer never touches a destination. An invocation on one entry is a
//! short exchange with the caller: [`Printer::begin`] gives the first
//! [`Step`]; the caller does what the step asks and hands the outcome to
//! [`Printer::advance`], which gives the next one; and so on until the step
//! is [`Step::Return`] or [`Step::Abort`]. Between [`Step::Write`] and the
//! end of [`Step::Flush`] the caller keeps the destination to itself.
//!
//! The printer keeps nothing from one invocation to the next.

use vstd::prelude::*;

use crate::delimiter::PrintDelimiter;
use crate::line::{
    compose_diagnostic, compose_line, diagnostic_of, line_of, path_text, render_path,
};
use crate::render::{debug_text, to_debug_string};

verus! {

/// The exit code that a diagnosed write failure asks for.
pub const WRITE_FAILURE_EXIT_CODE: i32 = 1;

/// Where a printer sends its lines.
#[derive(Clone, Copy, Debug, PartialEq, Eq, Structural)]
pub enum Target {
    /// The file the printer was built with.
    OutputFile,
    /// The sink that the search shares among all its matchers.
    DefaultSink,
}

/// What an invocation asks of its caller next, or how it has ended.
#[derive(Debug)]
pub enum Step {
    /// Write `line` to the printer's destination, as a single write.
    Write { line: String },
    /// Send `message` to the error stream.
    Diagnose { message: String },
    /// Flush the printer's destination.
    Flush,
    /// The invocation is over and the matcher returns this answer.
    Return(bool),
    /// The invocation is over and the whole run stops, for this reason.
    Abort(String),
}

/// A [`Step`] with its texts as sequences of characters.
pub enum StepView {
    Write { line: Seq<char> },
    Diagnose { message: Seq<char> },
    Flush,
    Return(bool),
    Abort(Seq<char>),
}

impl View for Step {
    type V = StepView;

    open spec fn view(&self) -> StepView {
        match self {
            Step::Write { line } => StepView::Write { line: line@ },
            Step::Diagnose { message } => StepView::Diagnose { message: message@ },
            Step::Flush => StepView::Flush,
            Step::Return(answer) => StepView::Return(*answer),
            Step::Abort(reason) => StepView::Abort(reason@),
        }
    }
}

/// The outcome of a request, with the reason of a failure as a sequence of
/// characters.
pub open spec fn outcome_view(outcome: Result<(), String>) -> Result<(), Seq<char>> {
    match outcome {
        Ok(_) => Ok(()),
        Err(reason) => Err(reason@),
    }
}

/// The diagnostic for a write of `path`'s line that failed for `reason`:
/// it shows the path's text quoted and escaped.
pub open spec fn diagnostic_for(path: Seq<u8>, reason: Seq<char>) -> Seq<char> {
    diagnostic_of(debug_text(path_text(path)), reason)
}

/// Prints the path of each entry, followed by a delimiter, to a file of its
/// own or else to the shared default sink.
///
/// `F` is the caller's handle to the output file. The printer holds it and
/// hands it back on request, and never looks inside it. The destination is
/// fixed when the printer is built.
pub struct Printer<F> {
    delimiter: PrintDelimiter,
    output_file: Option<F>,
}

impl<F> Printer<F> {
    /// The delimiter the printer was built with.
    pub closed spec fn spec_delimiter(&self) -> PrintDelimiter {
        self.delimiter
    }

    /// The output file the printer was built with, if any.
    pub closed spec fn spec_output_file(&self) -> Option<F> {
        self.output_file
    }

    /// The destination of every line: the output file where there is one,
    /// the default sink where there is none.
    pub open spec fn spec_target(&self) -> Target {
        if self.spec_output_file() is Some {
            Target::OutputFile
        } else {
            Target::DefaultSink
        }
    }

    /// The line for the entry at `path`: the path as text, then the
    /// delimiter.
    pub open spec fn spec_line(&self, path: Seq<u8>) -> Seq<char> {
        line_of(path_text(path), self.spec_delimiter())
    }

    /// The first step of an invocation on the entry at `path`.
    pub open spec fn spec_begin(&self, path: Seq<u8>) -> StepView {
        StepView::Write { line: self.spec_line(path) }
    }

    /// The step that follows `step` once its request came back as
    /// `outcome`, and the exit code, which was `exit_code`, after it.
    ///
    /// - After the write, the destination is flushed whether or not it took
    ///   the line. Only a failed write to the default sink is diagnosed
    ///   first.
    /// - A diagnostic that went out sets the exit code. One that did not
    ///   stops the run.
    /// - After a flush the matcher returns `true`. A flush that failed
    ///   stops the run.
    /// - An invocation that is over stays as it is.
    pub open spec fn spec_advance(
        &self,
        path: Seq<u8>,
        step: StepView,
        outcome: Result<(), Seq<char>>,
        exit_code: i32,
    ) -> (StepView, i32) {
        match step {
            StepView::Write { .. } => match outcome {
                Err(reason) if self.spec_target() == Target::DefaultSink => (
                    StepView::Diagnose { message: diagnostic_for(path, reason) },
                    exit_code,
                ),
                _ => (StepView::Flush, exit_code),
            },
            StepView::Diagnose { .. } => match outcome {
                Ok(_) => (StepView::Flush, WRITE_FAILURE_EXIT_CODE),
                Err(reason) => (StepView::Abort(reason), exit_code),
            },
            StepView::Flush => match outcome {
                Ok(_) => (StepView::Return(true), exit_code),
                Err(reason) => (StepView::Abort(reason), exit_code),
            },
            StepView::Return(answer) => (StepView::Return(answer), exit_code),
            StepView::Abort(reason) => (StepView::Abort(reason), exit_code),
        }
    }

    /// A printer with the given delimiter that writes to `output_file`, or
    /// to the default sink where that is `None`.
    pub fn new(delimiter: PrintDelimiter, output_file: Option<F>) -> (printer: Self)
        ensures
            printer.spec_delimiter() == delimiter,
            printer.spec_output_file() == output_file,
    {
        Printer { delimiter, output_file }
    }

    /// The delimiter that ends every line of this printer.
    #[verifier::when_used_as_spec(spec_delimiter)]
    pub fn delimiter(&self) -> (delimiter: PrintDelimiter)
        ensures
            delimiter == self.spec_delimiter(),
    {
        self.delimiter
    }

    /// The handle to the output file, for the caller to write to and flush.
    pub fn output_file(&self) -> (file: Option<&F>)
        ensures
            match file {
                Some(handle) => self.spec_output_file() == Some(*handle),
                None => self.spec_output_file() is None,
            },
    {
        match &self.output_file {
            Some(handle) => Some(handle),
            None => None,
        }
    }

    /// The destination that every request of this printer is about.
    #[verifier::when_used_as_spec(spec_target)]
    pub fn target(&self) -> (target: Target)
        ensures
            target == self.spec_target(),
    {
        match &self.output_file {
            Some(_) => Target::OutputFile,
            None => Target::DefaultSink,
        }
    }

    /// Always true: each invocation writes to a destination, so the search
    /// may neither skip nor reorder it.
    pub fn has_side_effects(&self) -> (answer: bool)
        ensures
            answer,
    {
        true
    }

    /// Composes the line to write for the entry at `path`.
    ///
    /// Every byte sequence is accepted, and the line is never empty: it
    /// ends in the delimiter. A path that is not well-formed UTF-8 is
    /// printed with U+FFFD where it is ill-formed.
    pub fn line(&self, path: &[u8]) -> (line: String)
        ensures
            line@ == self.spec_line(path@),
            line@.len() == path_text(path@).len() + 1,
            line@.last() == self.spec_delimiter().terminator(),
            !vstd::utf8::valid_utf8(path@) ==> line@.contains('\u{FFFD}'),
    {
        let text = render_path(path);
        let line = compose_line(text.as_str(), self.delimiter);
        proof {
            if !vstd::utf8::valid_utf8(path@) {
                let at = choose|i: int| 0 <= i < text@.len() && text@[i] == '\u{FFFD}';
                assert(line@[at] == '\u{FFFD}');
            }
        }
        line
    }

    /// Begins an invocation on the entry at `path`: the first step asks for
    /// the entry's line to be written.
    pub fn begin(&self, path: &[u8]) -> (step: Step)
        ensures
            step@ == self.spec_begin(path@),
    {
        Step::Write { line: self.line(path) }
    }

    /// Takes the outcome of what `step` asked for and gives the step that
    /// follows, setting the exit code where a failure was diagnosed.
    ///
    /// `outcome` is `Ok` when the request was carried out and else holds
    /// the reason it was not. `path` is the path the invocation began with.
    pub fn advance(
        &self,
        path: &[u8],
        step: Step,
        outcome: Result<(), String>,
        exit_code: &mut i32,
    ) -> (next: Step)
        ensures
            (next@, *final(exit_code)) == self.spec_advance(
                path@,
                step@,
                outcome_view(outcome),
                *old(exit_code),
            ),
    {
        match step {
            Step::Write { line: _ } => match outcome {
                Ok(_) => Step::Flush,
                Err(reason) => match self.target() {
                    Target::OutputFile => Step::Flush,
                    Target::DefaultSink => {
                        let text = render_path(path);
                        let quoted = to_debug_string(text.as_str());
                        Step::Diagnose {
                            message: compose_diagnostic(quoted.as_str(), reason.as_str()),
                        }
                    },
                },
            },
            Step::Diagnose { message: _ } => match outcome {
                Ok(_) => {
                    *exit_code = WRITE_FAILURE_EXIT_CODE;
                    Step::Flush
                },
                Err(reason) => Step::Abort(reason),
            },
            Step::Flush => match outcome {
                Ok(_) => Step::Return(true),
                Err(reason) => Step::Abort(reason),
            },
            Step::Return(answer) => Step::Return(answer),
            Step::Abort(reason) => Step::Abort(reason),
        }
    }
}

} // verus!
