//! What holds of every invocation of a printer from its first step to its
//! end, stated over the functions that the steps are specified by.

use vstd::prelude::*;
use vstd::utf8::{encode_utf8, valid_utf8};

use crate::delimiter::PrintDelimiter;
use crate::line::{
    lemma_diagnostic_mentions_path, lemma_valid_path_printed_verbatim, line_of, mentions,
    path_text,
};
use crate::printer::{diagnostic_for, Printer, StepView, Target, WRITE_FAILURE_EXIT_CODE};
use crate::render::debug_text;
use crate::transcript::{free_of, lemma_lines_in_call_order, split_at_terminators, transcript};

verus! {

/// How the outside answers each kind of request during one invocation.
pub struct Answers {
    pub written: Result<(), Seq<char>>,
    pub diagnosed: Result<(), Seq<char>>,
    pub flushed: Result<(), Seq<char>>,
}

impl Answers {
    /// The answer to what `step` asks for.
    pub open spec fn to(self, step: StepView) -> Result<(), Seq<char>> {
        match step {
            StepView::Write { .. } => self.written,
            StepView::Diagnose { .. } => self.diagnosed,
            _ => self.flushed,
        }
    }
}

/// Where an invocation on `path` stands once `answered` of its requests
/// have come back, and the exit code by then, which was `exit_code` when
/// the invocation began.
pub open spec fn progress<F>(
    printer: Printer<F>,
    path: Seq<u8>,
    answers: Answers,
    exit_code: i32,
    answered: nat,
) -> (StepView, i32)
    decreases answered,
{
    if answered == 0 {
        (printer.spec_begin(path), exit_code)
    } else {
        let (step, code) = progress(printer, path, answers, exit_code, (answered - 1) as nat);
        printer.spec_advance(path, step, answers.to(step), code)
    }
}

/// Every invocation is over after at most three requests, and it ends in
/// one of two ways: the matcher returns `true`, or the run stops. It
/// returns exactly when the destination could be flushed and no diagnostic
/// failed to go out. The exit code changes exactly when a diagnostic went
/// out, and then to the code of a write failure.
pub proof fn lemma_invocation_ends<F>(
    printer: Printer<F>,
    path: Seq<u8>,
    answers: Answers,
    exit_code: i32,
)
    ensures
        ({
            let (end, code) = progress(printer, path, answers, exit_code, 3);
            let diagnosed = answers.written is Err && printer.spec_target() == Target::DefaultSink;
            let stopped = answers.flushed is Err || (diagnosed && answers.diagnosed is Err);
            &&& !stopped ==> end == StepView::Return(true)
            &&& stopped ==> end is Abort
            &&& code == if diagnosed && answers.diagnosed is Ok {
                WRITE_FAILURE_EXIT_CODE
            } else {
                exit_code
            }
            &&& forall|answered: nat|
                answered >= 3 ==> #[trigger] progress(printer, path, answers, exit_code, answered)
                    == (end, code)
        }),
{
    reveal_with_fuel(progress, 4);
    let (end, code) = progress(printer, path, answers, exit_code, 3);
    assert forall|answered: nat| answered >= 3 implies #[trigger] progress(
        printer,
        path,
        answers,
        exit_code,
        answered,
    ) == (end, code) by {
        lemma_ended_invocation_stays(printer, path, answers, exit_code, answered);
    }
}

/// Once an invocation is over, further answers change nothing.
proof fn lemma_ended_invocation_stays<F>(
    printer: Printer<F>,
    path: Seq<u8>,
    answers: Answers,
    exit_code: i32,
    answered: nat,
)
    requires
        answered >= 3,
    ensures
        progress(printer, path, answers, exit_code, answered) == progress(
            printer,
            path,
            answers,
            exit_code,
            3,
        ),
    decreases answered,
{
    reveal_with_fuel(progress, 4);
    if answered > 3 {
        lemma_ended_invocation_stays(printer, path, answers, exit_code, (answered - 1) as nat);
    }
}

/// Nothing is tried again: the line is asked for once, at the beginning,
/// and no later step asks for a write, whatever became of the first.
pub proof fn lemma_line_is_written_once<F>(
    printer: Printer<F>,
    path: Seq<u8>,
    answers: Answers,
    exit_code: i32,
    answered: nat,
)
    ensures
        progress(printer, path, answers, exit_code, answered).0 is Write <==> answered == 0,
{
    reveal_with_fuel(progress, 2);
}

/// A printer with the newline delimiter and no output file asks for the
/// path followed by one newline to be written to the default sink, then for
/// a flush, and the matcher returns `true`; nothing is diagnosed and the
/// exit code stays as it was. A path that is well-formed UTF-8 goes out
/// byte for byte.
pub proof fn lemma_newline_printer<F>(
    printer: Printer<F>,
    path: Seq<u8>,
    answers: Answers,
    exit_code: i32,
)
    requires
        printer.spec_delimiter() == PrintDelimiter::Newline,
        printer.spec_output_file() is None,
        answers.written is Ok,
        answers.flushed is Ok,
    ensures
        printer.spec_target() == Target::DefaultSink,
        printer.spec_line(path) == path_text(path).push('\n'),
        valid_utf8(path) ==> encode_utf8(printer.spec_line(path)) == path.push(0x0Au8),
        progress(printer, path, answers, exit_code, 0) == (
            StepView::Write { line: printer.spec_line(path) },
            exit_code,
        ),
        progress(printer, path, answers, exit_code, 1) == (StepView::Flush, exit_code),
        progress(printer, path, answers, exit_code, 2) == (StepView::Return(true), exit_code),
{
    reveal_with_fuel(progress, 3);
    if valid_utf8(path) {
        lemma_valid_path_printed_verbatim(path, PrintDelimiter::Newline);
    }
}

/// A printer with the null delimiter and no output file asks for the path
/// followed by one NUL to be written to the default sink, then for a flush,
/// and the matcher returns `true`; nothing is diagnosed and the exit code
/// stays as it was. A path that is well-formed UTF-8 goes out byte for
/// byte.
pub proof fn lemma_null_printer<F>(
    printer: Printer<F>,
    path: Seq<u8>,
    answers: Answers,
    exit_code: i32,
)
    requires
        printer.spec_delimiter() == PrintDelimiter::Null,
        printer.spec_output_file() is None,
        answers.written is Ok,
        answers.flushed is Ok,
    ensures
        printer.spec_target() == Target::DefaultSink,
        printer.spec_line(path) == path_text(path).push('\0'),
        valid_utf8(path) ==> encode_utf8(printer.spec_line(path)) == path.push(0x00u8),
        progress(printer, path, answers, exit_code, 0) == (
            StepView::Write { line: printer.spec_line(path) },
            exit_code,
        ),
        progress(printer, path, answers, exit_code, 1) == (StepView::Flush, exit_code),
        progress(printer, path, answers, exit_code, 2) == (StepView::Return(true), exit_code),
{
    reveal_with_fuel(progress, 3);
    if valid_utf8(path) {
        lemma_valid_path_printed_verbatim(path, PrintDelimiter::Null);
    }
}

/// When the default sink refuses the line, the invocation asks for a
/// diagnostic that names the path and gives the sink's reason, sets the
/// exit code to a non-zero value whatever it was, still asks for the flush,
/// and the matcher returns `true`.
pub proof fn lemma_default_sink_failure_is_diagnosed<F>(
    printer: Printer<F>,
    path: Seq<u8>,
    answers: Answers,
    exit_code: i32,
)
    requires
        printer.spec_output_file() is None,
        answers.written is Err,
        answers.diagnosed is Ok,
        answers.flushed is Ok,
    ensures
        progress(printer, path, answers, exit_code, 1) == (
            StepView::Diagnose { message: diagnostic_for(path, answers.written->Err_0) },
            exit_code,
        ),
        mentions(diagnostic_for(path, answers.written->Err_0), debug_text(path_text(path))),
        progress(printer, path, answers, exit_code, 2) == (
            StepView::Flush,
            WRITE_FAILURE_EXIT_CODE,
        ),
        progress(printer, path, answers, exit_code, 3) == (
            StepView::Return(true),
            WRITE_FAILURE_EXIT_CODE,
        ),
        WRITE_FAILURE_EXIT_CODE != 0,
{
    reveal_with_fuel(progress, 4);
    lemma_diagnostic_mentions_path(debug_text(path_text(path)), answers.written->Err_0);
}

/// When the printer has an output file, a write that failed is passed over
/// like one that succeeded: the invocation goes straight on to the flush
/// and the matcher returns `true`. At no step is a diagnostic asked for,
/// and the exit code stays as it was.
pub proof fn lemma_output_file_failure_is_silent<F>(
    printer: Printer<F>,
    path: Seq<u8>,
    answers: Answers,
    exit_code: i32,
)
    requires
        printer.spec_output_file() is Some,
        answers.flushed is Ok,
    ensures
        printer.spec_target() == Target::OutputFile,
        progress(printer, path, answers, exit_code, 1) == (StepView::Flush, exit_code),
        progress(printer, path, answers, exit_code, 2) == (StepView::Return(true), exit_code),
        forall|answered: nat|
            !(#[trigger] progress(printer, path, answers, exit_code, answered).0 is Diagnose),
        forall|answered: nat|
            (#[trigger] progress(printer, path, answers, exit_code, answered)).1 == exit_code,
{
    reveal_with_fuel(progress, 3);
    assert forall|answered: nat|
        !(#[trigger] progress(printer, path, answers, exit_code, answered).0 is Diagnose) && progress(
            printer,
            path,
            answers,
            exit_code,
            answered,
        ).1 == exit_code by {
        lemma_output_file_never_diagnoses(printer, path, answers, exit_code, answered);
    }
}

/// With an output file, no step of an invocation is a diagnostic and none
/// changes the exit code.
proof fn lemma_output_file_never_diagnoses<F>(
    printer: Printer<F>,
    path: Seq<u8>,
    answers: Answers,
    exit_code: i32,
    answered: nat,
)
    requires
        printer.spec_output_file() is Some,
    ensures
        !(progress(printer, path, answers, exit_code, answered).0 is Diagnose),
        progress(printer, path, answers, exit_code, answered).1 == exit_code,
    decreases answered,
{
    if answered > 0 {
        lemma_output_file_never_diagnoses(printer, path, answers, exit_code, (answered - 1) as nat);
    }
}

/// One printer invoked on `paths` in turn, every write taken: the
/// destination then holds one delimiter-terminated line for each
/// invocation, in call order. Each line depends on its own path alone, and
/// as long as no path's text holds the delimiter itself, cutting the
/// destination's text at the delimiter gives back exactly the texts of the
/// paths, as many as there were invocations.
pub proof fn lemma_invocations_print_in_call_order<F>(
    printer: Printer<F>,
    paths: Seq<Seq<u8>>,
    lines: Seq<Seq<char>>,
)
    requires
        lines.len() == paths.len(),
        forall|i: int|
            0 <= i < paths.len() ==> printer.spec_begin(paths[i]) == (StepView::Write {
                line: #[trigger] lines[i],
            }),
        forall|i: int|
            0 <= i < paths.len() ==> free_of(
                path_text(#[trigger] paths[i]),
                printer.spec_delimiter().terminator(),
            ),
    ensures
        split_at_terminators(transcript(lines), printer.spec_delimiter().terminator()) == (
            Seq::new(paths.len(), |i: int| path_text(paths[i])),
            Seq::<char>::empty(),
        ),
        split_at_terminators(transcript(lines), printer.spec_delimiter().terminator()).0.len()
            == paths.len(),
{
    let texts = Seq::new(paths.len(), |i: int| path_text(paths[i]));
    assert forall|i: int| 0 <= i < texts.len() implies #[trigger] lines[i] == line_of(
        texts[i],
        printer.spec_delimiter(),
    ) by {
        assert(printer.spec_begin(paths[i]) == (StepView::Write { line: lines[i] }));
    }
    lemma_lines_in_call_order(texts, lines, printer.spec_delimiter());
}

} // verus!
