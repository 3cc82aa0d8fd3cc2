use find_printer::{PrintDelimiter, Printer, Step};

fn to_sink() -> Printer<usize> {
    Printer::new(PrintDelimiter::Newline, None)
}

fn to_file() -> Printer<usize> {
    Printer::new(PrintDelimiter::Newline, Some(0))
}

fn write_step() -> Step {
    Step::Write { line: String::from("./a\n") }
}

fn failed(reason: &str) -> Result<(), String> {
    Err(String::from(reason))
}

#[test]
fn begin_asks_for_the_line() {
    match to_sink().begin(b"./a") {
        Step::Write { line } => assert_eq!("./a\n", line),
        other => panic!("expected a write, not {:?}", other),
    }
    match Printer::new(PrintDelimiter::Null, Some(0usize)).begin(b"./a") {
        Step::Write { line } => assert_eq!("./a\0", line),
        other => panic!("expected a write, not {:?}", other),
    }
}

#[test]
fn write_that_succeeded_is_followed_by_flush() {
    let mut exit_code = 0;
    assert!(matches!(to_sink().advance(b"./a", write_step(), Ok(()), &mut exit_code), Step::Flush));
    assert!(matches!(to_file().advance(b"./a", write_step(), Ok(()), &mut exit_code), Step::Flush));
    assert_eq!(0, exit_code);
}

#[test]
fn write_to_sink_that_failed_is_followed_by_diagnostic() {
    let mut exit_code = 0;
    match to_sink().advance(b"./a", write_step(), failed("full"), &mut exit_code) {
        Step::Diagnose { message } => assert_eq!("Error writing \"./a\" for full\n", message),
        other => panic!("expected a diagnostic, not {:?}", other),
    }
    assert_eq!(0, exit_code);
}

#[test]
fn write_to_file_that_failed_is_followed_by_flush() {
    let mut exit_code = 0;
    assert!(matches!(
        to_file().advance(b"./a", write_step(), failed("full"), &mut exit_code),
        Step::Flush
    ));
    assert_eq!(0, exit_code);
}

#[test]
fn diagnostic_that_went_out_sets_the_exit_code() {
    let diagnose = Step::Diagnose { message: String::from("m") };
    let mut exit_code = 0;
    assert!(matches!(to_sink().advance(b"./a", diagnose, Ok(()), &mut exit_code), Step::Flush));
    assert_eq!(1, exit_code);
}

#[test]
fn diagnostic_that_failed_aborts() {
    let diagnose = Step::Diagnose { message: String::from("m") };
    let mut exit_code = 0;
    match to_sink().advance(b"./a", diagnose, failed("closed"), &mut exit_code) {
        Step::Abort(reason) => assert_eq!("closed", reason),
        other => panic!("expected an abort, not {:?}", other),
    }
    assert_eq!(0, exit_code);
}

#[test]
fn flush_that_succeeded_returns_true() {
    let mut exit_code = 5;
    assert!(matches!(to_sink().advance(b"./a", Step::Flush, Ok(()), &mut exit_code), Step::Return(true)));
    assert!(matches!(to_file().advance(b"./a", Step::Flush, Ok(()), &mut exit_code), Step::Return(true)));
    assert_eq!(5, exit_code);
}

#[test]
fn flush_that_failed_aborts() {
    let mut exit_code = 5;
    match to_file().advance(b"./a", Step::Flush, failed("gone"), &mut exit_code) {
        Step::Abort(reason) => assert_eq!("gone", reason),
        other => panic!("expected an abort, not {:?}", other),
    }
    assert_eq!(5, exit_code);
}

#[test]
fn finished_invocation_stays_finished() {
    let mut exit_code = 0;
    assert!(matches!(
        to_sink().advance(b"./a", Step::Return(true), failed("late"), &mut exit_code),
        Step::Return(true)
    ));
    match to_sink().advance(b"./a", Step::Abort(String::from("gone")), Ok(()), &mut exit_code) {
        Step::Abort(reason) => assert_eq!("gone", reason),
        other => panic!("expected an abort, not {:?}", other),
    }
    assert_eq!(0, exit_code);
}
