use find_printer::line::{compose_diagnostic, compose_line, render_path};
use find_printer::{PrintDelimiter, Printer, Step};

#[test]
fn delimiter_is_one_character() {
    assert_eq!("\n", PrintDelimiter::Newline.as_str());
    assert_eq!("\0", PrintDelimiter::Null.as_str());
}

#[test]
fn line_is_text_then_delimiter() {
    assert_eq!("abc\n", compose_line("abc", PrintDelimiter::Newline));
    assert_eq!("abc\0", compose_line("abc", PrintDelimiter::Null));
}

#[test]
fn line_of_empty_text_is_the_delimiter() {
    assert_eq!("\n", compose_line("", PrintDelimiter::Newline));
    assert_eq!("\0", compose_line("", PrintDelimiter::Null));
}

#[test]
fn diagnostic_names_path_and_reason() {
    assert_eq!(
        "Error writing \"./a\" for disk full\n",
        compose_diagnostic("\"./a\"", "disk full")
    );
}

#[test]
fn diagnostic_of_empty_parts() {
    assert_eq!("Error writing  for \n", compose_diagnostic("", ""));
}

#[test]
fn well_formed_path_is_rendered_as_it_is() {
    assert_eq!("./test_data/simple/abbbc", render_path(b"./test_data/simple/abbbc"));
    assert_eq!("caf\u{e9}/\u{65e5}\u{672c}", render_path("caf\u{e9}/\u{65e5}\u{672c}".as_bytes()));
    assert_eq!("", render_path(b""));
}

#[test]
fn ill_formed_bytes_are_replaced() {
    assert_eq!("dir/\u{fffd}\u{fffd}name", render_path(b"dir/\xff\xfename"));
    assert_eq!("\u{fffd}", render_path(b"\xc3"));
}

#[test]
fn ill_formed_path_still_prints_a_line() {
    let printer: Printer<usize> = Printer::new(PrintDelimiter::Newline, None);

    let line = printer.line(b"dir/\xff\xfename");
    assert_eq!("dir/\u{fffd}\u{fffd}name\n", line);
    assert!(!line.is_empty());

    let only_bad = printer.line(b"\x80");
    assert_eq!("\u{fffd}\n", only_bad);
}

#[test]
fn well_formed_path_goes_out_byte_for_byte() {
    let path = "caf\u{e9}/\u{1f600}".as_bytes();
    let newline: Printer<usize> = Printer::new(PrintDelimiter::Newline, None);
    let null: Printer<usize> = Printer::new(PrintDelimiter::Null, None);

    let mut expected = path.to_vec();
    expected.push(0x0a);
    assert_eq!(expected, newline.line(path).into_bytes());

    let mut expected = path.to_vec();
    expected.push(0x00);
    assert_eq!(expected, null.line(path).into_bytes());
}

#[test]
fn diagnostic_quotes_and_escapes_the_path() {
    let printer: Printer<usize> = Printer::new(PrintDelimiter::Newline, None);
    let mut exit_code = 0;

    let step = printer.begin(b"a\"b\nc\\d");
    let next = printer.advance(
        b"a\"b\nc\\d",
        step,
        Err(String::from("Input/output error (os error 5)")),
        &mut exit_code,
    );
    match next {
        Step::Diagnose { message } => assert_eq!(
            "Error writing \"a\\\"b\\nc\\\\d\" for Input/output error (os error 5)\n",
            message
        ),
        other => panic!("expected a diagnostic, not {:?}", other),
    }
}

#[test]
fn diagnostic_shows_the_lossy_path() {
    let printer: Printer<usize> = Printer::new(PrintDelimiter::Null, None);
    let mut exit_code = 0;

    let step = printer.begin(b"x\xffy");
    match printer.advance(b"x\xffy", step, Err(String::from("full")), &mut exit_code) {
        Step::Diagnose { message } => {
            assert_eq!("Error writing \"x\u{fffd}y\" for full\n", message)
        }
        other => panic!("expected a diagnostic, not {:?}", other),
    }
}
