//! The text of a path, of one printed line and of one diagnostic.

use vstd::prelude::*;
use vstd::string::StringExecFns;
use vstd::utf8::{decode_utf8, encode_utf8, valid_utf8};

use crate::delimiter::PrintDelimiter;
use crate::render::{lossy_text, to_string_lossy};

verus! {

/// The text a path is printed as: the text it encodes where its bytes are
/// well-formed UTF-8, and else its lossy reading.
pub open spec fn path_text(path: Seq<u8>) -> Seq<char> {
    if valid_utf8(path) {
        decode_utf8(path)
    } else {
        lossy_text(path)
    }
}

/// `<text><delimiter>`: the text, then the one character of the delimiter.
pub open spec fn line_of(text: Seq<char>, delimiter: PrintDelimiter) -> Seq<char> {
    text.push(delimiter.terminator())
}

/// The line that tells of a failed write: the path as `quoted_path` shows
/// it, the reason the destination gave, and a closing newline.
pub open spec fn diagnostic_of(quoted_path: Seq<char>, reason: Seq<char>) -> Seq<char> {
    "Error writing "@ + quoted_path + " for "@ + reason + "\n"@
}

/// True when `part` occurs in `message` as one unbroken run.
pub open spec fn mentions(message: Seq<char>, part: Seq<char>) -> bool {
    exists|at: int|
        0 <= at && at + part.len() <= message.len() && #[trigger] message.subrange(
            at,
            at + part.len(),
        ) == part
}

/// Renders a path as text. No byte sequence is refused: what is not
/// well-formed UTF-8 shows as U+FFFD.
pub fn render_path(path: &[u8]) -> (text: String)
    ensures
        text@ == path_text(path@),
        !valid_utf8(path@) ==> text@.contains('\u{FFFD}'),
{
    to_string_lossy(path)
}

/// Composes the line for an already rendered path.
pub fn compose_line(text: &str, delimiter: PrintDelimiter) -> (line: String)
    ensures
        line@ == line_of(text@, delimiter),
{
    let mut line = String::from_str(text);
    line.append(delimiter.as_str());
    line
}

/// Composes the diagnostic for a failed write from the quoted path and the
/// reason of the failure.
pub fn compose_diagnostic(quoted_path: &str, reason: &str) -> (message: String)
    ensures
        message@ == diagnostic_of(quoted_path@, reason@),
{
    let mut message = String::from_str("Error writing ");
    message.append(quoted_path);
    message.append(" for ");
    message.append(reason);
    message.append("\n");
    message
}

/// A diagnostic holds the quoted path it was composed from.
pub proof fn lemma_diagnostic_mentions_path(quoted_path: Seq<char>, reason: Seq<char>)
    ensures
        mentions(diagnostic_of(quoted_path, reason), quoted_path),
{
    let message = diagnostic_of(quoted_path, reason);
    let at = "Error writing "@.len() as int;
    assert(message.subrange(at, at + quoted_path.len()) =~= quoted_path);
}

/// Encoding a text piece by piece gives the encoding of the whole.
pub proof fn lemma_encode_concat(left: Seq<char>, right: Seq<char>)
    ensures
        encode_utf8(left + right) == encode_utf8(left) + encode_utf8(right),
    decreases left.len(),
{
    if left.len() == 0 {
        assert(left + right =~= right);
        assert(encode_utf8(left) + encode_utf8(right) =~= encode_utf8(right));
    } else {
        lemma_encode_concat(left.drop_first(), right);
        assert((left + right).drop_first() =~= left.drop_first() + right);
        assert(encode_utf8(left + right) =~= encode_utf8(left) + encode_utf8(right));
    }
}

/// The bytes of a line are the bytes of its text followed by the one byte
/// of the delimiter.
pub proof fn lemma_line_bytes(text: Seq<char>, delimiter: PrintDelimiter)
    ensures
        encode_utf8(line_of(text, delimiter)) == encode_utf8(text).push(delimiter.byte()),
{
    let end = seq![delimiter.terminator()];
    assert(line_of(text, delimiter) =~= text + end);
    lemma_encode_concat(text, end);
    assert(encode_utf8(end) =~= seq![delimiter.byte()]) by {
        vstd::utf8::is_ascii_chars_encode_utf8(end);
        assert(delimiter.terminator() as u8 == delimiter.byte());
    }
    assert(encode_utf8(text) + seq![delimiter.byte()] =~= encode_utf8(text).push(
        delimiter.byte(),
    ));
}

/// A path that is well-formed UTF-8 is printed byte for byte, followed by
/// the byte of the delimiter.
pub proof fn lemma_valid_path_printed_verbatim(path: Seq<u8>, delimiter: PrintDelimiter)
    requires
        valid_utf8(path),
    ensures
        encode_utf8(line_of(path_text(path), delimiter)) == path.push(delimiter.byte()),
{
    lemma_line_bytes(path_text(path), delimiter);
    vstd::utf8::decode_utf8_encode_utf8(path);
}

} // verus!
