//! What a destination holds after a run of invocations.
//!
//! Each invocation hands its destination one whole line and flushes before
//! the next begins, so a destination that takes every write holds the lines
//! one after the other, in the order of the calls. This file states what
//! that text looks like to its reader.

use vstd::prelude::*;

use crate::delimiter::PrintDelimiter;
use crate::line::line_of;

verus! {

/// The text a destination holds once each of `lines` has been written to
/// it, whole and in order.
pub open spec fn transcript(lines: Seq<Seq<char>>) -> Seq<char>
    decreases lines.len(),
{
    if lines.len() == 0 {
        Seq::empty()
    } else {
        transcript(lines.drop_last()) + lines.last()
    }
}

/// How a reader that cuts at every `terminator` sees `text`: the pieces
/// that a terminator closed, in order and without it, and the piece left
/// open at the end.
pub open spec fn split_at_terminators(text: Seq<char>, terminator: char) -> (
    Seq<Seq<char>>,
    Seq<char>,
)
    decreases text.len(),
{
    if text.len() == 0 {
        (Seq::empty(), Seq::empty())
    } else {
        let (closed, open) = split_at_terminators(text.drop_last(), terminator);
        if text.last() == terminator {
            (closed.push(open), Seq::empty())
        } else {
            (closed, open.push(text.last()))
        }
    }
}

/// True when `terminator` occurs nowhere in `text`.
pub open spec fn free_of(text: Seq<char>, terminator: char) -> bool {
    forall|i: int| 0 <= i < text.len() ==> text[i] != terminator
}

/// Text without a terminator only lengthens the piece that is open.
pub proof fn lemma_split_extends_open_piece(head: Seq<char>, tail: Seq<char>, terminator: char)
    requires
        free_of(tail, terminator),
    ensures
        split_at_terminators(head + tail, terminator) == (
            split_at_terminators(head, terminator).0,
            split_at_terminators(head, terminator).1 + tail,
        ),
    decreases tail.len(),
{
    let (closed, open) = split_at_terminators(head, terminator);
    if tail.len() == 0 {
        assert(head + tail =~= head);
        assert(open + tail =~= open);
    } else {
        let shorter = tail.drop_last();
        lemma_split_extends_open_piece(head, shorter, terminator);
        assert((head + tail).drop_last() =~= head + shorter);
        assert((head + tail).last() == tail.last());
        assert((open + shorter).push(tail.last()) =~= open + tail);
    }
}

/// One more line adds exactly one closed piece, the text of that line, and
/// leaves nothing open.
pub proof fn lemma_split_after_line(
    head: Seq<char>,
    text: Seq<char>,
    delimiter: PrintDelimiter,
)
    requires
        free_of(text, delimiter.terminator()),
        split_at_terminators(head, delimiter.terminator()).1.len() == 0,
    ensures
        split_at_terminators(head + line_of(text, delimiter), delimiter.terminator()) == (
            split_at_terminators(head, delimiter.terminator()).0.push(text),
            Seq::<char>::empty(),
        ),
{
    let terminator = delimiter.terminator();
    let whole = head + line_of(text, delimiter);
    lemma_split_extends_open_piece(head, text, terminator);
    assert(whole.drop_last() =~= head + text);
    assert(whole.last() == terminator);
    assert(split_at_terminators(head, terminator).1 + text =~= text);
}

/// Lines written one after the other are read back in call order: where
/// `lines` are the lines of `texts`, and no text holds the delimiter
/// itself, a reader that cuts the destination's text at every delimiter
/// finds exactly one piece for each line, each the text that was printed,
/// in the order of the writes, and nothing left over.
pub proof fn lemma_lines_in_call_order(
    texts: Seq<Seq<char>>,
    lines: Seq<Seq<char>>,
    delimiter: PrintDelimiter,
)
    requires
        lines.len() == texts.len(),
        forall|i: int| 0 <= i < texts.len() ==> #[trigger] lines[i] == line_of(texts[i], delimiter),
        forall|i: int|
            0 <= i < texts.len() ==> free_of(#[trigger] texts[i], delimiter.terminator()),
    ensures
        split_at_terminators(transcript(lines), delimiter.terminator()) == (
            texts,
            Seq::<char>::empty(),
        ),
    decreases texts.len(),
{
    if texts.len() == 0 {
        assert(texts =~= Seq::<Seq<char>>::empty());
    } else {
        let earlier = texts.drop_last();
        lemma_lines_in_call_order(earlier, lines.drop_last(), delimiter);
        lemma_split_after_line(transcript(lines.drop_last()), texts.last(), delimiter);
        assert(lines.last() == line_of(texts.last(), delimiter));
        assert(earlier.push(texts.last()) =~= texts);
    }
}

} // verus!
