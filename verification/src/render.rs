//! Renderings of a path that the standard library computes.
//!
//! Nothing in this file is proved: each function here is a direct call into
//! the standard library, and its contract records what that call is relied
//! on to do.

use vstd::prelude::*;
use vstd::utf8::{decode_utf8, valid_utf8};

verus! {

/// The text that reading `bytes` as UTF-8 gives when every ill-formed part
/// is replaced by U+FFFD instead of being refused.
pub uninterp spec fn lossy_text(bytes: Seq<u8>) -> Seq<char>;

/// The quoted and escaped form that `{:?}` gives to `text`.
pub uninterp spec fn debug_text(text: Seq<char>) -> Seq<char>;

/// Calls `String::from_utf8_lossy`.
///
/// Trusted: the result is a function of the bytes alone, named
/// [`lossy_text`]; bytes that already are well-formed UTF-8 come back as
/// the very text they encode; and bytes that are not come back with U+FFFD
/// in the place of what was ill-formed, so at least once. The call accepts
/// every byte slice.
#[verifier::external_body]
pub(crate) fn to_string_lossy(bytes: &[u8]) -> (text: String)
    ensures
        text@ == lossy_text(bytes@),
        valid_utf8(bytes@) ==> text@ == decode_utf8(bytes@),
        !valid_utf8(bytes@) ==> text@.contains('\u{FFFD}'),
{
    String::from_utf8_lossy(bytes).into_owned()
}

/// Formats `text` with `{:?}`, as `<str as Debug>::fmt` writes it.
///
/// Trusted: the result is a function of the text alone, named
/// [`debug_text`]. Nothing more is claimed of it.
#[verifier::external_body]
pub(crate) fn to_debug_string(text: &str) -> (quoted: String)
    ensures
        quoted@ == debug_text(text@),
{
    format!("{:?}", text)
}

} // verus!
