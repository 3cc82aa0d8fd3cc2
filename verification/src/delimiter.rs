//! The terminator that follows each printed path.

use vstd::prelude::*;

verus! {

/// What ends a printed path: a newline, or a NUL byte for consumers that
/// must cope with paths that themselves hold newlines.
#[derive(Clone, Copy, Debug, PartialEq, Eq, Structural)]
pub enum PrintDelimiter {
    Newline,
    Null,
}

impl PrintDelimiter {
    /// The single character this delimiter stands for.
    pub open spec fn terminator(self) -> char {
        match self {
            PrintDelimiter::Newline => '\n',
            PrintDelimiter::Null => '\0',
        }
    }

    /// The single byte that encodes the delimiter.
    pub open spec fn byte(self) -> u8 {
        match self {
            PrintDelimiter::Newline => 0x0Au8,
            PrintDelimiter::Null => 0x00u8,
        }
    }

    /// The delimiter as text: exactly one character.
    pub fn as_str(&self) -> (text: &'static str)
        ensures
            text@ == seq![self.terminator()],
    {
        match self {
            PrintDelimiter::Newline => {
                proof {
                    reveal_strlit("\n");
                }
                "\n"
            },
            PrintDelimiter::Null => {
                proof {
                    reveal_strlit("\0");
                }
                "\0"
            },
        }
    }
}

} // verus!
