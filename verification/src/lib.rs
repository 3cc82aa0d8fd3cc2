//! A matcher that prints the path of every entry it is shown.
//!
//! The printer is the action at the end of a file search: for each entry it
//! has `<path><delimiter>` written to its destination and flushed, and lets
//! the search go on whatever became of the write.
//!
//! This crate holds every decision of that matcher and proves it against
//! its contract. It performs no input or output itself: an invocation is a
//! sequence of [`Step`]s, each a request that the caller carries out on the
//! destination it owns and answers with the outcome.
//!
//! - [`delimiter`]: the terminator of a line.
//! - [`render`]: the two renderings of a path taken from the standard
//!   library, on trust.
//! - [`line`]: the text of a path, of a line and of a diagnostic.
//! - [`printer`]: the printer and the steps of an invocation.
//! - [`guarantees`]: what holds of every invocation from beginning to end.
//! - [`transcript`]: what a destination holds after many invocations.

pub mod delimiter;
pub mod guarantees;
pub mod line;
pub mod printer;
pub mod render;
pub mod transcript;

pub use delimiter::PrintDelimiter;
pub use printer::{Printer, Step, Target};
