//! Helpers shared by small command-line programs: a separator line made of
//! hyphens, and a number parser that reports invalid input.
//!
//! The library computes and never writes: each function hands back the text
//! that belongs on the terminal, and the program around it does the writing.

pub mod parse;
pub mod render;
pub mod separator;

pub use parse::{parse_num, value_or_report, InvalidInput, INVALID_INPUT};
pub use separator::{horizontal_sep, Separator};
