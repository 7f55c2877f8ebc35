//! Parsing a number from text, with a diagnostic for text that is none.

use crate::render::{paint_bright_red, renders};
use std::str::FromStr;
use vstd::prelude::*;

verus! {

/// The word that a program dies with when it gives up on invalid input.
pub const INVALID_INPUT: &'static str = "Invalid input";

/// The diagnostic for a text that did not parse.
#[derive(Debug, PartialEq, Eq)]
pub struct InvalidInput {
    /// The plain message.
    pub message: String,
    /// The message as rendered for the terminal, in bright red.
    pub highlighted: String,
}

/// The model of an `InvalidInput`.
pub struct InvalidInputView {
    pub message: Seq<char>,
    pub highlighted: Seq<char>,
}

impl View for InvalidInput {
    type V = InvalidInputView;

    open spec fn view(&self) -> InvalidInputView {
        InvalidInputView { message: self.message@, highlighted: self.highlighted@ }
    }
}

/// The message about the text `input`.
pub open spec fn diagnostic(input: Seq<char>) -> Seq<char> {
    "Invalid input detected: "@ + input
}

impl InvalidInputView {
    /// Whether this is the diagnostic about `input`: the message names the
    /// input, and the highlighted text is a rendering of the message.
    pub open spec fn is_about(self, input: Seq<char>) -> bool {
        &&& self.message == diagnostic(input)
        &&& renders(self.highlighted, self.message)
    }

    /// The text that belongs on standard error: the highlighted message
    /// and a line feed.
    pub open spec fn report(self) -> Seq<char> {
        self.highlighted.push('\n')
    }
}

/// Calls `str::parse`, which goes by the `FromStr` impl of `T`, and keeps
/// the value where there is one. What parses is for that impl to say, so
/// nothing is claimed of the result.
#[verifier::external_body]
fn parse_text<T: FromStr>(s: &str) -> (parsed: Option<T>) {
    s.parse::<T>().ok()
}

/// Settles what comes of parsing `s`: the value where there is one, else
/// the diagnostic about `s`.
pub fn value_or_report<T>(s: &str, parsed: Option<T>) -> (res: Result<T, InvalidInput>)
    ensures
        match parsed {
            Some(value) => res == Ok::<T, InvalidInput>(value),
            None => res is Err && res->Err_0@.is_about(s@),
        },
{
    match parsed {
        Some(value) => Ok(value),
        None => {
            let message = "Invalid input detected: ".to_owned().concat(s);
            let highlighted = paint_bright_red(message.as_str());
            Err(InvalidInput { message, highlighted })
        },
    }
}

/// Parses `s` as a `T` by the rules of `T` itself. Where `s` does not
/// parse, the error is the diagnostic about `s`.
pub fn parse_num<T: FromStr>(s: &str) -> (res: Result<T, InvalidInput>)
    ensures
        res is Err ==> res->Err_0@.is_about(s@),
{
    value_or_report(s, parse_text::<T>(s))
}

impl InvalidInput {
    /// The text to write to standard error for this diagnostic.
    pub fn report(&self) -> (text: String)
        ensures
            text@ == self@.report(),
    {
        let mut text = self.highlighted.clone();
        proof {
            reveal_strlit("\n");
        }
        text.append("\n");
        text
    }
}

} // verus!
