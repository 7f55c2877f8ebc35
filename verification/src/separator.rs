//! Separator lines: a run of hyphens, and its rendering in a color.

use crate::render::{frames, lemma_no_escape_no_reset, paint};
use text_colorizer::Color;
use vstd::prelude::*;

verus! {

/// `String::with_capacity` gives an empty string with room for `capacity`
/// bytes. It panics where the capacity is above `isize::MAX`, which
/// `requires` leaves out.
pub assume_specification[ String::with_capacity ](capacity: usize) -> (s: String)
    requires
        capacity <= isize::MAX,
    ensures
        s@ == Seq::<char>::empty(),
;

/// The line of `n` hyphens.
pub open spec fn hyphens(n: nat) -> Seq<char> {
    Seq::new(n, |i: int| '-')
}

/// A separator line, and what to show of it.
#[derive(Debug, PartialEq, Eq)]
pub struct Separator {
    /// The plain line.
    pub line: String,
    /// The line as rendered for the terminal, where a color was asked for.
    pub colored: Option<String>,
}

/// The model of a `Separator`.
pub struct SeparatorView {
    pub line: Seq<char>,
    pub colored: Option<Seq<char>>,
}

impl View for Separator {
    type V = SeparatorView;

    open spec fn view(&self) -> SeparatorView {
        SeparatorView {
            line: self.line@,
            colored: match self.colored {
                Some(c) => Some(c@),
                None => None,
            },
        }
    }
}

impl SeparatorView {
    /// Whether this is a separator of `length` hyphens, colored exactly
    /// where `color` names a color. The rendering holds the plain line.
    pub open spec fn is_for(self, length: u8, color: Option<Color>) -> bool {
        &&& self.line == hyphens(length as nat)
        &&& self.colored is Some <==> color is Some
        &&& self.colored is Some ==> frames(self.colored.unwrap(), self.line)
    }

    /// The text that belongs on standard output: none for a separator
    /// without color, else the rendering and a line feed.
    pub open spec fn output(self) -> Option<Seq<char>> {
        match self.colored {
            Some(c) => Some(c.push('\n')),
            None => None,
        }
    }
}

/// Builds a horizontal line of `length` hyphens. Where `color` names a
/// color, the line is also rendered in it as foreground, for the caller to
/// print; the plain line is the same either way.
pub fn horizontal_sep(length: u8, color: Option<Color>) -> (sep: Separator)
    ensures
        sep@.is_for(length, color),
{
    let mut line = String::with_capacity(length as usize);
    for i in 0..length
        invariant
            line@ == hyphens(i as nat),
    {
        proof {
            reveal_strlit("-");
        }
        line.append("-");
    }
    let colored = match color {
        Some(c) => {
            proof {
                lemma_no_escape_no_reset(line@);
            }
            Some(paint(line.as_str(), c))
        },
        None => None,
    };
    Separator { line, colored }
}

impl Separator {
    /// The text to write to standard output for this separator, if any.
    pub fn output(&self) -> (text: Option<String>)
        ensures
            text is Some <==> self@.output() is Some,
            text is Some ==> text.unwrap()@ == self@.output().unwrap(),
    {
        match &self.colored {
            Some(c) => {
                let mut text = c.clone();
                proof {
                    reveal_strlit("\n");
                }
                text.append("\n");
                Some(text)
            },
            None => None,
        }
    }
}

/// A separator's line is as long as was asked for and holds hyphens only,
/// whether or not a color was given. For length 0 it is empty.
pub proof fn lemma_line_is_hyphens(sep: SeparatorView, length: u8, color: Option<Color>)
    requires
        sep.is_for(length, color),
    ensures
        sep.line.len() == length,
        forall|i: int| 0 <= i < length ==> sep.line[i] == '-',
        length == 0 ==> sep.line == Seq::<char>::empty(),
{
}

/// A color never changes the line: the separators of one length have the
/// same line, whatever color each was built with.
pub proof fn lemma_color_keeps_line(
    plain: SeparatorView,
    colored: SeparatorView,
    length: u8,
    color: Color,
)
    requires
        plain.is_for(length, None),
        colored.is_for(length, Some(color)),
    ensures
        colored.line == plain.line,
{
}

/// Building twice from the same arguments gives the same line.
pub proof fn lemma_same_arguments_same_line(
    first: SeparatorView,
    second: SeparatorView,
    length: u8,
    color: Option<Color>,
)
    requires
        first.is_for(length, color),
        second.is_for(length, color),
    ensures
        first.line == second.line,
{
}

} // verus!
