//! Text in terminal colors, as the `text_colorizer` crate renders it.
//!
//! Whether that crate writes escape codes at all depends on the environment
//! of the process (`NO_COLOR`, `CLICOLOR`, `CLICOLOR_FORCE`, whether standard
//! output is a terminal) and on an override that any thread can set. So a
//! rendering is not a function of the text and the color, and the contracts
//! here state only what holds of every rendering.

use text_colorizer::{Color, Colorize};
use vstd::prelude::*;

verus! {

/// `text_colorizer::Color`, the colors a terminal can show. The library hands
/// a color on and never looks inside.
#[verifier::external_type_specification]
#[verifier::external_body]
pub struct ExColor(Color);

/// The escape sequence that ends all styling, `ESC [ 0 m`.
pub open spec fn reset_sequence() -> Seq<char> {
    seq!['\x1B', '[', '0', 'm']
}

/// Whether `text` holds the reset sequence somewhere.
pub open spec fn holds_reset(text: Seq<char>) -> bool {
    exists|before: Seq<char>, after: Seq<char>|
        text == #[trigger] (before + reset_sequence() + after)
}

/// Whether `s` has the shape of an escape sequence that sets a style:
/// `ESC [`, then a code, then `m`.
pub open spec fn is_style_sequence(s: Seq<char>) -> bool {
    s.len() >= 3 && s[0] == '\x1B' && s[1] == '[' && s.last() == 'm'
}

/// Whether `out` is `text` in a frame of escape sequences: before the text
/// stands nothing or a style sequence, after it nothing or the reset
/// sequence.
pub open spec fn frames(out: Seq<char>, text: Seq<char>) -> bool {
    exists|before: Seq<char>, after: Seq<char>|
        {
            &&& out == #[trigger] (before + text + after)
            &&& before.len() == 0 || is_style_sequence(before)
            &&& after.len() == 0 || after == reset_sequence()
        }
}

/// What holds of every rendering `out` of `text`: a text without the reset
/// sequence stands in it unchanged, with nothing but escape sequences
/// around it.
pub open spec fn renders(out: Seq<char>, text: Seq<char>) -> bool {
    !holds_reset(text) ==> frames(out, text)
}

/// Calls `Colorize::color` on `text` and formats the `ColoredString` it
/// gives with `Display`.
///
/// With coloring off the crate writes the text alone. With coloring on it
/// writes `ESC [`, the code of the foreground color and `m`, then the text,
/// then the reset sequence; only where the text itself holds a reset
/// sequence does it write the style again after each one. The crate asks
/// more than once, while it writes, whether coloring is on, and another
/// thread may switch it in between: so the contract lets the style sequence
/// and the reset sequence each be there or not.
#[verifier::external_body]
pub(crate) fn paint(text: &str, color: Color) -> (out: String)
    ensures
        renders(out@, text@),
{
    format!("{}", text.color(color))
}

/// Calls `Colorize::bright_red` on `text` and formats the `ColoredString`
/// it gives with `Display`.
///
/// `bright_red` is `color` with `Color::BrightRed`, so the contract is that
/// of `paint`.
#[verifier::external_body]
pub(crate) fn paint_bright_red(text: &str) -> (out: String)
    ensures
        renders(out@, text@),
{
    format!("{}", text.bright_red())
}

/// A text that holds no escape character holds no reset sequence.
pub proof fn lemma_no_escape_no_reset(text: Seq<char>)
    requires
        forall|i: int| 0 <= i < text.len() ==> text[i] != '\x1B',
    ensures
        !holds_reset(text),
{
    if holds_reset(text) {
        let (before, after): (Seq<char>, Seq<char>) = choose|
            before: Seq<char>,
            after: Seq<char>,
        | text == #[trigger] (before + reset_sequence() + after);
        assert(text[before.len() as int] == reset_sequence()[0]);
    }
}

} // verus!
