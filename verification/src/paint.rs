//! Coloured text for a terminal.

use vstd::prelude::*;
use colored::Colorize;

verus! {

/// The colour in which a piece of text is shown.
#[derive(Clone, Copy, PartialEq, Eq, Debug, Structural)]
pub enum Tint {
    /// The colour of the terminal, with no escape sequences.
    Plain,
    Black,
    Red,
    Green,
    Yellow,
    Blue,
    BrightGreen,
    BrightBlue,
}

impl Tint {
    /// The number by which a terminal knows the colour. `Plain` has none.
    pub open spec fn code(self) -> Seq<char> {
        match self {
            Tint::Plain => Seq::empty(),
            Tint::Black => seq!['3', '0'],
            Tint::Red => seq!['3', '1'],
            Tint::Green => seq!['3', '2'],
            Tint::Yellow => seq!['3', '3'],
            Tint::Blue => seq!['3', '4'],
            Tint::BrightGreen => seq!['9', '2'],
            Tint::BrightBlue => seq!['9', '4'],
        }
    }
}

/// The escape sequence that switches a terminal to the colour with the
/// number `code`.
pub open spec fn escape_open(code: Seq<char>) -> Seq<char> {
    seq!['\x1B', '['] + code + seq!['m']
}

/// The escape sequence that switches a terminal back to its own colour.
pub open spec fn escape_reset() -> Seq<char> {
    seq!['\x1B', '[', '0', 'm']
}

/// Whether `text` holds no escape character, so that it cannot switch
/// colours by itself.
pub open spec fn is_plain_text(text: Seq<char>) -> bool {
    forall|i: int| 0 <= i < text.len() ==> text[i] != '\x1B'
}

/// Whether `out` is `text` in the colour `tint`.
///
/// Whether colours are shown at all is decided outside this library, by
/// the variables of the process and by the terminal, and can change at any
/// time. So coloured text is the text itself where colours are off, the
/// text between the two escape sequences where they are on, and the text
/// followed by the reset alone where they were turned off in between.
pub open spec fn painted(text: Seq<char>, tint: Tint, out: Seq<char>) -> bool {
    match tint {
        Tint::Plain => out == text,
        _ => {
            ||| out == text
            ||| out == escape_open(tint.code()) + text + escape_reset()
            ||| out == text + escape_reset()
        },
    }
}

/// `colored::Colorize::black` on a string slice, formatted with `{}`.
///
/// The formatting writes the text itself where the crate finds colours
/// switched off. Where it finds them on, it writes `ESC [ 30 m`, the text
/// and `ESC [ 0 m`; it looks the switch up anew for the opening sequence and
/// leaves that out where the switch went off meanwhile. Text with an escape
/// character is left out, because the crate rewrites reset sequences inside
/// the text.
#[verifier::external_body]
fn paint_black(text: &str) -> (out: String)
    requires
        is_plain_text(text@),
    ensures
        painted(text@, Tint::Black, out@),
{
    format!("{}", text.black())
}

/// `colored::Colorize::red` on a string slice, formatted with `{}`: as
/// `paint_black`, with the number 31.
#[verifier::external_body]
fn paint_red(text: &str) -> (out: String)
    requires
        is_plain_text(text@),
    ensures
        painted(text@, Tint::Red, out@),
{
    format!("{}", text.red())
}

/// `colored::Colorize::green` on a string slice, formatted with `{}`: as
/// `paint_black`, with the number 32.
#[verifier::external_body]
fn paint_green(text: &str) -> (out: String)
    requires
        is_plain_text(text@),
    ensures
        painted(text@, Tint::Green, out@),
{
    format!("{}", text.green())
}

/// `colored::Colorize::yellow` on a string slice, formatted with `{}`: as
/// `paint_black`, with the number 33.
#[verifier::external_body]
fn paint_yellow(text: &str) -> (out: String)
    requires
        is_plain_text(text@),
    ensures
        painted(text@, Tint::Yellow, out@),
{
    format!("{}", text.yellow())
}

/// `colored::Colorize::blue` on a string slice, formatted with `{}`: as
/// `paint_black`, with the number 34.
#[verifier::external_body]
fn paint_blue(text: &str) -> (out: String)
    requires
        is_plain_text(text@),
    ensures
        painted(text@, Tint::Blue, out@),
{
    format!("{}", text.blue())
}

/// `colored::Colorize::bright_green` on a string slice, formatted with
/// `{}`: as `paint_black`, with the number 92.
#[verifier::external_body]
fn paint_bright_green(text: &str) -> (out: String)
    requires
        is_plain_text(text@),
    ensures
        painted(text@, Tint::BrightGreen, out@),
{
    format!("{}", text.bright_green())
}

/// `colored::Colorize::bright_blue` on a string slice, formatted with `{}`:
/// as `paint_black`, with the number 94.
#[verifier::external_body]
fn paint_bright_blue(text: &str) -> (out: String)
    requires
        is_plain_text(text@),
    ensures
        painted(text@, Tint::BrightBlue, out@),
{
    format!("{}", text.bright_blue())
}

/// The text `text` in the colour `tint`.
pub(crate) fn paint(text: &str, tint: Tint) -> (out: String)
    requires
        is_plain_text(text@),
    ensures
        painted(text@, tint, out@),
{
    match tint {
        Tint::Plain => String::from_str(text),
        Tint::Black => paint_black(text),
        Tint::Red => paint_red(text),
        Tint::Green => paint_green(text),
        Tint::Yellow => paint_yellow(text),
        Tint::Blue => paint_blue(text),
        Tint::BrightGreen => paint_bright_green(text),
        Tint::BrightBlue => paint_bright_blue(text),
    }
}

} // verus!
