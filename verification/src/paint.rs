//! Colour for the parts of a terminal line.

use colored::Colorize;
use vstd::prelude::*;

verus! {

/// The colours in which parts of a line are shown.
#[derive(Clone, Copy, Debug, PartialEq, Eq, Structural)]
pub enum Tint {
    /// The label of a process.
    BrightBlue,
    /// An error or an exit status.
    Red,
    /// A command.
    Yellow,
}

/// The character that starts a terminal control sequence.
pub open spec fn escape_char() -> char {
    '\u{1b}'
}

/// The control sequence that switches a colour on.
pub open spec fn tint_on(tint: Tint) -> Seq<char> {
    match tint {
        Tint::BrightBlue => seq![escape_char(), '[', '9', '4', 'm'],
        Tint::Red => seq![escape_char(), '[', '3', '1', 'm'],
        Tint::Yellow => seq![escape_char(), '[', '3', '3', 'm'],
    }
}

/// The control sequence that switches all colour off.
pub open spec fn tint_off() -> Seq<char> {
    seq![escape_char(), '[', '0', 'm']
}

/// Whether `shown` is a way in which `text` may come out in the colour `tint`.
///
/// Whether colour is used at all is decided by the terminal, the environment
/// and the process-wide override, so a text without control sequences comes
/// out either unchanged or between the sequence for its colour and the
/// sequence that ends it. Where the override is switched off by another
/// thread while the text is being written, only the closing sequence may
/// appear. Nothing is said of a text that itself holds the escape character.
pub open spec fn painted(text: Seq<char>, tint: Tint, shown: Seq<char>) -> bool {
    !text.contains(escape_char()) ==> {
        ||| shown == text
        ||| shown == tint_on(tint) + text + tint_off()
        ||| shown == text + tint_off()
    }
}

/// Shows `text` in bright blue.
///
/// Trusted: the body calls `colored::Colorize::bright_blue` on the text and
/// formats the `ColoredString` it returns. The contract claims that the
/// outcome is one of those that `painted` admits for that colour.
#[verifier::external_body]
pub(crate) fn in_bright_blue(text: &str) -> (shown: String)
    ensures
        painted(text@, Tint::BrightBlue, shown@),
{
    format!("{}", text.bright_blue())
}

/// Shows `text` in red.
///
/// Trusted: the body calls `colored::Colorize::red` on the text and formats
/// the `ColoredString` it returns. The contract claims that the outcome is
/// one of those that `painted` admits for that colour.
#[verifier::external_body]
pub(crate) fn in_red(text: &str) -> (shown: String)
    ensures
        painted(text@, Tint::Red, shown@),
{
    format!("{}", text.red())
}

/// Shows `text` in yellow.
///
/// Trusted: the body calls `colored::Colorize::yellow` on the text and
/// formats the `ColoredString` it returns. The contract claims that the
/// outcome is one of those that `painted` admits for that colour.
#[verifier::external_body]
pub(crate) fn in_yellow(text: &str) -> (shown: String)
    ensures
        painted(text@, Tint::Yellow, shown@),
{
    format!("{}", text.yellow())
}

} // verus!
