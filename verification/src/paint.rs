//! Styled text for the terminal, made by the crate `colored`.
//!
//! A styled text is a value of that crate. It holds the text and the
//! colour or style that was asked for; whether colours reach the terminal
//! is decided only when the value is printed. The verifier does not see
//! inside such a value, so each way of making one has a name here, and the
//! contracts say by that name which value was made of which text.

use vstd::prelude::*;
use colored::ColoredString;
use colored::Colorize;

verus! {

/// A text together with the colour and style it is printed in. Its inside
/// is not visible to the verifier.
#[verifier::external_type_specification]
#[verifier::external_body]
pub struct ExColoredString(ColoredString);

/// What `Colorize::bright_yellow` makes of a text: a value that holds the
/// text, the foreground colour bright yellow, and nothing else.
pub uninterp spec fn in_bright_yellow(text: Seq<char>) -> ColoredString;

/// What `Colorize::bright_blue` makes of a text: a value that holds the
/// text, the foreground colour bright blue, and nothing else.
pub uninterp spec fn in_bright_blue(text: Seq<char>) -> ColoredString;

/// What `Colorize::bright_cyan` makes of a text: a value that holds the
/// text, the foreground colour bright cyan, and nothing else.
pub uninterp spec fn in_bright_cyan(text: Seq<char>) -> ColoredString;

/// What `Colorize::dimmed` makes of a text: a value that holds the text,
/// the style dimmed, and no colour.
pub uninterp spec fn in_dimmed(text: Seq<char>) -> ColoredString;

/// What `Colorize::normal` makes of a text: a value that holds the text
/// and neither colour nor style.
pub uninterp spec fn in_normal(text: Seq<char>) -> ColoredString;

/// `Colorize::bright_yellow` on a `&str`. The method copies the text into
/// a new value and sets its foreground colour; the value depends on the
/// text alone, which is all that the contract claims.
#[verifier::external_body]
pub(crate) fn bright_yellow(text: &str) -> (styled: ColoredString)
    ensures
        styled == in_bright_yellow(text@),
{
    text.bright_yellow()
}

/// `Colorize::bright_blue` on a `&str`. The method copies the text into a
/// new value and sets its foreground colour; the value depends on the text
/// alone, which is all that the contract claims.
#[verifier::external_body]
pub(crate) fn bright_blue(text: &str) -> (styled: ColoredString)
    ensures
        styled == in_bright_blue(text@),
{
    text.bright_blue()
}

/// `Colorize::bright_cyan` on a `&str`. The method copies the text into a
/// new value and sets its foreground colour; the value depends on the text
/// alone, which is all that the contract claims.
#[verifier::external_body]
pub(crate) fn bright_cyan(text: &str) -> (styled: ColoredString)
    ensures
        styled == in_bright_cyan(text@),
{
    text.bright_cyan()
}

/// `Colorize::dimmed` on a `&str`. The method copies the text into a new
/// value and adds the style dimmed; the value depends on the text alone,
/// which is all that the contract claims.
#[verifier::external_body]
pub(crate) fn dimmed(text: &str) -> (styled: ColoredString)
    ensures
        styled == in_dimmed(text@),
{
    text.dimmed()
}

/// `Colorize::normal` on a `&str`. The method copies the text into a new
/// value without colour or style; the value depends on the text alone,
/// which is all that the contract claims.
#[verifier::external_body]
pub(crate) fn normal(text: &str) -> (styled: ColoredString)
    ensures
        styled == in_normal(text@),
{
    text.normal()
}

} // verus!
