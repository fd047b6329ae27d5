//! Terminal color decoration, provided by the `ansi_term` crate.
//!
//! A painted string is the original text wrapped in an ANSI escape prefix
//! that selects a foreground colour and the reset suffix that restores the
//! default style. The exact character sequences are stated here, so callers
//! can reason about the decorated text precisely.

use vstd::prelude::*;

verus! {

/// The escape prefix that turns the following text green.
pub open spec fn green_prefix() -> Seq<char> {
    seq!['\u{1b}', '[', '3', '2', 'm']
}

/// The escape prefix that turns the following text blue.
pub open spec fn blue_prefix() -> Seq<char> {
    seq!['\u{1b}', '[', '3', '4', 'm']
}

/// The escape suffix that restores the default style.
pub open spec fn color_reset() -> Seq<char> {
    seq!['\u{1b}', '[', '0', 'm']
}

/// Text decorated with a green foreground.
pub open spec fn painted_green(s: Seq<char>) -> Seq<char> {
    green_prefix() + s + color_reset()
}

/// Text decorated with a blue foreground.
pub open spec fn painted_blue(s: Seq<char>) -> Seq<char> {
    blue_prefix() + s + color_reset()
}

/// Relies on `ansi_term::Colour::paint` and on the display of the styled
/// string it returns: a plain green foreground renders as the prefix
/// `ESC [ 3 2 m`, then the text unchanged, then the reset `ESC [ 0 m`.
#[verifier::external_body]
pub fn paint_green(s: &str) -> (r: String)
    ensures
        r@ == painted_green(s@),
{
    ansi_term::Colour::Green.paint(s).to_string()
}

/// Relies on `ansi_term::Colour::paint` and on the display of the styled
/// string it returns: a plain blue foreground renders as the prefix
/// `ESC [ 3 4 m`, then the text unchanged, then the reset `ESC [ 0 m`.
#[verifier::external_body]
pub fn paint_blue(s: &str) -> (r: String)
    ensures
        r@ == painted_blue(s@),
{
    ansi_term::Colour::Blue.paint(s).to_string()
}

} // verus!
