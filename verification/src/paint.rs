//! Painting text for the terminal.
//!
//! A painted text is the text between two escape sequences: one that
//! selects the colour and one that puts the terminal's default back. The
//! sequences themselves are written by the `owo-colors` crate; this module
//! states which characters they are.

use crate::color::Color;
use crate::text::decimal;
use owo_colors::{AnsiColors, DynColors, OwoColorize};
use vstd::prelude::*;

verus! {

/// The sequence that selects `color` for the characters that follow.
pub open spec fn foreground_code(color: Color) -> Seq<char> {
    match color {
        Color::Ansi(ansi) => "\x1b["@ + decimal(ansi.foreground_number()) + "m"@,
        Color::Rgb(r, g, b) => "\x1b[38;2;"@ + decimal(r as nat) + ";"@ + decimal(g as nat) + ";"@
            + decimal(b as nat) + "m"@,
    }
}

/// The sequence that selects `color` for the cells behind the characters
/// that follow.
pub open spec fn background_code(color: Color) -> Seq<char> {
    match color {
        Color::Ansi(ansi) => "\x1b["@ + decimal(ansi.background_number()) + "m"@,
        Color::Rgb(r, g, b) => "\x1b[48;2;"@ + decimal(r as nat) + ";"@ + decimal(g as nat) + ";"@
            + decimal(b as nat) + "m"@,
    }
}

/// The sequence that puts the default foreground back.
pub open spec fn foreground_reset() -> Seq<char> {
    "\x1b[39m"@
}

/// The sequence that puts the default background back.
pub open spec fn background_reset() -> Seq<char> {
    "\x1b[49m"@
}

/// `text` shown in `color`.
pub open spec fn painted(text: Seq<char>, color: Color) -> Seq<char> {
    foreground_code(color) + text + foreground_reset()
}

/// `text` shown on cells of `color`.
pub open spec fn painted_on(text: Seq<char>, color: Color) -> Seq<char> {
    background_code(color) + text + background_reset()
}

/// Paints `text` in `color` with `OwoColorize::color` and formats the
/// result with `{}`.
///
/// Trusted: the contract says that `owo-colors` writes the colour's
/// foreground sequence, then the text unchanged, then `ESC [ 39 m`, where
/// the foreground sequence of an ANSI colour is `ESC [ n m` with the
/// colour's number `n`, and that of a 24-bit colour is
/// `ESC [ 38 ; 2 ; r ; g ; b m` with the three parts in decimal. The body
/// finds the crate's ANSI colour by the place of ours in `AnsiColor`.
#[verifier::external_body]
pub(crate) fn paint(text: &str, color: Color) -> (out: String)
    ensures
        out@ == painted(text@, color),
{
    let ansi: [AnsiColors; 17] = [
        AnsiColors::Black, AnsiColors::Red, AnsiColors::Green, AnsiColors::Yellow,
        AnsiColors::Blue, AnsiColors::Magenta, AnsiColors::Cyan, AnsiColors::White,
        AnsiColors::Default, AnsiColors::BrightBlack, AnsiColors::BrightRed,
        AnsiColors::BrightGreen, AnsiColors::BrightYellow, AnsiColors::BrightBlue,
        AnsiColors::BrightMagenta, AnsiColors::BrightCyan, AnsiColors::BrightWhite,
    ];
    let outside = match color {
        Color::Ansi(c) => DynColors::Ansi(ansi[c as usize]),
        Color::Rgb(r, g, b) => DynColors::Rgb(r, g, b),
    };
    format!("{}", text.color(outside))
}

/// Paints the cells behind `text` in `color` with `OwoColorize::on_color`
/// and formats the result with `{}`.
///
/// Trusted: the contract says that `owo-colors` writes the colour's
/// background sequence, then the text unchanged, then `ESC [ 49 m`, where
/// the background sequence of an ANSI colour is `ESC [ n m` with the
/// colour's background number `n`, and that of a 24-bit colour is
/// `ESC [ 48 ; 2 ; r ; g ; b m` with the three parts in decimal. The body
/// finds the crate's ANSI colour by the place of ours in `AnsiColor`.
#[verifier::external_body]
pub(crate) fn paint_on(text: &str, color: Color) -> (out: String)
    ensures
        out@ == painted_on(text@, color),
{
    let ansi: [AnsiColors; 17] = [
        AnsiColors::Black, AnsiColors::Red, AnsiColors::Green, AnsiColors::Yellow,
        AnsiColors::Blue, AnsiColors::Magenta, AnsiColors::Cyan, AnsiColors::White,
        AnsiColors::Default, AnsiColors::BrightBlack, AnsiColors::BrightRed,
        AnsiColors::BrightGreen, AnsiColors::BrightYellow, AnsiColors::BrightBlue,
        AnsiColors::BrightMagenta, AnsiColors::BrightCyan, AnsiColors::BrightWhite,
    ];
    let outside = match color {
        Color::Ansi(c) => DynColors::Ansi(ansi[c as usize]),
        Color::Rgb(r, g, b) => DynColors::Rgb(r, g, b),
    };
    format!("{}", text.on_color(outside))
}

} // verus!
