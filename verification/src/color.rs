//! Terminal colours and the fixed palette of the panel.

use vstd::prelude::*;

verus! {

/// The seventeen colours of the basic ANSI set: eight hues, the terminal's
/// own default, and the eight bright hues.
#[derive(Clone, Copy, Debug, PartialEq, Eq, Structural)]
pub enum AnsiColor {
    Black,
    Red,
    Green,
    Yellow,
    Blue,
    Magenta,
    Cyan,
    White,
    Default,
    BrightBlack,
    BrightRed,
    BrightGreen,
    BrightYellow,
    BrightBlue,
    BrightMagenta,
    BrightCyan,
    BrightWhite,
}

/// A colour that the panel can paint with: one of the basic ANSI set, or
/// any 24-bit colour by its red, green and blue parts.
#[derive(Clone, Copy, Debug, PartialEq, Eq, Structural)]
pub enum Color {
    Ansi(AnsiColor),
    Rgb(u8, u8, u8),
}

impl AnsiColor {
    /// The number that selects this colour for the foreground in a
    /// "select graphic rendition" sequence.
    pub open spec fn foreground_number(self) -> nat {
        match self {
            AnsiColor::Black => 30,
            AnsiColor::Red => 31,
            AnsiColor::Green => 32,
            AnsiColor::Yellow => 33,
            AnsiColor::Blue => 34,
            AnsiColor::Magenta => 35,
            AnsiColor::Cyan => 36,
            AnsiColor::White => 37,
            AnsiColor::Default => 39,
            AnsiColor::BrightBlack => 90,
            AnsiColor::BrightRed => 91,
            AnsiColor::BrightGreen => 92,
            AnsiColor::BrightYellow => 93,
            AnsiColor::BrightBlue => 94,
            AnsiColor::BrightMagenta => 95,
            AnsiColor::BrightCyan => 96,
            AnsiColor::BrightWhite => 97,
        }
    }

    /// The number that selects this colour for the background: ten above
    /// the one for the foreground.
    pub open spec fn background_number(self) -> nat {
        self.foreground_number() + 10
    }
}

/// How many colours the fallback palette holds.
pub const PALETTE_SIZE: usize = 6;

/// The fallback palette, in the order in which it is handed out.
pub open spec fn palette() -> Seq<Color> {
    seq![
        Color::Ansi(AnsiColor::Red),
        Color::Ansi(AnsiColor::Green),
        Color::Ansi(AnsiColor::Yellow),
        Color::Ansi(AnsiColor::Blue),
        Color::Ansi(AnsiColor::Magenta),
        Color::Ansi(AnsiColor::Cyan),
    ]
}

/// The colour of the bucket that gathers what is not shown by name.
pub open spec fn neutral() -> Color {
    Color::Ansi(AnsiColor::White)
}

/// The palette colour for the entry at `position`: the palette is walked
/// in order and starts over after its last colour.
pub fn palette_color(position: usize) -> (color: Color)
    ensures
        color == palette()[(position % PALETTE_SIZE) as int],
{
    let slot: usize = position % PALETTE_SIZE;
    if slot == 0 {
        Color::Ansi(AnsiColor::Red)
    } else if slot == 1 {
        Color::Ansi(AnsiColor::Green)
    } else if slot == 2 {
        Color::Ansi(AnsiColor::Yellow)
    } else if slot == 3 {
        Color::Ansi(AnsiColor::Blue)
    } else if slot == 4 {
        Color::Ansi(AnsiColor::Magenta)
    } else {
        Color::Ansi(AnsiColor::Cyan)
    }
}

/// The neutral colour, as a value.
pub fn neutral_color() -> (color: Color)
    ensures
        color == neutral(),
{
    Color::Ansi(AnsiColor::White)
}

} // verus!
