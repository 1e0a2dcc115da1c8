use vstd::prelude::*;

verus! {

/// A terminal color: one of the sixteen ANSI colors, a 24-bit RGB value or an
/// index into the 256-color palette.
#[derive(Debug, Clone, Copy, PartialEq, Eq, Structural, Hash)]
pub enum Color {
    /// Resets the terminal color.
    Reset,
    /// ANSI black. Foreground: 30, background: 40.
    Black,
    /// ANSI red. Foreground: 31, background: 41.
    Red,
    /// ANSI green. Foreground: 32, background: 42.
    Green,
    /// ANSI yellow. Foreground: 33, background: 43.
    Yellow,
    /// ANSI blue. Foreground: 34, background: 44.
    Blue,
    /// ANSI magenta. Foreground: 35, background: 45.
    Magenta,
    /// ANSI cyan. Foreground: 36, background: 46.
    Cyan,
    /// ANSI white. Foreground 37, background 47.
    Gray,
    /// ANSI bright black. Foreground 90, background: 100.
    DarkGray,
    /// ANSI bright red. Foreground: 91, background: 101.
    BrightRed,
    /// ANSI bright green. Foreground 92, background 102.
    BrightGreen,
    /// ANSI bright yellow. Foreground 93, background 103.
    BrightYellow,
    /// ANSI bright blue. Foreground 94. background 104.
    BrightBlue,
    /// ANSI bright magenta. Foreground 95, background 105.
    BrightMagenta,
    /// ANSI bright cyan. Foreground 96, background 106.
    BrightCyan,
    /// ANSI bright white. Foreground 97, background 107.
    White,
    /// A 24-bit color.
    Rgb { r: u8, g: u8, b: u8 },
    /// An entry of the 256-color palette.
    Indexed(u8),
}

impl Default for Color {
    fn default() -> (r: Self)
        ensures
            r == Color::Reset,
    {
        Color::Reset
    }
}

} // verus!
