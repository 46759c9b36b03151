//! Terminal styles: colors and text attributes.

use vstd::prelude::*;

verus! {

/// A terminal color.
#[derive(Clone, Copy, Debug, PartialEq, Eq, Structural)]
pub enum Color {
    Black,
    DarkGray,
    Red,
    LightRed,
    Green,
    LightGreen,
    Yellow,
    LightYellow,
    Blue,
    LightBlue,
    Purple,
    LightPurple,
    Magenta,
    LightMagenta,
    Cyan,
    LightCyan,
    White,
    LightGray,
    /// One of the 256 colors of the extended palette.
    Fixed(u8),
    /// A 24-bit color.
    Rgb(u8, u8, u8),
    /// The terminal's own default color.
    Default,
}

/// The attributes a piece of terminal text is drawn with.
#[derive(Clone, Copy, Debug, PartialEq, Eq, Structural)]
pub struct Style {
    pub foreground: Option<Color>,
    pub background: Option<Color>,
    pub is_bold: bool,
    pub is_dimmed: bool,
    pub is_italic: bool,
    pub is_underline: bool,
    pub is_blink: bool,
    pub is_reverse: bool,
    pub is_hidden: bool,
    pub is_strikethrough: bool,
    pub prefix_with_reset: bool,
}

/// The plain style: no colors, no attributes.
pub open spec fn plain_style() -> Style {
    Style {
        foreground: None,
        background: None,
        is_bold: false,
        is_dimmed: false,
        is_italic: false,
        is_underline: false,
        is_blink: false,
        is_reverse: false,
        is_hidden: false,
        is_strikethrough: false,
        prefix_with_reset: false,
    }
}

/// `a` and `b` agree on everything but, possibly, the foreground color.
pub open spec fn same_but_foreground(a: Style, b: Style) -> bool {
    a.background == b.background && a.is_bold == b.is_bold && a.is_dimmed == b.is_dimmed
        && a.is_italic == b.is_italic && a.is_underline == b.is_underline && a.is_blink
        == b.is_blink && a.is_reverse == b.is_reverse && a.is_hidden == b.is_hidden
        && a.is_strikethrough == b.is_strikethrough && a.prefix_with_reset == b.prefix_with_reset
}

impl Style {
    pub open spec fn with_foreground_spec(self, c: Color) -> Style {
        Style { foreground: Some(c), ..self }
    }

    /// This style with its foreground color replaced by `c`.
    pub fn with_foreground(&self, c: Color) -> (r: Style)
        ensures
            r == self.with_foreground_spec(c),
            same_but_foreground(r, *self),
    {
        Style { foreground: Some(c), ..*self }
    }
}

impl Default for Style {
    fn default() -> (r: Style)
        ensures
            r == plain_style(),
    {
        Style {
            foreground: None,
            background: None,
            is_bold: false,
            is_dimmed: false,
            is_italic: false,
            is_underline: false,
            is_blink: false,
            is_reverse: false,
            is_hidden: false,
            is_strikethrough: false,
            prefix_with_reset: false,
        }
    }
}

} // verus!
