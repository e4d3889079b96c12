//! The canonical palette: twenty named slots.

use vstd::prelude::*;
use crate::color::Color;

verus! {

/// One of the twenty positions of a palette.
#[derive(Debug, Clone, Copy, PartialEq, Eq, Structural)]
pub enum Slot {
    Foreground,
    Background,
    CursorText,
    Cursor,
    Black,
    Red,
    Green,
    Yellow,
    Blue,
    Magenta,
    Cyan,
    White,
    BrightBlack,
    BrightRed,
    BrightGreen,
    BrightYellow,
    BrightBlue,
    BrightMagenta,
    BrightCyan,
    BrightWhite,
}

/// A colour scheme. The two cursor slots are present only where the source
/// gives them; every other slot is black until it is assigned.
#[derive(Debug, Clone, Copy, PartialEq, Eq)]
pub struct ColorScheme {
    pub foreground: Color,
    pub background: Color,
    pub cursor_text: Option<Color>,
    pub cursor: Option<Color>,
    pub black: Color,
    pub red: Color,
    pub green: Color,
    pub yellow: Color,
    pub blue: Color,
    pub magenta: Color,
    pub cyan: Color,
    pub white: Color,
    pub bright_black: Color,
    pub bright_red: Color,
    pub bright_green: Color,
    pub bright_yellow: Color,
    pub bright_blue: Color,
    pub bright_magenta: Color,
    pub bright_cyan: Color,
    pub bright_white: Color,
}

impl ColorScheme {
    /// The scheme that no source has written to.
    pub open spec fn blank() -> ColorScheme {
        ColorScheme {
            foreground: Color::black(),
            background: Color::black(),
            cursor_text: None,
            cursor: None,
            black: Color::black(),
            red: Color::black(),
            green: Color::black(),
            yellow: Color::black(),
            blue: Color::black(),
            magenta: Color::black(),
            cyan: Color::black(),
            white: Color::black(),
            bright_black: Color::black(),
            bright_red: Color::black(),
            bright_green: Color::black(),
            bright_yellow: Color::black(),
            bright_blue: Color::black(),
            bright_magenta: Color::black(),
            bright_cyan: Color::black(),
            bright_white: Color::black(),
        }
    }

    /// The colour in `slot`, if the slot is present.
    pub open spec fn color_at(self, slot: Slot) -> Option<Color> {
        match slot {
            Slot::Foreground => Some(self.foreground),
            Slot::Background => Some(self.background),
            Slot::CursorText => self.cursor_text,
            Slot::Cursor => self.cursor,
            Slot::Black => Some(self.black),
            Slot::Red => Some(self.red),
            Slot::Green => Some(self.green),
            Slot::Yellow => Some(self.yellow),
            Slot::Blue => Some(self.blue),
            Slot::Magenta => Some(self.magenta),
            Slot::Cyan => Some(self.cyan),
            Slot::White => Some(self.white),
            Slot::BrightBlack => Some(self.bright_black),
            Slot::BrightRed => Some(self.bright_red),
            Slot::BrightGreen => Some(self.bright_green),
            Slot::BrightYellow => Some(self.bright_yellow),
            Slot::BrightBlue => Some(self.bright_blue),
            Slot::BrightMagenta => Some(self.bright_magenta),
            Slot::BrightCyan => Some(self.bright_cyan),
            Slot::BrightWhite => Some(self.bright_white),
        }
    }

    /// This scheme with `color` in `slot` and every other slot unchanged.
    pub open spec fn with(self, slot: Slot, color: Color) -> ColorScheme {
        match slot {
            Slot::Foreground => ColorScheme { foreground: color, ..self },
            Slot::Background => ColorScheme { background: color, ..self },
            Slot::CursorText => ColorScheme { cursor_text: Some(color), ..self },
            Slot::Cursor => ColorScheme { cursor: Some(color), ..self },
            Slot::Black => ColorScheme { black: color, ..self },
            Slot::Red => ColorScheme { red: color, ..self },
            Slot::Green => ColorScheme { green: color, ..self },
            Slot::Yellow => ColorScheme { yellow: color, ..self },
            Slot::Blue => ColorScheme { blue: color, ..self },
            Slot::Magenta => ColorScheme { magenta: color, ..self },
            Slot::Cyan => ColorScheme { cyan: color, ..self },
            Slot::White => ColorScheme { white: color, ..self },
            Slot::BrightBlack => ColorScheme { bright_black: color, ..self },
            Slot::BrightRed => ColorScheme { bright_red: color, ..self },
            Slot::BrightGreen => ColorScheme { bright_green: color, ..self },
            Slot::BrightYellow => ColorScheme { bright_yellow: color, ..self },
            Slot::BrightBlue => ColorScheme { bright_blue: color, ..self },
            Slot::BrightMagenta => ColorScheme { bright_magenta: color, ..self },
            Slot::BrightCyan => ColorScheme { bright_cyan: color, ..self },
            Slot::BrightWhite => ColorScheme { bright_white: color, ..self },
        }
    }

    /// This scheme after an optional assignment.
    pub open spec fn with_maybe(self, slot: Option<Slot>, color: Color) -> ColorScheme {
        match slot {
            Some(s) => self.with(s, color),
            None => self,
        }
    }

    /// Reads the colour in `slot`.
    pub fn get(&self, slot: Slot) -> (r: Option<Color>)
        ensures
            r == self.color_at(slot),
    {
        match slot {
            Slot::Foreground => Some(self.foreground),
            Slot::Background => Some(self.background),
            Slot::CursorText => self.cursor_text,
            Slot::Cursor => self.cursor,
            Slot::Black => Some(self.black),
            Slot::Red => Some(self.red),
            Slot::Green => Some(self.green),
            Slot::Yellow => Some(self.yellow),
            Slot::Blue => Some(self.blue),
            Slot::Magenta => Some(self.magenta),
            Slot::Cyan => Some(self.cyan),
            Slot::White => Some(self.white),
            Slot::BrightBlack => Some(self.bright_black),
            Slot::BrightRed => Some(self.bright_red),
            Slot::BrightGreen => Some(self.bright_green),
            Slot::BrightYellow => Some(self.bright_yellow),
            Slot::BrightBlue => Some(self.bright_blue),
            Slot::BrightMagenta => Some(self.bright_magenta),
            Slot::BrightCyan => Some(self.bright_cyan),
            Slot::BrightWhite => Some(self.bright_white),
        }
    }

    /// Writes `color` into `slot`; a later write to the same slot replaces an
    /// earlier one.
    pub fn set(&mut self, slot: Slot, color: Color)
        ensures
            *final(self) == old(self).with(slot, color),
    {
        match slot {
            Slot::Foreground => self.foreground = color,
            Slot::Background => self.background = color,
            Slot::CursorText => self.cursor_text = Some(color),
            Slot::Cursor => self.cursor = Some(color),
            Slot::Black => self.black = color,
            Slot::Red => self.red = color,
            Slot::Green => self.green = color,
            Slot::Yellow => self.yellow = color,
            Slot::Blue => self.blue = color,
            Slot::Magenta => self.magenta = color,
            Slot::Cyan => self.cyan = color,
            Slot::White => self.white = color,
            Slot::BrightBlack => self.bright_black = color,
            Slot::BrightRed => self.bright_red = color,
            Slot::BrightGreen => self.bright_green = color,
            Slot::BrightYellow => self.bright_yellow = color,
            Slot::BrightBlue => self.bright_blue = color,
            Slot::BrightMagenta => self.bright_magenta = color,
            Slot::BrightCyan => self.bright_cyan = color,
            Slot::BrightWhite => self.bright_white = color,
        }
    }
}

/// A later assignment to a slot replaces an earlier one.
pub proof fn law_later_assignment_wins(scheme: ColorScheme, slot: Slot, earlier: Color, later: Color)
    ensures
        scheme.with(slot, earlier).with(slot, later) == scheme.with(slot, later),
        scheme.with(slot, later).color_at(slot) == Some(later),
{
}

/// Assignments to different slots can be made in either order, and neither
/// touches the other's slot.
pub proof fn law_assignments_commute(scheme: ColorScheme, a: Slot, first: Color, b: Slot, second: Color)
    requires
        a != b,
    ensures
        scheme.with(a, first).with(b, second) == scheme.with(b, second).with(a, first),
        scheme.with(a, first).color_at(b) == scheme.color_at(b),
{
}

impl Default for ColorScheme {
    fn default() -> (r: ColorScheme)
        ensures
            r == ColorScheme::blank(),
    {
        let k = Color { red: 0, green: 0, blue: 0 };
        ColorScheme {
            foreground: k,
            background: k,
            cursor_text: None,
            cursor: None,
            black: k,
            red: k,
            green: k,
            yellow: k,
            blue: k,
            magenta: k,
            cyan: k,
            white: k,
            bright_black: k,
            bright_red: k,
            bright_green: k,
            bright_yellow: k,
            bright_blue: k,
            bright_magenta: k,
            bright_cyan: k,
            bright_white: k,
        }
    }
}

} // verus!
