//! Writing a colour scheme: as the colour tables of an Alacritty
//! configuration, and as one line of coloured dots for a terminal.

use vstd::prelude::*;
use vstd::string::*;
use crate::color::Color;
use crate::scheme::ColorScheme;

verus! {

/// One line of a colour table: the label, then the colour in quotes.
pub open spec fn entry_text(label: Seq<char>, color: Color) -> Seq<char> {
    label + "'"@ + color.hex_text() + "'\n"@
}

/// The eight lines of a table of ANSI colours, the labels aligned.
pub open spec fn table_text(colors: Seq<Color>) -> Seq<char> {
    entry_text("black =   "@, colors[0]) + entry_text("red =     "@, colors[1]) + entry_text(
        "green =   "@,
        colors[2],
    ) + entry_text("yellow =  "@, colors[3]) + entry_text("blue =    "@, colors[4]) + entry_text(
        "magenta = "@,
        colors[5],
    ) + entry_text("cyan =    "@, colors[6]) + entry_text("white =   "@, colors[7])
}

/// The dots of eight colours, one after the other.
pub open spec fn dots_text(colors: Seq<Color>) -> Seq<char> {
    colors[0].preview_text() + colors[1].preview_text() + colors[2].preview_text()
        + colors[3].preview_text() + colors[4].preview_text() + colors[5].preview_text()
        + colors[6].preview_text() + colors[7].preview_text()
}

impl ColorScheme {
    /// The eight normal ANSI colours, black first.
    pub open spec fn normal_colors(self) -> Seq<Color> {
        seq![
            self.black,
            self.red,
            self.green,
            self.yellow,
            self.blue,
            self.magenta,
            self.cyan,
            self.white,
        ]
    }

    /// The eight bright ANSI colours, black first.
    pub open spec fn bright_colors(self) -> Seq<Color> {
        seq![
            self.bright_black,
            self.bright_red,
            self.bright_green,
            self.bright_yellow,
            self.bright_blue,
            self.bright_magenta,
            self.bright_cyan,
            self.bright_white,
        ]
    }

    /// The table of the cursor colours; empty unless both are present.
    pub open spec fn cursor_text(self) -> Seq<char> {
        match (self.cursor_text, self.cursor) {
            (Some(text), Some(cursor)) => "\n# Cursor colors\n[colors.cursor]\n"@ + entry_text(
                "text =   "@,
                text,
            ) + entry_text("cursor = "@, cursor),
            _ => Seq::empty(),
        }
    }

    /// The scheme as the colour tables of an Alacritty configuration: the
    /// primary colours, the cursor colours where present, the normal and the
    /// bright colours.
    pub open spec fn toml_text(self) -> Seq<char> {
        "\n# Default colors\n[colors.primary]\n"@ + entry_text("background = "@, self.background)
            + entry_text("foreground = "@, self.foreground) + self.cursor_text()
            + "\n# Normal colors\n[colors.normal]\n"@ + table_text(self.normal_colors())
            + "\n# Bright colors\n[colors.bright]\n"@ + table_text(self.bright_colors())
    }

    /// The scheme as one line for a terminal: on the background colour, a dot
    /// in the foreground colour, the eight normal and the eight bright
    /// colours, and a reset at the end.
    pub open spec fn preview_line(self) -> Seq<char> {
        self.background.background_escape() + " "@ + self.foreground.preview_text() + "  "@
            + dots_text(self.normal_colors()) + "  "@ + dots_text(self.bright_colors()) + " "@
            + "\x1b[0m"@
    }

    /// The eight normal ANSI colours, black first.
    pub fn normal(&self) -> (r: [Color; 8])
        ensures
            r@ == self.normal_colors(),
    {
        let r = [
            self.black,
            self.red,
            self.green,
            self.yellow,
            self.blue,
            self.magenta,
            self.cyan,
            self.white,
        ];
        assert(r@ =~= self.normal_colors());
        r
    }

    /// The eight bright ANSI colours, black first.
    pub fn bright(&self) -> (r: [Color; 8])
        ensures
            r@ == self.bright_colors(),
    {
        let r = [
            self.bright_black,
            self.bright_red,
            self.bright_green,
            self.bright_yellow,
            self.bright_blue,
            self.bright_magenta,
            self.bright_cyan,
            self.bright_white,
        ];
        assert(r@ =~= self.bright_colors());
        r
    }

    /// Writes the scheme as the colour tables of an Alacritty configuration.
    pub fn to_toml(&self) -> (r: String)
        ensures
            r@ == self.toml_text(),
    {
        let mut out = String::new();
        out.append("\n# Default colors\n[colors.primary]\n");
        assert(out@ =~= "\n# Default colors\n[colors.primary]\n"@);
        push_entry(&mut out, "background = ", self.background);
        push_entry(&mut out, "foreground = ", self.foreground);
        let ghost before = out@;
        match (self.cursor_text, self.cursor) {
            (Some(text), Some(cursor)) => {
                out.append("\n# Cursor colors\n[colors.cursor]\n");
                push_entry(&mut out, "text =   ", text);
                push_entry(&mut out, "cursor = ", cursor);
            },
            _ => {},
        }
        assert(out@ =~= before + self.cursor_text());
        out.append("\n# Normal colors\n[colors.normal]\n");
        let normal = self.normal();
        push_table(&mut out, normal);
        out.append("\n# Bright colors\n[colors.bright]\n");
        let bright = self.bright();
        push_table(&mut out, bright);
        out
    }

    /// Writes the scheme as one line of coloured dots.
    pub fn to_preview(&self) -> (r: String)
        ensures
            r@ == self.preview_line(),
    {
        let mut out = self.background.to_24bit_be();
        out.append(" ");
        out.append(self.foreground.to_24bit_preview().as_str());
        out.append("  ");
        let normal = self.normal();
        push_dots(&mut out, normal);
        out.append("  ");
        let bright = self.bright();
        push_dots(&mut out, bright);
        out.append(" ");
        out.append("\x1b[0m");
        out
    }
}

/// Appends one line of a colour table.
pub fn push_entry(out: &mut String, label: &str, color: Color)
    ensures
        final(out)@ == old(out)@ + entry_text(label@, color),
{
    out.append(label);
    out.append("'");
    out.append(color.to_hex().as_str());
    out.append("'\n");
    assert(final(out)@ =~= old(out)@ + entry_text(label@, color));
}

/// Appends the eight lines of a table of ANSI colours.
pub fn push_table(out: &mut String, colors: [Color; 8])
    ensures
        final(out)@ == old(out)@ + table_text(colors@),
{
    push_entry(out, "black =   ", colors[0]);
    push_entry(out, "red =     ", colors[1]);
    push_entry(out, "green =   ", colors[2]);
    push_entry(out, "yellow =  ", colors[3]);
    push_entry(out, "blue =    ", colors[4]);
    push_entry(out, "magenta = ", colors[5]);
    push_entry(out, "cyan =    ", colors[6]);
    push_entry(out, "white =   ", colors[7]);
    assert(final(out)@ =~= old(out)@ + table_text(colors@));
}

/// Appends the dots of eight colours.
pub fn push_dots(out: &mut String, colors: [Color; 8])
    ensures
        final(out)@ == old(out)@ + dots_text(colors@),
{
    let mut i: usize = 0;
    let ghost start = out@;
    while i < 8
        invariant
            i <= 8,
            out@ == start + dots_upto(colors@, i as nat),
        decreases 8 - i,
    {
        out.append(colors[i].to_24bit_preview().as_str());
        assert(out@ =~= start + dots_upto(colors@, (i + 1) as nat));
        i += 1;
    }
    assert(dots_upto(colors@, 8) =~= dots_text(colors@)) by {
        reveal_with_fuel(dots_upto, 9);
    }
}

/// The dots of the first `count` colours.
pub open spec fn dots_upto(colors: Seq<Color>, count: nat) -> Seq<char>
    decreases count,
{
    if count == 0 {
        Seq::empty()
    } else {
        dots_upto(colors, (count - 1) as nat) + colors[count - 1].preview_text()
    }
}

} // verus!
