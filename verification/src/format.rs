//! The input formats, and how one is chosen.

use vstd::prelude::*;
use crate::text::{chars_of, ends_with, spells};

verus! {

/// A format that a colour scheme can be read from.
#[derive(Debug, Clone, Copy, PartialEq, Eq, Structural)]
pub enum ColorSchemeFormat {
    /// An iTerm property list, `.itermcolors`.
    ITerm,
    /// A Mintty theme, `.minttyrc`.
    Mintty,
    /// A Gogh shell script, `.sh`.
    Gogh,
}

impl ColorSchemeFormat {
    /// The format that the word `s` names.
    pub open spec fn named(s: Seq<char>) -> Option<ColorSchemeFormat> {
        if s == "iterm"@ {
            Some(ColorSchemeFormat::ITerm)
        } else if s == "mintty"@ {
            Some(ColorSchemeFormat::Mintty)
        } else if s == "gogh"@ {
            Some(ColorSchemeFormat::Gogh)
        } else {
            None
        }
    }

    /// The format that the ending of the file name `s` tells.
    pub open spec fn of_filename(s: Seq<char>) -> Option<ColorSchemeFormat> {
        if ".itermcolors"@.is_suffix_of(s) {
            Some(ColorSchemeFormat::ITerm)
        } else if ".minttyrc"@.is_suffix_of(s) {
            Some(ColorSchemeFormat::Mintty)
        } else if ".sh"@.is_suffix_of(s) {
            Some(ColorSchemeFormat::Gogh)
        } else {
            None
        }
    }

    /// The format named `iterm`, `mintty` or `gogh`; no other word names one.
    pub fn from_string(s: &str) -> (r: Option<ColorSchemeFormat>)
        ensures
            r == ColorSchemeFormat::named(s@),
    {
        let letters = chars_of(s);
        if spells(&letters, "iterm") {
            Some(ColorSchemeFormat::ITerm)
        } else if spells(&letters, "mintty") {
            Some(ColorSchemeFormat::Mintty)
        } else if spells(&letters, "gogh") {
            Some(ColorSchemeFormat::Gogh)
        } else {
            None
        }
    }

    /// The format of a file, by the ending of its name.
    pub fn from_filename(s: &str) -> (r: Option<ColorSchemeFormat>)
        ensures
            r == ColorSchemeFormat::of_filename(s@),
    {
        if ends_with(s, ".itermcolors") {
            Some(ColorSchemeFormat::ITerm)
        } else if ends_with(s, ".minttyrc") {
            Some(ColorSchemeFormat::Mintty)
        } else if ends_with(s, ".sh") {
            Some(ColorSchemeFormat::Gogh)
        } else {
            None
        }
    }
}

} // verus!
