//! Reading a Gogh colour theme (`.sh`): a shell script whose lines of the
//! form `export NAME="#RRGGBB"` give the palette. Which lines have that form
//! is decided by a regular expression, matched by the `regex` crate.

use vstd::prelude::*;
use vstd::utf8::encode_utf8;
use crate::color::{Color, gogh_color};
use crate::error::{ParseError, ParseFailure, outcome};
use crate::scheme::{ColorScheme, Slot};
use crate::text::{chars_of, cuts, line_ranges, lines, ranges_within, spells};

verus! {

/// What the `regex` crate finds when it searches `text` for `pattern`: `None`
/// where the pattern does not compile; `Some(None)` where nothing in the
/// text matches; else the capture groups of the leftmost match, the whole
/// match first, each with the text it matched or `None` where it took no
/// part.
pub uninterp spec fn regex_search(pattern: Seq<char>, text: Seq<char>) -> Option<
    Option<Seq<Option<Seq<char>>>>,
>;

/// `regex::Regex::new` on `pattern`, then `Regex::captures` on `text`, with
/// every group of `Captures::iter` copied out through `Match::as_str`. The
/// contract only names the outcome. The pattern goes in as text with every
/// search, so that the outcome is named over what was searched for.
#[verifier::external_body]
fn search(pattern: &str, text: &str) -> (r: Option<Option<Vec<Option<String>>>>)
    ensures
        r.deep_view() == regex_search(pattern@, text@),
{
    let compiled = regex::Regex::new(pattern).ok()?;
    Some(
        compiled
            .captures(text)
            .map(|found| found.iter().map(|group| group.map(|m| m.as_str().to_owned())).collect()),
    )
}

/// The pattern of an export line: a name of capitals, digits and
/// underscores, and a quoted colour of `#` and six hexadecimal digits.
pub open spec fn export_pattern() -> Seq<char> {
    "export ([A-Z0-9_]+)=\"(#[0-9a-fA-F]{6})\""@
}

/// The palette slot that a Gogh name stands for, if any.
pub open spec fn gogh_slot(name: Seq<char>) -> Option<Slot> {
    if name == "FOREGROUND_COLOR"@ {
        Some(Slot::Foreground)
    } else if name == "BACKGROUND_COLOR"@ {
        Some(Slot::Background)
    } else if name == "COLOR_01"@ {
        Some(Slot::Black)
    } else if name == "COLOR_02"@ {
        Some(Slot::Red)
    } else if name == "COLOR_03"@ {
        Some(Slot::Green)
    } else if name == "COLOR_04"@ {
        Some(Slot::Yellow)
    } else if name == "COLOR_05"@ {
        Some(Slot::Blue)
    } else if name == "COLOR_06"@ {
        Some(Slot::Magenta)
    } else if name == "COLOR_07"@ {
        Some(Slot::Cyan)
    } else if name == "COLOR_08"@ {
        Some(Slot::White)
    } else if name == "COLOR_09"@ {
        Some(Slot::BrightBlack)
    } else if name == "COLOR_10"@ {
        Some(Slot::BrightRed)
    } else if name == "COLOR_11"@ {
        Some(Slot::BrightGreen)
    } else if name == "COLOR_12"@ {
        Some(Slot::BrightYellow)
    } else if name == "COLOR_13"@ {
        Some(Slot::BrightBlue)
    } else if name == "COLOR_14"@ {
        Some(Slot::BrightMagenta)
    } else if name == "COLOR_15"@ {
        Some(Slot::BrightCyan)
    } else if name == "COLOR_16"@ {
        Some(Slot::BrightWhite)
    } else {
        None
    }
}

/// The name and the colour text of an export, from the groups of a match: the
/// first and the second group after the whole match, where both took part.
pub open spec fn export_of(groups: Option<Seq<Option<Seq<char>>>>) -> Option<(Seq<char>, Seq<char>)> {
    match groups {
        Some(found) => if found.len() >= 3 && found[1] is Some && found[2] is Some {
            Some((found[1]->0, found[2]->0))
        } else {
            None
        },
        None => None,
    }
}

/// `scheme` after the export of `value` under `name`. The colour is read
/// first; a name that stands for no slot then leaves the scheme as it is.
pub open spec fn with_export(scheme: ColorScheme, name: Seq<char>, value: Seq<char>) -> Result<
    ColorScheme,
    ParseFailure,
> {
    match gogh_color(encode_utf8(value)) {
        None => Err(ParseFailure::ParseInt),
        Some(color) => Ok(scheme.with_maybe(gogh_slot(name), color)),
    }
}

/// `scheme` after what was found in one line. A line in which nothing
/// was found changes nothing, and neither does an export whose colour text
/// cannot be read: the pattern lets no such text through, and no line is
/// ever reported.
pub open spec fn with_found(scheme: ColorScheme, groups: Option<Seq<Option<Seq<char>>>>) -> ColorScheme {
    match export_of(groups) {
        None => scheme,
        Some((name, value)) => match with_export(scheme, name, value) {
            Ok(next) => next,
            Err(_) => scheme,
        },
    }
}

/// What a search found, or nothing where the pattern did not compile.
pub open spec fn found_in(searched: Option<Option<Seq<Option<Seq<char>>>>>) -> Option<
    Seq<Option<Seq<char>>>,
> {
    match searched {
        Some(found) => found,
        None => None,
    }
}

/// `scheme` after the given lines, in order.
pub open spec fn after_gogh_lines(scheme: ColorScheme, rest: Seq<Seq<char>>) -> ColorScheme
    decreases rest.len(),
{
    if rest.len() == 0 {
        scheme
    } else {
        after_gogh_lines(
            with_found(scheme, found_in(regex_search(export_pattern(), rest[0]))),
            rest.skip(1),
        )
    }
}

/// The scheme that the text of a Gogh theme describes.
pub open spec fn gogh_scheme(content: Seq<char>) -> ColorScheme {
    after_gogh_lines(ColorScheme::blank(), lines(content))
}

/// The palette slot that a Gogh name stands for, if any.
pub fn gogh_slot_named(name: &str) -> (r: Option<Slot>)
    ensures
        r == gogh_slot(name@),
{
    let letters = chars_of(name);
    if spells(&letters, "FOREGROUND_COLOR") {
        Some(Slot::Foreground)
    } else if spells(&letters, "BACKGROUND_COLOR") {
        Some(Slot::Background)
    } else if spells(&letters, "COLOR_01") {
        Some(Slot::Black)
    } else if spells(&letters, "COLOR_02") {
        Some(Slot::Red)
    } else if spells(&letters, "COLOR_03") {
        Some(Slot::Green)
    } else if spells(&letters, "COLOR_04") {
        Some(Slot::Yellow)
    } else if spells(&letters, "COLOR_05") {
        Some(Slot::Blue)
    } else if spells(&letters, "COLOR_06") {
        Some(Slot::Magenta)
    } else if spells(&letters, "COLOR_07") {
        Some(Slot::Cyan)
    } else if spells(&letters, "COLOR_08") {
        Some(Slot::White)
    } else if spells(&letters, "COLOR_09") {
        Some(Slot::BrightBlack)
    } else if spells(&letters, "COLOR_10") {
        Some(Slot::BrightRed)
    } else if spells(&letters, "COLOR_11") {
        Some(Slot::BrightGreen)
    } else if spells(&letters, "COLOR_12") {
        Some(Slot::BrightYellow)
    } else if spells(&letters, "COLOR_13") {
        Some(Slot::BrightBlue)
    } else if spells(&letters, "COLOR_14") {
        Some(Slot::BrightMagenta)
    } else if spells(&letters, "COLOR_15") {
        Some(Slot::BrightCyan)
    } else if spells(&letters, "COLOR_16") {
        Some(Slot::BrightWhite)
    } else {
        None
    }
}

impl ColorScheme {
    /// This scheme after the export of the colour text `value` under `name`.
    pub fn with_gogh_export(self, name: &str, value: &str) -> (r: Result<ColorScheme, ParseError>)
        ensures
            outcome(r) == with_export(self, name@, value@),
    {
        let color = Color::from_gogh_color(value)?;
        let mut next = self;
        match gogh_slot_named(name) {
            Some(slot) => {
                next.set(slot, color);
            },
            None => {},
        }
        Ok(next)
    }

    /// This scheme after what a search found in one line: the groups of the
    /// match, the whole match first, or `None` where nothing matched.
    pub fn with_gogh_match(self, groups: &Option<Vec<Option<String>>>) -> (r: ColorScheme)
        ensures
            r == with_found(self, groups.deep_view()),
    {
        match groups {
            Some(found) => {
                if found.len() >= 3 {
                    assert(found.deep_view()[1] == found@[1].deep_view());
                    assert(found.deep_view()[2] == found@[2].deep_view());
                    match (&found[1], &found[2]) {
                        (Some(name), Some(value)) => {
                            match self.with_gogh_export(name.as_str(), value.as_str()) {
                                Ok(next) => next,
                                Err(_) => self,
                            }
                        },
                        _ => self,
                    }
                } else {
                    self
                }
            },
            None => self,
        }
    }

    /// Reads a Gogh colour theme from the text of a `.sh` file. Lines that are
    /// no export, and exports under other names, are passed over: every text
    /// gives a scheme.
    pub fn from_gogh(content: &str) -> (r: Result<ColorScheme, ParseError>)
        ensures
            r == Ok::<ColorScheme, ParseError>(gogh_scheme(content@)),
    {
        let chars = chars_of(content);
        let ranges = line_ranges(&chars);
        let ghost all = lines(content@);
        let mut scheme = ColorScheme::default();
        let mut i: usize = 0;
        assert(all.skip(0) == all);
        while i < ranges.len()
            invariant
                i <= ranges@.len(),
                chars@ == content@,
                all == lines(content@),
                ranges_within(ranges@, chars@.len()),
                cuts(chars@, ranges@) == all,
                gogh_scheme(content@) == after_gogh_lines(scheme, all.skip(i as int)),
            decreases ranges@.len() - i,
        {
            let (from, to) = ranges[i];
            assert(ranges@[i as int].0 <= ranges@[i as int].1 <= chars@.len());
            assert(all.skip(i as int)[0] == cuts(chars@, ranges@)[i as int]);
            assert(all.skip(i as int).skip(1) == all.skip(i + 1));
            let line = content.substring_char(from, to);
            let searched = search("export ([A-Z0-9_]+)=\"(#[0-9a-fA-F]{6})\"", line);
            scheme = match &searched {
                Some(found) => scheme.with_gogh_match(found),
                None => scheme,
            };
            i += 1;
        }
        Ok(scheme)
    }
}

} // verus!
