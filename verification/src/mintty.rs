//! Reading a Mintty colour theme (`.minttyrc`): lines of the form
//! `Name=R,G,B`.

use vstd::prelude::*;
use vstd::string::*;
use crate::color::{mintty_color, mintty_color_in};
use crate::error::{ParseError, ParseFailure, outcome};
use crate::scheme::{ColorScheme, Slot, law_assignments_commute};
use crate::text::{chars_of, cuts, find_char, first_index, line_ranges, lines, ranges_within, spells};

verus! {

/// The palette slot that a Mintty name stands for, if any.
pub open spec fn mintty_slot(name: Seq<char>) -> Option<Slot> {
    if name == "ForegroundColour"@ {
        Some(Slot::Foreground)
    } else if name == "BackgroundColour"@ {
        Some(Slot::Background)
    } else if name == "Black"@ {
        Some(Slot::Black)
    } else if name == "Red"@ {
        Some(Slot::Red)
    } else if name == "Green"@ {
        Some(Slot::Green)
    } else if name == "Yellow"@ {
        Some(Slot::Yellow)
    } else if name == "Blue"@ {
        Some(Slot::Blue)
    } else if name == "Magenta"@ {
        Some(Slot::Magenta)
    } else if name == "Cyan"@ {
        Some(Slot::Cyan)
    } else if name == "White"@ {
        Some(Slot::White)
    } else if name == "BoldRed"@ {
        Some(Slot::BrightRed)
    } else if name == "BoldBlack"@ {
        Some(Slot::BrightBlack)
    } else if name == "BoldGreen"@ {
        Some(Slot::BrightGreen)
    } else if name == "BoldYellow"@ {
        Some(Slot::BrightYellow)
    } else if name == "BoldBlue"@ {
        Some(Slot::BrightBlue)
    } else if name == "BoldMagenta"@ {
        Some(Slot::BrightMagenta)
    } else if name == "BoldCyan"@ {
        Some(Slot::BrightCyan)
    } else if name == "BoldWhite"@ {
        Some(Slot::BrightWhite)
    } else {
        None
    }
}

/// `scheme` after one line. An empty line changes nothing. Any other line
/// is split at its first `=` and must hold one; the colour to the right of
/// it is read first, and then the name to its left is looked up.
pub open spec fn with_mintty_line(scheme: ColorScheme, line: Seq<char>) -> Result<
    ColorScheme,
    ParseFailure,
> {
    let at = first_index(line, '=');
    if line.len() == 0 {
        Ok(scheme)
    } else if at < 0 || at >= line.len() {
        Err(ParseFailure::InvalidLineFormat(line))
    } else {
        match mintty_color(line.skip(at + 1)) {
            Err(e) => Err(e),
            Ok(color) => match mintty_slot(line.take(at)) {
                Some(slot) => Ok(scheme.with(slot, color)),
                None => Err(ParseFailure::UnknownColorName(line.take(at))),
            },
        }
    }
}

/// `scheme` after the given lines, in order: a later line for a slot
/// replaces an earlier one, and the first failing line decides.
pub open spec fn after_mintty_lines(scheme: ColorScheme, rest: Seq<Seq<char>>) -> Result<
    ColorScheme,
    ParseFailure,
>
    decreases rest.len(),
{
    if rest.len() == 0 {
        Ok(scheme)
    } else {
        match with_mintty_line(scheme, rest[0]) {
            Err(e) => Err(e),
            Ok(next) => after_mintty_lines(next, rest.skip(1)),
        }
    }
}

/// The scheme that the text of a `.minttyrc` file describes.
pub open spec fn minttyrc_scheme(content: Seq<char>) -> Result<ColorScheme, ParseFailure> {
    after_mintty_lines(ColorScheme::blank(), lines(content))
}

/// The order of two lines does not matter where both are well-formed and
/// they are not for the same slot.
pub proof fn law_mintty_order(scheme: ColorScheme, first: Seq<char>, second: Seq<char>)
    requires
        with_mintty_line(scheme, first) is Ok,
        with_mintty_line(scheme, second) is Ok,
        first.len() > 0 && second.len() > 0 ==> mintty_slot(first.take(first_index(first, '=')))
            != mintty_slot(second.take(first_index(second, '='))),
    ensures
        after_mintty_lines(scheme, seq![first, second]) == after_mintty_lines(
            scheme,
            seq![second, first],
        ),
        after_mintty_lines(scheme, seq![first, second]) is Ok,
{
    reveal_with_fuel(after_mintty_lines, 3);
    let one = seq![first, second];
    let other = seq![second, first];
    assert(one.skip(1) == seq![second]);
    assert(other.skip(1) == seq![first]);
    assert(one.skip(1).skip(1) == Seq::<Seq<char>>::empty());
    assert(other.skip(1).skip(1) == Seq::<Seq<char>>::empty());
    if first.len() > 0 && second.len() > 0 {
        let a = mintty_slot(first.take(first_index(first, '=')))->0;
        let b = mintty_slot(second.take(first_index(second, '=')))->0;
        let ca = mintty_color(first.skip(first_index(first, '=') + 1))->Ok_0;
        let cb = mintty_color(second.skip(first_index(second, '=') + 1))->Ok_0;
        law_assignments_commute(scheme, a, ca, b, cb);
    }
}

/// The palette slot that a Mintty name stands for, if any.
pub fn mintty_slot_named(name: &str) -> (r: Option<Slot>)
    ensures
        r == mintty_slot(name@),
{
    let letters = chars_of(name);
    if spells(&letters, "ForegroundColour") {
        Some(Slot::Foreground)
    } else if spells(&letters, "BackgroundColour") {
        Some(Slot::Background)
    } else if spells(&letters, "Black") {
        Some(Slot::Black)
    } else if spells(&letters, "Red") {
        Some(Slot::Red)
    } else if spells(&letters, "Green") {
        Some(Slot::Green)
    } else if spells(&letters, "Yellow") {
        Some(Slot::Yellow)
    } else if spells(&letters, "Blue") {
        Some(Slot::Blue)
    } else if spells(&letters, "Magenta") {
        Some(Slot::Magenta)
    } else if spells(&letters, "Cyan") {
        Some(Slot::Cyan)
    } else if spells(&letters, "White") {
        Some(Slot::White)
    } else if spells(&letters, "BoldRed") {
        Some(Slot::BrightRed)
    } else if spells(&letters, "BoldBlack") {
        Some(Slot::BrightBlack)
    } else if spells(&letters, "BoldGreen") {
        Some(Slot::BrightGreen)
    } else if spells(&letters, "BoldYellow") {
        Some(Slot::BrightYellow)
    } else if spells(&letters, "BoldBlue") {
        Some(Slot::BrightBlue)
    } else if spells(&letters, "BoldMagenta") {
        Some(Slot::BrightMagenta)
    } else if spells(&letters, "BoldCyan") {
        Some(Slot::BrightCyan)
    } else if spells(&letters, "BoldWhite") {
        Some(Slot::BrightWhite)
    } else {
        None
    }
}

/// `scheme` after the line that stands in `text` from `from` up to `to`;
/// `chars` holds the characters of `text`.
pub fn mintty_line_in(scheme: ColorScheme, text: &str, chars: &Vec<char>, from: usize, to: usize) -> (r:
    Result<ColorScheme, ParseError>)
    requires
        chars@ == text@,
        from <= to <= chars@.len(),
    ensures
        outcome(r) == with_mintty_line(scheme, text@.subrange(from as int, to as int)),
{
    let ghost line = chars@.subrange(from as int, to as int);
    if from == to {
        return Ok(scheme);
    }
    let first = find_char(chars, from, to, '=');
    if first == to {
        return Err(ParseError::InvalidLineFormat(text.substring_char(from, to).to_owned()));
    }
    assert(line.skip(first - from + 1) == chars@.subrange(first + 1, to as int));
    assert(line.take(first - from) == chars@.subrange(from as int, first as int));
    let color = mintty_color_in(text, chars, first + 1, to)?;
    let name = text.substring_char(from, first);
    match mintty_slot_named(name) {
        Some(slot) => {
            let mut next = scheme;
            next.set(slot, color);
            Ok(next)
        },
        None => Err(ParseError::UnknownColorName(name.to_owned())),
    }
}

impl ColorScheme {
    /// Reads a Mintty colour theme from the text of a `.minttyrc` file.
    pub fn from_minttyrc(content: &str) -> (r: Result<ColorScheme, ParseError>)
        ensures
            outcome(r) == minttyrc_scheme(content@),
    {
        let chars = chars_of(content);
        let ranges = line_ranges(&chars);
        let ghost all = lines(content@);
        let mut scheme = ColorScheme::default();
        let mut i: usize = 0;
        assert(all.skip(0) == all);
        while i < ranges.len()
            invariant
                i <= ranges@.len(),
                chars@ == content@,
                all == lines(content@),
                ranges_within(ranges@, chars@.len()),
                cuts(chars@, ranges@) == all,
                minttyrc_scheme(content@) == after_mintty_lines(scheme, all.skip(i as int)),
            decreases ranges@.len() - i,
        {
            let (from, to) = ranges[i];
            assert(ranges@[i as int].0 <= ranges@[i as int].1 <= chars@.len());
            assert(all.skip(i as int)[0] == cuts(chars@, ranges@)[i as int]);
            assert(all.skip(i as int).skip(1) == all.skip(i + 1));
            match mintty_line_in(scheme, content, &chars, from, to) {
                Ok(next) => {
                    scheme = next;
                },
                Err(e) => {
                    return Err(e);
                },
            }
            i += 1;
        }
        Ok(scheme)
    }
}

} // verus!
