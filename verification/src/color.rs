//! A single RGB colour, the texts it is read from and the texts it is
//! written as.

use vstd::prelude::*;
use vstd::string::*;
use crate::error::{ParseError, ParseFailure, outcome};
use crate::number::{byte_between, decimal_byte, digit_value, digits_value, hex_byte};
use crate::text::{
    chars_of, find_char, free_of, lemma_split_first, lemma_split_nonempty, lemma_split_whole, split,
};

verus! {

/// An RGB triple; there is no alpha channel.
#[derive(Debug, Clone, Copy, PartialEq, Eq, Structural)]
pub struct Color {
    pub red: u8,
    pub green: u8,
    pub blue: u8,
}

impl Default for Color {
    fn default() -> (r: Color)
        ensures
            r == Color::black(),
    {
        Color { red: 0, green: 0, blue: 0 }
    }
}

/// The colour that a Mintty colour text `R,G,B` stands for. A text that is
/// not made of exactly three fields is an `InvalidColorFormat` failure that
/// holds the text; otherwise the first field, in order, that is no decimal
/// byte makes it a `ParseInt` failure.
pub open spec fn mintty_color(s: Seq<char>) -> Result<Color, ParseFailure> {
    let fields = split(s, ',');
    if fields.len() != 3 {
        Err(ParseFailure::InvalidColorFormat(s))
    } else {
        match (decimal_byte(fields[0]), decimal_byte(fields[1]), decimal_byte(fields[2])) {
            (Some(red), Some(green), Some(blue)) => Ok(Color { red, green, blue }),
            _ => Err(ParseFailure::ParseInt),
        }
    }
}

/// The two characters at `at` and `at + 1`, each byte taken as the character
/// of the same number.
pub open spec fn byte_pair(bytes: Seq<u8>, at: int) -> Seq<char> {
    seq![bytes[at] as char, bytes[at + 1] as char]
}

/// The colour that the bytes of a Gogh colour text `#RRGGBB` stand for: the
/// byte pairs at the offsets 1, 3 and 5 are read as hexadecimal bytes. The
/// first byte, and whatever follows the seventh, is not looked at.
pub open spec fn gogh_color(bytes: Seq<u8>) -> Option<Color> {
    if bytes.len() < 7 {
        None
    } else {
        match (hex_byte(byte_pair(bytes, 1)), hex_byte(byte_pair(bytes, 3)), hex_byte(byte_pair(bytes, 5))) {
            (Some(red), Some(green), Some(blue)) => Some(Color { red, green, blue }),
            _ => None,
        }
    }
}

/// The lowercase hexadecimal digit of `d`.
pub open spec fn hex_digit(d: nat) -> char {
    if d < 10 {
        ('0' as nat + d) as char
    } else {
        ('a' as nat + d - 10) as char
    }
}

/// The two lowercase hexadecimal digits of `byte`.
pub open spec fn hex_pair(byte: u8) -> Seq<char> {
    seq![hex_digit(byte as nat / 16), hex_digit(byte as nat % 16)]
}

/// `byte` in decimal, without leading zeros.
pub open spec fn decimal_text(byte: u8) -> Seq<char> {
    if byte < 10 {
        seq![hex_digit(byte as nat)]
    } else if byte < 100 {
        seq![hex_digit(byte as nat / 10), hex_digit(byte as nat % 10)]
    } else {
        seq![hex_digit(byte as nat / 100), hex_digit(byte as nat / 10 % 10), hex_digit(byte as nat % 10)]
    }
}

/// The three components of `color` in decimal, separated by `;`.
pub open spec fn decimal_triple(color: Color) -> Seq<char> {
    decimal_text(color.red) + ";"@ + decimal_text(color.green) + ";"@ + decimal_text(color.blue)
}

impl Color {
    /// Black, the colour of every slot that a source leaves out.
    pub open spec fn black() -> Color {
        Color { red: 0, green: 0, blue: 0 }
    }

    /// `0x` and the six lowercase hexadecimal digits of the colour.
    pub open spec fn hex_text(self) -> Seq<char> {
        "0x"@ + hex_pair(self.red) + hex_pair(self.green) + hex_pair(self.blue)
    }

    /// The escape sequence that sets this colour as the background.
    pub open spec fn background_escape(self) -> Seq<char> {
        "\x1b[48;2;"@ + decimal_triple(self) + "m"@
    }

    /// The escape sequence that sets this colour as the foreground, followed
    /// by a filled circle.
    pub open spec fn preview_text(self) -> Seq<char> {
        "\x1b[38;2;"@ + decimal_triple(self) + "m●"@
    }

    /// Reads a Mintty colour, three decimal bytes separated by commas.
    pub fn from_mintty_color(s: &str) -> (r: Result<Color, ParseError>)
        ensures
            outcome(r) == mintty_color(s@),
    {
        let chars = chars_of(s);
        assert(s@.subrange(0, s@.len() as int) == s@);
        mintty_color_in(s, &chars, 0, chars.len())
    }

    /// Reads a Gogh colour, `#` and six hexadecimal digits.
    pub fn from_gogh_color(s: &str) -> (r: Result<Color, ParseError>)
        ensures
            outcome(r) == match gogh_color(s.spec_bytes()) {
                Some(color) => Ok::<Color, ParseFailure>(color),
                None => Err::<Color, ParseFailure>(ParseFailure::ParseInt),
            },
    {
        let bytes = s.as_bytes();
        if bytes.len() < 7 {
            return Err(ParseError::ParseInt);
        }
        let red = hex_pair_at(bytes, 1);
        let green = hex_pair_at(bytes, 3);
        let blue = hex_pair_at(bytes, 5);
        match (red, green, blue) {
            (Some(red), Some(green), Some(blue)) => Ok(Color { red, green, blue }),
            _ => Err(ParseError::ParseInt),
        }
    }

    /// Writes the colour as `0xRRGGBB`, in lowercase.
    pub fn to_hex(&self) -> (r: String)
        ensures
            r@ == self.hex_text(),
    {
        let mut out = String::new();
        out.append("0x");
        push_hex_pair(&mut out, self.red);
        push_hex_pair(&mut out, self.green);
        push_hex_pair(&mut out, self.blue);
        out
    }

    /// Writes the escape sequence that sets the colour as the background.
    pub fn to_24bit_be(&self) -> (r: String)
        ensures
            r@ == self.background_escape(),
    {
        let mut out = String::new();
        out.append("\x1b[48;2;");
        push_decimal_triple(&mut out, *self);
        out.append("m");
        out
    }

    /// Writes the escape sequence that sets the colour as the foreground,
    /// followed by a filled circle.
    pub fn to_24bit_preview(&self) -> (r: String)
        ensures
            r@ == self.preview_text(),
    {
        let mut out = String::new();
        out.append("\x1b[38;2;");
        push_decimal_triple(&mut out, *self);
        out.append("m●");
        out
    }
}

/// Reads a decimal byte.
pub fn parse_int(s: &str) -> (r: Result<u8, ParseError>)
    ensures
        r == match decimal_byte(s@) {
            Some(byte) => Ok::<u8, ParseError>(byte),
            None => Err::<u8, ParseError>(ParseError::ParseInt),
        },
{
    let chars = chars_of(s);
    assert(chars@.subrange(0, chars@.len() as int) == s@);
    match byte_between(&chars, 0, chars.len(), 10) {
        Some(byte) => Ok(byte),
        None => Err(ParseError::ParseInt),
    }
}

/// Reads a hexadecimal byte.
pub fn parse_hex(s: &str) -> (r: Result<u8, ParseError>)
    ensures
        r == match hex_byte(s@) {
            Some(byte) => Ok::<u8, ParseError>(byte),
            None => Err::<u8, ParseError>(ParseError::ParseInt),
        },
{
    let chars = chars_of(s);
    assert(chars@.subrange(0, chars@.len() as int) == s@);
    match byte_between(&chars, 0, chars.len(), 16) {
        Some(byte) => Ok(byte),
        None => Err(ParseError::ParseInt),
    }
}

/// The hexadecimal byte that the two bytes at `at` and `at + 1` write.
pub fn hex_pair_at(bytes: &[u8], at: usize) -> (r: Option<u8>)
    requires
        at + 1 < bytes@.len(),
    ensures
        r == hex_byte(byte_pair(bytes@, at as int)),
{
    let mut pair: Vec<char> = Vec::new();
    pair.push(bytes[at] as char);
    pair.push(bytes[at + 1] as char);
    assert(pair@.subrange(0, 2) == byte_pair(bytes@, at as int));
    byte_between(&pair, 0, 2, 16)
}

/// Reads the Mintty colour that stands in `text` from `from` up to `to`;
/// `chars` holds the characters of `text`.
pub fn mintty_color_in(text: &str, chars: &Vec<char>, from: usize, to: usize) -> (r: Result<
    Color,
    ParseError,
>)
    requires
        chars@ == text@,
        from <= to <= chars@.len(),
    ensures
        outcome(r) == mintty_color(text@.subrange(from as int, to as int)),
{
    let ghost s = chars@.subrange(from as int, to as int);
    let first = find_char(chars, from, to, ',');
    if first == to {
        return Err(ParseError::InvalidColorFormat(text.substring_char(from, to).to_owned()));
    }
    let ghost s1 = chars@.subrange(first + 1, to as int);
    assert(s.skip(first - from + 1) == s1);
    assert(s.take(first - from) == chars@.subrange(from as int, first as int));
    let second = find_char(chars, first + 1, to, ',');
    if second == to {
        assert(split(s1, ',') == seq![s1]);
        assert(split(s, ',').len() == 2);
        return Err(ParseError::InvalidColorFormat(text.substring_char(from, to).to_owned()));
    }
    let ghost s2 = chars@.subrange(second + 1, to as int);
    assert(s1.skip(second - first) == s2);
    assert(s1.take(second - first - 1) == chars@.subrange(first + 1, second as int));
    let third = find_char(chars, second + 1, to, ',');
    if third != to {
        proof {
            lemma_split_nonempty(s2.skip(third - second), ',');
        }
        assert(split(s2, ',').len() >= 2);
        assert(split(s1, ',').len() >= 3);
        assert(split(s, ',').len() >= 4);
        return Err(ParseError::InvalidColorFormat(text.substring_char(from, to).to_owned()));
    }
    assert(split(s2, ',') == seq![s2]);
    assert(split(s1, ',') == seq![chars@.subrange(first + 1, second as int), s2]);
    assert(split(s, ',') == seq![
        chars@.subrange(from as int, first as int),
        chars@.subrange(first + 1, second as int),
        s2,
    ]);
    let red = byte_between(chars, from, first, 10);
    let green = byte_between(chars, first + 1, second, 10);
    let blue = byte_between(chars, second + 1, to, 10);
    match (red, green, blue) {
        (Some(red), Some(green), Some(blue)) => Ok(Color { red, green, blue }),
        _ => Err(ParseError::ParseInt),
    }
}

/// The text of one digit, for a digit below sixteen.
pub fn digit_text(d: u8) -> (r: &'static str)
    requires
        d < 16,
    ensures
        r@ == seq![hex_digit(d as nat)],
{
    proof {
        reveal_strlit("0");
        reveal_strlit("1");
        reveal_strlit("2");
        reveal_strlit("3");
        reveal_strlit("4");
        reveal_strlit("5");
        reveal_strlit("6");
        reveal_strlit("7");
        reveal_strlit("8");
        reveal_strlit("9");
        reveal_strlit("a");
        reveal_strlit("b");
        reveal_strlit("c");
        reveal_strlit("d");
        reveal_strlit("e");
        reveal_strlit("f");
    }
    let r = match d {
        0 => "0",
        1 => "1",
        2 => "2",
        3 => "3",
        4 => "4",
        5 => "5",
        6 => "6",
        7 => "7",
        8 => "8",
        9 => "9",
        10 => "a",
        11 => "b",
        12 => "c",
        13 => "d",
        14 => "e",
        _ => "f",
    };
    assert(r@ =~= seq![hex_digit(d as nat)]);
    r
}

/// Appends the two hexadecimal digits of `byte`.
pub fn push_hex_pair(out: &mut String, byte: u8)
    ensures
        final(out)@ == old(out)@ + hex_pair(byte),
{
    out.append(digit_text(byte / 16));
    out.append(digit_text(byte % 16));
    assert(final(out)@ =~= old(out)@ + hex_pair(byte));
}

/// Appends `byte` in decimal.
pub fn push_decimal(out: &mut String, byte: u8)
    ensures
        final(out)@ == old(out)@ + decimal_text(byte),
{
    if byte >= 100 {
        out.append(digit_text(byte / 100));
    }
    if byte >= 10 {
        out.append(digit_text(byte / 10 % 10));
    }
    out.append(digit_text(byte % 10));
    assert(final(out)@ =~= old(out)@ + decimal_text(byte));
}

/// Appends the three components of `color` in decimal, separated by `;`.
pub fn push_decimal_triple(out: &mut String, color: Color)
    ensures
        final(out)@ == old(out)@ + decimal_triple(color),
{
    push_decimal(out, color.red);
    out.append(";");
    push_decimal(out, color.green);
    out.append(";");
    push_decimal(out, color.blue);
    assert(final(out)@ =~= old(out)@ + decimal_triple(color));
}

/// The Mintty text of a colour: its three components in decimal, separated
/// by commas.
pub open spec fn mintty_text(color: Color) -> Seq<char> {
    decimal_text(color.red) + seq![','] + decimal_text(color.green) + seq![','] + decimal_text(
        color.blue,
    )
}

/// A digit below sixteen is read back from its character.
pub proof fn lemma_digit_round_trip(d: nat)
    requires
        d < 16,
    ensures
        digit_value(hex_digit(d)) == Some(d),
        hex_digit(d) != ',',
        hex_digit(d) != '+',
        '0' <= hex_digit(d) <= '9' || 'a' <= hex_digit(d) <= 'f',
{
}

/// A byte is read back from its decimal text, which holds no comma.
pub proof fn lemma_decimal_round_trip(byte: u8)
    ensures
        decimal_byte(decimal_text(byte)) == Some(byte),
        free_of(decimal_text(byte), ','),
        1 <= decimal_text(byte).len() <= 3,
{
    let text = decimal_text(byte);
    let n = byte as nat;
    lemma_digit_round_trip(n % 10);
    lemma_digit_round_trip(n / 10 % 10);
    lemma_digit_round_trip(n / 100);
    reveal_with_fuel(digits_value, 4);
    if byte < 10 {
        assert(text.drop_last() == Seq::<char>::empty());
    } else if byte < 100 {
        assert(n / 10 % 10 == n / 10);
        assert(text.drop_last() == seq![hex_digit(n / 10)]);
        assert(text.drop_last().drop_last() == Seq::<char>::empty());
    } else {
        assert(text.drop_last() == seq![hex_digit(n / 100), hex_digit(n / 10 % 10)]);
        assert(text.drop_last().drop_last() == seq![hex_digit(n / 100)]);
        assert(text.drop_last().drop_last().drop_last() == Seq::<char>::empty());
    }
    assert(digits_value(text, 10) == n);
}

/// A byte is read back from its two hexadecimal digits.
pub proof fn lemma_hex_round_trip(byte: u8)
    ensures
        hex_byte(hex_pair(byte)) == Some(byte),
{
    let text = hex_pair(byte);
    let n = byte as nat;
    lemma_digit_round_trip(n / 16);
    lemma_digit_round_trip(n % 16);
    reveal_with_fuel(digits_value, 3);
    assert(text.drop_last() == seq![hex_digit(n / 16)]);
    assert(text.drop_last().drop_last() == Seq::<char>::empty());
    assert(digits_value(text, 16) == n);
}

/// Every colour is read back from its Mintty text: for all components
/// between 0 and 255, reading `R,G,B` gives the colour with these
/// components.
pub proof fn law_mintty_round_trip(color: Color)
    ensures
        mintty_color(mintty_text(color)) == Ok::<Color, ParseFailure>(color),
{
    let red = decimal_text(color.red);
    let green = decimal_text(color.green);
    let blue = decimal_text(color.blue);
    lemma_decimal_round_trip(color.red);
    lemma_decimal_round_trip(color.green);
    lemma_decimal_round_trip(color.blue);
    lemma_split_whole(blue, ',');
    lemma_split_first(green, blue, ',');
    lemma_split_first(red, green + seq![','] + blue, ',');
    assert(mintty_text(color) == red + seq![','] + (green + seq![','] + blue));
    assert(split(mintty_text(color), ',') == seq![red, green, blue]);
}

/// The hexadecimal text of a colour is `0x` and six lowercase digits, two
/// for each component with a leading zero where needed, and each pair of
/// digits is read back as its component.
pub proof fn law_hex_text(color: Color)
    ensures
        color.hex_text() == seq!['0', 'x'] + hex_pair(color.red) + hex_pair(color.green) + hex_pair(
            color.blue,
        ),
        color.hex_text().len() == 8,
        forall|i: int|
            2 <= i < 8 ==> '0' <= #[trigger] color.hex_text()[i] <= '9' || 'a' <= color.hex_text()[i]
                <= 'f',
        hex_byte(color.hex_text().subrange(2, 4)) == Some(color.red),
        hex_byte(color.hex_text().subrange(4, 6)) == Some(color.green),
        hex_byte(color.hex_text().subrange(6, 8)) == Some(color.blue),
{
    reveal_strlit("0x");
    let text = color.hex_text();
    assert("0x"@ == seq!['0', 'x']);
    lemma_hex_round_trip(color.red);
    lemma_hex_round_trip(color.green);
    lemma_hex_round_trip(color.blue);
    assert(text.subrange(2, 4) == hex_pair(color.red));
    assert(text.subrange(4, 6) == hex_pair(color.green));
    assert(text.subrange(6, 8) == hex_pair(color.blue));
    assert forall|i: int| 2 <= i < 8 implies '0' <= #[trigger] text[i] <= '9' || 'a' <= text[i]
        <= 'f' by {
        lemma_digit_round_trip(color.red as nat / 16);
        lemma_digit_round_trip(color.red as nat % 16);
        lemma_digit_round_trip(color.green as nat / 16);
        lemma_digit_round_trip(color.green as nat % 16);
        lemma_digit_round_trip(color.blue as nat / 16);
        lemma_digit_round_trip(color.blue as nat % 16);
    }
}

/// Reading the Mintty text of a colour and writing the result in hexadecimal
/// gives `0x` and, for each component in turn, its two lowercase digits.
pub proof fn law_mintty_to_hex(color: Color)
    ensures
        mintty_color(mintty_text(color)) matches Ok(read) && read.hex_text() == seq!['0', 'x']
            + hex_pair(color.red) + hex_pair(color.green) + hex_pair(color.blue),
{
    law_mintty_round_trip(color);
    law_hex_text(color);
}

/// Reading a Mintty colour succeeds on exactly the texts of three fields
/// that are each a decimal byte: with another number of fields it fails with
/// `InvalidColorFormat`, with a field that is no decimal byte with
/// `ParseInt`.
pub proof fn law_mintty_failures(s: Seq<char>)
    ensures
        split(s, ',').len() != 3 ==> mintty_color(s) == Err::<Color, ParseFailure>(
            ParseFailure::InvalidColorFormat(s),
        ),
        split(s, ',').len() == 3 && (exists|i: int|
            0 <= i < 3 && decimal_byte(#[trigger] split(s, ',')[i]) is None) ==> mintty_color(s)
            == Err::<Color, ParseFailure>(ParseFailure::ParseInt),
        mintty_color(s) is Ok <==> split(s, ',').len() == 3 && (forall|i: int|
            0 <= i < 3 ==> decimal_byte(#[trigger] split(s, ',')[i]) is Some),
{
}

} // verus!
