use colortty::color::{parse_hex, parse_int};
use colortty::{Color, ParseError};

#[test]
fn from_mintty_color_works() {
    assert_eq!(
        Color::from_mintty_color("12,3,255").unwrap(),
        Color {
            red: 12,
            green: 3,
            blue: 255
        }
    );
}

#[test]
fn from_mintty_color_invalid_format() {
    assert!(Color::from_mintty_color("123").is_err());
}

#[test]
fn from_mintty_color_parse_int_error() {
    assert!(Color::from_mintty_color("abc,3,fo").is_err());
}

#[test]
fn to_hex() {
    assert_eq!(
        Color {
            red: 123,
            green: 4,
            blue: 255
        }
        .to_hex(),
        "0x7b04ff"
    );
}

#[test]
fn to_hex_pads_with_zeros_in_lowercase() {
    assert_eq!(Color { red: 12, green: 3, blue: 255 }.to_hex(), "0x0c03ff");
    assert_eq!(Color { red: 0, green: 0, blue: 0 }.to_hex(), "0x000000");
    assert_eq!(Color { red: 171, green: 205, blue: 239 }.to_hex(), "0xabcdef");
}

#[test]
fn mintty_text_round_trips_to_hex() {
    for red in [0u8, 1, 9, 10, 15, 16, 99, 100, 127, 128, 200, 254, 255] {
        for green in [0u8, 7, 42, 100, 255] {
            for blue in [0u8, 5, 64, 199, 255] {
                let text = format!("{},{},{}", red, green, blue);
                let color = Color::from_mintty_color(&text).unwrap();
                assert_eq!(color, Color { red, green, blue });
                assert_eq!(color.to_hex(), format!("0x{:02x}{:02x}{:02x}", red, green, blue));
            }
        }
    }
}

#[test]
fn from_mintty_color_names_the_failure() {
    assert_eq!(
        Color::from_mintty_color("123"),
        Err(ParseError::InvalidColorFormat("123".to_string()))
    );
    assert_eq!(
        Color::from_mintty_color("1,2,3,4"),
        Err(ParseError::InvalidColorFormat("1,2,3,4".to_string()))
    );
    assert_eq!(Color::from_mintty_color(""), Err(ParseError::InvalidColorFormat(String::new())));
    assert_eq!(Color::from_mintty_color("abc,3,fo"), Err(ParseError::ParseInt));
    assert_eq!(Color::from_mintty_color("1,2,256"), Err(ParseError::ParseInt));
    assert_eq!(Color::from_mintty_color("1,,3"), Err(ParseError::ParseInt));
    assert_eq!(Color::from_mintty_color("1, 2,3"), Err(ParseError::ParseInt));
    assert_eq!(Color::from_mintty_color("-1,2,3"), Err(ParseError::ParseInt));
    assert_eq!(Color::from_mintty_color(",,"), Err(ParseError::ParseInt));
}

#[test]
fn from_mintty_color_takes_a_sign_and_leading_zeros() {
    assert_eq!(
        Color::from_mintty_color("+7,007,0255"),
        Ok(Color { red: 7, green: 7, blue: 255 })
    );
}

#[test]
fn parse_int_agrees_with_the_standard_library() {
    let mut texts: Vec<String> = Vec::new();
    for n in 0..=300u32 {
        texts.push(n.to_string());
        texts.push(format!("+{}", n));
        texts.push(format!("0{}", n));
        texts.push(format!("-{}", n));
        texts.push(format!("{} ", n));
    }
    for odd in ["", "+", "-", "++1", "1_0", "a", "0x10", "١", "12a", " 12", "4294967297", "00000000000000000001"] {
        texts.push(odd.to_string());
    }
    for text in texts {
        assert_eq!(parse_int(&text).ok(), text.parse::<u8>().ok(), "{:?}", text);
    }
}

#[test]
fn parse_hex_agrees_with_the_standard_library() {
    let mut texts: Vec<String> = Vec::new();
    for n in 0..=300u32 {
        texts.push(format!("{:x}", n));
        texts.push(format!("{:X}", n));
        texts.push(format!("{:02x}", n));
        texts.push(format!("+{:x}", n));
    }
    for odd in ["", "+", "-f", "g", "fg", "0xff", "f f", "+f", "ｆ"] {
        texts.push(odd.to_string());
    }
    for text in texts {
        assert_eq!(parse_hex(&text).ok(), u8::from_str_radix(&text, 16).ok(), "{:?}", text);
    }
    assert_eq!(parse_hex("zz"), Err(ParseError::ParseInt));
    assert_eq!(parse_int("256"), Err(ParseError::ParseInt));
}

#[test]
fn from_gogh_color_reads_three_pairs() {
    assert_eq!(Color::from_gogh_color("#ff00aa"), Ok(Color { red: 255, green: 0, blue: 170 }));
    assert_eq!(Color::from_gogh_color("#FF00Aa"), Ok(Color { red: 255, green: 0, blue: 170 }));
    assert_eq!(Color::from_gogh_color("#0c03ff"), Ok(Color { red: 12, green: 3, blue: 255 }));
}

#[test]
fn from_gogh_color_looks_at_seven_bytes_only() {
    assert_eq!(Color::from_gogh_color("#102030ff"), Ok(Color { red: 16, green: 32, blue: 48 }));
    assert_eq!(Color::from_gogh_color("x102030"), Ok(Color { red: 16, green: 32, blue: 48 }));
}

#[test]
fn from_gogh_color_fails_cleanly() {
    assert_eq!(Color::from_gogh_color(""), Err(ParseError::ParseInt));
    assert_eq!(Color::from_gogh_color("#"), Err(ParseError::ParseInt));
    assert_eq!(Color::from_gogh_color("#ff00a"), Err(ParseError::ParseInt));
    assert_eq!(Color::from_gogh_color("#gg0000"), Err(ParseError::ParseInt));
    assert_eq!(Color::from_gogh_color("#00 000"), Err(ParseError::ParseInt));
    assert_eq!(Color::from_gogh_color("#ééé"), Err(ParseError::ParseInt));
    assert_eq!(Color::from_gogh_color("é112233"), Err(ParseError::ParseInt));
    assert_eq!(Color::from_gogh_color("#é1122"), Err(ParseError::ParseInt));
}

#[test]
fn escape_sequences_hold_decimal_components() {
    let color = Color { red: 7, green: 42, blue: 255 };
    assert_eq!(color.to_24bit_be(), "\x1b[48;2;7;42;255m");
    assert_eq!(color.to_24bit_preview(), "\x1b[38;2;7;42;255m●");
    let black = Color::default();
    assert_eq!(black, Color { red: 0, green: 0, blue: 0 });
    assert_eq!(black.to_24bit_be(), "\x1b[48;2;0;0;0m");
    assert_eq!(Color { red: 100, green: 10, blue: 109 }.to_24bit_preview(), "\x1b[38;2;100;10;109m●");
}

#[test]
fn every_byte_is_written_as_the_standard_library_writes_it() {
    for n in 0..=255u8 {
        let color = Color { red: n, green: 255 - n, blue: n / 2 };
        assert_eq!(color.to_hex(), format!("0x{:02x}{:02x}{:02x}", n, 255 - n, n / 2));
        assert_eq!(color.to_24bit_be(), format!("\x1b[48;2;{};{};{}m", n, 255 - n, n / 2));
    }
}

#[test]
fn parse_errors_describe_themselves() {
    assert_eq!(ParseError::ParseInt.message(), "failed to parse int");
    assert_eq!(ParseError::ParseFloat.message(), "failed to parse float");
    assert_eq!(
        ParseError::InvalidColorFormat("1;2".to_string()).message(),
        "invalid color representation: 1;2"
    );
    assert_eq!(ParseError::InvalidLineFormat("Red".to_string()).message(), "invalid line: Red");
    assert_eq!(ParseError::UnknownColorName("Pink".to_string()).message(), "unknown color name: Pink");
    assert_eq!(ParseError::XMLParse.message(), "invalid XML");
    assert_eq!(ParseError::NoRootDict.message(), "root dict was not found");
    assert_eq!(
        ParseError::NotCharacterNode("key".to_string()).message(),
        "cannot extract text from: key"
    );
    assert_eq!(
        ParseError::UnknownColorComponent("Hue".to_string()).message(),
        "unknown color component: Hue"
    );
}
