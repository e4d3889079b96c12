use colortty::text::{chars_of, line_ranges};
use colortty::{Color, ColorScheme, ParseError, Slot};

const DRACULA_MINTTYRC: &str = "ForegroundColour=248,248,242
BackgroundColour=40,42,54
Black=0,0,0
BoldBlack=40,42,53
Red=255,85,85
BoldRed=255,110,103
Green=80,250,123
BoldGreen=90,247,142
Yellow=241,250,140
BoldYellow=244,249,157
Blue=202,169,250
BoldBlue=202,169,250
Magenta=255,121,198
BoldMagenta=255,146,208
Cyan=139,233,253
BoldCyan=154,237,254
White=191,191,191
BoldWhite=230,230,230
";

#[test]
fn convert_minttyrc() {
    let dracula_alacritty: String = "
# Default colors
[colors.primary]
background = '0x282a36'
foreground = '0xf8f8f2'

# Normal colors
[colors.normal]
black =   '0x000000'
red =     '0xff5555'
green =   '0x50fa7b'
yellow =  '0xf1fa8c'
blue =    '0xcaa9fa'
magenta = '0xff79c6'
cyan =    '0x8be9fd'
white =   '0xbfbfbf'

# Bright colors
[colors.bright]
black =   '0x282a35'
red =     '0xff6e67'
green =   '0x5af78e'
yellow =  '0xf4f99d'
blue =    '0xcaa9fa'
magenta = '0xff92d0'
cyan =    '0x9aedfe'
white =   '0xe6e6e6'
"
    .to_string();
    let scheme = ColorScheme::from_minttyrc(DRACULA_MINTTYRC).unwrap();
    assert_eq!(scheme.to_toml(), dracula_alacritty);
}

#[test]
fn minttyrc_order_of_lines_does_not_matter() {
    let mut reversed: Vec<&str> = DRACULA_MINTTYRC.lines().collect();
    reversed.reverse();
    let text = reversed.join("\n");
    assert_eq!(
        ColorScheme::from_minttyrc(&text).unwrap(),
        ColorScheme::from_minttyrc(DRACULA_MINTTYRC).unwrap()
    );
}

#[test]
fn minttyrc_later_line_wins() {
    let scheme = ColorScheme::from_minttyrc("Red=1,2,3\nBlue=4,5,6\nRed=7,8,9").unwrap();
    assert_eq!(scheme.red, Color { red: 7, green: 8, blue: 9 });
    assert_eq!(scheme.blue, Color { red: 4, green: 5, blue: 6 });
    assert_eq!(scheme.get(Slot::Green), Some(Color::default()));
    assert_eq!(scheme.get(Slot::Cursor), None);
    assert_eq!(scheme.get(Slot::CursorText), None);
}

#[test]
fn minttyrc_empty_text_is_the_blank_scheme() {
    assert_eq!(ColorScheme::from_minttyrc("").unwrap(), ColorScheme::default());
}

#[test]
fn minttyrc_passes_over_empty_lines_and_line_endings() {
    let scheme = ColorScheme::from_minttyrc("\nRed=1,2,3\r\n\r\n\nCyan=9,9,9").unwrap();
    assert_eq!(scheme.red, Color { red: 1, green: 2, blue: 3 });
    assert_eq!(scheme.cyan, Color { red: 9, green: 9, blue: 9 });
}

#[test]
fn minttyrc_invalid_line() {
    assert_eq!(
        ColorScheme::from_minttyrc("Red=1,2,3\nGreen 4,5,6\n"),
        Err(ParseError::InvalidLineFormat("Green 4,5,6".to_string()))
    );
    assert_eq!(
        ColorScheme::from_minttyrc("no equals sign"),
        Err(ParseError::InvalidLineFormat("no equals sign".to_string()))
    );
    assert_eq!(
        ColorScheme::from_minttyrc(" "),
        Err(ParseError::InvalidLineFormat(" ".to_string()))
    );
}

#[test]
fn minttyrc_line_is_split_at_the_first_equals_sign() {
    assert_eq!(ColorScheme::from_minttyrc("Red=1,2,3=4"), Err(ParseError::ParseInt));
    assert_eq!(
        ColorScheme::from_minttyrc("Red==1,2,3"),
        Err(ParseError::ParseInt)
    );
    assert_eq!(
        ColorScheme::from_minttyrc("Red=1,2=3"),
        Err(ParseError::InvalidColorFormat("1,2=3".to_string()))
    );
    assert_eq!(ColorScheme::from_minttyrc("Pink=Red=1,2,3"), Err(ParseError::ParseInt));
    assert_eq!(
        ColorScheme::from_minttyrc("Pink=Red=1"),
        Err(ParseError::InvalidColorFormat("Red=1".to_string()))
    );
}

#[test]
fn minttyrc_unknown_name() {
    assert_eq!(
        ColorScheme::from_minttyrc("Pink=1,2,3"),
        Err(ParseError::UnknownColorName("Pink".to_string()))
    );
    assert_eq!(
        ColorScheme::from_minttyrc("red=1,2,3"),
        Err(ParseError::UnknownColorName("red".to_string()))
    );
    assert_eq!(
        ColorScheme::from_minttyrc("=1,2,3"),
        Err(ParseError::UnknownColorName(String::new()))
    );
}

#[test]
fn minttyrc_colour_is_read_before_the_name() {
    assert_eq!(
        ColorScheme::from_minttyrc("Pink=1,2"),
        Err(ParseError::InvalidColorFormat("1,2".to_string()))
    );
    assert_eq!(ColorScheme::from_minttyrc("Pink=1,2,x"), Err(ParseError::ParseInt));
    assert_eq!(
        ColorScheme::from_minttyrc("Red="),
        Err(ParseError::InvalidColorFormat(String::new()))
    );
}

#[test]
fn minttyrc_first_failing_line_decides() {
    assert_eq!(
        ColorScheme::from_minttyrc("Red=1,2,3\nBlue=x,0,0\nnonsense\n"),
        Err(ParseError::ParseInt)
    );
}

#[test]
fn lines_are_those_of_the_standard_library() {
    for text in [
        "",
        "\n",
        "a",
        "a\n",
        "a\nb",
        "a\r\nb\r\n",
        "a\r",
        "a\r\r\n",
        "\r\n",
        "\n\n",
        "a\n\nb\n",
        "\ra\n",
        "é=1\nü\r\n",
    ] {
        let chars = chars_of(text);
        let ranges = line_ranges(&chars);
        let ours: Vec<String> =
            ranges.iter().map(|(from, to)| chars[*from..*to].iter().collect()).collect();
        let theirs: Vec<String> = text.lines().map(|line| line.to_string()).collect();
        assert_eq!(ours, theirs, "{:?}", text);
    }
}
