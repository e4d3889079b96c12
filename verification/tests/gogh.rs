use colortty::{Color, ColorScheme, ParseError, Slot};

const DRACULA_GOGH: &str = "#!/usr/bin/env bash

export PROFILE_NAME=\"Dracula\"

export COLOR_01=\"#44475a\"           # Black (Host)
export COLOR_02=\"#ff5555\"           # Red (Syntax string)
export COLOR_03=\"#50fa7b\"           # Green (Command)
export COLOR_04=\"#ffb86c\"           # Yellow (Command second)
export COLOR_05=\"#8be9fd\"           # Blue (Path)
export COLOR_06=\"#bd93f9\"           # Magenta (Syntax var)
export COLOR_07=\"#ff79c6\"           # Cyan (Prompt)
export COLOR_08=\"$COLOR_01\"         # White

export COLOR_09=\"#000\"              # Bright Black
export COLOR_10=\"#ff5555\"           # Bright Red (Command error)
export COLOR_11=\"#50fa7b\"           # Bright Green (Exec)
export COLOR_12=\"#ffb86c\"           # Bright Yellow
export COLOR_13=\"#8be9fd\"           # Bright Blue (Folder)
export COLOR_14=\"#bd93f9\"           # Bright Magenta
export COLOR_15=\"#ff79c6\"           # Bright Cyan
export COLOR_16=\"#ffffff\"           # Bright White

export BACKGROUND_COLOR=\"#282a36\"   # Background
export FOREGROUND_COLOR=\"$COLOR_08\" # Foreground (Text)
export CURSOR_COLOR=\"#94a3a5\"       # Cursor

apply_theme() {
    export COLOR_17=\"#123456\"
}
";

#[test]
fn convert_gogh() {
    let dracula_alacritty: String = "
# Default colors
[colors.primary]
background = '0x282a36'
foreground = '0x000000'

# Normal colors
[colors.normal]
black =   '0x44475a'
red =     '0xff5555'
green =   '0x50fa7b'
yellow =  '0xffb86c'
blue =    '0x8be9fd'
magenta = '0xbd93f9'
cyan =    '0xff79c6'
white =   '0x000000'

# Bright colors
[colors.bright]
black =   '0x000000'
red =     '0xff5555'
green =   '0x50fa7b'
yellow =  '0xffb86c'
blue =    '0x8be9fd'
magenta = '0xbd93f9'
cyan =    '0xff79c6'
white =   '0xffffff'
"
    .to_string();
    let scheme = ColorScheme::from_gogh(DRACULA_GOGH).unwrap();
    assert_eq!(scheme.to_toml(), dracula_alacritty);
}

#[test]
fn gogh_never_gives_cursor_slots() {
    let scheme = ColorScheme::from_gogh(DRACULA_GOGH).unwrap();
    assert_eq!(scheme.get(Slot::Cursor), None);
    assert_eq!(scheme.get(Slot::CursorText), None);
}

#[test]
fn gogh_finds_the_export_anywhere_in_the_line() {
    let scheme = ColorScheme::from_gogh("  if x; then export COLOR_02=\"#AbCdEf\"; fi").unwrap();
    assert_eq!(scheme.red, Color { red: 171, green: 205, blue: 239 });
}

#[test]
fn gogh_takes_the_first_export_of_a_line() {
    let scheme =
        ColorScheme::from_gogh("export COLOR_02=\"#010203\" export COLOR_03=\"#040506\"").unwrap();
    assert_eq!(scheme.red, Color { red: 1, green: 2, blue: 3 });
    assert_eq!(scheme.green, Color::default());
}

#[test]
fn gogh_passes_over_what_is_no_export() {
    for text in [
        "",
        "COLOR_01=\"#ffffff\"",
        "export color_01=\"#ffffff\"",
        "export COLOR_01='#ffffff'",
        "export COLOR_01=\"#fffff\"",
        "export COLOR_01=\"ffffff\"",
        "export COLOR_01=\"#gggggg\"",
        "export COLOR_01 = \"#ffffff\"",
        "export COLOR_01=\"#fffffff\"",
        "export COLOR_17=\"#ffffff\"",
        "export COLOR_1=\"#ffffff\"",
    ] {
        assert_eq!(ColorScheme::from_gogh(text), Ok(ColorScheme::default()), "{:?}", text);
    }
}

#[test]
fn gogh_later_line_wins() {
    let scheme = ColorScheme::from_gogh(
        "export COLOR_01=\"#010101\"\r\nexport COLOR_16=\"#161616\"\r\nexport COLOR_01=\"#111111\"",
    )
    .unwrap();
    assert_eq!(scheme.black, Color { red: 17, green: 17, blue: 17 });
    assert_eq!(scheme.bright_white, Color { red: 22, green: 22, blue: 22 });
}

#[test]
fn gogh_export_by_hand() {
    let blank = ColorScheme::default();
    let scheme = blank.with_gogh_export("FOREGROUND_COLOR", "#0a0b0c").unwrap();
    assert_eq!(scheme.foreground, Color { red: 10, green: 11, blue: 12 });
    assert_eq!(blank.with_gogh_export("SOMETHING_ELSE", "#0a0b0c"), Ok(blank));
    assert_eq!(blank.with_gogh_export("COLOR_01", "#0a0b"), Err(ParseError::ParseInt));
    assert_eq!(blank.with_gogh_export("SOMETHING_ELSE", "#nothex"), Err(ParseError::ParseInt));
}

#[test]
fn gogh_match_by_hand() {
    let blank = ColorScheme::default();
    assert_eq!(blank.with_gogh_match(&None), blank);
    assert_eq!(blank.with_gogh_match(&Some(vec![Some("x".to_string())])), blank);
    assert_eq!(
        blank.with_gogh_match(&Some(vec![Some("x".to_string()), None, Some("#010203".to_string())])),
        blank
    );
    let found = Some(vec![
        Some("export COLOR_05=\"#010203\"".to_string()),
        Some("COLOR_05".to_string()),
        Some("#010203".to_string()),
    ]);
    let scheme = blank.with_gogh_match(&found);
    assert_eq!(scheme.blue, Color { red: 1, green: 2, blue: 3 });
    let unreadable = Some(vec![
        Some("x".to_string()),
        Some("COLOR_05".to_string()),
        Some("#01".to_string()),
    ]);
    assert_eq!(scheme.with_gogh_match(&unreadable), scheme);
}

#[test]
fn gogh_gives_a_scheme_for_every_text() {
    for text in [
        "",
        "\n\n",
        "export",
        "export COLOR_01=\"#",
        "export COLOR_01=\"#é00000\"",
        "export COLOR_01=\"#0000000000\"",
        "\u{0}\u{1}export =\"#000000\"",
        "<plist><dict/></plist>",
        "Red=1,2,3",
    ] {
        assert!(ColorScheme::from_gogh(text).is_ok(), "{:?}", text);
    }
}
