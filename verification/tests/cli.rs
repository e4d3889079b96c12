use colortty::cli::{
    command_of, convert, input_format, list_line, list_lines, name_width, provider_named, show, Command,
};
use colortty::{CliError, Color, ColorScheme, ColorSchemeFormat, ErrorKind, ParseError, Provider, Slot};

fn real_byte(text: &str) -> Option<u8> {
    text.parse::<f32>().ok().map(|value| (value * 255.0) as u8)
}

fn args(words: &[&str]) -> Vec<String> {
    words.iter().map(|word| word.to_string()).collect()
}

#[test]
fn format_by_name() {
    assert_eq!(ColorSchemeFormat::from_string("iterm"), Some(ColorSchemeFormat::ITerm));
    assert_eq!(ColorSchemeFormat::from_string("mintty"), Some(ColorSchemeFormat::Mintty));
    assert_eq!(ColorSchemeFormat::from_string("gogh"), Some(ColorSchemeFormat::Gogh));
    assert_eq!(ColorSchemeFormat::from_string("Gogh"), None);
    assert_eq!(ColorSchemeFormat::from_string(""), None);
    assert_eq!(ColorSchemeFormat::from_string("iterm "), None);
}

#[test]
fn format_by_file_name() {
    assert_eq!(ColorSchemeFormat::from_filename("Dracula.itermcolors"), Some(ColorSchemeFormat::ITerm));
    assert_eq!(ColorSchemeFormat::from_filename("dir/.minttyrc"), Some(ColorSchemeFormat::Mintty));
    assert_eq!(ColorSchemeFormat::from_filename("dracula.sh"), Some(ColorSchemeFormat::Gogh));
    assert_eq!(ColorSchemeFormat::from_filename(".sh"), Some(ColorSchemeFormat::Gogh));
    assert_eq!(ColorSchemeFormat::from_filename("a.sh.itermcolors"), Some(ColorSchemeFormat::ITerm));
    assert_eq!(ColorSchemeFormat::from_filename("dracula.SH"), None);
    assert_eq!(ColorSchemeFormat::from_filename("sh"), None);
    assert_eq!(ColorSchemeFormat::from_filename("-"), None);
    assert_eq!(ColorSchemeFormat::from_filename(""), None);
}

#[test]
fn input_format_prefers_the_option() {
    assert_eq!(input_format(Some("gogh"), "x.itermcolors"), Ok(ColorSchemeFormat::Gogh));
    assert_eq!(input_format(Some("mintty"), "-"), Ok(ColorSchemeFormat::Mintty));
    assert_eq!(input_format(None, "x.itermcolors"), Ok(ColorSchemeFormat::ITerm));
    assert_eq!(input_format(Some("yaml"), "x.sh"), Ok(ColorSchemeFormat::Gogh));
    assert_eq!(input_format(None, "-"), Err(CliError::MissingInputFormat));
    assert_eq!(input_format(Some("yaml"), "theme"), Err(CliError::MissingInputFormat));
}

#[test]
fn provider_by_name() {
    assert_eq!(provider_named(None), Ok(Provider::iterm()));
    assert_eq!(provider_named(Some("iterm")), Ok(Provider::iterm()));
    assert_eq!(provider_named(Some("gogh")), Ok(Provider::gogh()));
    assert_eq!(provider_named(Some("base16")), Err(CliError::UnknownProvider("base16".to_string())));
    assert_eq!(provider_named(Some("")), Err(CliError::UnknownProvider(String::new())));
}

#[test]
fn subcommands() {
    assert_eq!(command_of(&args(&[])), Ok(Command::Help));
    assert_eq!(command_of(&args(&["colortty"])), Ok(Command::Help));
    assert_eq!(command_of(&args(&["colortty", "help"])), Ok(Command::Help));
    assert_eq!(command_of(&args(&["colortty", "convert", "x.sh"])), Ok(Command::Convert));
    assert_eq!(command_of(&args(&["colortty", "list", "-u"])), Ok(Command::List));
    assert_eq!(command_of(&args(&["colortty", "get", "Dracula"])), Ok(Command::Get));
    assert_eq!(command_of(&args(&["colortty", "show"])), Err("show".to_string()));
}

#[test]
fn the_list_is_laid_out_in_columns() {
    let names = args(&["Dracula", "Nord", "Solarized Dark"]);
    let width = name_width(&names);
    assert_eq!(width, 14);
    assert_eq!(name_width(&args(&[])), 0);
    assert_eq!(name_width(&args(&["é"])), 2);
    for name in &names {
        assert_eq!(list_line(name, "....", width), format!("{:width$} {}", name, "....", width = width));
    }
    assert_eq!(list_line("Nord", "..", 14), "Nord           ..");
    assert_eq!(list_line("Nord", "..", 0), "Nord ..");
    assert_eq!(list_line("é", "..", 2), format!("{:width$} {}", "é", "..", width = 2));
    assert_eq!(list_line("", "", 3), "    ");
}

#[test]
fn preview_line() {
    let scheme = ColorScheme::from_minttyrc("BackgroundColour=1,2,3\nForegroundColour=4,5,6\nRed=255,0,0\nBoldWhite=9,9,9")
        .unwrap();
    let dot = |r: u8, g: u8, b: u8| format!("\x1b[38;2;{};{};{}m●", r, g, b);
    let black = dot(0, 0, 0);
    let mut expected = String::from("\x1b[48;2;1;2;3m ");
    expected += &dot(4, 5, 6);
    expected += "  ";
    expected += &black;
    expected += &dot(255, 0, 0);
    expected += &black.repeat(6);
    expected += "  ";
    expected += &black.repeat(7);
    expected += &dot(9, 9, 9);
    expected += " \x1b[0m";
    assert_eq!(scheme.to_preview(), expected);
}

#[test]
fn errors_describe_themselves() {
    assert_eq!(CliError::MissingSource.message(), "source is not specified");
    assert_eq!(
        CliError::MissingInputFormat.message(),
        "input format is not specified and failed to guess"
    );
    assert_eq!(CliError::ReadStdin.message(), "failed to read from stdin");
    assert_eq!(CliError::ReadSource.message(), "failed to read source");
    assert_eq!(CliError::InvalidArgument.message(), "failed to parse arguments");
    assert_eq!(
        CliError::UnknownProvider("base16".to_string()).message(),
        "unknown color scheme provider: base16"
    );
    assert_eq!(CliError::MissingName.message(), "missing color scheme name");
    assert_eq!(ErrorKind::MissingSource.message(), "source is not specified");
    assert_eq!(
        ErrorKind::MissingInputFormat.message(),
        "input format is not specified and failed to guess"
    );
    assert_eq!(ErrorKind::ReadStdin.message(), "failed to read from stdin");
    assert_eq!(ErrorKind::ReadSource.message(), "failed to read source");
    assert_eq!(ErrorKind::InvalidArgument.message(), "failed to parse arguments");
}

#[test]
fn convert_reads_the_given_format() {
    let mintty = "Red=255,0,0";
    let gogh = "export COLOR_02=\"#ff0000\"";
    let iterm = "<plist><dict><key>Ansi 1 Color</key><dict><key>Red Component</key>\
                 <real>1</real></dict></dict></plist>";
    let mut scheme = ColorScheme::default();
    scheme.set(Slot::Red, Color { red: 255, green: 0, blue: 0 });
    let expected = scheme.to_toml();
    assert!(expected.contains("red =     '0xff0000'"));
    assert_eq!(convert(ColorSchemeFormat::Mintty, mintty, real_byte), Ok(expected.clone()));
    assert_eq!(convert(ColorSchemeFormat::Gogh, gogh, real_byte), Ok(expected.clone()));
    assert_eq!(convert(ColorSchemeFormat::ITerm, iterm, real_byte), Ok(expected));
    assert_eq!(convert(ColorSchemeFormat::ITerm, mintty, real_byte), Err(ParseError::XMLParse));
    assert_eq!(
        convert(ColorSchemeFormat::Mintty, gogh, real_byte),
        Err(ParseError::InvalidColorFormat("\"#ff0000\"".to_string()))
    );
    assert_eq!(
        convert(ColorSchemeFormat::Gogh, mintty, real_byte),
        Ok(ColorScheme::default().to_toml())
    );
}

#[test]
fn list_gives_one_line_for_each_scheme() {
    let first = ColorScheme::from_minttyrc("Red=255,0,0").unwrap();
    let second = ColorScheme::default();
    let schemes = vec![("Nord".to_string(), first), ("Solarized Dark".to_string(), second)];
    assert_eq!(
        list_lines(&schemes),
        vec![
            format!("Nord           {}", first.to_preview()),
            format!("Solarized Dark {}", second.to_preview()),
        ]
    );
    assert_eq!(list_lines(&vec![]), Vec::<String>::new());
}

#[test]
fn get_shows_the_name_and_the_tables() {
    let scheme = ColorScheme::from_minttyrc("Red=255,0,0").unwrap();
    assert_eq!(show("Dracula", &scheme), format!("# Dracula\n{}", scheme.to_toml()));
}
