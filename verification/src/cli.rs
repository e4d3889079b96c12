//! The rules of the command line: which subcommand is meant, which input
//! format and which catalog are chosen, and how the list of schemes is laid
//! out.

use vstd::prelude::*;
use vstd::string::*;
use vstd::utf8::encode_utf8;
use crate::error::{ParseError, ParseFailure};
use crate::format::ColorSchemeFormat;
use crate::gogh::gogh_scheme;
use crate::iterm::{RealModel, computes, scheme_of_document};
use crate::markup::readable_document;
use crate::mintty::minttyrc_scheme;
use crate::provider::{Provider, texts};
use crate::scheme::ColorScheme;
use crate::text::{chars_of, spells};

verus! {

/// Why a command could not be carried out.
#[derive(Debug, Clone, PartialEq, Eq)]
pub enum CliError {
    /// No source was given to `convert`.
    MissingSource,
    /// No input format was given, and the file name tells none.
    MissingInputFormat,
    /// The standard input could not be read.
    ReadStdin,
    /// The source could not be read.
    ReadSource,
    /// The arguments could not be parsed.
    InvalidArgument,
    /// The provider's name is none of the known ones; holds the name.
    UnknownProvider(String),
    /// No scheme name was given to `get`.
    MissingName,
}

/// The mathematical counterpart of a [`CliError`].
pub ghost enum CliFailure {
    MissingSource,
    MissingInputFormat,
    ReadStdin,
    ReadSource,
    InvalidArgument,
    UnknownProvider(Seq<char>),
    MissingName,
}

impl View for CliError {
    type V = CliFailure;

    open spec fn view(&self) -> CliFailure {
        match self {
            CliError::MissingSource => CliFailure::MissingSource,
            CliError::MissingInputFormat => CliFailure::MissingInputFormat,
            CliError::ReadStdin => CliFailure::ReadStdin,
            CliError::ReadSource => CliFailure::ReadSource,
            CliError::InvalidArgument => CliFailure::InvalidArgument,
            CliError::UnknownProvider(name) => CliFailure::UnknownProvider(name@),
            CliError::MissingName => CliFailure::MissingName,
        }
    }
}

impl CliFailure {
    /// The sentence that describes the failure.
    pub open spec fn message(self) -> Seq<char> {
        match self {
            CliFailure::MissingSource => "source is not specified"@,
            CliFailure::MissingInputFormat => "input format is not specified and failed to guess"@,
            CliFailure::ReadStdin => "failed to read from stdin"@,
            CliFailure::ReadSource => "failed to read source"@,
            CliFailure::InvalidArgument => "failed to parse arguments"@,
            CliFailure::UnknownProvider(name) => "unknown color scheme provider: "@ + name,
            CliFailure::MissingName => "missing color scheme name"@,
        }
    }
}

impl CliError {
    /// The sentence that describes the error.
    pub fn message(&self) -> (r: String)
        ensures
            r@ == self@.message(),
    {
        match self {
            CliError::MissingSource => "source is not specified".to_owned(),
            CliError::MissingInputFormat => "input format is not specified and failed to guess".to_owned(),
            CliError::ReadStdin => "failed to read from stdin".to_owned(),
            CliError::ReadSource => "failed to read source".to_owned(),
            CliError::InvalidArgument => "failed to parse arguments".to_owned(),
            CliError::UnknownProvider(name) => "unknown color scheme provider: ".to_owned().concat(
                name.as_str(),
            ),
            CliError::MissingName => "missing color scheme name".to_owned(),
        }
    }
}

/// A subcommand.
#[derive(Debug, Clone, Copy, PartialEq, Eq, Structural)]
pub enum Command {
    Convert,
    List,
    Get,
    Help,
}

/// The subcommand that the word `word` names.
pub open spec fn command_named(word: Seq<char>) -> Option<Command> {
    if word == "convert"@ {
        Some(Command::Convert)
    } else if word == "list"@ {
        Some(Command::List)
    } else if word == "get"@ {
        Some(Command::Get)
    } else if word == "help"@ {
        Some(Command::Help)
    } else {
        None
    }
}

/// The input format of a conversion: the one that `explicit` names, if it
/// names one; else the one that the ending of `source` tells.
pub open spec fn chosen_format(explicit: Option<Seq<char>>, source: Seq<char>) -> Option<
    ColorSchemeFormat,
> {
    let named = match explicit {
        Some(word) => ColorSchemeFormat::named(word),
        None => None,
    };
    match named {
        Some(format) => Some(format),
        None => ColorSchemeFormat::of_filename(source),
    }
}

/// The name of the catalog that is meant: `iterm` where none is given.
pub open spec fn chosen_provider(name: Option<Seq<char>>) -> Seq<char> {
    match name {
        Some(word) => word,
        None => "iterm"@,
    }
}

/// `name` filled up with spaces on the right to `width` characters; a name
/// that is longer stays as it is.
pub open spec fn padded(name: Seq<char>, width: nat) -> Seq<char> {
    if name.len() >= width {
        name
    } else {
        name + Seq::new((width - name.len()) as nat, |i: int| ' ')
    }
}

/// One line of the list of schemes: the padded name, a space, the preview.
pub open spec fn list_text(name: Seq<char>, preview: Seq<char>, width: nat) -> Seq<char> {
    padded(name, width) + " "@ + preview
}

/// The length of `name` in bytes, as UTF-8.
pub open spec fn byte_length(name: Seq<char>) -> nat {
    encode_utf8(name).len()
}

/// The largest length in bytes among `names`, or zero where there are none.
pub open spec fn widest(names: Seq<Seq<char>>) -> nat
    decreases names.len(),
{
    if names.len() == 0 {
        0
    } else {
        let before = widest(names.drop_last());
        if byte_length(names.last()) > before {
            byte_length(names.last())
        } else {
            before
        }
    }
}

/// The width of a list is the length of one of its names, and no name is
/// longer.
pub proof fn law_widest_is_largest(names: Seq<Seq<char>>)
    ensures
        forall|i: int| 0 <= i < names.len() ==> byte_length(#[trigger] names[i]) <= widest(names),
        names.len() > 0 ==> exists|i: int| 0 <= i < names.len() && byte_length(#[trigger] names[i]) == widest(names),
    decreases names.len(),
{
    if names.len() > 0 {
        let front = names.drop_last();
        law_widest_is_largest(front);
        assert forall|i: int| 0 <= i < names.len() implies byte_length(#[trigger] names[i]) <= widest(
            names,
        ) by {
            if i < front.len() {
                assert(front[i] == names[i]);
            }
        }
        if byte_length(names.last()) > widest(front) || front.len() == 0 {
            assert(byte_length(names[names.len() - 1]) == widest(names));
        } else {
            let j = choose|j: int| 0 <= j < front.len() && byte_length(#[trigger] front[j]) == widest(front);
            assert(front[j] == names[j]);
            assert(byte_length(names[j]) == widest(names));
        }
    }
}

/// The names of the listed schemes.
pub open spec fn listed(color_schemes: Seq<(String, ColorScheme)>) -> Seq<Seq<char>> {
    Seq::new(color_schemes.len(), |i: int| color_schemes[i].0@)
}

/// The subcommand that the arguments ask for, the program's own name first.
/// Where no subcommand is given, help is meant; a word that names no
/// subcommand is handed back.
pub fn command_of(args: &Vec<String>) -> (r: Result<Command, String>)
    ensures
        args@.len() < 2 ==> r == Ok::<Command, String>(Command::Help),
        args@.len() >= 2 ==> match r {
            Ok(command) => command_named(args@[1]@) == Some(command),
            Err(word) => command_named(args@[1]@) is None && word@ == args@[1]@,
        },
{
    if args.len() < 2 {
        return Ok(Command::Help);
    }
    let letters = chars_of(args[1].as_str());
    if spells(&letters, "convert") {
        Ok(Command::Convert)
    } else if spells(&letters, "list") {
        Ok(Command::List)
    } else if spells(&letters, "get") {
        Ok(Command::Get)
    } else if spells(&letters, "help") {
        Ok(Command::Help)
    } else {
        Err(args[1].clone())
    }
}

/// The input format of a conversion, or `MissingInputFormat` where neither
/// the option nor the file name tells one.
pub fn input_format(explicit: Option<&str>, source: &str) -> (r: Result<ColorSchemeFormat, CliError>)
    ensures
        r == match chosen_format(
            match explicit {
                Some(word) => Some(word@),
                None => None,
            },
            source@,
        ) {
            Some(format) => Ok::<ColorSchemeFormat, CliError>(format),
            None => Err::<ColorSchemeFormat, CliError>(CliError::MissingInputFormat),
        },
{
    let named = match explicit {
        Some(word) => ColorSchemeFormat::from_string(word),
        None => None,
    };
    let found = match named {
        Some(format) => Some(format),
        None => ColorSchemeFormat::from_filename(source),
    };
    match found {
        Some(format) => Ok(format),
        None => Err(CliError::MissingInputFormat),
    }
}

/// The catalog that is meant: `iterm`, which is also the default, or `gogh`;
/// any other name is an `UnknownProvider` failure that holds the name.
pub fn provider_named(name: Option<&str>) -> (r: Result<Provider, CliError>)
    ensures
        ({
            let word = chosen_provider(
                match name {
                    Some(word) => Some(word@),
                    None => None,
                },
            );
            match r {
                Ok(provider) => if word == "iterm"@ {
                    provider.is_iterm_catalog()
                } else {
                    word == "gogh"@ && provider.is_gogh_catalog()
                },
                Err(e) => word != "iterm"@ && word != "gogh"@ && e@ == CliFailure::UnknownProvider(word),
            }
        }),
{
    let word = match name {
        Some(word) => word,
        None => "iterm",
    };
    let letters = chars_of(word);
    if spells(&letters, "iterm") {
        Ok(Provider::iterm())
    } else if spells(&letters, "gogh") {
        Ok(Provider::gogh())
    } else {
        Err(CliError::UnknownProvider(word.to_owned()))
    }
}

/// The width of the name column of a list: the largest length in bytes
/// among the names.
pub fn name_width(names: &Vec<String>) -> (r: usize)
    ensures
        r == widest(texts(names@)),
{
    let mut width: usize = 0;
    let mut i: usize = 0;
    assert(texts(names@).take(0) =~= Seq::<Seq<char>>::empty());
    while i < names.len()
        invariant
            i <= names@.len(),
            width == widest(texts(names@).take(i as int)),
        decreases names@.len() - i,
    {
        let len = names[i].as_str().as_bytes().len();
        assert(texts(names@).take(i + 1).drop_last() == texts(names@).take(i as int));
        assert(texts(names@).take(i + 1).last() == names@[i as int]@);
        if len > width {
            width = len;
        }
        i += 1;
    }
    assert(texts(names@).take(i as int) == texts(names@));
    width
}

/// One line of the list of schemes.
pub fn list_line(name: &str, preview: &str, width: usize) -> (r: String)
    ensures
        r@ == list_text(name@, preview@, width as nat),
{
    let mut out = name.to_owned();
    let len = name.unicode_len();
    let mut filled: usize = len;
    proof {
        reveal_strlit(" ");
    }
    assert(out@ =~= name@ + Seq::new(0, |i: int| ' '));
    while filled < width
        invariant
            name@.len() == len <= filled,
            filled <= width || filled == len,
            out@ == name@ + Seq::new((filled - len) as nat, |i: int| ' '),
            " "@ == seq![' '],
        decreases width - filled,
    {
        out.append(" ");
        filled += 1;
        assert(out@ =~= name@ + Seq::new((filled - len) as nat, |i: int| ' '));
    }
    assert(out@ =~= padded(name@, width as nat));
    out.append(" ");
    out.append(preview);
    out
}

/// What a conversion prints for a scheme that was read, or the failure of
/// the reading.
pub open spec fn converted(read: Result<ColorScheme, ParseFailure>) -> Result<Seq<char>, ParseFailure> {
    match read {
        Ok(scheme) => Ok(scheme.toml_text()),
        Err(e) => Err(e),
    }
}

/// The view of what a conversion returns.
pub open spec fn conversion_view(r: Result<String, ParseError>) -> Result<Seq<char>, ParseFailure> {
    match r {
        Ok(text) => Ok(text@),
        Err(e) => Err(e@),
    }
}

/// What `get` prints for the scheme `name`: the name as a comment, then the
/// colour tables.
pub open spec fn shown(name: Seq<char>, scheme: ColorScheme) -> Seq<char> {
    "# "@ + name + "\n"@ + scheme.toml_text()
}

/// Converts the text `content` of a colour scheme in the given format into
/// the colour tables of an Alacritty configuration. Only the iTerm format
/// has real numbers, and only for it is `to_byte` called.
pub fn convert<F: Fn(&str) -> Option<u8>>(format: ColorSchemeFormat, content: &str, to_byte: F) -> (r:
    Result<String, ParseError>)
    requires
        forall|text: &str| #[trigger] to_byte.requires((text,)),
    ensures
        format == ColorSchemeFormat::Mintty ==> conversion_view(r) == converted(minttyrc_scheme(content@)),
        format == ColorSchemeFormat::Gogh ==> conversion_view(r) == converted(
            Ok(gogh_scheme(content@)),
        ),
        format == ColorSchemeFormat::ITerm && readable_document(content@) is None ==> conversion_view(r)
            == Err::<Seq<char>, ParseFailure>(ParseFailure::XMLParse),
        forall|model: RealModel| #[trigger]
            computes(&to_byte, model) && format == ColorSchemeFormat::ITerm ==> conversion_view(r)
                == converted(scheme_of_document(readable_document(content@), model)),
{
    let read = match format {
        ColorSchemeFormat::ITerm => ColorScheme::from_iterm(content, to_byte),
        ColorSchemeFormat::Mintty => ColorScheme::from_minttyrc(content),
        ColorSchemeFormat::Gogh => ColorScheme::from_gogh(content),
    };
    match read {
        Ok(scheme) => Ok(scheme.to_toml()),
        Err(e) => Err(e),
    }
}

/// The lines of the list of schemes, one for each scheme in order: the
/// names filled up to the width of the longest, each followed by the preview
/// of its scheme.
pub fn list_lines(color_schemes: &Vec<(String, ColorScheme)>) -> (r: Vec<String>)
    ensures
        r@.len() == color_schemes@.len(),
        forall|i: int|
            0 <= i < r@.len() ==> (#[trigger] r@[i])@ == list_text(
                color_schemes@[i].0@,
                color_schemes@[i].1.preview_line(),
                widest(listed(color_schemes@)),
            ),
{
    let mut names: Vec<String> = Vec::new();
    let mut i: usize = 0;
    while i < color_schemes.len()
        invariant
            i <= color_schemes@.len(),
            names@.len() == i,
            forall|k: int| 0 <= k < i ==> (#[trigger] names@[k])@ == color_schemes@[k].0@,
        decreases color_schemes@.len() - i,
    {
        names.push(color_schemes[i].0.clone());
        i += 1;
    }
    assert(texts(names@) =~= listed(color_schemes@));
    let width = name_width(&names);
    let mut lines: Vec<String> = Vec::new();
    let mut j: usize = 0;
    while j < color_schemes.len()
        invariant
            j <= color_schemes@.len(),
            lines@.len() == j,
            forall|k: int|
                0 <= k < j ==> (#[trigger] lines@[k])@ == list_text(
                    color_schemes@[k].0@,
                    color_schemes@[k].1.preview_line(),
                    width as nat,
                ),
        decreases color_schemes@.len() - j,
    {
        let preview = color_schemes[j].1.to_preview();
        lines.push(list_line(color_schemes[j].0.as_str(), preview.as_str(), width));
        j += 1;
    }
    lines
}

/// What `get` prints for the scheme `name`.
pub fn show(name: &str, scheme: &ColorScheme) -> (r: String)
    ensures
        r@ == shown(name@, *scheme),
{
    let mut out = String::new();
    out.append("# ");
    assert(out@ =~= "# "@);
    out.append(name);
    out.append("\n");
    out.append(scheme.to_toml().as_str());
    out
}

} // verus!
