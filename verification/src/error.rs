//! The failures that parsing a colour scheme can end in.

use vstd::prelude::*;
use vstd::string::*;

verus! {

/// Why a colour, a line or a document could not be parsed.
#[derive(Debug, Clone, PartialEq, Eq)]
pub enum ParseError {
    /// A colour component is not an unsigned byte.
    ParseInt,
    /// A real-valued colour component is not a number.
    ParseFloat,
    /// A Mintty colour that is not made of three fields; holds the colour's text.
    InvalidColorFormat(String),
    /// A Mintty line that is not of the form `name=value`; holds the line.
    InvalidLineFormat(String),
    /// A Mintty line whose name is none of the known ones; holds the name.
    UnknownColorName(String),
    /// The text is not a well-formed XML document.
    XMLParse,
    /// The XML document has no top-level dictionary.
    NoRootDict,
    /// An element that should hold text does not start with text; holds the
    /// element's name.
    NotCharacterNode(String),
    /// A colour dictionary holds a key that is no colour component; holds the key.
    UnknownColorComponent(String),
}

/// The mathematical counterpart of a [`ParseError`]: texts are character
/// sequences.
pub ghost enum ParseFailure {
    ParseInt,
    ParseFloat,
    InvalidColorFormat(Seq<char>),
    InvalidLineFormat(Seq<char>),
    UnknownColorName(Seq<char>),
    XMLParse,
    NoRootDict,
    NotCharacterNode(Seq<char>),
    UnknownColorComponent(Seq<char>),
}

impl View for ParseError {
    type V = ParseFailure;

    open spec fn view(&self) -> ParseFailure {
        match self {
            ParseError::ParseInt => ParseFailure::ParseInt,
            ParseError::ParseFloat => ParseFailure::ParseFloat,
            ParseError::InvalidColorFormat(s) => ParseFailure::InvalidColorFormat(s@),
            ParseError::InvalidLineFormat(s) => ParseFailure::InvalidLineFormat(s@),
            ParseError::UnknownColorName(s) => ParseFailure::UnknownColorName(s@),
            ParseError::XMLParse => ParseFailure::XMLParse,
            ParseError::NoRootDict => ParseFailure::NoRootDict,
            ParseError::NotCharacterNode(s) => ParseFailure::NotCharacterNode(s@),
            ParseError::UnknownColorComponent(s) => ParseFailure::UnknownColorComponent(s@),
        }
    }
}

/// A parse result with its error taken by its view.
pub open spec fn outcome<T>(r: Result<T, ParseError>) -> Result<T, ParseFailure> {
    match r {
        Ok(v) => Ok(v),
        Err(e) => Err(e@),
    }
}

impl ParseFailure {
    /// The sentence that describes the failure, with the offending text
    /// where there is one.
    pub open spec fn message(self) -> Seq<char> {
        match self {
            ParseFailure::ParseInt => "failed to parse int"@,
            ParseFailure::ParseFloat => "failed to parse float"@,
            ParseFailure::InvalidColorFormat(s) => "invalid color representation: "@ + s,
            ParseFailure::InvalidLineFormat(s) => "invalid line: "@ + s,
            ParseFailure::UnknownColorName(s) => "unknown color name: "@ + s,
            ParseFailure::XMLParse => "invalid XML"@,
            ParseFailure::NoRootDict => "root dict was not found"@,
            ParseFailure::NotCharacterNode(s) => "cannot extract text from: "@ + s,
            ParseFailure::UnknownColorComponent(s) => "unknown color component: "@ + s,
        }
    }
}

impl ParseError {
    /// The sentence that describes the error.
    pub fn message(&self) -> (r: String)
        ensures
            r@ == self@.message(),
    {
        match self {
            ParseError::ParseInt => "failed to parse int".to_owned(),
            ParseError::ParseFloat => "failed to parse float".to_owned(),
            ParseError::InvalidColorFormat(s) => "invalid color representation: ".to_owned().concat(
                s.as_str(),
            ),
            ParseError::InvalidLineFormat(s) => "invalid line: ".to_owned().concat(s.as_str()),
            ParseError::UnknownColorName(s) => "unknown color name: ".to_owned().concat(s.as_str()),
            ParseError::XMLParse => "invalid XML".to_owned(),
            ParseError::NoRootDict => "root dict was not found".to_owned(),
            ParseError::NotCharacterNode(s) => "cannot extract text from: ".to_owned().concat(s.as_str()),
            ParseError::UnknownColorComponent(s) => "unknown color component: ".to_owned().concat(
                s.as_str(),
            ),
        }
    }
}

/// Why a conversion could not begin.
#[derive(Debug, Clone, Copy, PartialEq, Eq, Structural)]
pub enum ErrorKind {
    /// No source was given.
    MissingSource,
    /// No input format was given, and the file name tells none.
    MissingInputFormat,
    /// The standard input could not be read.
    ReadStdin,
    /// The source could not be read.
    ReadSource,
    /// The arguments could not be parsed.
    InvalidArgument,
}

impl ErrorKind {
    /// The sentence that describes the failure.
    pub open spec fn message_text(self) -> Seq<char> {
        match self {
            ErrorKind::MissingSource => "source is not specified"@,
            ErrorKind::MissingInputFormat => "input format is not specified and failed to guess"@,
            ErrorKind::ReadStdin => "failed to read from stdin"@,
            ErrorKind::ReadSource => "failed to read source"@,
            ErrorKind::InvalidArgument => "failed to parse arguments"@,
        }
    }

    /// The sentence that describes the error.
    pub fn message(&self) -> (r: String)
        ensures
            r@ == self.message_text(),
    {
        match self {
            ErrorKind::MissingSource => "source is not specified".to_owned(),
            ErrorKind::MissingInputFormat => "input format is not specified and failed to guess".to_owned(),
            ErrorKind::ReadStdin => "failed to read from stdin".to_owned(),
            ErrorKind::ReadSource => "failed to read source".to_owned(),
            ErrorKind::InvalidArgument => "failed to parse arguments".to_owned(),
        }
    }
}

} // verus!
