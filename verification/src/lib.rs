//! Conversion of terminal colour schemes (iTerm, Mintty, Gogh) into one
//! canonical palette, its rendering as an Alacritty configuration, and the
//! rules of a client for the catalogs that publish such schemes.

pub mod text;
pub mod number;
pub mod error;
pub mod color;
pub mod scheme;
pub mod render;
pub mod markup;
pub mod iterm;
pub mod mintty;
pub mod gogh;
pub mod format;
pub mod provider;
pub mod listing;
pub mod repo;
pub mod cli;

pub use crate::color::Color;
pub use crate::format::ColorSchemeFormat;
pub use crate::provider::Provider;
pub use crate::repo::Repo;
pub use crate::cli::CliError;
pub use crate::error::{ErrorKind, ParseError};
pub use crate::scheme::{ColorScheme, Slot};
