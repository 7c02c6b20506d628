//! Which language a file is to be parsed as.

use crate::indexer::types::{language_of, Language};
use crate::text::{after, after_last, lowercase_of};
use vstd::prelude::*;

verus! {

/// Why a file could not be parsed.
#[derive(Debug, PartialEq, Eq)]
pub enum ParserError {
    /// The parser could not be set up for the language.
    InitError(String),
    /// The parser gave up on the source.
    ParseError,
    /// No language is known for files of this extension.
    UnsupportedLanguage(String),
}

/// The message of an error.
pub open spec fn error_message(error: ParserError) -> Seq<char> {
    match error {
        ParserError::InitError(m) => "Failed to initialize parser: "@ + m@,
        ParserError::ParseError => "Failed to parse source code"@,
        ParserError::UnsupportedLanguage(ext) => "Unsupported language: "@ + ext@,
    }
}

impl ParserError {
    /// The message of the error.
    pub fn message(&self) -> (text: String)
        ensures
            text@ == error_message(*self),
    {
        match self {
            ParserError::InitError(m) => String::from_str("Failed to initialize parser: ").concat(
                m.as_str(),
            ),
            ParserError::ParseError => String::from_str("Failed to parse source code"),
            ParserError::UnsupportedLanguage(ext) => String::from_str(
                "Unsupported language: ",
            ).concat(ext.as_str()),
        }
    }
}

/// The extension of a file: what stands after the last dot of its path, or
/// the whole path where it holds no dot.
pub open spec fn extension_of(file_path: Seq<char>) -> Seq<char> {
    after_last(file_path, '.')
}

/// The extension of the file at `file_path`.
pub fn file_extension(file_path: &str) -> (ext: String)
    ensures
        ext@ == extension_of(file_path@),
{
    after(file_path, '.')
}

/// The language that the file at `file_path` is to be parsed as, by its
/// extension; `UnsupportedLanguage` with the extension where none is known
/// for it.
pub fn language_for_file(file_path: &str) -> (r: Result<Language, ParserError>)
    ensures
        match r {
            Ok(language) => language_of(lowercase_of(extension_of(file_path@))) == Some(language),
            Err(e) => language_of(lowercase_of(extension_of(file_path@))) is None && e
                == ParserError::UnsupportedLanguage(e->UnsupportedLanguage_0) && e->UnsupportedLanguage_0@
                == extension_of(file_path@),
        },
{
    let ext = file_extension(file_path);
    match Language::from_extension(ext.as_str()) {
        Some(language) => Ok(language),
        None => Err(ParserError::UnsupportedLanguage(ext)),
    }
}

} // verus!
