//! Classification of a JSON parser's failure message into a diagnosis that a
//! user can act on.
use vstd::prelude::*;

use crate::text::{contains_seq, str_contains};

verus! {

#[derive(Clone, Copy, Debug, PartialEq, Eq, Structural)]
pub enum JsonErrorKind {
    /// The text ends before the document does.
    Incomplete,
    /// A token other than the one the grammar needs.
    Syntax,
    /// A comma before a closing bracket.
    TrailingComma,
    /// A name given twice in one object.
    DuplicateKey,
    /// Anything else.
    Unknown,
}

/// The kind a parser message falls under, by the phrases it holds; the first
/// rule that applies wins.
pub open spec fn kind_of_message(m: Seq<char>) -> JsonErrorKind {
    if contains_seq(m, "EOF while parsing"@) {
        JsonErrorKind::Incomplete
    } else if contains_seq(m, "expected"@) && contains_seq(m, "found"@) {
        JsonErrorKind::Syntax
    } else if contains_seq(m, "trailing comma"@) {
        JsonErrorKind::TrailingComma
    } else if contains_seq(m, "duplicate key"@) {
        JsonErrorKind::DuplicateKey
    } else {
        JsonErrorKind::Unknown
    }
}

/// A diagnosis of a configuration file that does not parse.
#[derive(Clone, Copy, Debug, PartialEq, Eq, Structural)]
pub struct JsonErrorInfo {
    pub kind: JsonErrorKind,
    pub line: usize,
    pub column: usize,
    /// Whether a backup of the file is there to restore from.
    pub has_backup: bool,
}

/// Diagnoses a parser failure from its message and position. Whether a
/// backup exists is for the caller to fill in.
pub fn analyze_json_error(message: &str, line: usize, column: usize) -> (r: JsonErrorInfo)
    ensures
        r == (JsonErrorInfo { kind: kind_of_message(message@), line, column, has_backup: false }),
{
    let kind = if str_contains(message, "EOF while parsing") {
        JsonErrorKind::Incomplete
    } else if str_contains(message, "expected") && str_contains(message, "found") {
        JsonErrorKind::Syntax
    } else if str_contains(message, "trailing comma") {
        JsonErrorKind::TrailingComma
    } else if str_contains(message, "duplicate key") {
        JsonErrorKind::DuplicateKey
    } else {
        JsonErrorKind::Unknown
    };
    JsonErrorInfo { kind, line, column, has_backup: false }
}

impl JsonErrorKind {
    /// The short code of the kind.
    pub fn error_type(&self) -> (r: String)
        ensures
            r@ == match *self {
                JsonErrorKind::Incomplete => "incomplete"@,
                JsonErrorKind::Syntax => "syntax"@,
                JsonErrorKind::TrailingComma => "trailing_comma"@,
                JsonErrorKind::DuplicateKey => "duplicate_key"@,
                JsonErrorKind::Unknown => "unknown"@,
            },
    {
        match self {
            JsonErrorKind::Incomplete => String::from_str("incomplete"),
            JsonErrorKind::Syntax => String::from_str("syntax"),
            JsonErrorKind::TrailingComma => String::from_str("trailing_comma"),
            JsonErrorKind::DuplicateKey => String::from_str("duplicate_key"),
            JsonErrorKind::Unknown => String::from_str("unknown"),
        }
    }

    /// What went wrong, in words.
    pub fn user_message(&self) -> (r: String)
        ensures
            r@ == match *self {
                JsonErrorKind::Incomplete => "The JSON file appears to be incomplete or truncated"@,
                JsonErrorKind::Syntax => "Invalid JSON syntax found"@,
                JsonErrorKind::TrailingComma => "Found an extra comma at the end of a list or object"@,
                JsonErrorKind::DuplicateKey => "Found duplicate server names in the configuration"@,
                JsonErrorKind::Unknown => "JSON parsing error occurred"@,
            },
    {
        match self {
            JsonErrorKind::Incomplete => String::from_str(
                "The JSON file appears to be incomplete or truncated",
            ),
            JsonErrorKind::Syntax => String::from_str("Invalid JSON syntax found"),
            JsonErrorKind::TrailingComma => String::from_str(
                "Found an extra comma at the end of a list or object",
            ),
            JsonErrorKind::DuplicateKey => String::from_str(
                "Found duplicate server names in the configuration",
            ),
            JsonErrorKind::Unknown => String::from_str("JSON parsing error occurred"),
        }
    }

    /// How to fix it.
    pub fn suggestion(&self) -> (r: String)
        ensures
            r@ == match *self {
                JsonErrorKind::Incomplete => "Check if the file ends properly with closing braces }"@,
                JsonErrorKind::Syntax => "Check for missing commas, quotes, or brackets around the error location"@,
                JsonErrorKind::TrailingComma => "Remove the trailing comma before the closing bracket"@,
                JsonErrorKind::DuplicateKey => "Each server must have a unique name"@,
                JsonErrorKind::Unknown => "Please check your JSON syntax or restore from backup"@,
            },
    {
        match self {
            JsonErrorKind::Incomplete => String::from_str(
                "Check if the file ends properly with closing braces }",
            ),
            JsonErrorKind::Syntax => String::from_str(
                "Check for missing commas, quotes, or brackets around the error location",
            ),
            JsonErrorKind::TrailingComma => String::from_str(
                "Remove the trailing comma before the closing bracket",
            ),
            JsonErrorKind::DuplicateKey => String::from_str("Each server must have a unique name"),
            JsonErrorKind::Unknown => String::from_str(
                "Please check your JSON syntax or restore from backup",
            ),
        }
    }
}

} // verus!
