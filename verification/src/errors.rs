//! The error taxonomy of the two operations, and the boundary strings that
//! each error is reported as.

use vstd::prelude::*;
use crate::textops::{decimal_text, u16_decimal};

verus! {

/// Why extracting the embedded JSON object from the model's reply failed.
#[derive(Debug, Clone, Copy, PartialEq, Eq, Structural)]
pub enum ExtractError {
    /// The reply holds no `{`.
    NoStart,
    /// The reply holds no `}`.
    NoEnd,
    /// The slice between the outermost braces is not valid JSON.
    NotJson,
    /// The embedded object has no string field `html`.
    MissingHtml,
    /// The embedded object has no string field `css`.
    MissingCss,
    /// The embedded object has no string field `js`.
    MissingJs,
}

/// Why the generation pipeline failed once the HTTP reply was in hand.
#[derive(Debug, Clone, Copy, PartialEq, Eq, Structural)]
pub enum GenError {
    /// The HTTP status was outside the success range; the body was not decoded.
    BadStatus(u16),
    /// The reply body is not valid JSON.
    BodyNotJson,
    /// The reply body has no string field `response`.
    MissingResponse,
    /// The reply decoded, but the embedded object could not be extracted.
    Extract(ExtractError),
}

/// Why saving the generated bytes failed.
#[derive(Debug, PartialEq, Eq)]
pub enum SaveError {
    /// The user dismissed the save dialog.
    Canceled,
    /// The dialog's choice could not be turned into a filesystem path.
    InvalidPath,
    /// The write to the chosen path failed, with the I/O error's text.
    WriteFailed(String),
}

/// The boundary string for an extraction failure.
pub open spec fn extract_error_text(e: ExtractError) -> Seq<char> {
    match e {
        ExtractError::NoStart => "No JSON start"@,
        ExtractError::NoEnd => "No JSON end"@,
        ExtractError::NotJson => "embedded object is not valid JSON"@,
        ExtractError::MissingHtml => "missing html"@,
        ExtractError::MissingCss => "missing css"@,
        ExtractError::MissingJs => "missing js"@,
    }
}

/// The boundary string for a generation failure.
pub open spec fn gen_error_text(e: GenError) -> Seq<char> {
    match e {
        GenError::BadStatus(s) => "Ollama error status: "@ + decimal_text(s as nat),
        GenError::BodyNotJson => "Invalid JSON: response body is not JSON"@,
        GenError::MissingResponse => "Invalid JSON: missing response field"@,
        GenError::Extract(inner) => "Parse error: "@ + extract_error_text(inner),
    }
}

/// The boundary string for a save failure.
pub open spec fn save_error_text(e: SaveError) -> Seq<char> {
    match e {
        SaveError::Canceled => "canceled"@,
        SaveError::InvalidPath => "Invalid file URL"@,
        SaveError::WriteFailed(m) => "write failed: "@ + m@,
    }
}

impl ExtractError {
    /// The error as the caller-facing string.
    pub fn message(&self) -> (r: String)
        ensures
            r@ == extract_error_text(*self),
    {
        match self {
            ExtractError::NoStart => String::from_str("No JSON start"),
            ExtractError::NoEnd => String::from_str("No JSON end"),
            ExtractError::NotJson => String::from_str("embedded object is not valid JSON"),
            ExtractError::MissingHtml => String::from_str("missing html"),
            ExtractError::MissingCss => String::from_str("missing css"),
            ExtractError::MissingJs => String::from_str("missing js"),
        }
    }
}

impl GenError {
    /// The error as the caller-facing string.
    pub fn message(&self) -> (r: String)
        ensures
            r@ == gen_error_text(*self),
    {
        match self {
            GenError::BadStatus(s) => {
                let mut m = String::from_str("Ollama error status: ");
                let digits = u16_decimal(*s);
                m.append(digits.as_str());
                m
            },
            GenError::BodyNotJson => String::from_str("Invalid JSON: response body is not JSON"),
            GenError::MissingResponse => String::from_str("Invalid JSON: missing response field"),
            GenError::Extract(inner) => {
                let mut m = String::from_str("Parse error: ");
                let tail = inner.message();
                m.append(tail.as_str());
                m
            },
        }
    }
}

impl SaveError {
    /// The error as the caller-facing string.
    pub fn message(&self) -> (r: String)
        ensures
            r@ == save_error_text(*self),
    {
        match self {
            SaveError::Canceled => String::from_str("canceled"),
            SaveError::InvalidPath => String::from_str("Invalid file URL"),
            SaveError::WriteFailed(m) => {
                let mut out = String::from_str("write failed: ");
                out.append(m.as_str());
                out
            },
        }
    }
}

} // verus!
