//! Error types for estimate operations.

use vstd::prelude::*;
use vstd::string::{StrSliceExecFns, StringExecFns};

verus! {

/// The error type of estimate operations. Each variant carries the
/// detail text of what went wrong.
#[derive(Debug, Clone)]
pub enum DeniDomError {
    /// Calculation error.
    Calculation(String),
    /// Validation error.
    Validation(String),
    /// Data not found.
    NotFound(String),
    /// Database error.
    Database(String),
    /// Parse error.
    Parse(String),
    /// Input or output error.
    Io(String),
    /// Serialization error.
    Serialization(String),
    /// Invalid coefficient.
    InvalidCoefficient(String),
    /// Invalid unit conversion.
    UnitConversion {
        /// The unit converted from.
        from: String,
        /// The unit converted to.
        to: String,
    },
}

/// The rendered message of an error: its label followed by the
/// detail text.
pub open spec fn spec_error_message(e: DeniDomError) -> Seq<char> {
    match e {
        DeniDomError::Calculation(s) => "Calculation error: "@ + s@,
        DeniDomError::Validation(s) => "Validation error: "@ + s@,
        DeniDomError::NotFound(s) => "Not found: "@ + s@,
        DeniDomError::Database(s) => "Database error: "@ + s@,
        DeniDomError::Parse(s) => "Parse error: "@ + s@,
        DeniDomError::Io(s) => "IO error: "@ + s@,
        DeniDomError::Serialization(s) => "Serialization error: "@ + s@,
        DeniDomError::InvalidCoefficient(s) => "Invalid coefficient: "@ + s@,
        DeniDomError::UnitConversion { from, to } => "Cannot convert "@ + from@ + " to "@ + to@,
    }
}

impl DeniDomError {
    /// Render the error as a message string.
    pub fn message(&self) -> (r: String)
        ensures
            r@ == spec_error_message(*self),
    {
        match self {
            Self::Calculation(s) => {
                let mut out: String = String::from_str("Calculation error: ");
                out.append(s.as_str());
                out
            },
            Self::Validation(s) => {
                let mut out: String = String::from_str("Validation error: ");
                out.append(s.as_str());
                out
            },
            Self::NotFound(s) => {
                let mut out: String = String::from_str("Not found: ");
                out.append(s.as_str());
                out
            },
            Self::Database(s) => {
                let mut out: String = String::from_str("Database error: ");
                out.append(s.as_str());
                out
            },
            Self::Parse(s) => {
                let mut out: String = String::from_str("Parse error: ");
                out.append(s.as_str());
                out
            },
            Self::Io(s) => {
                let mut out: String = String::from_str("IO error: ");
                out.append(s.as_str());
                out
            },
            Self::Serialization(s) => {
                let mut out: String = String::from_str("Serialization error: ");
                out.append(s.as_str());
                out
            },
            Self::InvalidCoefficient(s) => {
                let mut out: String = String::from_str("Invalid coefficient: ");
                out.append(s.as_str());
                out
            },
            Self::UnitConversion { from, to } => {
                let mut out: String = String::from_str("Cannot convert ");
                out.append(from.as_str());
                out.append(" to ");
                out.append(to.as_str());
                out
            },
        }
    }
}

} // verus!
