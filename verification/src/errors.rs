//! The one error vocabulary shared by every part of the pipeline.
//!
//! Each failure of a subsystem (configuration, storage, pattern engine,
//! numeric parsing, HTTP transport, file input) is mapped into exactly one
//! variant at the boundary where it occurs; no other error type crosses a
//! module boundary.

use vstd::prelude::*;
use vstd::string::StringExecFns;

verus! {

/// The closed taxonomy of failures a run can report.
#[derive(Clone, Debug, PartialEq, Eq)]
pub enum AppError {
    /// Missing or malformed configuration, or an unsupported HTTP method.
    Config(String),
    /// Storage connectivity, lookup ("not found"), or write failure.
    Db(String),
    /// The extraction pattern failed to compile.
    RegEx(String),
    /// The extracted text is not a syntactically valid decimal number.
    ParseError(String),
    /// Transport failure or a non-success HTTP status.
    Request(String),
    /// File or stream failure while reading configuration.
    IoError(String),
}

/// The one-line rendering of an error, as the process prints it on exit.
pub open spec fn spec_describe(e: AppError) -> Seq<char> {
    match e {
        AppError::Config(m) => "Configuration Error: "@ + m@,
        AppError::Db(m) => "DB Error: "@ + m@,
        AppError::RegEx(m) => "RegEx Error: "@ + m@,
        AppError::ParseError(m) => "Parse Error: "@ + m@,
        AppError::Request(m) => "Request Error: "@ + m@,
        AppError::IoError(m) => "IO Error: "@ + m@,
    }
}

impl AppError {
    /// Renders the error as `<Kind> Error: <message>`, printed once on the
    /// error channel before the process exits non-zero.
    pub fn describe(&self) -> (r: String)
        ensures
            r@ == spec_describe(*self),
    {
        match self {
            AppError::Config(m) => "Configuration Error: ".to_owned().concat(m.as_str()),
            AppError::Db(m) => "DB Error: ".to_owned().concat(m.as_str()),
            AppError::RegEx(m) => "RegEx Error: ".to_owned().concat(m.as_str()),
            AppError::ParseError(m) => "Parse Error: ".to_owned().concat(m.as_str()),
            AppError::Request(m) => "Request Error: ".to_owned().concat(m.as_str()),
            AppError::IoError(m) => "IO Error: ".to_owned().concat(m.as_str()),
        }
    }
}

} // verus!
