//! The error that every validation of facts, evidence and schemas reports.

use vstd::prelude::*;

verus! {

/// An input fact, piece of evidence or schema does not satisfy the model's constraints.
///
/// Parser and I/O failures carry the outside library's message as text; the library itself
/// never produces them.
#[derive(Debug)]
pub enum ModelError {
    /// JSON syntax or field structure is invalid.
    InvalidJson { message: String },
    /// TOML syntax or field structure is invalid.
    InvalidToml { message: String },
    /// The input uses a schema version that this tool does not support.
    UnsupportedSchema { expected: &'static str, found: String },
    /// Reading a file or decoding a compressed stream failed.
    Io { operation: &'static str, message: String },
    /// A single JSONL record exceeds the configured limit.
    LineTooLong { max_bytes: usize, observed_at_least: usize },
    /// References or ordering inside versioned evidence are not legal.
    Validation { code: &'static str, message: String },
    /// Adds the file path to an underlying error.
    AtPath { path: String, source: Box<ModelError> },
    /// Adds the file path and the physical line number to an underlying error.
    AtLine { path: String, line: usize, source: Box<ModelError> },
}

/// The stable error code of an error, looking through location wrappers.
pub open spec fn spec_error_code(e: ModelError) -> Seq<char>
    decreases e,
{
    match e {
        ModelError::InvalidJson { .. } => "BW-JSON-INVALID"@,
        ModelError::InvalidToml { .. } => "BW-TOML-INVALID"@,
        ModelError::UnsupportedSchema { .. } => "BW-SCHEMA-UNSUPPORTED"@,
        ModelError::Io { .. } => "BW-IO"@,
        ModelError::LineTooLong { .. } => "BW-JSONL-LINE-TOO-LONG"@,
        ModelError::Validation { code, .. } => code@,
        ModelError::AtPath { source, .. } => spec_error_code(*source),
        ModelError::AtLine { source, .. } => spec_error_code(*source),
    }
}

impl ModelError {
    /// The stable error code used by scripts and experiment summaries.
    pub fn code(&self) -> (c: &'static str)
        ensures
            c@ == spec_error_code(*self),
        decreases *self,
    {
        match self {
            ModelError::InvalidJson { .. } => "BW-JSON-INVALID",
            ModelError::InvalidToml { .. } => "BW-TOML-INVALID",
            ModelError::UnsupportedSchema { .. } => "BW-SCHEMA-UNSUPPORTED",
            ModelError::Io { .. } => "BW-IO",
            ModelError::LineTooLong { .. } => "BW-JSONL-LINE-TOO-LONG",
            ModelError::Validation { code, .. } => code,
            ModelError::AtPath { source, .. } => source.code(),
            ModelError::AtLine { source, .. } => source.code(),
        }
    }

    /// The input path the error is attached to.
    pub fn path(&self) -> (p: Option<&str>)
        ensures
            match *self {
                ModelError::AtPath { path, .. } => p matches Some(q) && q@ == path@,
                ModelError::AtLine { path, .. } => p matches Some(q) && q@ == path@,
                _ => p is None,
            },
    {
        match self {
            ModelError::AtPath { path, .. } => Some(path.as_str()),
            ModelError::AtLine { path, .. } => Some(path.as_str()),
            _ => None,
        }
    }

    /// The physical JSONL line the error is attached to.
    pub fn line(&self) -> (l: Option<usize>)
        ensures
            match *self {
                ModelError::AtLine { line, .. } => l == Some(line),
                _ => l is None,
            },
    {
        match self {
            ModelError::AtLine { line, .. } => Some(*line),
            _ => None,
        }
    }

    /// A validation error with a stable code.
    pub fn validation(code: &'static str, message: String) -> (e: Self)
        ensures
            e == (ModelError::Validation { code, message }),
    {
        ModelError::Validation { code, message }
    }

    /// Attaches a file path and a physical line number.
    pub fn at_line(self, path: String, line: usize) -> (e: Self)
        ensures
            e == (ModelError::AtLine { path, line, source: Box::new(self) }),
    {
        ModelError::AtLine { path, line, source: Box::new(self) }
    }

    /// Attaches a file path.
    pub fn at_path(self, path: String) -> (e: Self)
        ensures
            e == (ModelError::AtPath { path, source: Box::new(self) }),
    {
        ModelError::AtPath { path, source: Box::new(self) }
    }
}

/// A parsed record together with its source path and physical line number.
#[derive(Clone, Debug)]
pub struct Located<T> {
    pub path: String,
    pub line: usize,
    pub value: T,
}

/// The error of a validation check at a located record: the code, wrapped with the record's
/// path and line.
pub open spec fn is_error_at<T>(e: ModelError, located: Located<T>, code: Seq<char>) -> bool {
    match e {
        ModelError::AtLine { path, line, source } => {
            &&& path@ == located.path@
            &&& line == located.line
            &&& match *source {
                ModelError::Validation { code: c, .. } => c@ == code,
                _ => false,
            }
        },
        _ => false,
    }
}

/// Builds the located validation error for a record.
pub fn error_at<T>(located: &Located<T>, code: &'static str, message: String) -> (e: ModelError)
    ensures
        is_error_at(e, *located, code@),
        spec_error_code(e) == code@,
{
    let e = ModelError::Validation { code, message }.at_line(located.path.clone(), located.line);
    proof {
        reveal_with_fuel(spec_error_code, 2);
    }
    e
}

} // verus!
