//! The failures of an extraction or of a walk.

use std::path::StripPrefixError;
use vstd::prelude::*;
use vstd::std_specs::convert::FromSpecImpl;
use vstd::string::to_string_from_display_ensures;

verus! {

/// `std::io::Error`, carried as it came.
#[verifier::external_type_specification]
#[verifier::external_body]
pub struct ExIoError(std::io::Error);

/// `walkdir::Error`, carried as it came.
#[verifier::external_type_specification]
#[verifier::external_body]
pub struct ExWalkError(walkdir::Error);

/// `std::path::StripPrefixError`, carried as it came.
#[verifier::external_type_specification]
#[verifier::external_body]
pub struct ExStripPrefixError(std::path::StripPrefixError);

/// Why an extraction or a walk stopped.
#[derive(Debug)]
pub enum LiterateError {
    /// Reading, writing or opening a file failed.
    IO(std::io::Error),
    /// Enumerating a directory tree failed.
    Walk(walkdir::Error),
    /// A walked path does not lie under the root of the walk.
    Prefix(StripPrefixError),
    /// A failure of no other kind.
    Unknown,
}

impl From<std::io::Error> for LiterateError {
    fn from(e: std::io::Error) -> (r: Self) {
        LiterateError::IO(e)
    }
}

impl FromSpecImpl<std::io::Error> for LiterateError {
    open spec fn obeys_from_spec() -> bool {
        true
    }

    open spec fn from_spec(e: std::io::Error) -> Self {
        LiterateError::IO(e)
    }
}

impl From<walkdir::Error> for LiterateError {
    fn from(e: walkdir::Error) -> (r: Self) {
        LiterateError::Walk(e)
    }
}

impl FromSpecImpl<walkdir::Error> for LiterateError {
    open spec fn obeys_from_spec() -> bool {
        true
    }

    open spec fn from_spec(e: walkdir::Error) -> Self {
        LiterateError::Walk(e)
    }
}

impl From<StripPrefixError> for LiterateError {
    fn from(e: StripPrefixError) -> (r: Self) {
        LiterateError::Prefix(e)
    }
}

impl FromSpecImpl<StripPrefixError> for LiterateError {
    open spec fn obeys_from_spec() -> bool {
        true
    }

    open spec fn from_spec(e: StripPrefixError) -> Self {
        LiterateError::Prefix(e)
    }
}

impl LiterateError {
    /// Whether `text` is the message of the failure: what the underlying
    /// error displays, or `Unknown error`.
    pub open spec fn is_message(&self, text: String) -> bool {
        match self {
            LiterateError::IO(e) => to_string_from_display_ensures::<std::io::Error>(e, text),
            LiterateError::Walk(e) => to_string_from_display_ensures::<walkdir::Error>(e, text),
            LiterateError::Prefix(e) => to_string_from_display_ensures::<StripPrefixError>(
                e,
                text,
            ),
            LiterateError::Unknown => text@ == "Unknown error"@,
        }
    }

    /// The message of the failure: that of the underlying error, or
    /// `Unknown error`.
    pub fn message(&self) -> (r: String)
        ensures
            self.is_message(r),
    {
        match self {
            LiterateError::IO(e) => e.to_string(),
            LiterateError::Walk(e) => e.to_string(),
            LiterateError::Prefix(e) => e.to_string(),
            LiterateError::Unknown => String::from_str("Unknown error"),
        }
    }
}

} // verus!
