//! Errors reported to the users of the API.

use vstd::prelude::*;

verus! {

/// A unique identifier for an [`Error`].
#[derive(Clone, Copy, Debug, PartialEq, Eq, Structural, Hash)]
pub enum Code {
    /// An internal server error occured. The message will contain basic debug
    /// information.
    InternalServerError,
    /// The object was not found.
    NotFound,
    /// A number or string is out of bounds.
    OutOfBounds,
    /// A slug was malformed or invalid.
    InvalidSlug,
}

/// The HTTP status that an error of the given code is answered with.
pub open spec fn status_of(code: Code) -> u16 {
    match code {
        Code::NotFound => 404,
        Code::InternalServerError => 500,
        Code::OutOfBounds | Code::InvalidSlug => 400,
    }
}

/// An API error.
#[derive(Clone, Debug)]
pub struct Error {
    /// A unique code exactly describing the error.
    pub code: Code,
    /// A more human-readable reason as to why the error occured.
    pub reason: String,
}

impl Error {
    /// Creates a new error.
    pub fn new(code: Code, reason: &str) -> (r: Error)
        ensures
            r.code == code,
            r.reason@ == reason@,
    {
        Error { code, reason: String::from_str(reason) }
    }

    /// Creates a not found error with the given reason.
    pub fn not_found(reason: &str) -> (r: Error)
        ensures
            r.code == Code::NotFound,
            r.reason@ == reason@,
    {
        Error::new(Code::NotFound, reason)
    }

    /// Creates an out of bounds error with the given reason.
    pub fn out_of_bounds(reason: &str) -> (r: Error)
        ensures
            r.code == Code::OutOfBounds,
            r.reason@ == reason@,
    {
        Error::new(Code::OutOfBounds, reason)
    }

    /// The HTTP status that this error is answered with.
    pub fn status_code(&self) -> (r: u16)
        ensures
            r == status_of(self.code),
    {
        match self.code {
            Code::NotFound => 404,
            Code::InternalServerError => 500,
            Code::InvalidSlug | Code::OutOfBounds => 400,
        }
    }
}

} // verus!
