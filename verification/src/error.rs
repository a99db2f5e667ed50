//! Error type of the colour management operations.

use vstd::prelude::*;

use crate::numfmt::{decimal, push_decimal};

verus! {

/// `std::io::Error`, carried through by [`Error::Io`].
#[verifier::external_type_specification]
#[verifier::external_body]
pub struct ExIoError(std::io::Error);

/// Result type for the colour management operations.
pub type Result<T> = core::result::Result<T, Error>;

/// Errors that can occur in the colour management operations.
#[derive(Debug)]
#[non_exhaustive]
pub enum Error {
    /// Failed to parse ICC profile
    ProfileParse(String),
    /// Invalid ICC profile structure
    InvalidProfile(String),
    /// Unsupported profile version
    UnsupportedVersion(String),
    /// Unsupported color space
    UnsupportedColorSpace(String),
    /// Transform creation failed
    Transform(String),
    /// Buffer size mismatch
    BufferSize { expected: usize, actual: usize },
    /// I/O error
    Io(std::io::Error),
}

/// The message of an error that carries no I/O error.
pub open spec fn error_message(e: Error) -> Seq<char> {
    match e {
        Error::ProfileParse(m) => "Profile parse error: "@ + m@,
        Error::InvalidProfile(m) => "Invalid profile: "@ + m@,
        Error::UnsupportedVersion(m) => "Unsupported profile version: "@ + m@,
        Error::UnsupportedColorSpace(m) => "Unsupported color space: "@ + m@,
        Error::Transform(m) => "Transform error: "@ + m@,
        Error::BufferSize { expected, actual } => "Buffer size mismatch: expected "@ + decimal(
            expected as nat,
        ) + ", got "@ + decimal(actual as nat),
        Error::Io(_) => "I/O error: "@,
    }
}

/// The text of an I/O error, as `std::io::Error`'s `Display` renders it.
///
/// What the text says depends on the operating system's description of the
/// error code, so nothing is stated of it.
#[verifier::external_body]
fn io_error_text(e: &std::io::Error) -> String {
    format!("{}", e)
}

impl Error {
    /// The human-readable message of this error.
    ///
    /// For [`Error::Io`] the message is `"I/O error: "` followed by the text of
    /// the I/O error.
    pub fn message(&self) -> (r: String)
        ensures
            !(self is Io) ==> r@ == error_message(*self),
            self is Io ==> r@.subrange(0, 11) == error_message(*self) && r@.len() >= 11,
    {
        let mut s = String::new();
        match self {
            Error::ProfileParse(m) => {
                s.append("Profile parse error: ");
                s.append(m.as_str());
            },
            Error::InvalidProfile(m) => {
                s.append("Invalid profile: ");
                s.append(m.as_str());
            },
            Error::UnsupportedVersion(m) => {
                s.append("Unsupported profile version: ");
                s.append(m.as_str());
            },
            Error::UnsupportedColorSpace(m) => {
                s.append("Unsupported color space: ");
                s.append(m.as_str());
            },
            Error::Transform(m) => {
                s.append("Transform error: ");
                s.append(m.as_str());
            },
            Error::BufferSize { expected, actual } => {
                s.append("Buffer size mismatch: expected ");
                push_decimal(&mut s, *expected as u64);
                s.append(", got ");
                push_decimal(&mut s, *actual as u64);
            },
            Error::Io(e) => {
                s.append("I/O error: ");
                let t = io_error_text(e);
                proof {
                    reveal_strlit("I/O error: ");
                }
                assert(s@.len() == 11);
                let ghost before = s@;
                s.append(t.as_str());
                assert(s@.subrange(0, 11) == before);
            },
        }
        s
    }
}

impl From<std::io::Error> for Error {
    fn from(e: std::io::Error) -> (r: Error) {
        Error::Io(e)
    }
}

impl vstd::std_specs::convert::FromSpecImpl<std::io::Error> for Error {
    open spec fn obeys_from_spec() -> bool {
        true
    }

    open spec fn from_spec(e: std::io::Error) -> Error {
        Error::Io(e)
    }
}

} // verus!
