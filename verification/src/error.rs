//! The ways in which following a redirect chain can fail.

use vstd::prelude::*;
use vstd::string::StringExecFns;

verus! {

/// Why an exchange ended without a response.
///
/// Each variant carries a text for diagnostics: the message of the failure
/// for the first three, the offending value for the last.
#[derive(Debug)]
pub enum Error {
    /// The transport failed to send a request or to receive its response.
    Hyper(String),
    /// A request could not be built from the current state.
    Http(String),
    /// The body of the request could not be read.
    Request(String),
    /// The `Location` value of a redirect could not be resolved.
    InvalidLocationHeader(String),
}

/// An error as a value.
pub enum ErrorParts {
    Hyper(Seq<char>),
    Http(Seq<char>),
    Request(Seq<char>),
    InvalidLocationHeader(Seq<char>),
}

impl View for Error {
    type V = ErrorParts;

    open spec fn view(&self) -> ErrorParts {
        match self {
            Error::Hyper(m) => ErrorParts::Hyper(m@),
            Error::Http(m) => ErrorParts::Http(m@),
            Error::Request(m) => ErrorParts::Request(m@),
            Error::InvalidLocationHeader(l) => ErrorParts::InvalidLocationHeader(l@),
        }
    }
}

/// The text that `Error::message` gives for an error.
pub open spec fn message_of(e: ErrorParts) -> Seq<char> {
    match e {
        ErrorParts::Hyper(m) => "Hyper error: "@ + m,
        ErrorParts::Http(m) => "HTTP error: "@ + m,
        ErrorParts::Request(m) => "request error: "@ + m,
        ErrorParts::InvalidLocationHeader(l) => "invalid `Location` header: "@ + l,
    }
}

impl Error {
    /// An error for a body that could not be read, with the failure's message.
    pub fn request(message: String) -> (e: Error)
        ensures
            e == Error::Request(message),
            e@ == ErrorParts::Request(message@),
    {
        Error::Request(message)
    }

    /// A line of text that names the kind of failure and its detail.
    pub fn message(&self) -> (s: String)
        ensures
            s@ == message_of(self@),
    {
        match self {
            Error::Hyper(m) => String::from_str("Hyper error: ").concat(m.as_str()),
            Error::Http(m) => String::from_str("HTTP error: ").concat(m.as_str()),
            Error::Request(m) => String::from_str("request error: ").concat(m.as_str()),
            Error::InvalidLocationHeader(l) => String::from_str(
                "invalid `Location` header: ",
            ).concat(l.as_str()),
        }
    }
}

} // verus!
