//! The unified error taxonomy of the fetch path.
//!
//! Every failure a fetch can produce falls in one of four classes:
//! the response body did not decode, the API signalled a client error
//! with a structured payload, the transport or the status line failed
//! outside those ranges, or (handled by aborting, not by a value here)
//! the limiter's serving loop died.

use vstd::prelude::*;

verus! {

/// The structured error payload a client-error (4xx) response carries:
/// at minimum a status indicator and a human-readable message.
#[derive(Debug, Clone, PartialEq, Eq)]
pub struct ScryfallError {
    pub status: u16,
    pub message: String,
}

/// A fetch-path failure.
#[derive(Debug, Clone, PartialEq, Eq)]
pub enum Error {
    /// The response body does not match the expected shape.
    DecodeError { url: String },
    /// The API signalled a client error with a structured payload.
    ScryfallError(ScryfallError),
    /// A response status outside the success and client-error ranges.
    HttpError { status: u16, status_text: String },
    /// The transport itself failed; carries the failure message and the
    /// offending URL.
    TransportError { message: String, url: String },
}

impl Error {
    /// A short, human-readable account of the failure.
    pub fn describe(&self) -> (r: String)
        ensures
            r@ == match self {
                Error::DecodeError { url } => url@,
                Error::ScryfallError(e) => e.message@,
                Error::HttpError { status_text, .. } => status_text@,
                Error::TransportError { message, .. } => message@,
            },
    {
        match self {
            Error::DecodeError { url } => url.clone(),
            Error::ScryfallError(e) => e.message.clone(),
            Error::HttpError { status_text, .. } => status_text.clone(),
            Error::TransportError { message, .. } => message.clone(),
        }
    }
}

} // verus!
