//! The error taxonomy of the client.
//!
//! Every failure surfaces to the caller as one of these values: a transport
//! failure before any response arrived, a response whose status was not the
//! success code, a response body that did not decode, or an API key that
//! cannot be carried as a header value. Nothing is swallowed and nothing is
//! retried beyond what the retry policy decides.

use vstd::prelude::*;

verus! {

/// Where a decode of the response body failed.
#[derive(Debug, Clone, Copy, PartialEq, Eq, Structural)]
pub enum DecodeError {
    /// The body was not the expected `{status, data: {items, paging}}`
    /// envelope.
    Envelope,
    /// The item at this position matched no known record shape.
    Item {
        /// The position of the offending item in the response's item array.
        index: usize,
    },
}

/// An error of one feed fetch.
#[derive(Debug, Clone, PartialEq)]
pub enum Error {
    /// The request failed before any response was received.
    Transport(String),
    /// The server answered with a status other than 200; the payload is the
    /// raw response body text.
    StatusNot200(String),
    /// The response body did not decode as a feed envelope.
    Decode(DecodeError),
    /// The API key cannot be encoded as a header value.
    InvalidApiKey,
}

/// The view of an [`Error`].
pub enum ErrorV {
    /// The request failed before any response was received.
    Transport(Seq<char>),
    /// The server answered with a status other than 200.
    StatusNot200(Seq<char>),
    /// The response body did not decode as a feed envelope.
    Decode(DecodeError),
    /// The API key cannot be encoded as a header value.
    InvalidApiKey,
}

impl View for Error {
    type V = ErrorV;

    open spec fn view(&self) -> ErrorV {
        match self {
            Error::Transport(s) => ErrorV::Transport(s@),
            Error::StatusNot200(s) => ErrorV::StatusNot200(s@),
            Error::Decode(e) => ErrorV::Decode(*e),
            Error::InvalidApiKey => ErrorV::InvalidApiKey,
        }
    }
}

impl Error {
    /// A short description of the error, with the payload where one exists.
    pub fn describe(&self) -> (r: String)
        ensures
            self is Transport ==> r@ == self->Transport_0@,
            self is StatusNot200 ==> r@ == self->StatusNot200_0@,
    {
        match self {
            Error::Transport(s) => s.clone(),
            Error::StatusNot200(s) => s.clone(),
            Error::Decode(_) => "response body did not decode".to_owned(),
            Error::InvalidApiKey => "API key is not a valid header value".to_owned(),
        }
    }
}

} // verus!
