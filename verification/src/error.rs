use vstd::prelude::*;

verus! {

/// Every failure the pipeline can report. Each variant carries a
/// human-readable message; an error is always a whole outcome, never a
/// partial result.
#[derive(Debug, PartialEq, Eq)]
pub enum HttpError {
    /// The transport handle could not be built (TLS backend or resolver setup).
    ClientInit(String),
    /// The request description is missing a required field or a field has the
    /// wrong shape. Raised before any network activity.
    InvalidDescriptor(String),
    /// A header entry lacks a colon separator or violates the header grammar.
    /// Raised before any network activity.
    InvalidHeader(String),
    /// The method or URL could not be used, or the exchange itself failed.
    Transport(String),
    /// The response body does not decode as the requested output shape.
    Decode(String),
}

impl HttpError {
    /// The message carried by this error, whatever its kind.
    pub open spec fn message_view(&self) -> Seq<char> {
        match self {
            HttpError::ClientInit(m) => m@,
            HttpError::InvalidDescriptor(m) => m@,
            HttpError::InvalidHeader(m) => m@,
            HttpError::Transport(m) => m@,
            HttpError::Decode(m) => m@,
        }
    }

    /// Borrow the carried message.
    pub fn message(&self) -> (m: &String)
        ensures
            m@ == self.message_view(),
    {
        match self {
            HttpError::ClientInit(m) => m,
            HttpError::InvalidDescriptor(m) => m,
            HttpError::InvalidHeader(m) => m,
            HttpError::Transport(m) => m,
            HttpError::Decode(m) => m,
        }
    }
}

} // verus!
