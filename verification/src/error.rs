//! The closed error taxonomy: every failure a requester can report.

use vstd::prelude::*;

verus! {

/// Standard error enum used to wrap the three potential failure kinds.
///
/// Each variant carries a human-readable description of the underlying
/// cause, so that callers can display or inspect what went wrong.
#[derive(Debug)]
pub enum Error {
    /// A transport failure: the network call failed, or the server
    /// answered with an error status.
    Reqwest(String),
    /// A decode failure: the response body was not valid JSON of the
    /// expected shape.
    Json(String),
    /// An encode failure: the request could not be serialized as
    /// URL-encoded form data.
    UrlEncode(String),
}

impl Error {
    /// The description of the underlying cause, for diagnostic display.
    pub fn description(&self) -> (r: String)
        ensures
            r@ == self.cause()@,
    {
        match self {
            Error::Reqwest(inner) => inner.clone(),
            Error::Json(inner) => inner.clone(),
            Error::UrlEncode(inner) => inner.clone(),
        }
    }

    /// The cause carried by whichever variant this is.
    pub open spec fn cause(&self) -> String {
        match self {
            Error::Reqwest(inner) => *inner,
            Error::Json(inner) => *inner,
            Error::UrlEncode(inner) => *inner,
        }
    }
}

} // verus!
