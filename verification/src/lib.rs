//! Extraction of URL-encoded form bodies ("htmx"-style posts) from HTTP
//! requests: a content-type guard followed by a body-decoding stage, each
//! with a verified contract.

use vstd::prelude::*;

pub mod extract;
pub mod form;
pub mod laws;
pub mod media_type;

pub use extract::HtmxPostRequest;

verus! {

/// Why a request was refused, mapped to the HTTP status code that the
/// hosting framework should answer with.
#[derive(Clone, Copy, Debug, PartialEq, Eq, Structural)]
pub enum Rejection {
    /// The content-type header is missing, unparseable, or does not denote
    /// URL-encoded form data (HTTP 415).
    UnsupportedMediaType,
    /// The body could not be read, or does not decode as URL-encoded form
    /// data (HTTP 400).
    BadRequest,
}

impl Rejection {
    /// The HTTP status code this rejection stands for.
    pub open spec fn spec_status_code(self) -> u16 {
        match self {
            Rejection::UnsupportedMediaType => 415,
            Rejection::BadRequest => 400,
        }
    }

    /// The HTTP status code to answer the request with.
    pub fn status_code(&self) -> (code: u16)
        ensures
            code == self.spec_status_code(),
    {
        match self {
            Rejection::UnsupportedMediaType => 415,
            Rejection::BadRequest => 400,
        }
    }
}

} // verus!
