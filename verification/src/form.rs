//! Decoding URL-encoded form bodies into flat key-value pairs.

use vstd::prelude::*;
use crate::Rejection;

verus! {

/// What the form decoder makes of a body: its percent-decoded key-value
/// pairs in order, or nothing when the bytes do not decode as URL-encoded
/// form data. The result depends on the bytes alone.
pub uninterp spec fn form_pairs(body: Seq<u8>) -> Option<Seq<(Seq<char>, Seq<char>)>>;

/// The mathematical content of a vector of decoded key-value pairs.
pub open spec fn spec_pairs(pairs: Seq<(String, String)>) -> Seq<(Seq<char>, Seq<char>)> {
    pairs.map_values(|p: (String, String)| (p.0@, p.1@))
}

/// Relies on `serde_urlencoded::from_bytes` at the pair-sequence type: it
/// decodes a URL-encoded body into its percent-decoded key-value pairs, or
/// fails with an error on input it cannot decode.
#[verifier::external_body]
fn parse_form_body(body: &[u8]) -> (decoded: Option<Vec<(String, String)>>)
    ensures
        match decoded {
            Some(pairs) => form_pairs(body@) == Some(spec_pairs(pairs@)),
            None => form_pairs(body@) is None,
        },
{
    serde_urlencoded::from_bytes::<Vec<(String, String)>>(body).ok()
}

/// Decode a request body as URL-encoded key-value pairs. A body that does not
/// decode is rejected as a bad request, and nothing else is.
pub fn decode_pairs(body: &[u8]) -> (result: Result<Vec<(String, String)>, Rejection>)
    ensures
        match result {
            Ok(pairs) => form_pairs(body@) == Some(spec_pairs(pairs@)),
            Err(rejection) => form_pairs(body@) is None && rejection == Rejection::BadRequest,
        },
{
    match parse_form_body(body) {
        Some(pairs) => Ok(pairs),
        None => Err(Rejection::BadRequest),
    }
}

} // verus!
