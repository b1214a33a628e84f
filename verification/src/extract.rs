//! The extraction pipeline: a content-type guard, then a body-decoding stage.
//!
//! The two stages are separate so that a caller can hold to the order the
//! adapter requires: the guard reads only the header, and the body is read
//! only after the guard has passed.

use vstd::prelude::*;
use crate::Rejection;
use crate::form::decode_pairs;
use crate::form::form_pairs;
use crate::form::spec_pairs;
use crate::media_type::is_htmx_content_type;
use crate::media_type::spec_accepts_content_type;
use crate::media_type::spec_content_type;

verus! {

/// A typed value extracted from the body of an "htmx"-style form post.
#[derive(Debug)]
pub struct HtmxPostRequest<T>(pub T);

/// A type whose fields can be populated from the flat string-keyed pairs of a
/// URL-encoded form — the shape a caller's handler declares. Population may
/// fail, for instance when a required key is missing or a value does not
/// convert.
pub trait FromFormPairs: Sized {
    /// Populate a value from decoded key-value pairs, or refuse them.
    fn from_form_pairs(pairs: Vec<(String, String)>) -> Option<Self>;
}

/// The guard stage: accept the request if and only if its content-type header
/// denotes URL-encoded form data; otherwise refuse it as an unsupported media
/// type. The body plays no part here.
pub fn check_content_type(content_type: Option<&str>) -> (result: Result<(), Rejection>)
    ensures
        result is Ok <==> spec_accepts_content_type(spec_content_type(content_type)),
        result is Err ==> result == Err::<(), Rejection>(Rejection::UnsupportedMediaType),
{
    if is_htmx_content_type(content_type) {
        Ok(())
    } else {
        Err(Rejection::UnsupportedMediaType)
    }
}

/// Wrap the outcome of populating the caller's type from decoded pairs: a
/// value that could not be populated is refused as a bad request, and a
/// populated one is returned exactly as it came.
pub fn finish_extraction<T>(decoded: Option<T>) -> (result: Result<HtmxPostRequest<T>, Rejection>)
    ensures
        match decoded {
            Some(value) => result matches Ok(wrapped) && wrapped.0 == value,
            None => result == Err::<HtmxPostRequest<T>, Rejection>(Rejection::BadRequest),
        },
{
    match decoded {
        Some(value) => Ok(HtmxPostRequest(value)),
        None => Err(Rejection::BadRequest),
    }
}

/// The decode stage: decode a body into the caller's type. Every rejection
/// here is a bad request; a body whose pairs do not decode is always
/// rejected, and a decoded value is only ever built from those pairs.
pub fn decode_form<T: FromFormPairs>(body: &[u8]) -> (result: Result<HtmxPostRequest<T>, Rejection>)
    ensures
        form_pairs(body@) is None ==> result == Err::<HtmxPostRequest<T>, Rejection>(
            Rejection::BadRequest,
        ),
        result is Ok ==> form_pairs(body@) is Some,
        result is Err ==> result == Err::<HtmxPostRequest<T>, Rejection>(Rejection::BadRequest),
{
    match decode_pairs(body) {
        Ok(pairs) => finish_extraction(T::from_form_pairs(pairs)),
        Err(rejection) => Err(rejection),
    }
}

/// The decode stage fed with the outcome of reading the body, `None` standing
/// for a failed read (an I/O error, or a size limit): a failed read and an
/// undecodable body are both bad requests.
pub fn extract_read_body<T: FromFormPairs>(body_read: Option<Vec<u8>>) -> (result: Result<
    HtmxPostRequest<T>,
    Rejection,
>)
    ensures
        match body_read {
            None => result == Err::<HtmxPostRequest<T>, Rejection>(Rejection::BadRequest),
            Some(bytes) => {
                &&& form_pairs(bytes@) is None ==> result == Err::<HtmxPostRequest<T>, Rejection>(
                    Rejection::BadRequest,
                )
                &&& result is Ok ==> form_pairs(bytes@) is Some
                &&& result is Err ==> result == Err::<HtmxPostRequest<T>, Rejection>(
                    Rejection::BadRequest,
                )
            },
        },
{
    match body_read {
        Some(bytes) => decode_form(bytes.as_slice()),
        None => Err(Rejection::BadRequest),
    }
}

/// The body-read outcome as the pipeline sees it: the bytes, or a failed read.
pub open spec fn spec_body_read(body_read: Option<Vec<u8>>) -> Option<Seq<u8>> {
    match body_read {
        Some(bytes) => Some(bytes@),
        None => None,
    }
}

/// The outcome of one whole extraction attempt, as a function of the
/// content-type header and of the outcome of reading the body: the decoded
/// key-value pairs, or the rejection to answer with. An unacceptable
/// content-type is decisive before the body is looked at.
pub open spec fn spec_extraction_outcome(
    content_type: Option<Seq<char>>,
    body_read: Option<Seq<u8>>,
) -> Result<Seq<(Seq<char>, Seq<char>)>, Rejection> {
    if !spec_accepts_content_type(content_type) {
        Err(Rejection::UnsupportedMediaType)
    } else {
        match body_read {
            None => Err(Rejection::BadRequest),
            Some(body) => match form_pairs(body) {
                None => Err(Rejection::BadRequest),
                Some(pairs) => Ok(pairs),
            },
        }
    }
}

/// One whole extraction attempt at the key-value level: the content-type
/// guard, then decoding of the body-read outcome. This puts the decision in
/// one place; a caller that must not read the body before the guard passes
/// uses the staged functions (`check_content_type`, then `decode_form`)
/// instead, which this function composes.
pub fn extraction_outcome(content_type: Option<&str>, body_read: Option<Vec<u8>>) -> (result:
    Result<Vec<(String, String)>, Rejection>)
    ensures
        match result {
            Ok(pairs) => spec_extraction_outcome(
                spec_content_type(content_type),
                spec_body_read(body_read),
            ) == Ok::<Seq<(Seq<char>, Seq<char>)>, Rejection>(spec_pairs(pairs@)),
            Err(rejection) => spec_extraction_outcome(
                spec_content_type(content_type),
                spec_body_read(body_read),
            ) == Err::<Seq<(Seq<char>, Seq<char>)>, Rejection>(rejection),
        },
{
    match check_content_type(content_type) {
        Ok(_accepted) => match body_read {
            None => Err(Rejection::BadRequest),
            Some(bytes) => decode_pairs(bytes.as_slice()),
        },
        Err(rejection) => Err(rejection),
    }
}

} // verus!
