//! Laws of the extraction pipeline, stated over its mathematical model and
//! proved once for all inputs.

use vstd::prelude::*;
use crate::Rejection;
use crate::extract::spec_extraction_outcome;
use crate::form::form_pairs;
use crate::media_type::MediaTypeSpec;
use crate::media_type::parsed_media_type;
use crate::media_type::spec_accepts_content_type;

verus! {

/// A request with the canonical form media type — top-level type
/// `application`, subtype `x-www-form-urlencoded` — and a body that decodes
/// succeeds, with exactly the decoded key-value pairs.
pub proof fn lemma_canonical_media_type_succeeds(
    content_type: Seq<char>,
    m: MediaTypeSpec,
    body: Seq<u8>,
    pairs: Seq<(Seq<char>, Seq<char>)>,
)
    requires
        parsed_media_type(content_type) == Some(m),
        m.top_level == "application"@,
        m.subtype == "x-www-form-urlencoded"@,
        form_pairs(body) == Some(pairs),
    ensures
        spec_extraction_outcome(Some(content_type), Some(body)) == Ok::<
            Seq<(Seq<char>, Seq<char>)>,
            Rejection,
        >(pairs),
{
}

/// A request with no content-type header is rejected as an unsupported media
/// type, whatever the body holds and whether or not its read succeeded.
pub proof fn lemma_missing_content_type_rejected(body_read: Option<Seq<u8>>)
    ensures
        spec_extraction_outcome(None, body_read) == Err::<
            Seq<(Seq<char>, Seq<char>)>,
            Rejection,
        >(Rejection::UnsupportedMediaType),
{
}

/// The top-level type is decisive: a media type whose top-level type is not
/// `application` is rejected as an unsupported media type, even when its
/// subtype or suffix is `x-www-form-urlencoded`.
pub proof fn lemma_top_level_type_decisive(
    content_type: Seq<char>,
    m: MediaTypeSpec,
    body_read: Option<Seq<u8>>,
)
    requires
        parsed_media_type(content_type) == Some(m),
        m.top_level != "application"@,
    ensures
        spec_extraction_outcome(Some(content_type), body_read) == Err::<
            Seq<(Seq<char>, Seq<char>)>,
            Rejection,
        >(Rejection::UnsupportedMediaType),
{
}

/// Suffix matching is facet-agnostic: under the top-level type `application`,
/// any media type whose structured-syntax suffix is `x-www-form-urlencoded`
/// is accepted, whatever its subtype, and extraction succeeds on a body that
/// decodes.
pub proof fn lemma_suffix_facet_agnostic(
    content_type: Seq<char>,
    m: MediaTypeSpec,
    body: Seq<u8>,
    pairs: Seq<(Seq<char>, Seq<char>)>,
)
    requires
        parsed_media_type(content_type) == Some(m),
        m.top_level == "application"@,
        m.suffix == Some("x-www-form-urlencoded"@),
        form_pairs(body) == Some(pairs),
    ensures
        spec_accepts_content_type(Some(content_type)),
        spec_extraction_outcome(Some(content_type), Some(body)) == Ok::<
            Seq<(Seq<char>, Seq<char>)>,
            Rejection,
        >(pairs),
{
}

/// Classification reads nothing but the parsed top-level type, subtype and
/// suffix: two content-type strings that parse alike — such as one with and
/// one without parameters like `charset` — lead to the same extraction
/// outcome on every body.
pub proof fn lemma_parameters_never_decide(
    content_type_a: Seq<char>,
    content_type_b: Seq<char>,
    body_read: Option<Seq<u8>>,
)
    requires
        parsed_media_type(content_type_a) == parsed_media_type(content_type_b),
    ensures
        spec_extraction_outcome(Some(content_type_a), body_read) == spec_extraction_outcome(
            Some(content_type_b),
            body_read,
        ),
{
}

/// A body that does not decode as URL-encoded pairs is rejected as a bad
/// request whenever the content-type was acceptable.
pub proof fn lemma_undecodable_body_rejected(content_type: Option<Seq<char>>, body: Seq<u8>)
    requires
        spec_accepts_content_type(content_type),
        form_pairs(body) is None,
    ensures
        spec_extraction_outcome(content_type, Some(body)) == Err::<
            Seq<(Seq<char>, Seq<char>)>,
            Rejection,
        >(Rejection::BadRequest),
{
}

/// Extraction is isolated and stateless: its outcome is a function of the
/// content-type header and the body-read outcome alone, so two independent
/// attempts on equal inputs end equal.
pub proof fn lemma_extraction_isolated(
    content_type: Option<Seq<char>>,
    body_read: Option<Seq<u8>>,
    first: Result<Seq<(Seq<char>, Seq<char>)>, Rejection>,
    second: Result<Seq<(Seq<char>, Seq<char>)>, Rejection>,
)
    requires
        first == spec_extraction_outcome(content_type, body_read),
        second == spec_extraction_outcome(content_type, body_read),
    ensures
        first == second,
{
}

} // verus!
