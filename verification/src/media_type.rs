//! Content-type classification: deciding, from the `Content-Type` header of a
//! request, whether its body should be treated as URL-encoded form data.

use vstd::prelude::*;

verus! {

/// The parts of a parsed media type that classification reads: the top-level
/// type, the subtype, and the optional structured-syntax suffix (the part of
/// the subtype after a `+`, such as `json` in `application/ld+json`).
/// Parameters such as `charset` are not kept: they never affect
/// classification.
pub struct MediaType {
    pub top_level: String,
    pub subtype: String,
    pub suffix: Option<String>,
}

/// The mathematical content of a `MediaType`.
pub struct MediaTypeSpec {
    pub top_level: Seq<char>,
    pub subtype: Seq<char>,
    pub suffix: Option<Seq<char>>,
}

impl View for MediaType {
    type V = MediaTypeSpec;

    open spec fn view(&self) -> MediaTypeSpec {
        MediaTypeSpec {
            top_level: self.top_level@,
            subtype: self.subtype@,
            suffix: match self.suffix {
                Some(s) => Some(s@),
                None => None,
            },
        }
    }
}

/// What the media-type parser makes of a content-type string: its top-level
/// type, subtype and optional suffix (ASCII-lowercased), or nothing when the
/// string is not a valid media type. The parse depends on the string alone.
pub uninterp spec fn parsed_media_type(s: Seq<char>) -> Option<MediaTypeSpec>;

/// Relies on `str::parse::<mime::Mime>`, the mime crate's media-type parser,
/// to split a content-type string into top-level type, subtype and optional
/// structured-syntax suffix; the parser stores these parts ASCII-lowercased,
/// and `Name::as_str` hands each back as a plain string slice.
#[verifier::external_body]
fn parse_media_type(s: &str) -> (parsed: Option<MediaType>)
    ensures
        match parsed {
            Some(m) => parsed_media_type(s@) == Some(m@),
            None => parsed_media_type(s@) is None,
        },
{
    match s.parse::<mime::Mime>() {
        Ok(m) => Some(MediaType {
            top_level: m.type_().as_str().to_string(),
            subtype: m.subtype().as_str().to_string(),
            suffix: match m.suffix() {
                Some(name) => Some(name.as_str().to_string()),
                None => None,
            },
        }),
        Err(_) => None,
    }
}

/// The classification rule: URL-encoded form data is denoted by the top-level
/// type `application` together with either the subtype `x-www-form-urlencoded`
/// or that same string as the structured-syntax suffix. Any other top-level
/// type is refused, whatever the subtype or suffix.
pub open spec fn spec_is_form_media_type(m: MediaTypeSpec) -> bool {
    &&& m.top_level == "application"@
    &&& {
        ||| m.subtype == "x-www-form-urlencoded"@
        ||| m.suffix == Some("x-www-form-urlencoded"@)
    }
}

/// Whether a parsed media type denotes URL-encoded form data.
pub fn is_form_media_type(m: &MediaType) -> (accepted: bool)
    ensures
        accepted == spec_is_form_media_type(m@),
{
    let application: String = String::from_str("application");
    let form_urlencoded: String = String::from_str("x-www-form-urlencoded");
    if m.top_level == application {
        if m.subtype == form_urlencoded {
            true
        } else {
            match &m.suffix {
                Some(suffix) => *suffix == form_urlencoded,
                None => false,
            }
        }
    } else {
        false
    }
}

/// The content-type header as classification sees it: absent, or its value as
/// a string.
pub open spec fn spec_content_type(content_type: Option<&str>) -> Option<Seq<char>> {
    match content_type {
        Some(s) => Some(s@),
        None => None,
    }
}

/// Whether a content-type header value is accepted: it must be present, parse
/// as a media type, and classify as URL-encoded form data.
pub open spec fn spec_accepts_content_type(content_type: Option<Seq<char>>) -> bool {
    match content_type {
        None => false,
        Some(s) => match parsed_media_type(s) {
            None => false,
            Some(m) => spec_is_form_media_type(m),
        },
    }
}

/// Whether the request carries the content-type of an "htmx"-style form post.
/// `None` stands for a missing header, and also for a header value that is not
/// a valid string: both are refused.
pub fn is_htmx_content_type(content_type: Option<&str>) -> (accepted: bool)
    ensures
        accepted == spec_accepts_content_type(spec_content_type(content_type)),
{
    match content_type {
        None => false,
        Some(raw) => match parse_media_type(raw) {
            None => false,
            Some(m) => is_form_media_type(&m),
        },
    }
}

} // verus!
