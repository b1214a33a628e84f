//! Tests of the whole extraction pipeline: the content-type guard followed by
//! the body-decoding stage, as a request handler would run them.

use htmx_form::Rejection;
use htmx_form::extract::FromFormPairs;
use htmx_form::extract::HtmxPostRequest;
use htmx_form::extract::check_content_type;
use htmx_form::extract::decode_form;
use htmx_form::media_type::MediaType;
use htmx_form::media_type::is_form_media_type;

#[derive(Debug)]
struct Input {
    foo: String,
}

impl FromFormPairs for Input {
    fn from_form_pairs(pairs: Vec<(String, String)>) -> Option<Input> {
        let mut foo: Option<String> = None;
        for (key, value) in pairs {
            if key == "foo" {
                foo = Some(value);
            }
        }
        foo.map(|foo| Input { foo })
    }
}

fn extract_input(
    content_type: Option<&str>,
    body: &[u8],
) -> Result<HtmxPostRequest<Input>, Rejection> {
    check_content_type(content_type)?;
    decode_form::<Input>(body)
}

#[test]
fn deserialize_body() {
    let result = extract_input(Some("application/x-www-form-urlencoded"), b"foo=bar");
    let HtmxPostRequest(input) = result.unwrap();
    assert_eq!(input.foo, "bar");
}

#[test]
fn consume_body_to_htmx_requires_form_urlencoded_content_type() {
    let result = extract_input(None, b"foo=bar");
    let rejection = result.unwrap_err();
    assert_eq!(rejection, Rejection::UnsupportedMediaType);
    assert_eq!(rejection.status_code(), 415);
}

#[test]
fn form_urlencoded_content_types() {
    fn valid_form_urlencoded_content_type(content_type: &str) -> bool {
        println!("testing {content_type:?}");
        extract_input(Some(content_type), b"foo=bar").is_ok()
    }

    assert!(valid_form_urlencoded_content_type("application/x-www-form-urlencoded"));
    assert!(valid_form_urlencoded_content_type("application/x-www-form-urlencoded; charset=utf-8"));
    assert!(valid_form_urlencoded_content_type("application/x-www-form-urlencoded;charset=utf-8"));
    assert!(valid_form_urlencoded_content_type("application/cloudevents+x-www-form-urlencoded"));
    assert!(!valid_form_urlencoded_content_type("text/x-www-form-urlencoded"));
}

#[test]
fn invalid_form_urlencoded_syntax() {
    let result = extract_input(Some("application/x-www-form-urlencoded"), b"fo&&");
    let rejection = result.unwrap_err();
    assert_eq!(rejection, Rejection::BadRequest);
    assert_eq!(rejection.status_code(), 400);
}

#[test]
fn unparseable_content_type_rejected() {
    assert_eq!(
        extract_input(Some("not a media type"), b"foo=bar").unwrap_err(),
        Rejection::UnsupportedMediaType,
    );
    assert_eq!(
        extract_input(Some("application"), b"foo=bar").unwrap_err(),
        Rejection::UnsupportedMediaType,
    );
    assert_eq!(
        extract_input(Some(""), b"foo=bar").unwrap_err(),
        Rejection::UnsupportedMediaType,
    );
}

#[test]
fn classification_reads_only_the_parts() {
    let faceted = MediaType {
        top_level: "application".to_string(),
        subtype: "cloudevents".to_string(),
        suffix: Some("x-www-form-urlencoded".to_string()),
    };
    assert!(is_form_media_type(&faceted));

    let wrong_top = MediaType {
        top_level: "text".to_string(),
        subtype: "x-www-form-urlencoded".to_string(),
        suffix: None,
    };
    assert!(!is_form_media_type(&wrong_top));

    let plain = MediaType {
        top_level: "application".to_string(),
        subtype: "x-www-form-urlencoded".to_string(),
        suffix: None,
    };
    assert!(is_form_media_type(&plain));
}

#[test]
fn content_type_case_insensitive() {
    let result = extract_input(Some("APPLICATION/X-WWW-FORM-URLENCODED"), b"foo=bar");
    let HtmxPostRequest(input) = result.unwrap();
    assert_eq!(input.foo, "bar");
}

#[test]
fn faceted_suffix_extracts_value() {
    let result = extract_input(Some("application/cloudevents+x-www-form-urlencoded"), b"foo=bar");
    let HtmxPostRequest(input) = result.unwrap();
    assert_eq!(input.foo, "bar");
}

#[test]
fn wrong_top_level_type_keeps_suffix_out() {
    let result = extract_input(Some("text/cloudevents+x-www-form-urlencoded"), b"foo=bar");
    assert_eq!(result.unwrap_err(), Rejection::UnsupportedMediaType);
}

#[test]
fn missing_required_key_is_bad_request() {
    let result = extract_input(Some("application/x-www-form-urlencoded"), b"bar=foo");
    assert_eq!(result.unwrap_err(), Rejection::BadRequest);
}
