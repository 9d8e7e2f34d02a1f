//! Response classification: success passes the body through; a non-success
//! status carries the server's message when the error envelope parses, and
//! the fixed sentinel when it does not.

use bitbucket::error::Error;
use bitbucket::internal_api::{classify, extract_error_message, parse_response, Outcome};
use bitbucket::repository::Repository;

#[test]
fn success_status_passes_body_through() {
    let r = classify(200, "{\"values\":[]}".to_string());
    assert_eq!(r, Outcome::Success("{\"values\":[]}".to_string()));
    let r = classify(299, "x".to_string());
    assert_eq!(r, Outcome::Success("x".to_string()));
}

#[test]
fn non_success_status_carries_server_message() {
    let r = classify(500, "{\"error\":{\"message\":\"boom\"}}".to_string());
    assert_eq!(r, Outcome::ProtocolError(500, "boom".to_string()));
}

#[test]
fn malformed_error_body_degrades_to_sentinel() {
    let r = classify(500, "not json {{".to_string());
    assert_eq!(r, Outcome::ProtocolError(500, "unspecified error".to_string()));
}

#[test]
fn error_envelope_without_message_degrades_to_sentinel() {
    assert_eq!(
        extract_error_message("{\"error\":{}}"),
        "unspecified error"
    );
    assert_eq!(extract_error_message("{}"), "unspecified error");
    assert_eq!(
        extract_error_message("{\"error\":{\"message\":7}}"),
        "unspecified error"
    );
    assert_eq!(
        extract_error_message("{\"error\":{\"message\":\"nope\"}}"),
        "nope"
    );
}

#[test]
fn single_resource_fetch_failure_carries_message_and_status() {
    let r = parse_response::<Repository>(
        "https://api.example.org/2.0/repositories/a/b",
        404,
        "{\"error\":{\"message\":\"nope\"}}".to_string(),
    );
    match r {
        Err(Error::ErrorResponse { url, status_code, message }) => {
            assert_eq!(url, "https://api.example.org/2.0/repositories/a/b");
            assert_eq!(status_code, 404);
            assert_eq!(message, "nope");
        }
        other => panic!("expected ErrorResponse, got {:?}", other),
    }
}

#[test]
fn single_resource_fetch_failure_with_unparseable_body_uses_sentinel() {
    let r = parse_response::<Repository>("https://x.example/y", 503, "<html>".to_string());
    match r {
        Err(Error::ErrorResponse { status_code, message, .. }) => {
            assert_eq!(status_code, 503);
            assert_eq!(message, "unspecified error");
        }
        other => panic!("expected ErrorResponse, got {:?}", other),
    }
}

#[test]
fn success_with_malformed_body_is_a_deserialization_failure() {
    let r = parse_response::<Repository>("https://x.example/y", 200, "][".to_string());
    assert!(matches!(r, Err(Error::Deserialization { .. })));
    let r = parse_response::<Repository>("https://x.example/y", 200, "{}".to_string());
    assert!(matches!(r, Err(Error::Deserialization { .. })));
}

#[test]
fn error_descriptions_render_url_status_and_message() {
    let e = Error::ErrorResponse {
        url: "u".to_string(),
        status_code: 404,
        message: "nope".to_string(),
    };
    assert_eq!(e.describe(), "Error on 'u': 404 - nope");
    let e = Error::InvalidUrl { url: "::x".to_string() };
    assert_eq!(e.describe(), "Error converting to url '::x'");
    let e = Error::Http { url: "u".to_string(), detail: "down".to_string() };
    assert_eq!(e.describe(), "HTTP error on 'u': down");
    let e = Error::Deserialization { detail: "bad".to_string() };
    assert_eq!(e.describe(), "Deserialization error: bad");
}

#[test]
fn decimal_rendering_of_status_codes() {
    assert_eq!(bitbucket::error::decimal_string(0), "0");
    assert_eq!(bitbucket::error::decimal_string(7), "7");
    assert_eq!(bitbucket::error::decimal_string(404), "404");
    assert_eq!(bitbucket::error::decimal_string(65535), "65535");
}
