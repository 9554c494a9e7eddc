//! End-to-end tests of request serialization, request description, and
//! response handling, run against the real outside serializers.

use serenity_oauth::form::u64_to_decimal;
use serenity_oauth::request::{
    code_exchange_body, code_exchange_request, fetch_user_request, handle_token_response,
    handle_user_response, refresh_token_body, refresh_token_request, HttpMethod,
};
use serenity_oauth::{
    AccessTokenExchangeRequest, Error, RefreshTokenRequest, BASE_ME_URI, BASE_TOKEN_URI,
};

#[test]
fn code_exchange_body_encodes_exactly_the_four_fields() {
    let request = AccessTokenExchangeRequest::new(
        249608697955745802,
        "s3cr3t!",
        "some code",
        "https://example.org/cb?x=1",
    );
    let body = code_exchange_body(&request).unwrap();
    assert_eq!(
        body,
        "client_id=249608697955745802&client_secret=s3cr3t%21&code=some+code\
         &redirect_uri=https%3A%2F%2Fexample.org%2Fcb%3Fx%3D1"
    );
}

#[test]
fn code_exchange_body_round_trips_through_the_form_decoder() {
    let request = AccessTokenExchangeRequest::new(7, "comté", "a b&c=d", "https://example.org");
    let body = code_exchange_body(&request).unwrap();
    let decoded: Vec<(String, String)> = serde_urlencoded::from_str(&body).unwrap();
    assert_eq!(
        decoded,
        vec![
            ("client_id".to_string(), "7".to_string()),
            ("client_secret".to_string(), "comté".to_string()),
            ("code".to_string(), "a b&c=d".to_string()),
            ("redirect_uri".to_string(), "https://example.org".to_string()),
        ]
    );
}

#[test]
fn refresh_token_body_encodes_exactly_the_four_fields() {
    let request = RefreshTokenRequest::new(42, "hunter2", "r/t", "urn:example");
    let body = refresh_token_body(&request).unwrap();
    assert_eq!(
        body,
        "client_id=42&client_secret=hunter2&refresh_token=r%2Ft&redirect_uri=urn%3Aexample"
    );
}

#[test]
fn refresh_token_body_round_trips_through_the_form_decoder() {
    let request = RefreshTokenRequest::new(9000, "p@ss word", "tok*en-._", "https://a.example/");
    let body = refresh_token_body(&request).unwrap();
    let decoded: Vec<(String, String)> = serde_urlencoded::from_str(&body).unwrap();
    assert_eq!(
        decoded,
        vec![
            ("client_id".to_string(), "9000".to_string()),
            ("client_secret".to_string(), "p@ss word".to_string()),
            ("refresh_token".to_string(), "tok*en-._".to_string()),
            ("redirect_uri".to_string(), "https://a.example/".to_string()),
        ]
    );
}

#[test]
fn form_encoding_keeps_and_escapes_the_documented_bytes() {
    let request = RefreshTokenRequest::new(1, "*-._~", "100%", "ü");
    let body = refresh_token_body(&request).unwrap();
    assert_eq!(
        body,
        "client_id=1&client_secret=*-._%7E&refresh_token=100%25&redirect_uri=%C3%BC"
    );
}

#[test]
fn u64_to_decimal_renders_edge_values() {
    assert_eq!(u64_to_decimal(0), "0");
    assert_eq!(u64_to_decimal(10), "10");
    assert_eq!(u64_to_decimal(604800), "604800");
    assert_eq!(u64_to_decimal(u64::MAX), "18446744073709551615");
}

#[test]
fn code_exchange_request_describes_the_token_post() {
    let request = AccessTokenExchangeRequest::new(1, "s", "c", "u");
    let described = code_exchange_request(&request).unwrap();
    assert!(matches!(described.method, HttpMethod::Post));
    assert_eq!(described.uri, BASE_TOKEN_URI);
    assert_eq!(
        described.content_type,
        Some("application/x-www-form-urlencoded".to_string())
    );
    assert_eq!(described.authorization, None);
    assert_eq!(
        described.query,
        Some("client_id=1&client_secret=s&code=c&redirect_uri=u".to_string())
    );
}

#[test]
fn refresh_token_request_omits_the_content_type() {
    let request = RefreshTokenRequest::new(1, "s", "r", "u");
    let described = refresh_token_request(&request).unwrap();
    assert!(matches!(described.method, HttpMethod::Post));
    assert_eq!(described.uri, BASE_TOKEN_URI);
    assert_eq!(described.content_type, None);
    assert_eq!(described.authorization, None);
    assert_eq!(
        described.query,
        Some("client_id=1&client_secret=s&refresh_token=r&redirect_uri=u".to_string())
    );
}

#[test]
fn fetch_user_request_sends_the_bearer_header() {
    let described = fetch_user_request("sometoken");
    assert!(matches!(described.method, HttpMethod::Get));
    assert_eq!(described.uri, BASE_ME_URI);
    assert_eq!(described.authorization, Some("Bearer sometoken".to_string()));
    assert_eq!(described.content_type, None);
    assert_eq!(described.query, None);
}

#[test]
fn fetch_user_request_keeps_an_empty_token() {
    let described = fetch_user_request("");
    assert!(matches!(described.method, HttpMethod::Get));
    assert_eq!(described.authorization, Some("Bearer ".to_string()));
}

#[test]
fn token_response_decodes_the_fixed_document() {
    let body = "{\"access_token\":\"abc\",\"token_type\":\"Bearer\",\"expires_in\":604800,\
                \"refresh_token\":\"def\",\"scope\":\"identify\"}";
    let response = handle_token_response(200, body).unwrap();
    assert_eq!(response.access_token, "abc");
    assert_eq!(response.token_type, "Bearer");
    assert_eq!(response.expires_in, 604800);
    assert_eq!(response.refresh_token, "def");
    assert_eq!(response.scope, "identify");
}

#[test]
fn token_response_fails_on_an_error_status() {
    let body = "{\"access_token\":\"abc\",\"token_type\":\"Bearer\",\"expires_in\":604800,\
                \"refresh_token\":\"def\",\"scope\":\"identify\"}";
    let result = handle_token_response(404, body);
    assert!(matches!(result, Err(Error::Reqwest(_))));
}

#[test]
fn token_response_fails_on_a_malformed_body() {
    let result = handle_token_response(200, "not json at all");
    assert!(matches!(result, Err(Error::Json(_))));
}

#[test]
fn token_response_is_never_partially_populated() {
    let result = handle_token_response(200, "{\"access_token\":\"abc\"}");
    assert!(matches!(result, Err(Error::Json(_))));
}

#[test]
fn token_response_rejects_a_wrongly_typed_member() {
    let body = "{\"access_token\":\"abc\",\"token_type\":\"Bearer\",\"expires_in\":\"soon\",\
                \"refresh_token\":\"def\",\"scope\":\"identify\"}";
    let result = handle_token_response(200, body);
    assert!(matches!(result, Err(Error::Json(_))));
}

#[test]
fn user_response_decodes_a_minimal_record() {
    let user = handle_user_response(200, "{\"id\":\"123\",\"username\":\"alice\"}").unwrap();
    assert_eq!(user.id, "123");
    assert_eq!(user.username, "alice");
    assert_eq!(user.discriminator, None);
    assert_eq!(user.avatar, None);
}

#[test]
fn user_response_keeps_the_optional_members() {
    let body = "{\"id\":\"9\",\"username\":\"bob\",\"discriminator\":\"0001\",\
                \"avatar\":\"a1b2\"}";
    let user = handle_user_response(200, body).unwrap();
    assert_eq!(user.id, "9");
    assert_eq!(user.username, "bob");
    assert_eq!(user.discriminator, Some("0001".to_string()));
    assert_eq!(user.avatar, Some("a1b2".to_string()));
}

#[test]
fn user_response_fails_on_an_error_status() {
    let result = handle_user_response(500, "{\"id\":\"123\",\"username\":\"alice\"}");
    assert!(matches!(result, Err(Error::Reqwest(_))));
}

#[test]
fn user_response_fails_on_a_malformed_body() {
    let result = handle_user_response(200, "{\"username\":\"alice\"}");
    assert!(matches!(result, Err(Error::Json(_))));
}

#[test]
fn error_description_reports_the_cause() {
    assert_eq!(Error::Reqwest("t".to_string()).description(), "t");
    assert_eq!(Error::Json("d".to_string()).description(), "d");
    assert_eq!(Error::UrlEncode("e".to_string()).description(), "e");
}
