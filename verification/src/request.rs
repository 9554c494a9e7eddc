//! The requester capability: what each of the three operations sends
//! and how its response decodes. A concrete HTTP client binding builds
//! the described request, performs it, and hands the status and body
//! back to the verified handlers.

use vstd::prelude::*;
use vstd::utf8::{decode_utf8, encode_utf8, encode_utf8_decode_utf8};

use crate::error::Error;
use crate::form::{
    pairs_utf8, spec_decimal_chars, spec_form_decode, spec_form_urlencode, u64_to_decimal,
    urlencode_string_pairs,
};
use crate::json::{
    decode_token_response, decode_user_response, token_response_decodable,
    token_response_matches, user_decodable, user_matches,
};
use crate::model::{
    AccessTokenExchangeRequest, AccessTokenResponse, AuthDiscordUser, RefreshTokenRequest,
};
use crate::{BASE_ME_URI, BASE_TOKEN_URI};

verus! {

/// The HTTP method of a described request.
pub enum HttpMethod {
    /// An HTTP GET.
    Get,
    /// An HTTP POST.
    Post,
}

/// A description of one outbound HTTP request: everything a transport
/// needs in order to perform it.
pub struct HttpRequest {
    /// The method to use.
    pub method: HttpMethod,
    /// The URI to address.
    pub uri: String,
    /// The `Content-Type` header to send, if any.
    pub content_type: Option<String>,
    /// The `Authorization` header to send, if any.
    pub authorization: Option<String>,
    /// The URL-encoded payload to place as the query, if any.
    pub query: Option<String>,
}

/// The key/value pairs a code-exchange request serializes into, in
/// order, as UTF-8 bytes: exactly the four fields.
pub open spec fn code_exchange_pairs(r: AccessTokenExchangeRequest) -> Seq<(Seq<u8>, Seq<u8>)> {
    seq![
        (encode_utf8("client_id"@), encode_utf8(spec_decimal_chars(r.client_id as nat))),
        (encode_utf8("client_secret"@), encode_utf8(r.client_secret@)),
        (encode_utf8("code"@), encode_utf8(r.code@)),
        (encode_utf8("redirect_uri"@), encode_utf8(r.redirect_uri@)),
    ]
}

/// The key/value pairs a refresh-token request serializes into, in
/// order, as UTF-8 bytes: exactly the four fields.
pub open spec fn refresh_token_pairs(r: RefreshTokenRequest) -> Seq<(Seq<u8>, Seq<u8>)> {
    seq![
        (encode_utf8("client_id"@), encode_utf8(spec_decimal_chars(r.client_id as nat))),
        (encode_utf8("client_secret"@), encode_utf8(r.client_secret@)),
        (encode_utf8("refresh_token"@), encode_utf8(r.refresh_token@)),
        (encode_utf8("redirect_uri"@), encode_utf8(r.redirect_uri@)),
    ]
}

/// Serializes a code-exchange request as URL-encoded form data.
pub fn code_exchange_body(request: &AccessTokenExchangeRequest) -> (r: Result<String, Error>)
    ensures
        r is Ok,
        r matches Ok(s) ==> encode_utf8(s@) == spec_form_urlencode(code_exchange_pairs(*request)),
        r matches Err(e) ==> e is UrlEncode,
{
    let mut pairs: Vec<(String, String)> = Vec::new();
    pairs.push(("client_id".to_owned(), u64_to_decimal(request.client_id)));
    pairs.push(("client_secret".to_owned(), request.client_secret.clone()));
    pairs.push(("code".to_owned(), request.code.clone()));
    pairs.push(("redirect_uri".to_owned(), request.redirect_uri.clone()));
    proof {
        assert(pairs_utf8(pairs@) =~= code_exchange_pairs(*request));
    }
    match urlencode_string_pairs(&pairs) {
        Ok(s) => Ok(s),
        Err(m) => Err(Error::UrlEncode(m)),
    }
}

/// Serializes a refresh-token request as URL-encoded form data.
pub fn refresh_token_body(request: &RefreshTokenRequest) -> (r: Result<String, Error>)
    ensures
        r is Ok,
        r matches Ok(s) ==> encode_utf8(s@) == spec_form_urlencode(refresh_token_pairs(*request)),
        r matches Err(e) ==> e is UrlEncode,
{
    let mut pairs: Vec<(String, String)> = Vec::new();
    pairs.push(("client_id".to_owned(), u64_to_decimal(request.client_id)));
    pairs.push(("client_secret".to_owned(), request.client_secret.clone()));
    pairs.push(("refresh_token".to_owned(), request.refresh_token.clone()));
    pairs.push(("redirect_uri".to_owned(), request.redirect_uri.clone()));
    proof {
        assert(pairs_utf8(pairs@) =~= refresh_token_pairs(*request));
    }
    match urlencode_string_pairs(&pairs) {
        Ok(s) => Ok(s),
        Err(m) => Err(Error::UrlEncode(m)),
    }
}

/// Describes the POST a code exchange issues: the token endpoint, an
/// explicit form content type, and the encoded body as the query
/// payload.
pub fn code_exchange_request(request: &AccessTokenExchangeRequest) -> (r: Result<
    HttpRequest,
    Error,
>)
    ensures
        r is Ok,
        r matches Ok(h) ==> {
            &&& h.method is Post
            &&& h.uri@ == BASE_TOKEN_URI@
            &&& h.content_type matches Some(c) && c@ == "application/x-www-form-urlencoded"@
            &&& h.authorization is None
            &&& h.query matches Some(q) && encode_utf8(q@) == spec_form_urlencode(
                code_exchange_pairs(*request),
            )
        },
        r matches Err(e) ==> e is UrlEncode,
{
    match code_exchange_body(request) {
        Ok(body) => Ok(
            HttpRequest {
                method: HttpMethod::Post,
                uri: BASE_TOKEN_URI.to_owned(),
                content_type: Some("application/x-www-form-urlencoded".to_owned()),
                authorization: None,
                query: Some(body),
            },
        ),
        Err(e) => Err(e),
    }
}

/// Describes the POST a refresh-token exchange issues: the same token
/// endpoint and query payload, with no explicit content type — the
/// transport's default applies.
pub fn refresh_token_request(request: &RefreshTokenRequest) -> (r: Result<HttpRequest, Error>)
    ensures
        r is Ok,
        r matches Ok(h) ==> {
            &&& h.method is Post
            &&& h.uri@ == BASE_TOKEN_URI@
            &&& h.content_type is None
            &&& h.authorization is None
            &&& h.query matches Some(q) && encode_utf8(q@) == spec_form_urlencode(
                refresh_token_pairs(*request),
            )
        },
        r matches Err(e) ==> e is UrlEncode,
{
    match refresh_token_body(request) {
        Ok(body) => Ok(
            HttpRequest {
                method: HttpMethod::Post,
                uri: BASE_TOKEN_URI.to_owned(),
                content_type: None,
                authorization: None,
                query: Some(body),
            },
        ),
        Err(e) => Err(e),
    }
}

/// Describes the GET a user fetch issues: the current-user endpoint
/// with a bearer `Authorization` header. The token goes in verbatim —
/// an empty token still yields `Bearer ` with nothing after the space.
pub fn fetch_user_request(token: &str) -> (r: HttpRequest)
    ensures
        r.method is Get,
        r.uri@ == BASE_ME_URI@,
        r.content_type is None,
        r.authorization matches Some(a) && a@ == "Bearer "@ + token@,
        r.query is None,
{
    let authorization = "Bearer ".to_owned().concat(token);
    HttpRequest {
        method: HttpMethod::Get,
        uri: BASE_ME_URI.to_owned(),
        content_type: None,
        authorization: Some(authorization),
        query: None,
    }
}

/// True of the HTTP status codes that count as success.
pub open spec fn is_success_status(status: u16) -> bool {
    200 <= status && status < 300
}

/// Turns a token-endpoint answer into the call's result: an error
/// status is a transport failure whatever the body says; a success
/// status decodes exactly when the body holds all five members.
pub fn handle_token_response(status: u16, body: &str) -> (r: Result<AccessTokenResponse, Error>)
    ensures
        !is_success_status(status) ==> (r matches Err(e) && e is Reqwest),
        is_success_status(status) ==> (r is Ok <==> token_response_decodable(body@)),
        r matches Ok(t) ==> token_response_matches(body@, t),
        (is_success_status(status) && r is Err) ==> (r matches Err(e) && e is Json),
{
    if status < 200 || status >= 300 {
        Err(Error::Reqwest("token endpoint answered with an error status".to_owned()))
    } else {
        decode_token_response(body)
    }
}

/// Turns a current-user answer into the call's result: an error status
/// is a transport failure; a success status decodes exactly when the
/// body holds the `id` and `username` members.
pub fn handle_user_response(status: u16, body: &str) -> (r: Result<AuthDiscordUser, Error>)
    ensures
        !is_success_status(status) ==> (r matches Err(e) && e is Reqwest),
        is_success_status(status) ==> (r is Ok <==> user_decodable(body@)),
        r matches Ok(u) ==> user_matches(body@, u),
        (is_success_status(status) && r is Err) ==> (r matches Err(e) && e is Json),
{
    if status < 200 || status >= 300 {
        Err(Error::Reqwest("current-user endpoint answered with an error status".to_owned()))
    } else {
        decode_user_response(body)
    }
}

/// For every code-exchange request, the serialized body holds exactly
/// the fields `client_id`, `client_secret`, `code` and `redirect_uri`,
/// percent-encoded; decoding the body gives all four pairs back, and
/// each decoded value reads back as the original field.
pub proof fn lemma_code_exchange_round_trip(request: AccessTokenExchangeRequest)
    ensures
        spec_form_decode(spec_form_urlencode(code_exchange_pairs(request))) == Some(
            code_exchange_pairs(request),
        ),
        decode_utf8(code_exchange_pairs(request)[0].1) == spec_decimal_chars(
            request.client_id as nat,
        ),
        decode_utf8(code_exchange_pairs(request)[1].1) == request.client_secret@,
        decode_utf8(code_exchange_pairs(request)[2].1) == request.code@,
        decode_utf8(code_exchange_pairs(request)[3].1) == request.redirect_uri@,
{
    crate::form::lemma_form_urlencode_round_trip(code_exchange_pairs(request));
    encode_utf8_decode_utf8(spec_decimal_chars(request.client_id as nat));
    encode_utf8_decode_utf8(request.client_secret@);
    encode_utf8_decode_utf8(request.code@);
    encode_utf8_decode_utf8(request.redirect_uri@);
}

/// For every refresh-token request, the serialized body holds exactly
/// the fields `client_id`, `client_secret`, `refresh_token` and
/// `redirect_uri`, percent-encoded; decoding the body gives all four
/// pairs back, and each decoded value reads back as the original field.
pub proof fn lemma_refresh_token_round_trip(request: RefreshTokenRequest)
    ensures
        spec_form_decode(spec_form_urlencode(refresh_token_pairs(request))) == Some(
            refresh_token_pairs(request),
        ),
        decode_utf8(refresh_token_pairs(request)[0].1) == spec_decimal_chars(
            request.client_id as nat,
        ),
        decode_utf8(refresh_token_pairs(request)[1].1) == request.client_secret@,
        decode_utf8(refresh_token_pairs(request)[2].1) == request.refresh_token@,
        decode_utf8(refresh_token_pairs(request)[3].1) == request.redirect_uri@,
{
    crate::form::lemma_form_urlencode_round_trip(refresh_token_pairs(request));
    encode_utf8_decode_utf8(spec_decimal_chars(request.client_id as nat));
    encode_utf8_decode_utf8(request.client_secret@);
    encode_utf8_decode_utf8(request.refresh_token@);
    encode_utf8_decode_utf8(request.redirect_uri@);
}

/// The requester capability: the three operations any HTTP client
/// binding provides. An implementation builds the request that the
/// matching builder here describes, performs it, and returns what the
/// matching handler decides from the status and body.
pub trait DiscordOAuthReqwestRequester {
    /// Exchanges a code for the user's access token.
    fn exchange_code(&self, request: &AccessTokenExchangeRequest) -> Result<
        AccessTokenResponse,
        Error,
    >;

    /// Exchanges a refresh token, returning a fresh access token and a
    /// new refresh token.
    fn exchange_refresh_token(&self, request: &RefreshTokenRequest) -> Result<
        AccessTokenResponse,
        Error,
    >;

    /// Fetches the user's profile with the provided access token, and
    /// returns the whole decoded record.
    fn fetch_user(&self, token: &str) -> Result<AuthDiscordUser, Error>;
}

} // verus!
