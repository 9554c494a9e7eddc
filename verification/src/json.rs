//! JSON response decoding: the provider answers every call with a flat
//! JSON object whose members are strings and integers. An outside
//! parser reads the document; the shape checks — which fields must be
//! there, of which type, and what the decoded record holds — are
//! verified here.

use vstd::prelude::*;

use crate::error::Error;
use crate::model::{AccessTokenResponse, AuthDiscordUser};

verus! {

/// The string value at `key` of the JSON object that `doc` parses to:
/// `None` where `doc` is not a JSON object, `key` is absent, or the
/// member is not a string.
pub uninterp spec fn json_str_field(doc: Seq<char>, key: Seq<char>) -> Option<Seq<char>>;

/// The unsigned-integer value at `key` of the JSON object that `doc`
/// parses to: `None` where `doc` is not a JSON object, `key` is
/// absent, or the member is not an integer that fits in `u64`.
pub uninterp spec fn json_u64_field(doc: Seq<char>, key: Seq<char>) -> Option<u64>;

/// Relies on `serde_json::from_str` and `serde_json::Value::{get, as_str}`:
/// the string member at `key` of the object `doc` parses to, a function
/// of `doc` and `key` alone.
#[verifier::external_body]
fn json_get_str(doc: &str, key: &str) -> (r: Option<String>)
    ensures
        match r {
            Some(s) => json_str_field(doc@, key@) == Some(s@),
            None => json_str_field(doc@, key@) is None,
        },
{
    match serde_json::from_str::<serde_json::Value>(doc) {
        Ok(v) => v.get(key).and_then(|m| m.as_str()).map(|s| s.to_owned()),
        Err(_) => None,
    }
}

/// Relies on `serde_json::from_str` and `serde_json::Value::{get, as_u64}`:
/// the `u64` member at `key` of the object `doc` parses to, a function
/// of `doc` and `key` alone.
#[verifier::external_body]
fn json_get_u64(doc: &str, key: &str) -> (r: Option<u64>)
    ensures
        r == json_u64_field(doc@, key@),
{
    match serde_json::from_str::<serde_json::Value>(doc) {
        Ok(v) => v.get(key).and_then(|m| m.as_u64()),
        Err(_) => None,
    }
}

/// True when `doc` holds everything an `AccessTokenResponse` needs:
/// four string members and one integer member. A malformed document
/// has no members at all, so it never satisfies this.
pub open spec fn token_response_decodable(doc: Seq<char>) -> bool {
    &&& json_str_field(doc, "access_token"@) is Some
    &&& json_str_field(doc, "token_type"@) is Some
    &&& json_u64_field(doc, "expires_in"@) is Some
    &&& json_str_field(doc, "refresh_token"@) is Some
    &&& json_str_field(doc, "scope"@) is Some
}

/// True when `t` holds exactly the members of `doc`.
pub open spec fn token_response_matches(doc: Seq<char>, t: AccessTokenResponse) -> bool {
    &&& json_str_field(doc, "access_token"@) == Some(t.access_token@)
    &&& json_str_field(doc, "token_type"@) == Some(t.token_type@)
    &&& json_u64_field(doc, "expires_in"@) == Some(t.expires_in)
    &&& json_str_field(doc, "refresh_token"@) == Some(t.refresh_token@)
    &&& json_str_field(doc, "scope"@) == Some(t.scope@)
}

/// Decodes a token-endpoint response body. Succeeds exactly on the
/// documents that hold all five expected members, and then returns
/// them verbatim; never a partially populated record.
pub fn decode_token_response(body: &str) -> (r: Result<AccessTokenResponse, Error>)
    ensures
        r is Ok <==> token_response_decodable(body@),
        r matches Ok(t) ==> token_response_matches(body@, t),
        r matches Err(e) ==> e is Json,
{
    let access_token = json_get_str(body, "access_token");
    let token_type = json_get_str(body, "token_type");
    let expires_in = json_get_u64(body, "expires_in");
    let refresh_token = json_get_str(body, "refresh_token");
    let scope = json_get_str(body, "scope");
    match (access_token, token_type, expires_in, refresh_token, scope) {
        (Some(access_token), Some(token_type), Some(expires_in), Some(refresh_token), Some(
            scope,
        )) => Ok(
            AccessTokenResponse { access_token, token_type, expires_in, refresh_token, scope },
        ),
        _ => Err(Error::Json("response body is not an access token response".to_owned())),
    }
}

/// True when `doc` holds what an `AuthDiscordUser` needs: string
/// members `id` and `username`. The discriminator and avatar members
/// are optional.
pub open spec fn user_decodable(doc: Seq<char>) -> bool {
    &&& json_str_field(doc, "id"@) is Some
    &&& json_str_field(doc, "username"@) is Some
}

/// True when `u` holds exactly the members of `doc`, the optional ones
/// present in the record exactly where the document has them.
pub open spec fn user_matches(doc: Seq<char>, u: AuthDiscordUser) -> bool {
    &&& json_str_field(doc, "id"@) == Some(u.id@)
    &&& json_str_field(doc, "username"@) == Some(u.username@)
    &&& match u.discriminator {
        Some(d) => json_str_field(doc, "discriminator"@) == Some(d@),
        None => json_str_field(doc, "discriminator"@) is None,
    }
    &&& match u.avatar {
        Some(a) => json_str_field(doc, "avatar"@) == Some(a@),
        None => json_str_field(doc, "avatar"@) is None,
    }
}

/// Decodes a current-user response body. Succeeds exactly on the
/// documents that hold the `id` and `username` members, and then
/// returns the whole decoded record — not merely a validation.
pub fn decode_user_response(body: &str) -> (r: Result<AuthDiscordUser, Error>)
    ensures
        r is Ok <==> user_decodable(body@),
        r matches Ok(u) ==> user_matches(body@, u),
        r matches Err(e) ==> e is Json,
{
    let id = json_get_str(body, "id");
    let username = json_get_str(body, "username");
    let discriminator = json_get_str(body, "discriminator");
    let avatar = json_get_str(body, "avatar");
    match (id, username) {
        (Some(id), Some(username)) => Ok(
            AuthDiscordUser { id, username, discriminator, avatar },
        ),
        _ => Err(Error::Json("response body is not a user record".to_owned())),
    }
}

} // verus!
