//! The request and response data model shared by every requester binding.

use vstd::prelude::*;

verus! {

/// A one-time request to trade an authorization code for tokens.
///
/// Immutable once constructed; it serializes verbatim into the
/// URL-encoded body of one token-endpoint POST.
pub struct AccessTokenExchangeRequest {
    /// The application's client id.
    pub client_id: u64,
    /// The application's client secret.
    pub client_secret: String,
    /// The one-time authorization code being exchanged.
    pub code: String,
    /// The redirect URI registered for the application.
    pub redirect_uri: String,
}

impl AccessTokenExchangeRequest {
    /// Builds a request with the given field values.
    pub fn new(client_id: u64, client_secret: &str, code: &str, redirect_uri: &str) -> (r: Self)
        ensures
            r.client_id == client_id,
            r.client_secret@ == client_secret@,
            r.code@ == code@,
            r.redirect_uri@ == redirect_uri@,
    {
        AccessTokenExchangeRequest {
            client_id,
            client_secret: client_secret.to_owned(),
            code: code.to_owned(),
            redirect_uri: redirect_uri.to_owned(),
        }
    }
}

/// A request to mint a fresh access token from a refresh token.
pub struct RefreshTokenRequest {
    /// The application's client id.
    pub client_id: u64,
    /// The application's client secret.
    pub client_secret: String,
    /// The previously issued refresh token.
    pub refresh_token: String,
    /// The redirect URI registered for the application.
    pub redirect_uri: String,
}

impl RefreshTokenRequest {
    /// Builds a request with the given field values.
    pub fn new(client_id: u64, client_secret: &str, refresh_token: &str, redirect_uri: &str) -> (r: Self)
        ensures
            r.client_id == client_id,
            r.client_secret@ == client_secret@,
            r.refresh_token@ == refresh_token@,
            r.redirect_uri@ == redirect_uri@,
    {
        RefreshTokenRequest {
            client_id,
            client_secret: client_secret.to_owned(),
            refresh_token: refresh_token.to_owned(),
            redirect_uri: redirect_uri.to_owned(),
        }
    }
}

/// The provider's answer to either exchange operation.
///
/// Produced by decoding the JSON response body; never partially
/// populated — decoding either fully succeeds or the call fails.
pub struct AccessTokenResponse {
    /// The short-lived credential for authenticated API calls.
    pub access_token: String,
    /// The token's type, usually `Bearer`.
    pub token_type: String,
    /// The number of seconds until the access token expires.
    pub expires_in: u64,
    /// The long-lived credential for minting fresh access tokens.
    pub refresh_token: String,
    /// The space-separated scopes the token was granted.
    pub scope: String,
}

/// The authenticated user's profile, as the current-user endpoint
/// reports it.
pub struct AuthDiscordUser {
    /// The user's id.
    pub id: String,
    /// The user's name.
    pub username: String,
    /// The user's discriminator tag, when the provider reports one.
    pub discriminator: Option<String>,
    /// The user's avatar hash, when one is set.
    pub avatar: Option<String>,
}

} // verus!
