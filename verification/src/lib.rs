//! An OAuth2 authorization-code and refresh-token exchange client for
//! Discord's REST API: request/response data model, URL-encoded request
//! serialization, JSON response decoding, and an abstract requester
//! capability that concrete HTTP clients implement.

use vstd::prelude::*;

pub mod error;
pub mod form;
pub mod json;
pub mod model;
pub mod request;

pub use error::Error;
pub use model::{
    AccessTokenExchangeRequest, AccessTokenResponse, AuthDiscordUser, RefreshTokenRequest,
};
pub use request::DiscordOAuthReqwestRequester;

verus! {

/// The token endpoint that both exchange operations POST to.
pub const BASE_TOKEN_URI: &'static str = "https://discord.com/api/oauth2/token";

/// The current-user endpoint that `fetch_user` GETs.
pub const BASE_ME_URI: &'static str = "https://discord.com/api/users/@me";

} // verus!
