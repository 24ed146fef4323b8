//! OAuth2 "authorization code with PKCE" handshake and token lifecycle for the
//! MyAnimeList API: PKCE material, the redirect callback decision, token
//! exchange forms and replies, staleness of cached tokens, the at-rest
//! encryption of the token cache, the session that holds the access token,
//! and the request targets of the API endpoints.

pub mod error;
pub mod crypto;
pub mod tokens;
pub mod callback;
pub mod challenge;
pub mod client;
pub mod endpoints;

pub use client::MALClient;
pub use error::{AuthError, MALError};
