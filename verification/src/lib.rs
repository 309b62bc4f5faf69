//! PKCE-secured OAuth2 authorization-code capture over a loopback redirect.

pub mod ascii;
pub mod auth_url;
pub mod base64url;
pub mod callback;
pub mod decimal;
pub mod flow;
pub mod percent;
pub mod pkce;
pub mod query;
pub mod split;
mod url_layout;
