//! A gateway library for exposing a Lightning node's wallet and
//! channel-management operations through LNURL-style HTTP callbacks.
//!
//! The heart of the library is the single-use challenge-token lifecycle:
//! tokens (`k1`) are issued into one of three independent namespaces,
//! consumed at most once, and — for the authentication flow — redeemed
//! against an ECDSA signature over the challenge bytes.

use vstd::prelude::*;

pub mod api_error;
pub mod channel_request;
pub mod config;
pub mod health;
pub mod hex_str;
pub mod issue_withdraw;
pub mod lnurl_auth;
pub mod lnurl_auth_request;
pub mod open_channel;
pub mod recent_requests;
pub mod response;
pub mod signature;
pub mod text;
pub mod token_store;
pub mod utils;
pub mod warnings;
pub mod withdraw_request;

verus! {

/// The library's version of an HTTP status code: `200 OK`.
pub const STATUS_OK: u16 = 200;

/// `400 Bad Request`: malformed input, or an invalid or already-used token.
pub const STATUS_BAD_REQUEST: u16 = 400;

/// `409 Conflict`: an authentication token that was already redeemed.
pub const STATUS_CONFLICT: u16 = 409;

/// `502 Bad Gateway`: the upstream RPC could not be reached or failed.
pub const STATUS_BAD_GATEWAY: u16 = 502;

} // verus!
