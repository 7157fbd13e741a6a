//! The channel-open callback: redeem a token, validate the peer key, then
//! fund the channel upstream.
//!
//! As in the withdraw flow, the token is consumed before anything else; a
//! bad peer key after a successful consume still reports a client error
//! and the token stays spent.

use vstd::prelude::*;

use crate::api_error;
use crate::hex_str::{hex_decoded, is_hex_string};
use crate::issue_withdraw::spec_amount_sat;
use crate::response::ApiResponse;
use crate::signature::{is_valid_pubkey_hex, valid_pubkey_bytes};
use crate::token_store::{TokenNamespace, TokenStore};
use crate::{STATUS_BAD_GATEWAY, STATUS_BAD_REQUEST};

verus! {

/// The callback's query parameters, besides the token.
#[derive(Debug)]
pub struct OpenChannelRequest {
    /// The peer node's public key, hex.
    pub remote_id: String,
    /// Channel amount in satoshis; absent means zero.
    pub amount: Option<u64>,
    /// Whether to announce the channel.
    pub announce: Option<bool>,
}

/// The callback's response payload.
#[derive(Debug)]
pub struct OpenChannelResponse {
    /// Whether the upstream call went through.
    pub ok: bool,
    /// The upstream result, rendered as JSON text.
    pub result: Option<String>,
    /// Absent on success.
    pub error: Option<String>,
}

/// The validated parameters of the upstream channel-funding call.
#[derive(Debug)]
pub struct ChannelOpenCall {
    /// The peer node's public key, hex, known to parse.
    pub remote_id: String,
    /// Channel amount in satoshis.
    pub amount_sat: u64,
    /// Whether to announce the channel.
    pub announce: Option<bool>,
}

/// Consumes the token, then validates the peer key; only then is the
/// upstream call handed back. The token is spent on every path.
pub fn begin(store: &mut TokenStore, k1: &String, params: OpenChannelRequest) -> (r: Result<
    ChannelOpenCall,
    ApiResponse<OpenChannelResponse>,
>)
    requires
        old(store).wf(),
    ensures
        final(store).wf(),
        final(store)@ == old(store)@.consumed(TokenNamespace::ChannelOpen, k1@),
        if !old(store)@.channel.contains(k1@) {
            r matches Err(resp) && resp matches ApiResponse::Failure { status, message }
                && status == STATUS_BAD_REQUEST && message@ == "invalid or already used k1"@
        } else if !(is_hex_string(params.remote_id@) && valid_pubkey_bytes(
            hex_decoded(params.remote_id@),
        )) {
            r matches Err(resp) && resp matches ApiResponse::Failure { status, message }
                && status == STATUS_BAD_REQUEST && message@ == "invalid pubkey"@
        } else {
            r matches Ok(call) && call.remote_id == params.remote_id && call.amount_sat
                == spec_amount_sat(params.amount) && call.announce == params.announce
        },
{
    let hit = store.consume(TokenNamespace::ChannelOpen, k1);
    if !hit {
        return Err(api_error::build(STATUS_BAD_REQUEST, "invalid or already used k1"));
    }
    if !is_valid_pubkey_hex(params.remote_id.as_str()) {
        return Err(api_error::build(STATUS_BAD_REQUEST, "invalid pubkey"));
    }
    let amount_sat = match params.amount {
        Some(a) => a,
        None => 0,
    };
    Ok(ChannelOpenCall { remote_id: params.remote_id, amount_sat, announce: params.announce })
}

/// Translates the upstream outcome: the funding result as JSON text on
/// success, a bad-gateway error carrying the upstream text otherwise.
pub fn finish(upstream: Result<String, String>) -> (r: ApiResponse<OpenChannelResponse>)
    ensures
        match upstream {
            Ok(json) => r matches ApiResponse::Success { status, data } && status
                == crate::STATUS_OK && data.ok == true && data.result == Some(json) && data.error
                is None,
            Err(e) => r matches ApiResponse::Failure { status, message } && status
                == STATUS_BAD_GATEWAY && message@ == e@,
        },
{
    match upstream {
        Ok(json) => ApiResponse::make_ok(
            OpenChannelResponse { ok: true, result: Some(json), error: None },
        ),
        Err(e) => ApiResponse::Failure { status: STATUS_BAD_GATEWAY, message: e },
    }
}

} // verus!
