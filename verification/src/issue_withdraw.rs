//! The withdraw callback: redeem a token, then pay out.
//!
//! The token is consumed *before* the upstream withdraw call is attempted,
//! so a client retry after a slow upstream call can never trigger a second
//! payout. A failed upstream call after consumption is terminal for that
//! token: it is not re-issued, and the client must request a fresh
//! challenge.

use vstd::prelude::*;

use crate::api_error;
use crate::response::ApiResponse;
use crate::token_store::{TokenNamespace, TokenStore};
use crate::{STATUS_BAD_GATEWAY, STATUS_BAD_REQUEST};

verus! {

/// The callback's query parameters.
#[derive(Debug)]
pub struct IssueWithdrawRequest {
    /// One-time token from the withdraw request.
    pub k1: String,
    /// Withdraw destination (a chain address).
    pub destination: String,
    /// Withdraw amount in satoshis; absent means zero.
    pub amount: Option<u64>,
}

/// The validated parameters of the upstream withdraw call.
#[derive(Debug)]
pub struct WithdrawRequest {
    /// Withdraw destination.
    pub destination: String,
    /// Withdraw amount in satoshis; absent means zero.
    pub amount: Option<u64>,
}

/// The amount an optional field stands for: absent means zero.
pub open spec fn spec_amount_sat(amount: Option<u64>) -> u64 {
    match amount {
        Some(a) => a,
        None => 0,
    }
}

impl WithdrawRequest {
    /// The amount to hand the upstream call.
    pub fn amount_sat(&self) -> (r: u64)
        ensures
            r == spec_amount_sat(self.amount),
    {
        match self.amount {
            Some(a) => a,
            None => 0,
        }
    }
}

/// The callback's success payload, taken verbatim from upstream.
#[derive(Debug)]
pub struct WithdrawResponse {
    /// The raw transaction.
    pub tx: String,
    /// The partially signed transaction.
    pub psbt: String,
    /// The transaction id.
    pub txid: String,
}

impl WithdrawResponse {
    /// Bundles the three upstream fields.
    pub fn new(tx: String, psbt: String, txid: String) -> (r: WithdrawResponse)
        ensures
            (r == WithdrawResponse { tx, psbt, txid }),
    {
        WithdrawResponse { tx, psbt, txid }
    }
}

/// Consumes the token and, only when it was pending, hands back the
/// validated upstream call. Failing closed: the token is spent either way.
pub fn begin(store: &mut TokenStore, params: IssueWithdrawRequest) -> (r: Result<
    WithdrawRequest,
    ApiResponse<WithdrawResponse>,
>)
    requires
        old(store).wf(),
    ensures
        final(store).wf(),
        final(store)@ == old(store)@.consumed(TokenNamespace::Withdraw, params.k1@),
        if old(store)@.withdraw.contains(params.k1@) {
            r matches Ok(call) && call.destination == params.destination && call.amount
                == params.amount
        } else {
            r matches Err(resp) && resp matches ApiResponse::Failure { status, message }
                && status == STATUS_BAD_REQUEST && message@ == "invalid or already used k1"@
        },
{
    let hit = store.consume(TokenNamespace::Withdraw, &params.k1);
    if !hit {
        return Err(api_error::build(STATUS_BAD_REQUEST, "invalid or already used k1"));
    }
    Ok(WithdrawRequest { destination: params.destination, amount: params.amount })
}

/// Translates the upstream outcome: the payout fields verbatim on
/// success, a bad-gateway error carrying the upstream text otherwise.
pub fn finish(upstream: Result<WithdrawResponse, String>) -> (r: ApiResponse<WithdrawResponse>)
    ensures
        match upstream {
            Ok(resp) => r matches ApiResponse::Success { status, data } && status
                == crate::STATUS_OK && data == resp,
            Err(e) => r matches ApiResponse::Failure { status, message } && status
                == STATUS_BAD_GATEWAY && message@ == e@,
        },
{
    match upstream {
        Ok(resp) => ApiResponse::make_ok(resp),
        Err(e) => ApiResponse::Failure { status: STATUS_BAD_GATEWAY, message: e },
    }
}

} // verus!
