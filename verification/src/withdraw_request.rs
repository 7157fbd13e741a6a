//! The withdraw-request endpoint: issue a challenge and advertise the
//! withdrawable range.

use vstd::prelude::*;

use crate::config::Args;
use crate::token_store::{TokenNamespace, TokenStore};

verus! {

/// The endpoint's response payload.
#[derive(Debug)]
pub struct WithdrawRequestResponse {
    /// Type of request, always "withdrawRequest".
    pub tag: String,
    /// Second-level URL to trigger the withdraw callback.
    pub callback: String,
    /// The one-time token.
    pub k1: String,
    /// Default description for the withdrawal invoice.
    pub default_description: String,
    /// Minimum withdrawable amount in millisatoshis.
    pub min_withdrawable: u64,
    /// Maximum withdrawable amount in millisatoshis.
    pub max_withdrawable: u64,
}

/// Issues a withdraw token and builds the response from the configured
/// withdrawable range.
pub fn handler(store: &mut TokenStore, args: &Args) -> (r: WithdrawRequestResponse)
    requires
        old(store).wf(),
    ensures
        final(store).wf(),
        final(store)@ == old(store)@.issued(TokenNamespace::Withdraw, r.k1@),
        r.tag@ == "withdrawRequest"@,
        r.callback@ == "/withdraw-callback"@,
        r.default_description@ == "Withdraw funds from CoreLightning REST server"@,
        r.min_withdrawable == args.min_withdrawable_msat,
        r.max_withdrawable == args.max_withdrawable_msat,
        r.k1@.len() == 64,
{
    let k1 = store.issue(TokenNamespace::Withdraw);
    WithdrawRequestResponse {
        tag: "withdrawRequest".to_owned(),
        callback: "/withdraw-callback".to_owned(),
        k1,
        default_description: "Withdraw funds from CoreLightning REST server".to_owned(),
        min_withdrawable: args.min_withdrawable_msat,
        max_withdrawable: args.max_withdrawable_msat,
    }
}

} // verus!
