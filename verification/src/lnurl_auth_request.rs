//! The authentication-request endpoint: issue a login challenge and tell
//! the wallet where to send the signature.

use vstd::prelude::*;
use vstd::string::StringExecFns;

use crate::token_store::{TokenNamespace, TokenStore};

verus! {

/// The optional action hint a wallet may ask for.
#[derive(Clone, Copy, Debug, PartialEq, Eq, Structural)]
pub enum LnUrlAuthRequestAction {
    /// Creating a new account.
    Register,
    /// Logging into an existing account.
    Login,
    /// Linking a key to an account.
    Link,
    /// A bare authentication.
    Auth,
}

/// The endpoint's query parameters.
#[derive(Debug)]
pub struct LnUrlAuthRequestQuery {
    /// Optional action hint: register, login, link or auth.
    pub action: Option<LnUrlAuthRequestAction>,
}

/// The endpoint's response payload.
#[derive(Debug)]
pub struct LnUrlAuthRequestResponse {
    /// Type of request, always "login".
    pub tag: String,
    /// The one-time challenge (32 bytes hex).
    pub k1: String,
    /// Callback URL the wallet calls with `sig` and `key`.
    pub callback: String,
    /// The action hint, passed through.
    pub action: Option<LnUrlAuthRequestAction>,
}

/// Issues an authentication challenge and builds the response; the
/// callback URL is the auth callback under the request's base URL.
pub fn handler(store: &mut TokenStore, query: &LnUrlAuthRequestQuery, base_url: &str) -> (r:
    LnUrlAuthRequestResponse)
    requires
        old(store).wf(),
    ensures
        final(store).wf(),
        final(store)@ == old(store)@.issued(TokenNamespace::AuthChallenge, r.k1@),
        r.tag@ == "login"@,
        r.callback@ == base_url@ + "/callbacks/lnurl-auth"@,
        r.action == query.action,
        r.k1@.len() == 64,
{
    let k1 = store.issue(TokenNamespace::AuthChallenge);
    let mut callback = base_url.to_owned();
    callback.append("/callbacks/lnurl-auth");
    LnUrlAuthRequestResponse { tag: "login".to_owned(), k1, callback, action: query.action }
}

} // verus!
