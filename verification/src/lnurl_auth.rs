//! The LNURL-auth callback: the one flow whose whole redemption happens
//! inside the library.
//!
//! Before consuming, the handler distinguishes three token states
//! precisely: never issued (`400 invalid k1`), already redeemed
//! (`409 k1 already used`), and pending — only a pending token proceeds to
//! signature checking, and only a verified signature consumes the token
//! and records the signing key.

use vstd::prelude::*;

use crate::api_error;
use crate::hex_str::{from_hex, hex_decoded, is_hex_string};
use crate::response::ApiResponse;
use crate::signature::{check_auth_signature, spec_check_auth_signature, AuthSigError};
use crate::token_store::{StoreModel, TokenNamespace, TokenStore};
use crate::{STATUS_BAD_REQUEST, STATUS_CONFLICT};

verus! {

/// The callback's query parameters.
#[derive(Debug)]
pub struct LnUrlAuthQuery {
    /// One-time challenge (32 bytes hex).
    pub k1: String,
    /// Signature over `k1`: hex, compact 64-byte or DER.
    pub sig: String,
    /// Compressed (33-byte) secp256k1 public key, hex.
    pub key: String,
}

/// The callback's success payload.
#[derive(Debug)]
pub struct LnUrlAuthResponse {
    /// Always true on the success path.
    pub ok: bool,
    /// A confirmation message.
    pub result: Option<String>,
    /// Always absent on the success path.
    pub error: Option<String>,
}

/// How a redemption attempt is classified, before any store change.
pub enum AuthOutcome {
    /// The token is pending and the signature checks out.
    Success,
    /// The token was never issued (or its namespace never saw it).
    UnknownToken,
    /// The token was already redeemed.
    UsedToken,
    /// The token is pending but is not a hex string.
    BadChallengeHex,
    /// The token is pending but does not decode to 32 bytes.
    BadChallengeLength,
    /// The signature check rejected the inputs.
    Rejected(AuthSigError),
}

/// Classifies a redemption attempt against the store state.
pub open spec fn spec_auth_outcome(
    m: StoreModel,
    k1: Seq<char>,
    sig: Seq<char>,
    key: Seq<char>,
) -> AuthOutcome {
    if !m.auth_pending.contains(k1) {
        if m.auth_completed.dom().contains(k1) {
            AuthOutcome::UsedToken
        } else {
            AuthOutcome::UnknownToken
        }
    } else if !is_hex_string(k1) {
        AuthOutcome::BadChallengeHex
    } else if hex_decoded(k1).len() != 32 {
        AuthOutcome::BadChallengeLength
    } else {
        match spec_check_auth_signature(hex_decoded(k1), sig, key) {
            Ok(()) => AuthOutcome::Success,
            Err(e) => AuthOutcome::Rejected(e),
        }
    }
}

/// The store after a redemption attempt: only a successful one changes it,
/// consuming the token and recording the signing key.
pub open spec fn spec_auth_transition(
    m: StoreModel,
    k1: Seq<char>,
    sig: Seq<char>,
    key: Seq<char>,
) -> StoreModel {
    if spec_auth_outcome(m, k1, sig, key) is Success {
        m.consumed(TokenNamespace::AuthChallenge, k1).completed(k1, key)
    } else {
        m
    }
}

/// The status code a non-success outcome maps to.
pub open spec fn spec_auth_failure_status(o: AuthOutcome) -> u16 {
    if o is UsedToken {
        STATUS_CONFLICT
    } else {
        STATUS_BAD_REQUEST
    }
}

/// The message a non-success outcome maps to.
pub open spec fn spec_auth_failure_message(o: AuthOutcome) -> Seq<char> {
    match o {
        AuthOutcome::Success => Seq::empty(),
        AuthOutcome::UnknownToken => "invalid k1"@,
        AuthOutcome::UsedToken => "k1 already used"@,
        AuthOutcome::BadChallengeHex => "invalid k1 hex"@,
        AuthOutcome::BadChallengeLength => "invalid k1 length"@,
        AuthOutcome::Rejected(e) => spec_sig_error_message(e),
    }
}

/// The message each signature rejection maps to.
pub open spec fn spec_sig_error_message(e: AuthSigError) -> Seq<char> {
    match e {
        AuthSigError::KeyHex => "invalid key hex"@,
        AuthSigError::KeyLength => "invalid key length"@,
        AuthSigError::PublicKey => "invalid secp256k1 public key"@,
        AuthSigError::SigHex => "invalid sig hex"@,
        AuthSigError::CompactSig => "invalid compact signature"@,
        AuthSigError::DerSig => "invalid DER signature"@,
        AuthSigError::Mismatch => "signature verification failed"@,
    }
}

fn sig_error_message(e: AuthSigError) -> (r: &'static str)
    ensures
        r@ == spec_sig_error_message(e),
{
    match e {
        AuthSigError::KeyHex => "invalid key hex",
        AuthSigError::KeyLength => "invalid key length",
        AuthSigError::PublicKey => "invalid secp256k1 public key",
        AuthSigError::SigHex => "invalid sig hex",
        AuthSigError::CompactSig => "invalid compact signature",
        AuthSigError::DerSig => "invalid DER signature",
        AuthSigError::Mismatch => "signature verification failed",
    }
}

/// Redeems an authentication challenge: classifies the token, checks the
/// signature, and — only on success — consumes the token and records the
/// key that signed it.
pub fn handler(store: &mut TokenStore, params: &LnUrlAuthQuery) -> (r: ApiResponse<
    LnUrlAuthResponse,
>)
    requires
        old(store).wf(),
    ensures
        final(store).wf(),
        final(store)@ == spec_auth_transition(old(store)@, params.k1@, params.sig@, params.key@),
        ({
            let outcome = spec_auth_outcome(old(store)@, params.k1@, params.sig@, params.key@);
            match r {
                ApiResponse::Success { status, data } => {
                    &&& outcome is Success
                    &&& status == crate::STATUS_OK
                    &&& data.ok == true
                    &&& data.result matches Some(msg) && msg@ == "Authentication successful"@
                    &&& data.error is None
                },
                ApiResponse::Failure { status, message } => {
                    &&& !(outcome is Success)
                    &&& status == spec_auth_failure_status(outcome)
                    &&& message@ == spec_auth_failure_message(outcome)
                },
            }
        }),
{
    // Verify k1 is expected (pending) and has not already been used.
    if !store.is_auth_pending(&params.k1) {
        if store.is_auth_completed(&params.k1) {
            return api_error::build(STATUS_CONFLICT, "k1 already used");
        }
        return api_error::build(STATUS_BAD_REQUEST, "invalid k1");
    }

    // Parse the challenge bytes.
    let k1_bytes = match from_hex(params.k1.as_str()) {
        Some(b) => b,
        None => {
            return api_error::build(STATUS_BAD_REQUEST, "invalid k1 hex");
        },
    };
    if k1_bytes.len() != 32 {
        return api_error::build(STATUS_BAD_REQUEST, "invalid k1 length");
    }

    // Parse key and signature and check the signature over the challenge.
    match check_auth_signature(k1_bytes.as_slice(), params.sig.as_str(), params.key.as_str()) {
        Ok(()) => {},
        Err(e) => {
            return api_error::build(STATUS_BAD_REQUEST, sig_error_message(e));
        },
    }

    // Consume k1 only on successful verification; a racing redemption that
    // consumed it first would surface here as a conflict.
    let hit = store.consume(TokenNamespace::AuthChallenge, &params.k1);
    if !hit {
        return api_error::build(STATUS_CONFLICT, "k1 already used");
    }
    store.complete_auth(&params.k1, &params.key);

    ApiResponse::make_ok(
        LnUrlAuthResponse {
            ok: true,
            result: Some("Authentication successful".to_owned()),
            error: None,
        },
    )
}

/// Auth tri-state: a token never issued classifies as unknown; a pending
/// token whose signature checks out succeeds, is recorded as completed,
/// and a second redemption of it classifies as already used — the
/// conflict, not the generic rejection.
pub proof fn lemma_auth_tri_state(m: StoreModel, k1: Seq<char>, sig: Seq<char>, key: Seq<char>)
    ensures
        !m.auth_pending.contains(k1) && !m.auth_completed.dom().contains(k1)
            ==> spec_auth_outcome(m, k1, sig, key) is UnknownToken,
        spec_auth_outcome(m, k1, sig, key) is Success ==> {
            let m2 = spec_auth_transition(m, k1, sig, key);
            &&& m2.auth_completed.dom().contains(k1)
            &&& m2.auth_completed[k1] == key
            &&& spec_auth_outcome(m2, k1, sig, key) is UsedToken
        },
{
}

} // verus!
