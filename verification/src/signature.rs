//! LNURL-auth signature checking.
//!
//! A wallet proves control of a key by signing the 32-byte challenge it was
//! handed. The challenge bytes are used directly as the signed digest; the
//! signature arrives hex-encoded, either as a 64-byte compact `r‖s` pair or
//! in DER, and the key as a hex-encoded 33-byte compressed secp256k1 point.
//!
//! Parsing and curve arithmetic are delegated to the `secp256k1` crate
//! behind trusted wrappers. Each parsed value carries the bytes it was
//! parsed from, so the verification outcome can be stated as a function of
//! those bytes alone.

use vstd::prelude::*;

use crate::hex_str::{from_hex, hex_decoded, is_hex_string};

verus! {

/// Whether `secp256k1::PublicKey::from_slice` accepts `b`: a 33-byte
/// compressed or 65-byte uncompressed encoding of a valid curve point.
pub uninterp spec fn valid_pubkey_bytes(b: Seq<u8>) -> bool;

/// Whether `secp256k1::ecdsa::Signature::from_compact` accepts `b`:
/// exactly 64 bytes encoding a valid `r‖s` pair.
pub uninterp spec fn valid_compact_sig_bytes(b: Seq<u8>) -> bool;

/// Whether `secp256k1::ecdsa::Signature::from_der` accepts `b`.
pub uninterp spec fn valid_der_sig_bytes(b: Seq<u8>) -> bool;

/// Whether `secp256k1::ecdsa::verify` accepts the signature parsed from
/// `sig` (compact encoding when `compact`, DER otherwise) over the 32-byte
/// digest `challenge` under the key parsed from `key`.
pub uninterp spec fn ecdsa_sig_matches(
    challenge: Seq<u8>,
    sig: Seq<u8>,
    compact: bool,
    key: Seq<u8>,
) -> bool;

#[verifier::external_type_specification]
#[verifier::external_body]
pub struct ExPublicKey(secp256k1::PublicKey);

#[verifier::external_type_specification]
#[verifier::external_body]
pub struct ExSignature(secp256k1::ecdsa::Signature);

#[verifier::external_type_specification]
#[verifier::external_body]
pub struct ExMessage(secp256k1::Message);

/// A public key together with the bytes it was parsed from. The field
/// pairing is established by [`parse_pubkey`] and never changed, so
/// contracts over `bytes_view` speak about the key itself.
pub(crate) struct ParsedPublicKey {
    inner: secp256k1::PublicKey,
    bytes: Vec<u8>,
}

impl ParsedPublicKey {
    /// The bytes this key was parsed from.
    pub(crate) closed spec fn bytes_view(&self) -> Seq<u8> {
        self.bytes@
    }
}

/// A signature together with the bytes and encoding it was parsed from.
pub(crate) struct ParsedSignature {
    inner: secp256k1::ecdsa::Signature,
    bytes: Vec<u8>,
    compact: bool,
}

impl ParsedSignature {
    /// The bytes this signature was parsed from.
    pub(crate) closed spec fn bytes_view(&self) -> Seq<u8> {
        self.bytes@
    }

    /// Whether it was parsed as a compact `r‖s` pair rather than DER.
    pub(crate) closed spec fn is_compact(&self) -> bool {
        self.compact
    }
}

/// A 32-byte challenge wrapped as the message digest secp256k1 verifies
/// against.
pub(crate) struct Challenge {
    inner: secp256k1::Message,
    bytes: Vec<u8>,
}

impl Challenge {
    /// The digest bytes.
    pub(crate) closed spec fn bytes_view(&self) -> Seq<u8> {
        self.bytes@
    }

    /// Relies on `secp256k1::Message::from_digest`, which wraps exactly the
    /// 32 digest bytes it is given.
    #[verifier::external_body]
    pub(crate) fn new(digest: &[u8]) -> (r: Challenge)
        requires
            digest@.len() == 32,
        ensures
            r.bytes_view() == digest@,
    {
        let mut arr = [0u8; 32];
        arr.copy_from_slice(digest);
        Challenge { inner: secp256k1::Message::from_digest(arr), bytes: digest.to_vec() }
    }
}

/// Relies on `secp256k1::PublicKey::from_slice`: it succeeds exactly on 33-
/// or 65-byte encodings of a valid secp256k1 point.
#[verifier::external_body]
fn parse_pubkey(b: &Vec<u8>) -> (r: Option<ParsedPublicKey>)
    ensures
        match r {
            Some(k) => valid_pubkey_bytes(b@) && k.bytes_view() == b@,
            None => !valid_pubkey_bytes(b@),
        },
{
    match secp256k1::PublicKey::from_slice(b.as_slice()) {
        Ok(inner) => Some(ParsedPublicKey { inner, bytes: b.clone() }),
        Err(_) => None,
    }
}

/// Relies on `secp256k1::ecdsa::Signature::from_compact`: it succeeds
/// exactly on 64-byte slices encoding a valid `r‖s` pair.
#[verifier::external_body]
fn parse_compact_sig(b: &Vec<u8>) -> (r: Option<ParsedSignature>)
    ensures
        match r {
            Some(s) => valid_compact_sig_bytes(b@) && s.bytes_view() == b@ && s.is_compact(),
            None => !valid_compact_sig_bytes(b@),
        },
{
    match secp256k1::ecdsa::Signature::from_compact(b.as_slice()) {
        Ok(inner) => Some(ParsedSignature { inner, bytes: b.clone(), compact: true }),
        Err(_) => None,
    }
}

/// Relies on `secp256k1::ecdsa::Signature::from_der`: it succeeds exactly
/// on valid DER encodings of a signature.
#[verifier::external_body]
fn parse_der_sig(b: &Vec<u8>) -> (r: Option<ParsedSignature>)
    ensures
        match r {
            Some(s) => valid_der_sig_bytes(b@) && s.bytes_view() == b@ && !s.is_compact(),
            None => !valid_der_sig_bytes(b@),
        },
{
    match secp256k1::ecdsa::Signature::from_der(b.as_slice()) {
        Ok(inner) => Some(ParsedSignature { inner, bytes: b.clone(), compact: false }),
        Err(_) => None,
    }
}

/// Relies on `secp256k1::ecdsa::verify`: whether it accepts is a function
/// of the digest, the signature, and the key alone.
#[verifier::external_body]
fn verify_parsed(msg: &Challenge, sig: &ParsedSignature, key: &ParsedPublicKey) -> (r: bool)
    ensures
        r == ecdsa_sig_matches(msg.bytes_view(), sig.bytes_view(), sig.is_compact(), key.bytes_view()),
{
    secp256k1::ecdsa::verify(&sig.inner, msg.inner, &key.inner).is_ok()
}

/// Whether `s` is the hex encoding of a valid secp256k1 public key, in
/// compressed or uncompressed form.
pub fn is_valid_pubkey_hex(s: &str) -> (r: bool)
    ensures
        r == (is_hex_string(s@) && valid_pubkey_bytes(hex_decoded(s@))),
{
    match from_hex(s) {
        Some(b) => parse_pubkey(&b).is_some(),
        None => false,
    }
}

/// Why a signature check failed, one variant per distinct rejection so the
/// callback can report the precise reason.
#[derive(Clone, Copy, Debug, PartialEq, Eq, Structural)]
pub enum AuthSigError {
    /// The public key is not a hex string.
    KeyHex,
    /// The public key decodes to other than 33 bytes.
    KeyLength,
    /// The 33 key bytes are not a valid compressed secp256k1 point.
    PublicKey,
    /// The signature is not a hex string.
    SigHex,
    /// The 64 signature bytes are not a valid compact signature.
    CompactSig,
    /// The signature bytes are not a valid DER signature.
    DerSig,
    /// Everything parsed, but the signature does not match.
    Mismatch,
}

/// The checking outcome, as a function of the challenge bytes and the two
/// hex strings: key first (hex, then length, then curve point), then
/// signature (hex, then compact for exactly 64 bytes and DER otherwise),
/// then the curve check itself.
pub open spec fn spec_check_auth_signature(
    challenge: Seq<u8>,
    sig_hex: Seq<char>,
    key_hex: Seq<char>,
) -> Result<(), AuthSigError> {
    if !is_hex_string(key_hex) {
        Err(AuthSigError::KeyHex)
    } else if hex_decoded(key_hex).len() != 33 {
        Err(AuthSigError::KeyLength)
    } else if !valid_pubkey_bytes(hex_decoded(key_hex)) {
        Err(AuthSigError::PublicKey)
    } else if !is_hex_string(sig_hex) {
        Err(AuthSigError::SigHex)
    } else if hex_decoded(sig_hex).len() == 64 && !valid_compact_sig_bytes(hex_decoded(sig_hex)) {
        Err(AuthSigError::CompactSig)
    } else if hex_decoded(sig_hex).len() != 64 && !valid_der_sig_bytes(hex_decoded(sig_hex)) {
        Err(AuthSigError::DerSig)
    } else if !ecdsa_sig_matches(
        challenge,
        hex_decoded(sig_hex),
        hex_decoded(sig_hex).len() == 64,
        hex_decoded(key_hex),
    ) {
        Err(AuthSigError::Mismatch)
    } else {
        Ok(())
    }
}

/// Checks a hex-encoded signature over a 32-byte challenge under a
/// hex-encoded compressed public key, reporting the precise rejection.
pub fn check_auth_signature(challenge: &[u8], sig_hex: &str, key_hex: &str) -> (r: Result<
    (),
    AuthSigError,
>)
    requires
        challenge@.len() == 32,
    ensures
        r == spec_check_auth_signature(challenge@, sig_hex@, key_hex@),
{
    let key_bytes = match from_hex(key_hex) {
        Some(b) => b,
        None => { return Err(AuthSigError::KeyHex) },
    };
    if key_bytes.len() != 33 {
        return Err(AuthSigError::KeyLength);
    }
    let key = match parse_pubkey(&key_bytes) {
        Some(k) => k,
        None => { return Err(AuthSigError::PublicKey) },
    };
    let sig_bytes = match from_hex(sig_hex) {
        Some(b) => b,
        None => { return Err(AuthSigError::SigHex) },
    };
    let sig = if sig_bytes.len() == 64 {
        match parse_compact_sig(&sig_bytes) {
            Some(s) => s,
            None => { return Err(AuthSigError::CompactSig) },
        }
    } else {
        match parse_der_sig(&sig_bytes) {
            Some(s) => s,
            None => { return Err(AuthSigError::DerSig) },
        }
    };
    let msg = Challenge::new(challenge);
    if verify_parsed(&msg, &sig, &key) {
        Ok(())
    } else {
        Err(AuthSigError::Mismatch)
    }
}

/// The client-facing error classes of signature verification.
#[derive(Clone, Copy, Debug, PartialEq, Eq, Structural)]
pub enum VerificationError {
    /// The public key failed to decode or is not a valid curve point.
    InvalidPublicKey,
    /// The signature failed to decode in both compact and DER form.
    InvalidSignature,
    /// Well-formed inputs, but the signature does not match.
    SignatureMismatch,
}

/// The coarse class of a precise rejection.
pub open spec fn spec_coarse_error(e: AuthSigError) -> VerificationError {
    match e {
        AuthSigError::KeyHex => VerificationError::InvalidPublicKey,
        AuthSigError::KeyLength => VerificationError::InvalidPublicKey,
        AuthSigError::PublicKey => VerificationError::InvalidPublicKey,
        AuthSigError::SigHex => VerificationError::InvalidSignature,
        AuthSigError::CompactSig => VerificationError::InvalidSignature,
        AuthSigError::DerSig => VerificationError::InvalidSignature,
        AuthSigError::Mismatch => VerificationError::SignatureMismatch,
    }
}

/// [`spec_check_auth_signature`] with each rejection coarsened to its
/// client-facing class.
pub open spec fn spec_verify(
    challenge: Seq<u8>,
    sig_hex: Seq<char>,
    key_hex: Seq<char>,
) -> Result<(), VerificationError> {
    match spec_check_auth_signature(challenge, sig_hex, key_hex) {
        Ok(()) => Ok(()),
        Err(e) => Err(spec_coarse_error(e)),
    }
}

/// Verifies a hex-encoded signature over a 32-byte challenge under a
/// hex-encoded compressed public key. Pure: the outcome is a function of
/// the three inputs.
pub fn verify(challenge: &[u8], signature_hex: &str, public_key_hex: &str) -> (r: Result<
    (),
    VerificationError,
>)
    requires
        challenge@.len() == 32,
    ensures
        r == spec_verify(challenge@, signature_hex@, public_key_hex@),
{
    match check_auth_signature(challenge, signature_hex, public_key_hex) {
        Ok(()) => Ok(()),
        Err(AuthSigError::KeyHex) => Err(VerificationError::InvalidPublicKey),
        Err(AuthSigError::KeyLength) => Err(VerificationError::InvalidPublicKey),
        Err(AuthSigError::PublicKey) => Err(VerificationError::InvalidPublicKey),
        Err(AuthSigError::SigHex) => Err(VerificationError::InvalidSignature),
        Err(AuthSigError::CompactSig) => Err(VerificationError::InvalidSignature),
        Err(AuthSigError::DerSig) => Err(VerificationError::InvalidSignature),
        Err(AuthSigError::Mismatch) => Err(VerificationError::SignatureMismatch),
    }
}

} // verus!
