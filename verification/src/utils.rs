//! Challenge-token generation, and the request's view of this host.
//!
//! A token (`k1`) is 32 cryptographically random bytes rendered as a
//! 64-character lowercase hex string; the randomness comes from two
//! concatenated 128-bit random values.
//!
//! The host helpers reconstruct where a client reached this gateway, as a
//! pure function of the request headers with a documented precedence:
//! forwarded-proto and forwarded-host first (for reverse proxies), then
//! the host header, then a provided fallback. Authority parsing is
//! delegated to the `http` crate behind trusted wrappers.

use vstd::prelude::*;
use vstd::string::StringExecFns;

use crate::hex_str::{hex_encoded, to_hex};
use crate::text::{spec_decimal, u64_to_dec};

verus! {

/// Whether `http::uri::Authority::from_str` accepts `s` as an authority
/// (`host[:port]`, with an optional userinfo part).
pub uninterp spec fn authority_valid(s: Seq<char>) -> bool;

/// The host part `Authority::host` extracts from a valid authority string.
pub uninterp spec fn authority_host_of(s: Seq<char>) -> Seq<char>;

/// The port `Authority::port_u16` extracts from a valid authority string,
/// when it carries one.
pub uninterp spec fn authority_port_of(s: Seq<char>) -> Option<u16>;

/// The normalized text `Authority::as_str` gives for a valid authority
/// string.
pub uninterp spec fn authority_text_of(s: Seq<char>) -> Seq<char>;

#[verifier::external_type_specification]
#[verifier::external_body]
pub struct ExAuthority(http::uri::Authority);

/// A parsed authority together with the string it was parsed from, so the
/// accessors' results can be stated over that string.
pub(crate) struct ParsedAuthority {
    inner: http::uri::Authority,
    raw: String,
}

impl ParsedAuthority {
    /// The string this authority was parsed from.
    pub(crate) closed spec fn raw_view(&self) -> Seq<char> {
        self.raw@
    }
}

/// Relies on `http::uri::Authority::from_str`: it succeeds exactly on
/// well-formed authority strings.
#[verifier::external_body]
fn parse_authority(s: &str) -> (r: Option<ParsedAuthority>)
    ensures
        match r {
            Some(a) => authority_valid(s@) && a.raw_view() == s@,
            None => !authority_valid(s@),
        },
{
    match <http::uri::Authority as core::str::FromStr>::from_str(s) {
        Ok(inner) => Some(ParsedAuthority { inner, raw: s.to_owned() }),
        Err(_) => None,
    }
}

/// Relies on `http::uri::Authority::host`: the host part, a function of
/// the parsed string.
#[verifier::external_body]
fn authority_host(a: &ParsedAuthority) -> (r: String)
    ensures
        r@ == authority_host_of(a.raw_view()),
{
    a.inner.host().to_string()
}

/// Relies on `http::uri::Authority::port_u16`: the explicit port, a
/// function of the parsed string.
#[verifier::external_body]
fn authority_port(a: &ParsedAuthority) -> (r: Option<u16>)
    ensures
        r == authority_port_of(a.raw_view()),
{
    a.inner.port_u16()
}

/// Relies on `http::uri::Authority::as_str`: the authority's normalized
/// text, a function of the parsed string.
#[verifier::external_body]
fn authority_text(a: &ParsedAuthority) -> (r: String)
    ensures
        r@ == authority_text_of(a.raw_view()),
{
    a.inner.as_str().to_string()
}

/// The first present entry of a list of optional strings.
pub open spec fn spec_first_some(v: Seq<Option<String>>) -> Option<Seq<char>>
    decreases v.len(),
{
    if v.len() == 0 {
        None
    } else {
        match v.first() {
            Some(s) => Some(s@),
            None => spec_first_some(v.drop_first()),
        }
    }
}

/// Scans for the first present entry.
fn first_some(v: &Vec<Option<String>>) -> (r: Option<String>)
    ensures
        match r {
            Some(s) => spec_first_some(v@) == Some(s@),
            None => spec_first_some(v@) is None,
        },
{
    let n = v.len();
    proof {
        assert(v@.skip(0) =~= v@);
    }
    for i in 0..n
        invariant
            n == v@.len(),
            spec_first_some(v@) == spec_first_some(v@.skip(i as int)),
    {
        match &v[i] {
            Some(s) => {
                proof {
                    assert(v@.skip(i as int).first() == v@[i as int]);
                }
                return Some(s.clone());
            },
            None => {},
        }
        proof {
            assert(v@.skip(i as int).first() == v@[i as int]);
            assert(v@.skip(i as int).drop_first() =~= v@.skip(i + 1));
        }
    }
    None
}

/// What the request's host is: the host header's authority host (the raw
/// header when it does not parse), else the node's first bound address,
/// else its first announced address, else the unspecified address.
pub open spec fn spec_request_host(
    host_header: Option<String>,
    bindings: Seq<Option<String>>,
    addresses: Seq<Option<String>>,
) -> Seq<char> {
    match host_header {
        Some(h) => if authority_valid(h@) {
            authority_host_of(h@)
        } else {
            h@
        },
        None => match spec_first_some(bindings) {
            Some(b) => b,
            None => match spec_first_some(addresses) {
                Some(a) => a,
                None => "0.0.0.0"@,
            },
        },
    }
}

/// Extracts the host a client reached this gateway under, falling back to
/// the node's own addresses and finally the unspecified address.
pub fn extract_request_host(
    host_header: Option<String>,
    binding_addrs: Vec<Option<String>>,
    announced_addrs: Vec<Option<String>>,
) -> (r: String)
    ensures
        r@ == spec_request_host(host_header, binding_addrs@, announced_addrs@),
{
    match host_header {
        Some(h) => match parse_authority(h.as_str()) {
            Some(a) => authority_host(&a),
            None => h,
        },
        None => match first_some(&binding_addrs) {
            Some(b) => b,
            None => match first_some(&announced_addrs) {
                Some(a) => a,
                None => "0.0.0.0".to_owned(),
            },
        },
    }
}

/// `host:port`, the authority used when no header gives one.
pub open spec fn spec_fallback_authority(host: Seq<char>, port: u16) -> Seq<char> {
    host + ":"@ + spec_decimal(port as nat)
}

fn fallback_authority(host: &str, port: u16) -> (r: String)
    ensures
        r@ == spec_fallback_authority(host@, port),
{
    let mut r = host.to_owned();
    r.append(":");
    let p = u64_to_dec(port as u64);
    r.append(p.as_str());
    proof {
        assert(r@ =~= spec_fallback_authority(host@, port));
    }
    r
}

/// What the base URL of a request is. The scheme is the forwarded proto,
/// defaulting to plain HTTP. The authority is the forwarded host or else
/// the host header, when it parses: kept verbatim when it carries a port
/// or the listening port is a default one, else completed with the
/// listening port. Without a usable header the fallback host and the
/// listening port stand in.
pub open spec fn spec_base_url(
    x_forwarded_proto: Option<String>,
    x_forwarded_host: Option<String>,
    host_header: Option<String>,
    fallback_host: Seq<char>,
    port: u16,
) -> Seq<char> {
    let proto = match x_forwarded_proto {
        Some(p) => p@,
        None => "http"@,
    };
    let forwarded = match x_forwarded_host {
        Some(f) => Some(f@),
        None => match host_header {
            Some(h) => Some(h@),
            None => None,
        },
    };
    let text = match forwarded {
        Some(raw) => if authority_valid(raw) {
            if authority_port_of(raw) is Some || port == 80 || port == 443 {
                authority_text_of(raw)
            } else {
                authority_host_of(raw) + ":"@ + spec_decimal(port as nat)
            }
        } else {
            spec_fallback_authority(fallback_host, port)
        },
        None => spec_fallback_authority(fallback_host, port),
    };
    proto + "://"@ + text
}

/// Best-effort base URL builder for endpoints that must return a callback
/// URL. Prefers the forwarded proto and host (when behind a reverse
/// proxy), falls back to the host header, and finally to the provided
/// fallback host.
pub fn request_base_url(
    x_forwarded_proto: Option<String>,
    x_forwarded_host: Option<String>,
    host_header: Option<String>,
    fallback_host: &str,
    listening_port: u16,
) -> (r: String)
    ensures
        r@ == spec_base_url(
            x_forwarded_proto,
            x_forwarded_host,
            host_header,
            fallback_host@,
            listening_port,
        ),
{
    let proto = match x_forwarded_proto {
        Some(p) => p,
        None => "http".to_owned(),
    };
    let forwarded: Option<String> = match x_forwarded_host {
        Some(f) => Some(f),
        None => host_header,
    };
    let text: String = match &forwarded {
        Some(raw) => match parse_authority(raw.as_str()) {
            Some(a) => {
                let explicit_port = authority_port(&a);
                if explicit_port.is_some() || listening_port == 80 || listening_port == 443 {
                    authority_text(&a)
                } else {
                    let mut t = authority_host(&a);
                    t.append(":");
                    let p = u64_to_dec(listening_port as u64);
                    t.append(p.as_str());
                    proof {
                        assert(t@ =~= authority_host_of(raw@) + ":"@ + spec_decimal(
                            listening_port as nat,
                        ));
                    }
                    t
                }
            },
            None => fallback_authority(fallback_host, listening_port),
        },
        None => fallback_authority(fallback_host, listening_port),
    };
    let mut r = proto;
    r.append("://");
    r.append(text.as_str());
    proof {
        assert(r@ =~= spec_base_url(
            x_forwarded_proto,
            x_forwarded_host,
            host_header,
            fallback_host@,
            listening_port,
        ));
    }
    r
}

/// Relies on `uuid::Uuid::new_v4`, a cryptographically random 128-bit
/// value. Nothing is assumed of the bytes beyond their count.
#[verifier::external_body]
fn random_bytes16() -> (r: Vec<u8>)
    ensures
        r@.len() == 16,
{
    uuid::Uuid::new_v4().as_bytes().to_vec()
}

/// Generates a fresh challenge token: 32 random bytes as lowercase hex.
pub fn gen_k1_as_string() -> (r: String)
    ensures
        r@.len() == 64,
        exists|b: Seq<u8>| b.len() == 32 && r@ == hex_encoded(b),
{
    let mut bytes = random_bytes16();
    let more = random_bytes16();
    let ghost first = bytes@;
    let n = more.len();
    for i in 0..n
        invariant
            n == more@.len(),
            bytes@ =~= first + more@.take(i as int),
    {
        bytes.push(more[i]);
    }
    proof {
        assert(bytes@ =~= first + more@);
    }
    let r = to_hex(bytes.as_slice());
    proof {
        assert(r@ == hex_encoded(bytes@));
    }
    r
}

} // verus!
