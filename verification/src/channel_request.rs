//! The channel-request endpoint: issue a challenge and tell the wallet
//! where this node can be reached.

use vstd::prelude::*;
use vstd::string::StringExecFns;

use crate::text::{spec_decimal, u64_to_dec};
use crate::token_store::{TokenNamespace, TokenStore};

verus! {

/// The endpoint's response payload.
#[derive(Debug)]
pub struct ChannelRequestResponse {
    /// Type of request, always "channelRequest".
    pub tag: String,
    /// Remote node address of the form `node_key@ip_address:port_number`.
    pub uri: String,
    /// Second-level URL to trigger the channel open.
    pub callback: String,
    /// The one-time token.
    pub k1: String,
}

/// The node URI a wallet connects to: `node_id@host:port`.
pub open spec fn spec_node_uri(node_id: Seq<char>, host: Seq<char>, port: u16) -> Seq<char> {
    node_id + "@"@ + host + ":"@ + spec_decimal(port as nat)
}

/// Issues a channel-open token and builds the response around the node's
/// identity and reachable address.
pub fn handler(store: &mut TokenStore, node_id: &String, host: &String, port: u16) -> (r:
    ChannelRequestResponse)
    requires
        old(store).wf(),
    ensures
        final(store).wf(),
        final(store)@ == old(store)@.issued(TokenNamespace::ChannelOpen, r.k1@),
        r.tag@ == "channelRequest"@,
        r.callback@ == "/open_channel"@,
        r.uri@ == spec_node_uri(node_id@, host@, port),
        r.k1@.len() == 64,
{
    let k1 = store.issue(TokenNamespace::ChannelOpen);
    let mut uri = node_id.clone();
    uri.append("@");
    uri.append(host.as_str());
    uri.append(":");
    let port_str = u64_to_dec(port as u64);
    uri.append(port_str.as_str());
    proof {
        assert(uri@ =~= spec_node_uri(node_id@, host@, port));
    }
    ChannelRequestResponse {
        tag: "channelRequest".to_owned(),
        uri,
        callback: "/open_channel".to_owned(),
        k1,
    }
}

} // verus!
