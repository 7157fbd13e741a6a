//! The gateway's configuration.

use vstd::prelude::*;

verus! {

/// Settings the server is started with.
#[derive(Debug)]
pub struct Args {
    /// Path to the Lightning node's RPC socket.
    pub rpc_sockpath: String,
    /// Port for the HTTP server to listen on.
    pub listening_port: u16,
    /// Minimum withdrawable amount in millisatoshis.
    pub min_withdrawable_msat: u64,
    /// Maximum withdrawable amount in millisatoshis.
    pub max_withdrawable_msat: u64,
}

impl Clone for Args {
    /// An exact copy.
    fn clone(&self) -> (r: Self)
        ensures
            r == *self,
    {
        Args {
            rpc_sockpath: self.rpc_sockpath.clone(),
            listening_port: self.listening_port,
            min_withdrawable_msat: self.min_withdrawable_msat,
            max_withdrawable_msat: self.max_withdrawable_msat,
        }
    }
}

} // verus!
