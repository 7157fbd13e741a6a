//! Health aggregation: one composite status from the Lightning node's info
//! and the chain daemon's snapshot.
//!
//! The node is the primary dependency: if it cannot be reached, the whole
//! response is a bad-gateway error and the chain daemon is not consulted.
//! The chain daemon degrades gracefully: missing credentials report a
//! distinct not-configured state, an unreachable daemon an unreachable
//! one; neither is an HTTP error.

use vstd::prelude::*;

use crate::config::Args;
use crate::response::ApiResponse;
use crate::STATUS_BAD_GATEWAY;

verus! {

/// The Lightning node's health.
#[derive(Clone, Copy, Debug, PartialEq, Eq, Structural)]
pub enum LightningStatus {
    /// The node is reachable and in sync.
    Operational,
    /// The node reports a sync warning.
    Syncing,
}

/// The chain daemon's health.
#[derive(Clone, Copy, Debug, PartialEq, Eq, Structural)]
pub enum BitcoinStatus {
    /// The daemon answered the status calls.
    Operational,
    /// The daemon is configured but could not be reached.
    Unreachable,
    /// No credentials are configured; a degraded, non-error state.
    NotConfigured,
}

/// The plain fields of the node's own status report.
#[derive(Debug)]
pub struct NodeInfo {
    /// The node's public key, hex.
    pub id: String,
    /// The node's alias, if set.
    pub alias: Option<String>,
    /// The node's software version.
    pub version: String,
    /// Number of connected peers.
    pub num_peers: u32,
    /// Number of active channels.
    pub num_active_channels: u32,
    /// Number of pending channels.
    pub num_pending_channels: u32,
    /// Present while the node's view of the chain is catching up.
    pub warning_bitcoind_sync: Option<String>,
    /// Present while the node itself is catching up.
    pub warning_lightningd_sync: Option<String>,
}

/// The node's part of the health response.
#[derive(Debug)]
pub struct LightningInfo {
    /// Overall node status.
    pub status: LightningStatus,
    /// Node alias (may be absent).
    pub alias: Option<String>,
    /// Node public key (hex).
    pub pubkey: String,
    /// Node software version.
    pub cln_version: String,
    /// Number of connected peers.
    pub num_peers: u32,
    /// Number of active channels.
    pub num_active_channels: u32,
    /// Number of pending channels.
    pub num_pending_channels: u32,
}

/// What the node's info condenses to: syncing exactly when either sync
/// warning is present.
pub open spec fn spec_lightning_info(info: NodeInfo) -> LightningInfo {
    LightningInfo {
        status: if info.warning_bitcoind_sync is Some || info.warning_lightningd_sync is Some {
            LightningStatus::Syncing
        } else {
            LightningStatus::Operational
        },
        alias: info.alias,
        pubkey: info.id,
        cln_version: info.version,
        num_peers: info.num_peers,
        num_active_channels: info.num_active_channels,
        num_pending_channels: info.num_pending_channels,
    }
}

/// Clones an optional string, keeping its value.
fn clone_opt_string(o: &Option<String>) -> (r: Option<String>)
    ensures
        r == *o,
{
    match o {
        Some(s) => Some(s.clone()),
        None => None,
    }
}

impl LightningInfo {
    /// Condenses the node's status report.
    pub fn from_node(info: &NodeInfo) -> (r: LightningInfo)
        ensures
            r == spec_lightning_info(*info),
    {
        let status = if info.warning_bitcoind_sync.is_some() || info.warning_lightningd_sync.is_some() {
            LightningStatus::Syncing
        } else {
            LightningStatus::Operational
        };
        LightningInfo {
            status,
            alias: clone_opt_string(&info.alias),
            pubkey: info.id.clone(),
            cln_version: info.version.clone(),
            num_peers: info.num_peers,
            num_active_channels: info.num_active_channels,
            num_pending_channels: info.num_pending_channels,
        }
    }
}

/// The plain fields of the chain daemon's status snapshot. The daemon's
/// verification-progress fraction is carried in parts per million.
#[derive(Debug)]
pub struct BitcoinSnapshot {
    /// Blockchain name (e.g. main, test, regtest).
    pub chain: String,
    /// Current number of blocks.
    pub blocks: u64,
    /// Current number of headers.
    pub headers: u64,
    /// Verification progress in parts per million (1000000 = fully synced).
    pub verification_progress_micros: u64,
    /// Whether the daemon is in initial block download.
    pub initial_block_download: bool,
    /// Number of peer connections.
    pub connections: u64,
    /// Daemon version number.
    pub version: i64,
    /// Daemon subversion string.
    pub subversion: String,
    /// Any warnings the daemon reports.
    pub warnings: Option<String>,
}

/// The chain daemon's part of the health response.
#[derive(Debug)]
pub struct BitcoinInfo {
    /// Overall daemon status.
    pub status: BitcoinStatus,
    /// Blockchain name.
    pub chain: String,
    /// Current number of blocks.
    pub blocks: u64,
    /// Current number of headers.
    pub headers: u64,
    /// Verification progress in parts per million.
    pub verification_progress_micros: u64,
    /// Whether the daemon is in initial block download.
    pub initial_block_download: bool,
    /// Number of peer connections.
    pub connections: u64,
    /// Daemon version number.
    pub version: i64,
    /// Daemon subversion string.
    pub subversion: String,
    /// Any warnings.
    pub warnings: Option<String>,
}

/// Whether `b` is the all-empty report under the given status and
/// warnings.
pub open spec fn spec_is_empty_bitcoin_info(
    b: BitcoinInfo,
    status: BitcoinStatus,
    warnings: Option<Seq<char>>,
) -> bool {
    &&& b.status == status
    &&& b.chain@.len() == 0
    &&& b.blocks == 0
    &&& b.headers == 0
    &&& b.verification_progress_micros == 0
    &&& b.initial_block_download == false
    &&& b.connections == 0
    &&& b.version == 0
    &&& b.subversion@.len() == 0
    &&& match (b.warnings, warnings) {
        (Some(got), Some(want)) => got@ == want,
        (None, None) => true,
        _ => false,
    }
}

/// Whether `b` reports the snapshot `s` verbatim, as operational.
pub open spec fn spec_is_snapshot_info(b: BitcoinInfo, s: BitcoinSnapshot) -> bool {
    &&& b.status is Operational
    &&& b.chain == s.chain
    &&& b.blocks == s.blocks
    &&& b.headers == s.headers
    &&& b.verification_progress_micros == s.verification_progress_micros
    &&& b.initial_block_download == s.initial_block_download
    &&& b.connections == s.connections
    &&& b.version == s.version
    &&& b.subversion == s.subversion
    &&& b.warnings == s.warnings
}

impl BitcoinInfo {
    /// An all-empty report under the given status and warnings, for the
    /// two degraded states.
    pub fn make_empty(status: BitcoinStatus, warnings: Option<String>) -> (r: BitcoinInfo)
        ensures
            spec_is_empty_bitcoin_info(
                r,
                status,
                match warnings {
                    Some(w) => Some(w@),
                    None => None,
                },
            ),
    {
        BitcoinInfo {
            status,
            chain: String::new(),
            blocks: 0,
            headers: 0,
            verification_progress_micros: 0,
            initial_block_download: false,
            connections: 0,
            version: 0,
            subversion: String::new(),
            warnings,
        }
    }

    /// The snapshot's fields, verbatim, as an operational report.
    pub fn from_snapshot(s: BitcoinSnapshot) -> (r: BitcoinInfo)
        ensures
            spec_is_snapshot_info(r, s),
    {
        BitcoinInfo {
            status: BitcoinStatus::Operational,
            chain: s.chain,
            blocks: s.blocks,
            headers: s.headers,
            verification_progress_micros: s.verification_progress_micros,
            initial_block_download: s.initial_block_download,
            connections: s.connections,
            version: s.version,
            subversion: s.subversion,
            warnings: s.warnings,
        }
    }
}

/// The composite health payload.
#[derive(Debug)]
pub struct HealthResponse {
    /// The node's part.
    pub lightning: LightningInfo,
    /// The chain daemon's part.
    pub bitcoin: BitcoinInfo,
    /// Minimum withdrawable amount in millisatoshis.
    pub min_withdrawable_msat: u64,
    /// Maximum withdrawable amount in millisatoshis.
    pub max_withdrawable_msat: u64,
    /// The node's chain-sync warning, passed through.
    pub warning_bitcoind_sync: Option<String>,
    /// The node's own sync warning, passed through.
    pub warning_lightningd_sync: Option<String>,
}

/// Merges the node's status report and the chain daemon's snapshot into
/// one health response.
///
/// A node failure is fatal: the response is a bad-gateway error carrying
/// the node's error text, and `snapshot` is ignored (the caller does not
/// consult the daemon in that case). With the node reachable, missing
/// daemon credentials or a daemon failure only degrade the daemon's field,
/// and the response is still a success.
pub fn aggregate_health(
    node: Result<NodeInfo, String>,
    bitcoin_configured: bool,
    snapshot: Option<Result<BitcoinSnapshot, String>>,
    args: &Args,
) -> (r: ApiResponse<HealthResponse>)
    requires
        node is Ok && bitcoin_configured ==> snapshot is Some,
    ensures
        match node {
            Err(e) => r matches ApiResponse::Failure { status, message } && status
                == STATUS_BAD_GATEWAY && message@ == e@,
            Ok(info) => r matches ApiResponse::Success { status, data } && {
                &&& status == crate::STATUS_OK
                &&& data.lightning == spec_lightning_info(info)
                &&& data.min_withdrawable_msat == args.min_withdrawable_msat
                &&& data.max_withdrawable_msat == args.max_withdrawable_msat
                &&& data.warning_bitcoind_sync == info.warning_bitcoind_sync
                &&& data.warning_lightningd_sync == info.warning_lightningd_sync
                &&& if !bitcoin_configured {
                    spec_is_empty_bitcoin_info(
                        data.bitcoin,
                        BitcoinStatus::NotConfigured,
                        Some("Bitcoin RPC credentials not configured"@),
                    )
                } else {
                    match snapshot->Some_0 {
                        Ok(s) => spec_is_snapshot_info(data.bitcoin, s),
                        Err(e) => spec_is_empty_bitcoin_info(
                            data.bitcoin,
                            BitcoinStatus::Unreachable,
                            Some(e@),
                        ),
                    }
                }
            },
        },
{
    let info = match node {
        Ok(info) => info,
        Err(e) => {
            return ApiResponse::Failure { status: STATUS_BAD_GATEWAY, message: e };
        },
    };
    let bitcoin = if !bitcoin_configured {
        BitcoinInfo::make_empty(
            BitcoinStatus::NotConfigured,
            Some("Bitcoin RPC credentials not configured".to_owned()),
        )
    } else {
        match snapshot {
            Some(Ok(s)) => BitcoinInfo::from_snapshot(s),
            Some(Err(e)) => BitcoinInfo::make_empty(BitcoinStatus::Unreachable, Some(e)),
            None => BitcoinInfo::make_empty(BitcoinStatus::Unreachable, None),
        }
    };
    let lightning = LightningInfo::from_node(&info);
    ApiResponse::make_ok(
        HealthResponse {
            lightning,
            bitcoin,
            min_withdrawable_msat: args.min_withdrawable_msat,
            max_withdrawable_msat: args.max_withdrawable_msat,
            warning_bitcoind_sync: info.warning_bitcoind_sync,
            warning_lightningd_sync: info.warning_lightningd_sync,
        },
    )
}

/// Whether chain-daemon credentials are configured: both must be present.
pub fn bitcoin_credentials_configured(user: &Option<String>, pass: &Option<String>) -> (r: bool)
    ensures
        r == (user is Some && pass is Some),
{
    user.is_some() && pass.is_some()
}

} // verus!
