use ln_server::channel_request;
use ln_server::config::Args;
use ln_server::health::{
    aggregate_health, bitcoin_credentials_configured, BitcoinSnapshot, BitcoinStatus,
    LightningStatus, NodeInfo,
};
use ln_server::issue_withdraw::{self, IssueWithdrawRequest, WithdrawResponse};
use ln_server::lnurl_auth_request::{self, LnUrlAuthRequestAction, LnUrlAuthRequestQuery};
use ln_server::open_channel::{self, OpenChannelRequest};
use ln_server::recent_requests::{
    extract_client_addr, should_log_path, RecentRequestEntry, RecentRequestLog,
    RecentRequestsQuery,
};
use ln_server::response::ApiResponse;
use ln_server::token_store::TokenStore;
use ln_server::utils::{extract_request_host, request_base_url};
use ln_server::withdraw_request;

fn test_args() -> Args {
    Args {
        rpc_sockpath: "/tmp/lightning-rpc".to_string(),
        listening_port: 3000,
        min_withdrawable_msat: 1000,
        max_withdrawable_msat: 100000,
    }
}

fn test_node_info() -> NodeInfo {
    NodeInfo {
        id: "02deadbeef".to_string(),
        alias: Some("node".to_string()),
        version: "v24.02".to_string(),
        num_peers: 3,
        num_active_channels: 2,
        num_pending_channels: 1,
        warning_bitcoind_sync: None,
        warning_lightningd_sync: None,
    }
}

fn valid_pubkey_hex() -> String {
    let sk = secp256k1::SecretKey::from_byte_array([5; 32]).unwrap();
    hex::encode(secp256k1::PublicKey::from_secret_key(&sk).serialize())
}

#[test]
fn withdraw_scenario_pays_once() {
    let mut store = TokenStore::new();
    let args = test_args();
    let issued = withdraw_request::handler(&mut store, &args);
    assert_eq!(issued.tag, "withdrawRequest");
    assert_eq!(issued.callback, "/withdraw-callback");
    assert_eq!(issued.min_withdrawable, 1000);
    assert_eq!(issued.max_withdrawable, 100000);
    assert_eq!(issued.k1.len(), 64);

    // First redemption: the validated upstream call comes back.
    let call = issue_withdraw::begin(
        &mut store,
        IssueWithdrawRequest {
            k1: issued.k1.clone(),
            destination: "bcrt1qexample".to_string(),
            amount: Some(1000),
        },
    )
    .expect("a pending token redeems");
    assert_eq!(call.destination, "bcrt1qexample");
    assert_eq!(call.amount_sat(), 1000);

    let done = issue_withdraw::finish(Ok(WithdrawResponse::new(
        "raw-tx".to_string(),
        "psbt".to_string(),
        "txid".to_string(),
    )));
    match done {
        ApiResponse::Success { status, data } => {
            assert_eq!(status, 200);
            assert_eq!(data.tx, "raw-tx");
            assert_eq!(data.psbt, "psbt");
            assert_eq!(data.txid, "txid");
        }
        ApiResponse::Failure { .. } => panic!("upstream success must be a 200"),
    }

    // The identical redemption again: rejected.
    match issue_withdraw::begin(
        &mut store,
        IssueWithdrawRequest {
            k1: issued.k1,
            destination: "bcrt1qexample".to_string(),
            amount: Some(1000),
        },
    ) {
        Err(ApiResponse::Failure { status, message }) => {
            assert_eq!(status, 400);
            assert_eq!(message, "invalid or already used k1");
        }
        _ => panic!("a spent token must be rejected"),
    }
}

#[test]
fn withdraw_amount_defaults_to_zero() {
    let mut store = TokenStore::new();
    let args = test_args();
    let issued = withdraw_request::handler(&mut store, &args);
    let call = issue_withdraw::begin(
        &mut store,
        IssueWithdrawRequest { k1: issued.k1, destination: "addr".to_string(), amount: None },
    )
    .expect("pending token");
    assert_eq!(call.amount_sat(), 0);
}

#[test]
fn token_consumed_before_upstream_failure() {
    let mut store = TokenStore::new();
    let args = test_args();
    let issued = withdraw_request::handler(&mut store, &args);
    let _call = issue_withdraw::begin(
        &mut store,
        IssueWithdrawRequest {
            k1: issued.k1.clone(),
            destination: "addr".to_string(),
            amount: None,
        },
    )
    .expect("pending token");

    // The upstream call fails — after the token was consumed.
    match issue_withdraw::finish(Err("connection reset".to_string())) {
        ApiResponse::Failure { status, message } => {
            assert_eq!(status, 502);
            assert_eq!(message, "connection reset");
        }
        ApiResponse::Success { .. } => panic!("upstream failure must be a 502"),
    }

    // The token cannot be redeemed again: it was spent before the call.
    match issue_withdraw::begin(
        &mut store,
        IssueWithdrawRequest { k1: issued.k1, destination: "addr".to_string(), amount: None },
    ) {
        Err(ApiResponse::Failure { status, .. }) => assert_eq!(status, 400),
        _ => panic!("a spent token must stay spent after an upstream failure"),
    }
}

#[test]
fn open_channel_flow() {
    let mut store = TokenStore::new();
    let issued = channel_request::handler(
        &mut store,
        &"02deadbeef".to_string(),
        &"example.com".to_string(),
        3001,
    );
    assert_eq!(issued.tag, "channelRequest");
    assert_eq!(issued.callback, "/open_channel");
    assert_eq!(issued.uri, "02deadbeef@example.com:3001");
    assert_eq!(issued.k1.len(), 64);

    // An unknown token is rejected before anything else.
    match open_channel::begin(
        &mut store,
        &"00".repeat(32),
        OpenChannelRequest {
            remote_id: valid_pubkey_hex(),
            amount: None,
            announce: None,
        },
    ) {
        Err(ApiResponse::Failure { status, message }) => {
            assert_eq!(status, 400);
            assert_eq!(message, "invalid or already used k1");
        }
        _ => panic!("an unknown token must be rejected"),
    }

    // A pending token with a good key yields the upstream call.
    let call = open_channel::begin(
        &mut store,
        &issued.k1,
        OpenChannelRequest {
            remote_id: valid_pubkey_hex(),
            amount: Some(20000),
            announce: Some(true),
        },
    )
    .expect("pending token and valid key");
    assert_eq!(call.remote_id, valid_pubkey_hex());
    assert_eq!(call.amount_sat, 20000);
    assert_eq!(call.announce, Some(true));

    match open_channel::finish(Ok("{\"channel_id\":\"abc\"}".to_string())) {
        ApiResponse::Success { status, data } => {
            assert_eq!(status, 200);
            assert!(data.ok);
            assert_eq!(data.result.as_deref(), Some("{\"channel_id\":\"abc\"}"));
            assert!(data.error.is_none());
        }
        ApiResponse::Failure { .. } => panic!("upstream success must be a 200"),
    }
    match open_channel::finish(Err("node offline".to_string())) {
        ApiResponse::Failure { status, message } => {
            assert_eq!(status, 502);
            assert_eq!(message, "node offline");
        }
        ApiResponse::Success { .. } => panic!("upstream failure must be a 502"),
    }
}

#[test]
fn open_channel_bad_pubkey_spends_token() {
    let mut store = TokenStore::new();
    let issued =
        channel_request::handler(&mut store, &"id".to_string(), &"host".to_string(), 3001);
    match open_channel::begin(
        &mut store,
        &issued.k1,
        OpenChannelRequest { remote_id: "not a key".to_string(), amount: None, announce: None },
    ) {
        Err(ApiResponse::Failure { status, message }) => {
            assert_eq!(status, 400);
            assert_eq!(message, "invalid pubkey");
        }
        _ => panic!("a malformed key must be rejected"),
    }
    // Fail-closed: the token is spent even though the key was bad.
    match open_channel::begin(
        &mut store,
        &issued.k1,
        OpenChannelRequest { remote_id: valid_pubkey_hex(), amount: None, announce: None },
    ) {
        Err(ApiResponse::Failure { status, message }) => {
            assert_eq!(status, 400);
            assert_eq!(message, "invalid or already used k1");
        }
        _ => panic!("the token must stay spent"),
    }
}

#[test]
fn lnurl_auth_request_issues_pending_token() {
    let mut store = TokenStore::new();
    let r = lnurl_auth_request::handler(
        &mut store,
        &LnUrlAuthRequestQuery { action: Some(LnUrlAuthRequestAction::Login) },
        "https://gw.example.com:3000",
    );
    assert_eq!(r.tag, "login");
    assert_eq!(r.callback, "https://gw.example.com:3000/callbacks/lnurl-auth");
    assert_eq!(r.action, Some(LnUrlAuthRequestAction::Login));
    assert!(store.is_auth_pending(&r.k1));
    assert!(!store.is_auth_completed(&r.k1));
}

#[test]
fn health_not_configured_is_still_ok() {
    let args = test_args();
    assert!(!bitcoin_credentials_configured(&None, &Some("pass".to_string())));
    match aggregate_health(Ok(test_node_info()), false, None, &args) {
        ApiResponse::Success { status, data } => {
            assert_eq!(status, 200);
            assert_eq!(data.bitcoin.status, BitcoinStatus::NotConfigured);
            assert_eq!(
                data.bitcoin.warnings.as_deref(),
                Some("Bitcoin RPC credentials not configured")
            );
            assert_eq!(data.lightning.status, LightningStatus::Operational);
            assert_eq!(data.min_withdrawable_msat, 1000);
            assert_eq!(data.max_withdrawable_msat, 100000);
        }
        ApiResponse::Failure { .. } => panic!("a reachable node means a 200"),
    }
}

#[test]
fn health_node_failure_is_fatal() {
    let args = test_args();
    match aggregate_health(Err("rpc timeout".to_string()), true, None, &args) {
        ApiResponse::Failure { status, message } => {
            assert_eq!(status, 502);
            assert_eq!(message, "rpc timeout");
        }
        ApiResponse::Success { .. } => panic!("an unreachable node must be a 502"),
    }
}

#[test]
fn health_snapshot_and_unreachable() {
    let args = test_args();
    let snapshot = BitcoinSnapshot {
        chain: "regtest".to_string(),
        blocks: 100,
        headers: 100,
        verification_progress_micros: 1_000_000,
        initial_block_download: false,
        connections: 8,
        version: 270000,
        subversion: "/Satoshi:27.0.0/".to_string(),
        warnings: Some("pruned".to_string()),
    };
    match aggregate_health(Ok(test_node_info()), true, Some(Ok(snapshot)), &args) {
        ApiResponse::Success { status, data } => {
            assert_eq!(status, 200);
            assert_eq!(data.bitcoin.status, BitcoinStatus::Operational);
            assert_eq!(data.bitcoin.chain, "regtest");
            assert_eq!(data.bitcoin.blocks, 100);
            assert_eq!(data.bitcoin.warnings.as_deref(), Some("pruned"));
        }
        ApiResponse::Failure { .. } => panic!("expected a 200"),
    }
    match aggregate_health(Ok(test_node_info()), true, Some(Err("refused".to_string())), &args) {
        ApiResponse::Success { status, data } => {
            assert_eq!(status, 200);
            assert_eq!(data.bitcoin.status, BitcoinStatus::Unreachable);
            assert_eq!(data.bitcoin.warnings.as_deref(), Some("refused"));
            assert_eq!(data.bitcoin.blocks, 0);
        }
        ApiResponse::Failure { .. } => panic!("a daemon failure only degrades the field"),
    }
}

#[test]
fn health_syncing_node() {
    let args = test_args();
    let mut info = test_node_info();
    info.warning_lightningd_sync = Some("Still loading".to_string());
    match aggregate_health(Ok(info), false, None, &args) {
        ApiResponse::Success { status, data } => {
            assert_eq!(status, 200);
            assert_eq!(data.lightning.status, LightningStatus::Syncing);
            assert_eq!(data.warning_lightningd_sync.as_deref(), Some("Still loading"));
        }
        ApiResponse::Failure { .. } => panic!("expected a 200"),
    }
}

#[test]
fn base_url_prefers_forwarded_headers() {
    assert_eq!(
        request_base_url(
            Some("https".to_string()),
            Some("gw.example.com".to_string()),
            Some("ignored.example.com".to_string()),
            "0.0.0.0",
            3000
        ),
        "https://gw.example.com:3000"
    );
}

#[test]
fn base_url_keeps_explicit_port() {
    assert_eq!(
        request_base_url(None, None, Some("example.com:8080".to_string()), "0.0.0.0", 3000),
        "http://example.com:8080"
    );
}

#[test]
fn base_url_omits_port_on_default_ports() {
    assert_eq!(
        request_base_url(Some("https".to_string()), None, Some("example.com".to_string()), "0.0.0.0", 443),
        "https://example.com"
    );
}

#[test]
fn base_url_falls_back_without_headers() {
    assert_eq!(request_base_url(None, None, None, "0.0.0.0", 3000), "http://0.0.0.0:3000");
    // An unparseable host header falls back too.
    assert_eq!(
        request_base_url(None, None, Some("bad host".to_string()), "0.0.0.0", 3000),
        "http://0.0.0.0:3000"
    );
}

#[test]
fn request_host_precedence() {
    assert_eq!(
        extract_request_host(Some("example.com:8080".to_string()), vec![], vec![]),
        "example.com"
    );
    assert_eq!(
        extract_request_host(None, vec![None, Some("10.0.0.1".to_string())], vec![]),
        "10.0.0.1"
    );
    assert_eq!(
        extract_request_host(None, vec![None], vec![Some("node.example.com".to_string())]),
        "node.example.com"
    );
    assert_eq!(extract_request_host(None, vec![], vec![]), "0.0.0.0");
}

#[test]
fn client_addr_precedence() {
    assert_eq!(
        extract_client_addr(Some("1.2.3.4, 5.6.7.8".to_string()), None, None),
        "1.2.3.4"
    );
    assert_eq!(
        extract_client_addr(Some("  ".to_string()), Some(" 9.9.9.9 ".to_string()), None),
        "9.9.9.9"
    );
    assert_eq!(
        extract_client_addr(None, None, Some("127.0.0.1:5555".to_string())),
        "127.0.0.1:5555"
    );
    assert_eq!(extract_client_addr(None, None, None), "unknown");
}

#[test]
fn log_paths() {
    assert!(!should_log_path("/health"));
    assert!(!should_log_path("/recent-requests"));
    assert!(!should_log_path("/swagger-ui/index.html"));
    assert!(!should_log_path("/api-doc/openapi.json"));
    assert!(should_log_path("/healthz"));
    assert!(should_log_path("/callbacks/lnurl-auth"));
}

fn entry(ts: u64) -> RecentRequestEntry {
    RecentRequestEntry {
        ts_ms: ts,
        client_addr: "1.2.3.4".to_string(),
        method: "GET".to_string(),
        path: "/withdraw-request".to_string(),
        status: 200,
        ok: true,
    }
}

#[test]
fn recent_requests_newest_first() {
    let mut log = RecentRequestLog::new();
    for ts in 0..5 {
        log.record(entry(ts));
    }
    let listed = log.recent(&RecentRequestsQuery { limit: None });
    assert_eq!(listed.len(), 5);
    let stamps: Vec<u64> = listed.iter().map(|e| e.ts_ms).collect();
    assert_eq!(stamps, vec![4, 3, 2, 1, 0]);
}

#[test]
fn recent_requests_limit_clamped() {
    let mut log = RecentRequestLog::new();
    for ts in 0..60 {
        log.record(entry(ts));
    }
    assert_eq!(log.recent(&RecentRequestsQuery { limit: Some(0) }).len(), 1);
    assert_eq!(log.recent(&RecentRequestsQuery { limit: Some(7) }).len(), 7);
    assert_eq!(log.recent(&RecentRequestsQuery { limit: Some(999) }).len(), 50);
    assert_eq!(log.recent(&RecentRequestsQuery { limit: None }).len(), 15);
}

#[test]
fn recent_requests_capped_and_cleared() {
    let mut log = RecentRequestLog::new();
    for ts in 0..105 {
        log.record(entry(ts));
    }
    // The newest survive; the oldest were dropped at the cap.
    let listed = log.recent(&RecentRequestsQuery { limit: Some(50) });
    assert_eq!(listed[0].ts_ms, 104);
    assert_eq!(listed[49].ts_ms, 55);
    log.clear();
    assert!(log.recent(&RecentRequestsQuery { limit: None }).is_empty());
}
