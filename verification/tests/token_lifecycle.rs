use ln_server::lnurl_auth::{handler, LnUrlAuthQuery};
use ln_server::response::ApiResponse;
use ln_server::token_store::{TokenNamespace, TokenStore};

fn keypair(seed: u8) -> (secp256k1::SecretKey, secp256k1::PublicKey) {
    let sk = secp256k1::SecretKey::from_byte_array([seed; 32]).expect("non-zero seed");
    let pk = secp256k1::PublicKey::from_secret_key(&sk);
    (sk, pk)
}

fn sign_compact_hex(sk: &secp256k1::SecretKey, digest: &[u8]) -> String {
    let mut arr = [0u8; 32];
    arr.copy_from_slice(digest);
    let sig = secp256k1::ecdsa::sign(secp256k1::Message::from_digest(arr), sk);
    hex::encode(sig.serialize_compact())
}

#[test]
fn at_most_once_consumption() {
    let mut store = TokenStore::new();
    let token = store.issue(TokenNamespace::Withdraw);
    let mut successes = 0;
    for _ in 0..8 {
        if store.consume(TokenNamespace::Withdraw, &token) {
            successes += 1;
        }
    }
    assert_eq!(successes, 1);
}

#[test]
fn consume_unknown_token_fails() {
    let mut store = TokenStore::new();
    assert!(!store.consume(TokenNamespace::Withdraw, &"feed".to_string()));
}

#[test]
fn namespace_isolation() {
    let mut store = TokenStore::new();
    let token = store.issue(TokenNamespace::Withdraw);
    // The same string value does not satisfy consume in other namespaces.
    assert!(!store.consume(TokenNamespace::ChannelOpen, &token));
    assert!(!store.consume(TokenNamespace::AuthChallenge, &token));
    // It is still consumable exactly once where it was issued.
    assert!(store.consume(TokenNamespace::Withdraw, &token));
    assert!(!store.consume(TokenNamespace::Withdraw, &token));
}

#[test]
fn issue_registers_only_its_namespace() {
    let mut store = TokenStore::new();
    let token = store.issue(TokenNamespace::ChannelOpen);
    assert!(!store.is_auth_pending(&token));
    assert!(store.consume(TokenNamespace::ChannelOpen, &token));
}

#[test]
fn auth_tri_state() {
    let mut store = TokenStore::new();
    let (sk, pk) = keypair(7);
    let key_hex = hex::encode(pk.serialize());

    // Unknown token: the generic rejection.
    let unknown = LnUrlAuthQuery {
        k1: "00".repeat(32),
        sig: "00".repeat(64),
        key: key_hex.clone(),
    };
    match handler(&mut store, &unknown) {
        ApiResponse::Failure { status, message } => {
            assert_eq!(status, 400);
            assert_eq!(message, "invalid k1");
        }
        ApiResponse::Success { .. } => panic!("unknown token must not authenticate"),
    }

    // Pending token with a valid signature: success, then completed.
    let k1 = store.issue(TokenNamespace::AuthChallenge);
    let digest = hex::decode(&k1).expect("issued tokens are hex");
    let query = LnUrlAuthQuery {
        k1: k1.clone(),
        sig: sign_compact_hex(&sk, &digest),
        key: key_hex.clone(),
    };
    match handler(&mut store, &query) {
        ApiResponse::Success { status, data } => {
            assert_eq!(status, 200);
            assert!(data.ok);
            assert_eq!(data.result.as_deref(), Some("Authentication successful"));
            assert!(data.error.is_none());
        }
        ApiResponse::Failure { status, message } => {
            panic!("expected success, got {status}: {message}")
        }
    }
    assert!(store.is_auth_completed(&k1));
    assert!(!store.is_auth_pending(&k1));

    // Re-redeeming: the conflict, not the generic rejection.
    match handler(&mut store, &query) {
        ApiResponse::Failure { status, message } => {
            assert_eq!(status, 409);
            assert_eq!(message, "k1 already used");
        }
        ApiResponse::Success { .. } => panic!("a used token must not authenticate again"),
    }
}

#[test]
fn auth_rejects_wrong_key() {
    let mut store = TokenStore::new();
    let (sk, _) = keypair(7);
    let (_, other_pk) = keypair(9);
    let k1 = store.issue(TokenNamespace::AuthChallenge);
    let digest = hex::decode(&k1).unwrap();
    let query = LnUrlAuthQuery {
        k1: k1.clone(),
        sig: sign_compact_hex(&sk, &digest),
        key: hex::encode(other_pk.serialize()),
    };
    match handler(&mut store, &query) {
        ApiResponse::Failure { status, message } => {
            assert_eq!(status, 400);
            assert_eq!(message, "signature verification failed");
        }
        ApiResponse::Success { .. } => panic!("wrong key must not authenticate"),
    }
    // A failed verification does not consume the token.
    assert!(store.is_auth_pending(&k1));
}

#[test]
fn auth_error_messages() {
    let mut store = TokenStore::new();
    let (sk, pk) = keypair(7);
    let key_hex = hex::encode(pk.serialize());

    let cases: Vec<(String, String, &str)> = vec![
        ("zz".repeat(16), "00".repeat(64), "invalid key hex"),
        ("ab".repeat(16), "00".repeat(64), "invalid key length"),
        (format!("05{}", "00".repeat(32)), "00".repeat(64), "invalid secp256k1 public key"),
        (key_hex.clone(), "not hex".to_string(), "invalid sig hex"),
        (key_hex.clone(), "ff".repeat(64), "invalid compact signature"),
        (key_hex.clone(), "0000".to_string(), "invalid DER signature"),
    ];
    for (key, sig, expected) in cases {
        let k1 = store.issue(TokenNamespace::AuthChallenge);
        let query = LnUrlAuthQuery { k1, sig, key };
        match handler(&mut store, &query) {
            ApiResponse::Failure { status, message } => {
                assert_eq!(status, 400);
                assert_eq!(message, expected);
            }
            ApiResponse::Success { .. } => panic!("malformed input must not authenticate"),
        }
    }
    // Everything parses but the signature covers a different digest.
    let k1 = store.issue(TokenNamespace::AuthChallenge);
    let query = LnUrlAuthQuery {
        k1,
        sig: sign_compact_hex(&sk, &[0x42; 32]),
        key: key_hex,
    };
    match handler(&mut store, &query) {
        ApiResponse::Failure { status, message } => {
            assert_eq!(status, 400);
            assert_eq!(message, "signature verification failed");
        }
        ApiResponse::Success { .. } => panic!("a foreign signature must not authenticate"),
    }
}
