use base64::engine::general_purpose::URL_SAFE_NO_PAD;
use base64::Engine;
use ic_http_auth::delegation::validate_delegation_and_get_principal;
use ic_http_auth::delegation::CanisterSigPublicKey;
use ic_http_auth::ecdsa::reencode_public_key;
use ic_http_auth::ecdsa::verify_sig;
use ic_http_auth::json::parse_json;
use ic_http_auth::parse_utils::parse_labeled_value;
use ic_http_auth::parse_utils::parse_signature_input;
use ic_http_auth::root_key::extract_raw_root_pk_from_der;
use ic_http_auth::validate_http_signature_headers;
use ic_http_auth::Delegation;
use ic_http_auth::DelegationChain;
use ic_http_auth::HttpAuthError;
use ic_http_auth::HttpRequest;
use ic_http_auth::Principal;
use ic_http_auth::SignedDelegation;

/// Bytes that look random and are the same on every run.
fn noise(length: usize, seed: u64) -> Vec<u8> {
    let mut state = seed.wrapping_mul(0x9e37_79b9_7f4a_7c15).wrapping_add(1);
    (0..length)
        .map(|_| {
            state ^= state << 13;
            state ^= state >> 7;
            state ^= state << 17;
            (state >> 24) as u8
        })
        .collect()
}

#[test]
fn deeply_nested_json_is_refused() {
    let mut text = vec![b'['; 100_000];
    text.extend(vec![b']'; 100_000]);
    assert!(parse_json(&text).is_err());
    let mut text = b"{\"pubKey\": \"AQID\", \"x\": ".to_vec();
    text.extend(vec![b'['; 10_000]);
    assert!(parse_json(&text).is_err());
}

#[test]
fn noise_is_never_accepted_as_a_key_or_a_signature() {
    for seed in 0..200u64 {
        for length in [0usize, 1, 16, 33, 64, 65, 91, 133] {
            let bytes = noise(length, seed);
            let _ = reencode_public_key(&bytes);
            let _ = CanisterSigPublicKey::try_from_der(&bytes);
            let _ = extract_raw_root_pk_from_der(&bytes);
            let _ = Principal::from_slice(&bytes);
            let _ = parse_json(&bytes);
            let _ = parse_labeled_value(&bytes);
            let _ = parse_signature_input(&bytes);
            assert!(verify_sig(b"payload", &bytes, &bytes).is_err());
        }
    }
}

#[test]
fn canister_signature_key_of_any_length_is_handled() {
    let full = ic_canister_sig_creation::CanisterSigPublicKey::new(
        candid::Principal::from_slice(&[7u8; 29]),
        vec![1u8; 40],
    )
    .to_der();
    for length in 0..=full.len() {
        let ours = CanisterSigPublicKey::try_from_der(&full[..length]);
        if length >= 16 {
            let theirs = ic_canister_sig_creation::CanisterSigPublicKey::try_from(&full[..length]);
            assert_eq!(ours.is_ok(), theirs.is_ok(), "differ at length {}", length);
            if let (Ok(ours), Ok(theirs)) = (ours, theirs) {
                assert_eq!(ours.canister_id.as_slice(), theirs.canister_id.as_slice());
                assert_eq!(ours.seed, theirs.seed);
            }
        } else {
            assert!(ours.is_err());
        }
    }
}

#[test]
fn chain_of_noise_is_rejected() {
    let root = ic_canister_sig_creation::IC_ROOT_PK_DER;
    for seed in 0..50u64 {
        let chain = DelegationChain {
            pub_key: URL_SAFE_NO_PAD.encode(noise(40, seed)),
            delegations: vec![SignedDelegation {
                delegation: Delegation {
                    pub_key: URL_SAFE_NO_PAD.encode(noise(20, seed + 1)),
                    expiration: "1".to_string(),
                    targets: None,
                },
                sig: URL_SAFE_NO_PAD.encode(noise(300, seed + 2)),
            }],
        };
        assert!(validate_delegation_and_get_principal(
            &chain,
            &noise(20, seed + 1),
            "rdmx6-jaaaa-aaaaa-aaadq-cai",
            root
        )
        .is_err());
    }
}

#[test]
fn canister_signature_of_noise_is_rejected() {
    let issuer = candid::Principal::from_text("rdmx6-jaaaa-aaaaa-aaadq-cai").unwrap();
    let key = ic_canister_sig_creation::CanisterSigPublicKey::new(issuer, vec![1u8; 32]).to_der();
    for seed in 0..50u64 {
        let mut signature = vec![0xd9u8, 0xd9, 0xf7];
        signature.extend_from_slice(&noise(200, seed));
        let chain = DelegationChain {
            pub_key: URL_SAFE_NO_PAD.encode(&key),
            delegations: vec![SignedDelegation {
                delegation: Delegation {
                    pub_key: URL_SAFE_NO_PAD.encode(b"session"),
                    expiration: "1".to_string(),
                    targets: Some(vec![noise(10, seed)]),
                },
                sig: URL_SAFE_NO_PAD.encode(&signature),
            }],
        };
        assert!(matches!(
            validate_delegation_and_get_principal(
                &chain,
                b"session",
                "rdmx6-jaaaa-aaaaa-aaadq-cai",
                ic_canister_sig_creation::IC_ROOT_PK_DER,
            ),
            Err(HttpAuthError::InvalidDelegationSignature(_))
        ));
    }
}

#[test]
fn request_with_odd_headers_is_rejected() {
    let values = [
        "", "=", "=:", "=::", "sig1=:", ":", "sig1=()", "sig1=(", "\"", "sig1=(\"\")", "\u{e4}=:\u{e4}:",
        "sig1=:\u{1f600}:", "sig1 = ( \"\u{e4}\" )",
    ];
    for signature in values {
        for input in values {
            for key in values {
                let req = HttpRequest::new(
                    "GET".to_string(),
                    "/\u{e4}?\u{e4}".to_string(),
                    vec![
                        ("signature".to_string(), signature.to_string()),
                        ("signature-input".to_string(), input.to_string()),
                        ("signature-key".to_string(), key.to_string()),
                    ],
                );
                assert!(validate_http_signature_headers(&req, &[]).is_err());
            }
        }
    }
}

#[test]
fn odd_request_targets_are_handled() {
    for url in ["", " ", "?", "#", "%", "/%zz", "/a?b?c", "http://", "/\u{e4}", "//", "a b", "\0"] {
        let req = HttpRequest::new("GET".to_string(), url.to_string(), vec![]);
        let _ = req.get_path();
        let _ = req.get_query();
    }
}
