use base64::engine::general_purpose::URL_SAFE_NO_PAD;
use base64::Engine;
use ic_http_auth::ecdsa::reencode_public_key;
use ic_http_auth::ecdsa::verify_sig;
use ic_http_auth::http_signature::get_http_sig_bytes;
use ic_http_auth::http_signature::HttpSignatureValidationInput;
use ic_http_auth::validate_http_signature_headers;
use ic_http_auth::HeaderField;
use ic_http_auth::HttpAuthError;
use ic_http_auth::HttpRequest;
use ic_http_auth::SignatureKeyHeader;
use p256::ecdsa::signature::Signer;
use p256::ecdsa::Signature;
use p256::ecdsa::SigningKey;
use p256::pkcs8::EncodePublicKey;

const ROOT_KEY: &[u8] = ic_canister_sig_creation::IC_ROOT_PK_DER;

fn signing_key(seed: u8) -> SigningKey {
    SigningKey::from_slice(&[seed; 32]).unwrap()
}

fn public_key_der(key: &SigningKey) -> Vec<u8> {
    key.verifying_key().to_public_key_der().unwrap().as_bytes().to_vec()
}

fn sign(key: &SigningKey, payload: &[u8]) -> Vec<u8> {
    let signature: Signature = key.sign(payload);
    signature.to_bytes().to_vec()
}

fn header(name: &str, value: &str) -> HeaderField {
    (name.to_string(), value.to_string())
}

fn labeled(bytes: &[u8]) -> String {
    format!("sig1=:{}:", URL_SAFE_NO_PAD.encode(bytes))
}

fn key_header(key: &SigningKey) -> String {
    let json = format!("{{\"pubKey\": \"{}\"}}", URL_SAFE_NO_PAD.encode(public_key_der(key)));
    labeled(json.as_bytes())
}

/// `GET /items` with the headers `host` and `date`, signed by `key` over
/// method, path and the two headers.
fn signed_request(key: &SigningKey) -> HttpRequest {
    let input = "sig1=(\"@method\" \"@path\" \"host\" \"date\");created=1700000000";
    let payload = b"\"@method\": GET\n\"@path\": /items\n\"host\": example.org\n\"date\": today\n\"@signature-params\": (\"@method\" \"@path\" \"host\" \"date\");created=1700000000\n";
    HttpRequest::new(
        "GET".to_string(),
        "/items".to_string(),
        vec![
            header("host", "example.org"),
            header("date", "today"),
            header("signature-input", input),
            header("signature", &labeled(&sign(key, payload))),
            header("signature-key", &key_header(key)),
        ],
    )
}

fn set_header(req: &mut HttpRequest, name: &str, value: &str) {
    for field in req.headers.iter_mut() {
        if field.0 == name {
            field.1 = value.to_string();
        }
    }
}

fn raw_public_key(key: &SigningKey, compress: bool) -> Vec<u8> {
    key.verifying_key().to_encoded_point(compress).as_bytes().to_vec()
}

fn identity_of(key: &SigningKey) -> Vec<u8> {
    candid::Principal::self_authenticating(public_key_der(key)).as_slice().to_vec()
}

#[test]
fn direct_signature_is_accepted() {
    let key = signing_key(1);
    let payload =
        b"\"@method\": GET\n\"@path\": /items\n\"@signature-params\": (\"@method\" \"@path\")\n";
    let req = HttpRequest::new(
        "GET".to_string(),
        "/items".to_string(),
        vec![
            header("signature-input", "sig1=(\"@method\" \"@path\")"),
            header("signature", &labeled(&sign(&key, payload))),
            header("signature-key", &key_header(&key)),
        ],
    );
    let data = validate_http_signature_headers(&req, ROOT_KEY).unwrap();
    assert_eq!(data.principal.as_slice(), &identity_of(&key)[..]);
    assert_eq!(data.principal.as_slice().len(), 29);
}

#[test]
fn signed_request_resolves_to_the_identity_of_its_key() {
    for seed in [1u8, 2, 3] {
        let key = signing_key(seed);
        let data = validate_http_signature_headers(&signed_request(&key), ROOT_KEY).unwrap();
        assert_eq!(data.principal.as_slice(), &identity_of(&key)[..]);
    }
}

#[test]
fn identity_is_the_same_on_every_verification() {
    let key = signing_key(7);
    let req = signed_request(&key);
    let first = validate_http_signature_headers(&req, ROOT_KEY).unwrap();
    let second = validate_http_signature_headers(&req, ROOT_KEY).unwrap();
    assert_eq!(first.principal.as_slice(), second.principal.as_slice());
    assert_ne!(first.principal.as_slice(), &identity_of(&signing_key(8))[..]);
}

#[test]
fn root_key_is_not_read_without_a_delegation() {
    let key = signing_key(1);
    let data = validate_http_signature_headers(&signed_request(&key), &[]).unwrap();
    assert_eq!(data.principal.as_slice(), &identity_of(&key)[..]);
}

#[test]
fn flipped_signature_byte_is_rejected() {
    let key = signing_key(1);
    let good = signed_request(&key);
    let signature = get_http_sig_bytes(good.headers()).unwrap();
    for position in [0usize, 17, 31, 32, 63] {
        let mut bad = signature.clone();
        bad[position] ^= 0x01;
        let mut req = signed_request(&key);
        set_header(&mut req, "signature", &labeled(&bad));
        match validate_http_signature_headers(&req, ROOT_KEY) {
            Err(HttpAuthError::JwtSignatureVerificationFailed(_)) => {}
            Err(HttpAuthError::MalformedEcdsaSignature) => {}
            other => panic!("unexpected result: {:?}", other),
        }
    }
}

#[test]
fn changed_header_value_is_rejected() {
    let key = signing_key(1);
    let mut req = signed_request(&key);
    set_header(&mut req, "host", "example.com");
    assert!(matches!(
        validate_http_signature_headers(&req, ROOT_KEY),
        Err(HttpAuthError::JwtSignatureVerificationFailed(_))
    ));
}

#[test]
fn removed_signed_header_is_rejected() {
    let key = signing_key(1);
    let mut req = signed_request(&key);
    req.headers.retain(|field| field.0 != "date");
    match validate_http_signature_headers(&req, ROOT_KEY) {
        Err(HttpAuthError::MissingHeaderField(name)) => assert_eq!(name, "date"),
        other => panic!("unexpected result: {:?}", other),
    }
}

#[test]
fn changed_component_order_is_rejected() {
    let key = signing_key(1);
    let mut req = signed_request(&key);
    set_header(
        &mut req,
        "signature-input",
        "sig1=(\"@path\" \"@method\" \"host\" \"date\");created=1700000000",
    );
    assert!(matches!(
        validate_http_signature_headers(&req, ROOT_KEY),
        Err(HttpAuthError::JwtSignatureVerificationFailed(_))
    ));
}

#[test]
fn changed_method_or_path_is_rejected() {
    let key = signing_key(1);
    let mut req = signed_request(&key);
    req.method = "POST".to_string();
    assert!(matches!(
        validate_http_signature_headers(&req, ROOT_KEY),
        Err(HttpAuthError::JwtSignatureVerificationFailed(_))
    ));
    let mut req = signed_request(&key);
    req.url = "/items/1".to_string();
    assert!(matches!(
        validate_http_signature_headers(&req, ROOT_KEY),
        Err(HttpAuthError::JwtSignatureVerificationFailed(_))
    ));
}

#[test]
fn byte_different_signature_input_is_rejected() {
    let key = signing_key(1);
    let mut req = signed_request(&key);
    set_header(
        &mut req,
        "signature-input",
        "sig1=(\"@method\"  \"@path\" \"host\" \"date\");created=1700000000",
    );
    assert!(matches!(
        validate_http_signature_headers(&req, ROOT_KEY),
        Err(HttpAuthError::JwtSignatureVerificationFailed(_))
    ));
    let mut req = signed_request(&key);
    set_header(
        &mut req,
        "signature-input",
        "sig1=(\"@method\" \"@path\" \"host\" \"date\");created=1700000000 ",
    );
    assert!(matches!(
        validate_http_signature_headers(&req, ROOT_KEY),
        Err(HttpAuthError::JwtSignatureVerificationFailed(_))
    ));
}

#[test]
fn signature_of_another_key_is_rejected() {
    let mut req = signed_request(&signing_key(1));
    set_header(&mut req, "signature-key", &key_header(&signing_key(2)));
    assert!(matches!(
        validate_http_signature_headers(&req, ROOT_KEY),
        Err(HttpAuthError::JwtSignatureVerificationFailed(_))
    ));
}

#[test]
fn missing_headers_are_reported_in_order() {
    let key = signing_key(1);
    let mut req = signed_request(&key);
    req.headers.retain(|field| field.0 != "signature-input");
    assert!(matches!(
        validate_http_signature_headers(&req, ROOT_KEY),
        Err(HttpAuthError::MissingSignatureInputHeader)
    ));
    req.headers.retain(|field| field.0 != "signature-key");
    assert!(matches!(
        validate_http_signature_headers(&req, ROOT_KEY),
        Err(HttpAuthError::MissingSignatureKeyHeader)
    ));
    req.headers.retain(|field| field.0 != "signature");
    assert!(matches!(
        validate_http_signature_headers(&req, ROOT_KEY),
        Err(HttpAuthError::MissingSignatureHeader)
    ));
}

#[test]
fn signature_key_that_is_no_json_is_rejected() {
    let key = signing_key(1);
    let mut req = signed_request(&key);
    set_header(&mut req, "signature-key", &labeled(b"{\"pubKey\": "));
    match validate_http_signature_headers(&req, ROOT_KEY) {
        Err(HttpAuthError::MalformedHttpSigKey(reason)) => assert!(!reason.is_empty()),
        other => panic!("unexpected result: {:?}", other),
    }
    set_header(&mut req, "signature-key", &labeled(b"not json at all"));
    assert!(matches!(
        validate_http_signature_headers(&req, ROOT_KEY),
        Err(HttpAuthError::MalformedHttpSigKey(_))
    ));
}

#[test]
fn signature_key_of_the_wrong_shape_is_rejected() {
    let key = signing_key(1);
    for value in ["sig1=:e30", "sig1=:***:", "e30"] {
        let mut req = signed_request(&key);
        set_header(&mut req, "signature-key", value);
        assert!(matches!(
            validate_http_signature_headers(&req, ROOT_KEY),
            Err(HttpAuthError::MalformedHttpSigKey(_))
        ));
    }
}

#[test]
fn signature_of_the_wrong_shape_is_rejected() {
    let key = signing_key(1);
    for value in ["sig1=:AAAA", "sig1=:***:", "AAAA", "sig1=:AAAA: "] {
        let mut req = signed_request(&key);
        set_header(&mut req, "signature", value);
        assert!(matches!(
            validate_http_signature_headers(&req, ROOT_KEY),
            Err(HttpAuthError::MalformedHttpSig(_))
        ));
    }
}

#[test]
fn signature_of_the_wrong_length_is_malformed() {
    let key = signing_key(1);
    for length in [0usize, 63, 65] {
        let mut req = signed_request(&key);
        set_header(&mut req, "signature", &labeled(&vec![1u8; length]));
        assert!(matches!(
            validate_http_signature_headers(&req, ROOT_KEY),
            Err(HttpAuthError::MalformedEcdsaSignature)
        ));
    }
}

#[test]
fn signature_out_of_range_is_malformed() {
    let key = public_key_der(&signing_key(1));
    assert!(matches!(verify_sig(b"x", &[0u8; 64], &key), Err(HttpAuthError::MalformedEcdsaSignature)));
    assert!(matches!(
        verify_sig(b"x", &[0xffu8; 64], &key),
        Err(HttpAuthError::MalformedEcdsaSignature)
    ));
    let mut zero_s = vec![1u8; 32];
    zero_s.extend_from_slice(&[0u8; 32]);
    assert!(matches!(verify_sig(b"x", &zero_s, &key), Err(HttpAuthError::MalformedEcdsaSignature)));
    assert!(matches!(
        verify_sig(b"x", &[1u8; 64], &key),
        Err(HttpAuthError::JwtSignatureVerificationFailed(_))
    ));
}

#[test]
fn key_that_is_no_public_key_is_malformed() {
    let key = signing_key(1);
    let signature = sign(&key, b"payload");
    assert!(matches!(
        verify_sig(b"payload", &signature, b"no key"),
        Err(HttpAuthError::MalformedEcdsaPublicKey)
    ));
    let mut der = public_key_der(&key);
    der.truncate(40);
    assert!(matches!(
        verify_sig(b"payload", &signature, &der),
        Err(HttpAuthError::MalformedEcdsaPublicKey)
    ));
    assert!(matches!(reencode_public_key(b"no key"), Err(HttpAuthError::MalformedEcdsaPublicKey)));
}

#[test]
fn malformed_signature_is_reported_before_a_malformed_key() {
    assert!(matches!(
        verify_sig(b"payload", b"short", b"no key"),
        Err(HttpAuthError::MalformedEcdsaSignature)
    ));
}

#[test]
fn verify_sig_accepts_what_the_key_signed() {
    let key = signing_key(5);
    let der = public_key_der(&key);
    let signature = sign(&key, b"payload");
    assert!(verify_sig(b"payload", &signature, &der).is_ok());
    assert!(matches!(
        verify_sig(b"payloae", &signature, &der),
        Err(HttpAuthError::JwtSignatureVerificationFailed(_))
    ));
    assert!(matches!(
        verify_sig(b"payload", &signature, &public_key_der(&signing_key(6))),
        Err(HttpAuthError::JwtSignatureVerificationFailed(_))
    ));
}

#[test]
fn public_key_is_written_back_in_der_form() {
    let der = public_key_der(&signing_key(5));
    assert_eq!(reencode_public_key(&der).unwrap(), der);
}

#[test]
fn headers_are_read_into_the_validation_input() {
    let key = signing_key(1);
    let input = HttpSignatureValidationInput::try_from(&signed_request(&key)).unwrap();
    assert_eq!(input.signature.len(), 64);
    assert_eq!(input.signature_pub_key(), &public_key_der(&key)[..]);
    assert_eq!(input.signature_pub_key_der().unwrap(), public_key_der(&key));
    assert!(input.delegation_chain().is_none());
    assert!(input.payload.starts_with(b"\"@method\": GET\n\"@path\": /items\n"));
    assert!(input.payload.ends_with(b";created=1700000000\n"));
}

#[test]
fn signature_key_header_is_read_from_the_headers() {
    let key = signing_key(1);
    let req = signed_request(&key);
    let header = SignatureKeyHeader::try_from(req.headers()).unwrap();
    assert_eq!(header.pub_key, public_key_der(&key));
    assert!(header.delegation_chain.is_none());
    assert_eq!(header.signature_pub_key_der().unwrap(), public_key_der(&key));
}

#[test]
fn header_names_are_matched_without_regard_to_case() {
    let key = signing_key(1);
    let mut req = signed_request(&key);
    for field in req.headers.iter_mut() {
        field.0 = field.0.to_uppercase();
    }
    let data = validate_http_signature_headers(&req, ROOT_KEY).unwrap();
    assert_eq!(data.principal.as_slice(), &identity_of(&key)[..]);
}

#[test]
fn raw_key_is_accepted_and_gives_the_identity_of_its_der_form() {
    let key = signing_key(1);
    let payload =
        b"\"@method\": GET\n\"@path\": /items\n\"@signature-params\": (\"@method\" \"@path\")\n";
    for compress in [false, true] {
        let raw = raw_public_key(&key, compress);
        assert_eq!(raw.len(), if compress { 33 } else { 65 });
        let json = format!("{{\"pubKey\": \"{}\"}}", URL_SAFE_NO_PAD.encode(&raw));
        let req = HttpRequest::new(
            "GET".to_string(),
            "/items".to_string(),
            vec![
                header("signature-input", "sig1=(\"@method\" \"@path\")"),
                header("signature", &labeled(&sign(&key, payload))),
                header("signature-key", &labeled(json.as_bytes())),
            ],
        );
        let data = validate_http_signature_headers(&req, ROOT_KEY).unwrap();
        assert_eq!(data.principal.as_slice(), &identity_of(&key)[..]);
    }
}

#[test]
fn raw_key_is_written_in_der_form() {
    let key = signing_key(5);
    assert_eq!(reencode_public_key(&raw_public_key(&key, false)).unwrap(), public_key_der(&key));
    assert_eq!(reencode_public_key(&raw_public_key(&key, true)).unwrap(), public_key_der(&key));
    let mut off_curve = raw_public_key(&key, false);
    off_curve[64] ^= 1;
    assert!(matches!(reencode_public_key(&off_curve), Err(HttpAuthError::MalformedEcdsaPublicKey)));
    assert!(matches!(reencode_public_key(&[0u8]), Err(HttpAuthError::MalformedEcdsaPublicKey)));
    assert!(matches!(reencode_public_key(&[]), Err(HttpAuthError::MalformedEcdsaPublicKey)));
}

#[test]
fn verify_sig_accepts_a_raw_key() {
    let key = signing_key(5);
    let signature = sign(&key, b"payload");
    assert!(verify_sig(b"payload", &signature, &raw_public_key(&key, false)).is_ok());
    assert!(verify_sig(b"payload", &signature, &raw_public_key(&key, true)).is_ok());
    assert!(matches!(
        verify_sig(b"payload", &signature, &raw_public_key(&signing_key(6), false)),
        Err(HttpAuthError::JwtSignatureVerificationFailed(_))
    ));
}

#[test]
fn der_key_with_a_compressed_point_is_written_back_uncompressed() {
    let key = signing_key(5);
    let mut der = vec![
        0x30, 0x39, 0x30, 0x13, 0x06, 0x07, 0x2a, 0x86, 0x48, 0xce, 0x3d, 0x02, 0x01, 0x06, 0x08,
        0x2a, 0x86, 0x48, 0xce, 0x3d, 0x03, 0x01, 0x07, 0x03, 0x22, 0x00,
    ];
    der.extend_from_slice(&raw_public_key(&key, true));
    assert_ne!(der, public_key_der(&key));
    assert_eq!(reencode_public_key(&der).unwrap(), public_key_der(&key));
    let signature = sign(&key, b"payload");
    assert!(verify_sig(b"payload", &signature, &der).is_ok());
}
