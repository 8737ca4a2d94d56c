use base64::engine::general_purpose::URL_SAFE_NO_PAD;
use base64::Engine;
use ic_http_auth::json::parse_json;
use ic_http_auth::json::Json;
use ic_http_auth::wire::byte_string_from_json;
use ic_http_auth::wire::targets_from_json;
use ic_http_auth::Delegation;
use ic_http_auth::DelegationChain;
use ic_http_auth::HttpAuthError;
use ic_http_auth::SignatureKeyHeader;
use ic_http_auth::SignedDelegation;

fn text(value: &str) -> Json {
    Json::Text(value.to_string())
}

fn object(members: Vec<(&str, Json)>) -> Json {
    Json::Object(members.into_iter().map(|(name, value)| (name.to_string(), value)).collect())
}

fn number(value: u64) -> Json {
    Json::Number(Some(value))
}

fn delegation_json() -> Json {
    object(vec![("pubKey", text("a2V5")), ("expiration", text("123"))])
}

fn signed_json() -> Json {
    object(vec![("delegation", delegation_json()), ("sig", text("c2ln"))])
}

#[test]
fn key_without_chain_is_read_from_json_text() {
    let header = SignatureKeyHeader::from_json_text(b"{\"pubKey\": \"AQID\"}").unwrap();
    assert_eq!(header.pub_key, vec![1u8, 2, 3]);
    assert!(header.delegation_chain.is_none());
}

#[test]
fn key_with_null_chain_has_no_chain() {
    let header =
        SignatureKeyHeader::from_json_text(b" {\"delegationChain\": null, \"pubKey\": \"\"} ")
            .unwrap();
    assert_eq!(header.pub_key, Vec::<u8>::new());
    assert!(header.delegation_chain.is_none());
}

#[test]
fn key_with_chain_is_read_from_json_text() {
    let json = "{\"pubKey\": \"AQID\", \"other\": [1, {\"x\": 2.5}], \"delegationChain\": {\
        \"pubKey\": \"Y2hhaW4\", \"delegations\": [{\"delegation\": {\"pubKey\": \"c2Vzc2lvbg\", \
        \"expiration\": \"1700000000000000000\", \"targets\": [[0, 1, 255], []]}, \"sig\": \"c2ln\"}]}}";
    let header = SignatureKeyHeader::from_json_text(json.as_bytes()).unwrap();
    assert_eq!(header.pub_key, vec![1u8, 2, 3]);
    let chain = header.delegation_chain.unwrap();
    assert_eq!(chain.pub_key, "Y2hhaW4");
    assert_eq!(chain.delegations.len(), 1);
    let signed = &chain.delegations[0];
    assert_eq!(signed.sig, "c2ln");
    assert_eq!(signed.delegation.pub_key, "c2Vzc2lvbg");
    assert_eq!(signed.delegation.expiration, "1700000000000000000");
    assert_eq!(signed.delegation.targets, Some(vec![vec![0u8, 1, 255], vec![]]));
    assert_eq!(signed.delegation.expiration(), Some(1_700_000_000_000_000_000));
}

#[test]
fn text_that_is_no_json_is_rejected() {
    for bytes in [&b""[..], b"{", b"{\"pubKey\": \"AQID\"", b"{\"pubKey\": \"AQID\"} x", b"\xff"] {
        match SignatureKeyHeader::from_json_text(bytes) {
            Err(HttpAuthError::MalformedHttpSigKey(reason)) => assert!(!reason.is_empty()),
            other => panic!("unexpected result: {:?}", other),
        }
    }
}

#[test]
fn json_of_another_shape_is_rejected() {
    for json in [
        "null",
        "[]",
        "\"AQID\"",
        "{}",
        "{\"pubkey\": \"AQID\"}",
        "{\"pubKey\": 5}",
        "{\"pubKey\": null}",
        "{\"pubKey\": \"***\"}",
        "{\"pubKey\": \"AQID=\"}",
        "{\"pubKey\": \"AQID\", \"delegationChain\": 5}",
        "{\"pubKey\": \"AQID\", \"delegationChain\": {}}",
        "{\"pubKey\": \"AQID\", \"delegationChain\": {\"pubKey\": \"a\"}}",
        "{\"pubKey\": \"AQID\", \"delegationChain\": {\"pubKey\": \"a\", \"delegations\": {}}}",
        "{\"pubKey\": \"AQID\", \"delegationChain\": {\"pubKey\": \"a\", \"delegations\": [1]}}",
        "{\"pubKey\": \"AQID\", \"delegationChain\": {\"delegations\": []}}",
    ] {
        assert!(
            matches!(
                SignatureKeyHeader::from_json_text(json.as_bytes()),
                Err(HttpAuthError::MalformedHttpSigKey(_))
            ),
            "accepted {}",
            json
        );
    }
}

#[test]
fn chain_may_hold_any_number_of_delegations_on_the_wire() {
    let json = "{\"pubKey\": \"AQID\", \"delegationChain\": {\"pubKey\": \"a\", \"delegations\": []}}";
    let header = SignatureKeyHeader::from_json_text(json.as_bytes()).unwrap();
    assert_eq!(header.delegation_chain.unwrap().delegations.len(), 0);
}

#[test]
fn key_is_read_from_a_json_tree() {
    let json = object(vec![("ignored", Json::Bool(true)), ("pubKey", text("AQID"))]);
    let header = SignatureKeyHeader::from_json(&json).unwrap();
    assert_eq!(header.pub_key, vec![1u8, 2, 3]);
    assert!(header.delegation_chain.is_none());
    assert!(SignatureKeyHeader::from_json(&Json::Array(vec![text("AQID")])).is_err());
}

#[test]
fn first_member_of_a_name_counts() {
    let json = object(vec![("pubKey", text("AQID")), ("pubKey", text("BAUG"))]);
    assert_eq!(SignatureKeyHeader::from_json(&json).unwrap().pub_key, vec![1u8, 2, 3]);
    assert_eq!(json.text_field("pubKey").unwrap(), "AQID");
}

#[test]
fn members_are_looked_up_by_name() {
    let json = object(vec![("a", number(1)), ("b", text("two")), ("c", Json::Null)]);
    assert!(matches!(json.field("a"), Some(Json::Number(Some(1)))));
    assert!(matches!(json.field("c"), Some(Json::Null)));
    assert!(json.field("d").is_none());
    assert!(json.field("A").is_none());
    assert_eq!(json.text_field("b").unwrap(), "two");
    assert!(json.text_field("a").is_none());
    assert!(json.text_field("d").is_none());
    assert!(text("x").field("a").is_none());
    assert!(Json::Array(vec![]).field("a").is_none());
}

#[test]
fn delegation_is_read_from_json() {
    let delegation = Delegation::from_json(&delegation_json()).unwrap();
    assert_eq!(delegation.pub_key, "a2V5");
    assert_eq!(delegation.expiration, "123");
    assert_eq!(delegation.targets, None);
    let with_targets = object(vec![
        ("targets", Json::Array(vec![Json::Array(vec![number(7)])])),
        ("expiration", text("123")),
        ("pubKey", text("a2V5")),
    ]);
    assert_eq!(Delegation::from_json(&with_targets).unwrap().targets, Some(vec![vec![7u8]]));
}

#[test]
fn delegation_needs_its_members() {
    assert!(Delegation::from_json(&object(vec![("pubKey", text("a"))])).is_err());
    assert!(Delegation::from_json(&object(vec![("expiration", text("1"))])).is_err());
    assert!(Delegation::from_json(&object(vec![("pubKey", text("a")), ("expiration", number(1))]))
        .is_err());
    assert!(Delegation::from_json(&object(vec![
        ("pubKey", text("a")),
        ("expiration", text("1")),
        ("targets", text("x")),
    ]))
    .is_err());
    assert!(Delegation::from_json(&Json::Null).is_err());
}

#[test]
fn signed_delegation_is_read_from_json() {
    let signed = SignedDelegation::from_json(&signed_json()).unwrap();
    assert_eq!(signed.sig, "c2ln");
    assert_eq!(signed.delegation.pub_key, "a2V5");
    assert!(SignedDelegation::from_json(&object(vec![("sig", text("c2ln"))])).is_err());
    assert!(SignedDelegation::from_json(&object(vec![("delegation", delegation_json())])).is_err());
    assert!(SignedDelegation::from_json(&object(vec![
        ("delegation", Json::Null),
        ("sig", text("c2ln")),
    ]))
    .is_err());
}

#[test]
fn chain_is_read_from_json() {
    let json = object(vec![
        ("pubKey", text("Y2hhaW4")),
        ("delegations", Json::Array(vec![signed_json(), signed_json()])),
    ]);
    let chain = DelegationChain::from_json(&json).unwrap();
    assert_eq!(chain.pub_key, "Y2hhaW4");
    assert_eq!(chain.delegations.len(), 2);
    assert!(DelegationChain::optional_from_json(None).unwrap().is_none());
    assert!(DelegationChain::optional_from_json(Some(&Json::Null)).unwrap().is_none());
    assert!(DelegationChain::optional_from_json(Some(&json)).unwrap().is_some());
    assert!(DelegationChain::optional_from_json(Some(&number(1))).is_err());
}

#[test]
fn byte_strings_are_arrays_of_bytes() {
    let json = Json::Array(vec![number(0), number(128), number(255)]);
    assert_eq!(byte_string_from_json(&json).unwrap(), vec![0u8, 128, 255]);
    assert_eq!(byte_string_from_json(&Json::Array(vec![])).unwrap(), Vec::<u8>::new());
    assert!(byte_string_from_json(&Json::Array(vec![number(256)])).is_err());
    assert!(byte_string_from_json(&Json::Array(vec![Json::Number(None)])).is_err());
    assert!(byte_string_from_json(&Json::Array(vec![number(1), text("2")])).is_err());
    assert!(byte_string_from_json(&text("AQID")).is_err());
}

#[test]
fn targets_may_be_left_out() {
    assert_eq!(targets_from_json(None).unwrap(), None);
    assert_eq!(targets_from_json(Some(&Json::Null)).unwrap(), None);
    assert_eq!(targets_from_json(Some(&Json::Array(vec![]))).unwrap(), Some(vec![]));
    let json = Json::Array(vec![Json::Array(vec![number(1)]), Json::Array(vec![])]);
    assert_eq!(targets_from_json(Some(&json)).unwrap(), Some(vec![vec![1u8], vec![]]));
    assert!(targets_from_json(Some(&Json::Array(vec![number(1)]))).is_err());
    assert!(targets_from_json(Some(&Json::Bool(false))).is_err());
}

#[test]
fn numbers_that_are_no_bytes_are_rejected_on_the_wire() {
    for targets in ["[[-1]]", "[[1.5]]", "[[256]]", "[[\"1\"]]", "[1]", "{}"] {
        let json = format!(
            "{{\"pubKey\": \"AQID\", \"delegationChain\": {{\"pubKey\": \"a\", \"delegations\": \
             [{{\"delegation\": {{\"pubKey\": \"a\", \"expiration\": \"1\", \"targets\": {}}}, \
             \"sig\": \"a\"}}]}}}}",
            targets
        );
        assert!(
            matches!(
                SignatureKeyHeader::from_json_text(json.as_bytes()),
                Err(HttpAuthError::MalformedHttpSigKey(_))
            ),
            "accepted {}",
            targets
        );
    }
}

#[test]
fn key_bytes_are_decoded_as_url_safe_base64() {
    let bytes = vec![0xfbu8, 0xff, 0xfe, 0x00, 0x01];
    let json = format!("{{\"pubKey\": \"{}\"}}", URL_SAFE_NO_PAD.encode(&bytes));
    assert!(json.contains('-') || json.contains('_'));
    assert_eq!(SignatureKeyHeader::from_json_text(json.as_bytes()).unwrap().pub_key, bytes);
}

#[test]
fn json_text_is_parsed_into_a_tree() {
    let json = parse_json(b" {\"b\": [1, -1, 1.5, \"x\", null, true, {}], \"a\": 18446744073709551615} ")
        .unwrap();
    match &json {
        Json::Object(members) => {
            let names: Vec<&str> = members.iter().map(|member| member.0.as_str()).collect();
            assert_eq!(names, vec!["a", "b"]);
        }
        other => panic!("unexpected value: {:?}", other),
    }
    assert!(matches!(json.field("a"), Some(Json::Number(Some(u64::MAX)))));
    match json.field("b") {
        Some(Json::Array(items)) => {
            assert_eq!(items.len(), 7);
            assert!(matches!(&items[0], Json::Number(Some(1))));
            assert!(matches!(&items[1], Json::Number(None)));
            assert!(matches!(&items[2], Json::Number(None)));
            assert!(matches!(&items[3], Json::Text(text) if text == "x"));
            assert!(matches!(&items[4], Json::Null));
            assert!(matches!(&items[5], Json::Bool(true)));
            assert!(matches!(&items[6], Json::Object(members) if members.is_empty()));
        }
        other => panic!("unexpected value: {:?}", other),
    }
}

#[test]
fn json_text_keeps_the_last_of_two_members_of_one_name() {
    let json = parse_json(b"{\"a\": 1, \"a\": 2}").unwrap();
    assert!(matches!(json.field("a"), Some(Json::Number(Some(2)))));
}

#[test]
fn what_is_no_json_text_is_described() {
    for bytes in [&b""[..], b"{", b"[1,]", b"nul", b"{} {}", b"\"\xff\""] {
        let reason = parse_json(bytes).unwrap_err();
        assert!(!reason.is_empty());
    }
}
