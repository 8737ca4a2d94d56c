use ic_http_auth::http_signature::calculate_http_sig;
use ic_http_auth::http_signature::canonical_payload;
use ic_http_auth::http_signature::get_http_sig_input_payload;
use ic_http_auth::http_signature::resolve_component;
use ic_http_auth::request::find_header;
use ic_http_auth::HeaderField;
use ic_http_auth::HttpAuthError;
use ic_http_auth::HttpRequest;

fn header(name: &str, value: &str) -> HeaderField {
    (name.to_string(), value.to_string())
}

fn request(method: &str, url: &str, headers: Vec<HeaderField>) -> HttpRequest {
    HttpRequest::new(method.to_string(), url.to_string(), headers)
}

fn path(text: &str) -> Result<String, String> {
    Ok(text.to_string())
}

fn no_query() -> Result<Option<String>, String> {
    Ok(None)
}

#[test]
fn payload_of_method_and_path() {
    let components = vec![&b"@method"[..], &b"@path"[..]];
    let payload = canonical_payload(
        "GET",
        &path("/items"),
        &no_query(),
        &[],
        b"sig1=(\"@method\" \"@path\")",
        &components,
    )
    .unwrap();
    assert_eq!(
        payload,
        b"\"@method\": GET\n\"@path\": /items\n\"@signature-params\": sig1=(\"@method\" \"@path\")\n"
    );
}

#[test]
fn payload_without_components_is_the_parameter_line() {
    let payload =
        canonical_payload("GET", &path("/"), &no_query(), &[], b"()", &Vec::new()).unwrap();
    assert_eq!(payload, b"\"@signature-params\": ()\n");
}

#[test]
fn payload_follows_the_order_of_the_components() {
    let headers = vec![header("x-a", "1"), header("x-b", "2")];
    let forward = vec![&b"x-a"[..], &b"x-b"[..]];
    let backward = vec![&b"x-b"[..], &b"x-a"[..]];
    let first =
        canonical_payload("GET", &path("/"), &no_query(), &headers, b"p", &forward).unwrap();
    let second =
        canonical_payload("GET", &path("/"), &no_query(), &headers, b"p", &backward).unwrap();
    assert_eq!(first, b"\"x-a\": 1\n\"x-b\": 2\n\"@signature-params\": p\n");
    assert_eq!(second, b"\"x-b\": 2\n\"x-a\": 1\n\"@signature-params\": p\n");
}

#[test]
fn method_is_written_in_upper_case() {
    let value = resolve_component("get", &path("/"), &no_query(), &[], b"@method").unwrap();
    assert_eq!(value, b"GET");
    let value = resolve_component("pAtCh", &path("/"), &no_query(), &[], b"@method").unwrap();
    assert_eq!(value, b"PATCH");
}

#[test]
fn query_is_written_behind_a_question_mark() {
    let query: Result<Option<String>, String> = Ok(Some("a=1&b=2".to_string()));
    let value = resolve_component("GET", &path("/"), &query, &[], b"@query").unwrap();
    assert_eq!(value, b"?a=1&b=2");
}

#[test]
fn missing_query_is_written_as_nothing() {
    let value = resolve_component("GET", &path("/"), &no_query(), &[], b"@query").unwrap();
    assert_eq!(value, b"");
}

#[test]
fn malformed_target_fails_only_where_it_is_asked_for() {
    let broken: Result<String, String> = Err("no path".to_string());
    let broken_query: Result<Option<String>, String> = Err("no query".to_string());
    let headers = vec![header("host", "example.org")];
    assert_eq!(
        resolve_component("GET", &broken, &broken_query, &headers, b"host").unwrap(),
        b"example.org"
    );
    match resolve_component("GET", &broken, &broken_query, &headers, b"@path") {
        Err(HttpAuthError::HttpCertificationError(reason)) => assert_eq!(reason, "no path"),
        other => panic!("unexpected result: {:?}", other),
    }
    match resolve_component("GET", &broken, &broken_query, &headers, b"@query") {
        Err(HttpAuthError::HttpCertificationError(reason)) => assert_eq!(reason, "no query"),
        other => panic!("unexpected result: {:?}", other),
    }
}

#[test]
fn missing_header_is_reported_by_name() {
    let headers = vec![header("host", "example.org")];
    let components = vec![&b"host"[..], &b"x-request-id"[..], &b"x-other"[..]];
    match canonical_payload("GET", &path("/"), &no_query(), &headers, b"p", &components) {
        Err(HttpAuthError::MissingHeaderField(name)) => assert_eq!(name, "x-request-id"),
        other => panic!("unexpected result: {:?}", other),
    }
}

#[test]
fn missing_header_name_is_read_as_text() {
    for (name, text) in
        [(&b""[..], ""), ("\u{e4}".as_bytes(), "\u{e4}"), (&b"a\xffb"[..], "a\u{fffd}b")]
    {
        match resolve_component("GET", &path("/"), &no_query(), &[], name) {
            Err(HttpAuthError::MissingHeaderField(reported)) => assert_eq!(reported, text),
            other => panic!("unexpected result: {:?}", other),
        }
    }
}

#[test]
fn header_lookup_takes_the_first_match() {
    let headers = vec![header("x-a", "first"), header("x-b", "other"), header("x-a", "second")];
    assert_eq!(find_header(&headers, b"x-a"), Some("first"));
    assert_eq!(find_header(&headers, b"x-b"), Some("other"));
    assert_eq!(find_header(&headers, b"x-c"), None);
    assert_eq!(find_header(&[], b"x-a"), None);
}

#[test]
fn header_lookup_ignores_the_case_of_names() {
    let headers = vec![header("Content-Type", "text/plain"), header("content-type", "other")];
    assert_eq!(find_header(&headers, b"content-type"), Some("text/plain"));
    assert_eq!(find_header(&headers, b"CONTENT-TYPE"), Some("text/plain"));
    assert_eq!(find_header(&headers, b"content_type"), None);
    assert_eq!(find_header(&headers, b"content-typ"), None);
}

#[test]
fn header_name_is_echoed_as_it_is_listed() {
    let headers = vec![header("Content-Type", "text/plain")];
    let components = vec![&b"content-type"[..]];
    let payload =
        canonical_payload("GET", &path("/"), &no_query(), &headers, b"p", &components).unwrap();
    assert_eq!(payload, b"\"content-type\": text/plain\n\"@signature-params\": p\n");
}

#[test]
fn request_target_is_taken_apart() {
    let req = request("GET", "/items/42?sort=asc&limit=10", vec![]);
    assert_eq!(req.get_path().unwrap(), "/items/42");
    assert_eq!(req.get_query().unwrap(), Some("sort=asc&limit=10".to_string()));
    let req = request("GET", "https://example.org/a%20b", vec![]);
    assert_eq!(req.get_path().unwrap(), "/a b");
    assert_eq!(req.get_query().unwrap(), None);
}

#[test]
fn request_target_agrees_with_the_certification_library() {
    for url in ["/", "/items?x=1", "https://example.org/a/b?c", "/a%2Fb", "not a url"] {
        let theirs = ic_http_certification::HttpRequest::get(url).build();
        let ours = request("GET", url, vec![]);
        assert_eq!(ours.get_path().ok(), theirs.get_path().ok());
        assert_eq!(ours.get_query().ok(), theirs.get_query().ok());
    }
}

#[test]
fn malformed_request_target_is_an_error() {
    let req = request("GET", "not a url", vec![]);
    assert!(matches!(req.get_path(), Err(HttpAuthError::HttpCertificationError(_))));
    assert!(matches!(req.get_query(), Err(HttpAuthError::HttpCertificationError(_))));
}

#[test]
fn payload_of_a_request() {
    let req = request(
        "post",
        "/items?dry-run",
        vec![header("content-type", "application/json"), header("host", "example.org")],
    );
    let components = vec![&b"@method"[..], &b"@path"[..], &b"@query"[..], &b"host"[..]];
    let payload = calculate_http_sig(&req, req.headers(), b"params", components).unwrap();
    assert_eq!(
        payload,
        &b"\"@method\": POST\n\"@path\": /items\n\"@query\": ?dry-run\n\"host\": example.org\n\"@signature-params\": params\n"[..]
    );
}

#[test]
fn payload_from_the_signature_input_header() {
    let value = "sig1=(\"@method\" \"@path\");created=1700000000";
    let req = request("GET", "/items", vec![header("signature-input", value)]);
    let payload = get_http_sig_input_payload(&req, req.headers()).unwrap();
    assert_eq!(
        payload,
        &b"\"@method\": GET\n\"@path\": /items\n\"@signature-params\": (\"@method\" \"@path\");created=1700000000\n"[..]
    );
}

#[test]
fn payload_needs_the_signature_input_header() {
    let req = request("GET", "/items", vec![header("signature", "sig1=:AA:")]);
    assert!(matches!(
        get_http_sig_input_payload(&req, req.headers()),
        Err(HttpAuthError::MissingSignatureInputHeader)
    ));
    let req = request("GET", "/items", vec![header("signature-input", "sig1=@method")]);
    assert!(matches!(
        get_http_sig_input_payload(&req, req.headers()),
        Err(HttpAuthError::MalformedHttpSigInput(_))
    ));
}

#[test]
fn payloads_differ_where_parameters_differ_in_whitespace() {
    let one = request("GET", "/items", vec![header("signature-input", "sig1=(\"@method\" \"@path\")")]);
    let two =
        request("GET", "/items", vec![header("signature-input", "sig1=(\"@method\"  \"@path\")")]);
    let first = get_http_sig_input_payload(&one, one.headers()).unwrap();
    let second = get_http_sig_input_payload(&two, two.headers()).unwrap();
    assert_ne!(first, second);
    assert_eq!(first.len() + 1, second.len());
}
