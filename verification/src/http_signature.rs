//! Verification of a request's signature headers: the canonical payload,
//! the three headers, and the entry point that resolves a request to an
//! identity.

use crate::base64::base64_decode;
use crate::base64::base64url_decoding;
use crate::bytes::text_of;
use crate::bytes::slice_eq;
use crate::bytes::text_from_bytes;
use crate::bytes::to_ascii_uppercase;
use crate::bytes::uppercased;
use crate::delegation::delegation_outcome;
use crate::delegation::validate_delegation_and_get_principal;
use crate::delegation::DelegationChain;
use crate::ecdsa::public_key_der;
use crate::ecdsa::reencode_public_key;
use crate::ecdsa::signature_check;
use crate::ecdsa::verify_sig;
use crate::error::HttpAuthError;
use crate::error::Rejection;
use crate::json::json_document;
use crate::json::parse_json;
use crate::json::Json;
use crate::parse_utils::labeled_value;
use crate::parse_utils::parse_http_sig;
use crate::parse_utils::parse_http_sig_input;
use crate::parse_utils::parse_http_sig_key;
use crate::parse_utils::signature_input;
use crate::parse_utils::slice_views;
use crate::principal::self_authenticating_id;
use crate::principal::Principal;
use crate::request::find_header;
use crate::request::header_value;
use crate::request::headers_view;
use crate::request::path_bytes;
use crate::request::query_bytes;
use crate::request::url_path;
use crate::request::url_query;
use crate::request::HeaderField;
use crate::request::HttpRequest;
use crate::request::RequestView;
use crate::root_key::RootKeyStore;
use crate::wire::optional_view;
use crate::wire::signature_key_of;
use crate::wire::SignatureKeyView;
use vstd::prelude::*;
use vstd::string::StringSliceAdditionalSpecFns;
use vstd::utf8::encode_utf8;
use vstd::utf8::is_ascii_chars_encode_utf8;

verus! {

/// The name of the header that carries the signature.
pub const SIGNATURE_HEADER_NAME: &'static str = "signature";

/// The name of the header that carries the key and the delegation chain.
pub const SIGNATURE_KEY_HEADER_NAME: &'static str = "signature-key";

/// The name of the header that lists what was signed.
pub const SIGNATURE_INPUT_HEADER_NAME: &'static str = "signature-input";

/// The text form of the identifier of the service that issues delegations.
pub const DELEGATION_ISSUER: &'static str = "rdmx6-jaaaa-aaaaa-aaadq-cai";

/// The identity that a request was authenticated as.
#[derive(Debug)]
pub struct HttpSignatureValidationData {
    /// The caller's identifier.
    pub principal: Principal,
}

/// The value of a `signature-key` header.
#[derive(Debug)]
pub struct SignatureKeyHeader {
    /// The key that verifies the request's signature, in DER form or as a
    /// curve point.
    pub pub_key: Vec<u8>,
    /// The delegation chain, if the request carries one.
    pub delegation_chain: Option<DelegationChain>,
}

impl View for SignatureKeyHeader {
    type V = SignatureKeyView;

    open spec fn view(&self) -> SignatureKeyView {
        SignatureKeyView {
            pub_key: self.pub_key@,
            delegation_chain: match self.delegation_chain {
                Some(chain) => Some(chain@),
                None => None,
            },
        }
    }
}

/// The path and the query of a request target, as far as it has them.
pub struct Target {
    /// The path; `None` where the target is malformed.
    pub path: Option<Seq<u8>>,
    /// The query, if there is one; `None` where the target is malformed.
    pub query: Option<Option<Seq<u8>>>,
}

/// The path and the query of the request target `url`.
pub open spec fn target_of(url: Seq<char>) -> Target {
    Target { path: path_bytes(url), query: query_bytes(url) }
}

/// The value of the component `name` of a request.
///
/// `@method` is the method in upper case, `@path` the path, `@query` the
/// query behind a `?`, or nothing where the target has no query. Every
/// other name is that of a header, whose absence is a failure that reports
/// the name.
pub open spec fn component_value(
    method: Seq<u8>,
    target: Target,
    headers: Seq<(Seq<u8>, Seq<u8>)>,
    name: Seq<u8>,
) -> Result<Seq<u8>, Rejection> {
    if name == "@method".spec_bytes() {
        Ok(uppercased(method))
    } else if name == "@path".spec_bytes() {
        match target.path {
            Some(path) => Ok(path),
            None => Err(Rejection::MalformedUrl),
        }
    } else if name == "@query".spec_bytes() {
        match target.query {
            Some(Some(query)) => Ok("?".spec_bytes() + query),
            Some(None) => Ok(Seq::empty()),
            None => Err(Rejection::MalformedUrl),
        }
    } else {
        match header_value(headers, name) {
            Some(value) => Ok(value),
            None => Err(Rejection::MissingHeaderField(text_of(name))),
        }
    }
}

/// The line of the canonical payload for one component:
/// `"<name>": <value>` and a line feed.
pub open spec fn component_line(name: Seq<u8>, value: Seq<u8>) -> Seq<u8> {
    "\"".spec_bytes() + name + "\": ".spec_bytes() + value + "\n".spec_bytes()
}

/// The last line of the canonical payload:
/// `"@signature-params": <params>` and a line feed, with the parameters as
/// they stand in the header.
pub open spec fn params_line(params: Seq<u8>) -> Seq<u8> {
    "\"@signature-params\": ".spec_bytes() + params + "\n".spec_bytes()
}

/// The lines of the canonical payload for `components`, in order, or the
/// failure of the first component that has no value.
pub open spec fn component_lines(
    method: Seq<u8>,
    target: Target,
    headers: Seq<(Seq<u8>, Seq<u8>)>,
    components: Seq<Seq<u8>>,
) -> Result<Seq<u8>, Rejection>
    decreases components.len(),
{
    if components.len() == 0 {
        Ok(Seq::empty())
    } else {
        match component_value(method, target, headers, components[0]) {
            Err(rejection) => Err(rejection),
            Ok(value) => match component_lines(method, target, headers, components.drop_first()) {
                Err(rejection) => Err(rejection),
                Ok(rest) => Ok(component_line(components[0], value) + rest),
            },
        }
    }
}

/// The canonical payload: the bytes that the signature is made over.
///
/// One line for each component, in the order of the list, and the line of
/// the parameters at the end.
pub open spec fn signature_base(
    method: Seq<u8>,
    target: Target,
    headers: Seq<(Seq<u8>, Seq<u8>)>,
    params: Seq<u8>,
    components: Seq<Seq<u8>>,
) -> Result<Seq<u8>, Rejection> {
    match component_lines(method, target, headers, components) {
        Ok(lines) => Ok(lines + params_line(params)),
        Err(rejection) => Err(rejection),
    }
}

/// The bytes of the names and the marks that the headers and the canonical
/// payload are made of.
pub proof fn lemma_literal_bytes()
    ensures
        "@method".spec_bytes() == seq![0x40u8, 0x6du8, 0x65u8, 0x74u8, 0x68u8, 0x6fu8, 0x64u8],
        "@path".spec_bytes() == seq![0x40u8, 0x70u8, 0x61u8, 0x74u8, 0x68u8],
        "@query".spec_bytes() == seq![0x40u8, 0x71u8, 0x75u8, 0x65u8, 0x72u8, 0x79u8],
        "?".spec_bytes() == seq![0x3fu8],
        "\"".spec_bytes() == seq![0x22u8],
        "\": ".spec_bytes() == seq![0x22u8, 0x3au8, 0x20u8],
        "\n".spec_bytes() == seq![0x0au8],
        "\"@signature-params\": ".spec_bytes() == seq![0x22u8, 0x40u8, 0x73u8, 0x69u8, 0x67u8, 0x6eu8, 0x61u8, 0x74u8, 0x75u8, 0x72u8, 0x65u8, 0x2du8, 0x70u8, 0x61u8, 0x72u8, 0x61u8, 0x6du8, 0x73u8, 0x22u8, 0x3au8, 0x20u8],
        "signature".spec_bytes() == seq![0x73u8, 0x69u8, 0x67u8, 0x6eu8, 0x61u8, 0x74u8, 0x75u8, 0x72u8, 0x65u8],
        "signature-key".spec_bytes() == seq![0x73u8, 0x69u8, 0x67u8, 0x6eu8, 0x61u8, 0x74u8, 0x75u8, 0x72u8, 0x65u8, 0x2du8, 0x6bu8, 0x65u8, 0x79u8],
        "signature-input".spec_bytes() == seq![0x73u8, 0x69u8, 0x67u8, 0x6eu8, 0x61u8, 0x74u8, 0x75u8, 0x72u8, 0x65u8, 0x2du8, 0x69u8, 0x6eu8, 0x70u8, 0x75u8, 0x74u8],
{
    assert("@method".spec_bytes() =~= seq![0x40u8, 0x6du8, 0x65u8, 0x74u8, 0x68u8, 0x6fu8, 0x64u8]) by {
        reveal_strlit("@method");
        is_ascii_chars_encode_utf8("@method"@);
    }
    assert("@path".spec_bytes() =~= seq![0x40u8, 0x70u8, 0x61u8, 0x74u8, 0x68u8]) by {
        reveal_strlit("@path");
        is_ascii_chars_encode_utf8("@path"@);
    }
    assert("@query".spec_bytes() =~= seq![0x40u8, 0x71u8, 0x75u8, 0x65u8, 0x72u8, 0x79u8]) by {
        reveal_strlit("@query");
        is_ascii_chars_encode_utf8("@query"@);
    }
    assert("?".spec_bytes() =~= seq![0x3fu8]) by {
        reveal_strlit("?");
        is_ascii_chars_encode_utf8("?"@);
    }
    assert("\"".spec_bytes() =~= seq![0x22u8]) by {
        reveal_strlit("\"");
        is_ascii_chars_encode_utf8("\""@);
    }
    assert("\": ".spec_bytes() =~= seq![0x22u8, 0x3au8, 0x20u8]) by {
        reveal_strlit("\": ");
        is_ascii_chars_encode_utf8("\": "@);
    }
    assert("\n".spec_bytes() =~= seq![0x0au8]) by {
        reveal_strlit("\n");
        is_ascii_chars_encode_utf8("\n"@);
    }
    assert("\"@signature-params\": ".spec_bytes() =~= seq![0x22u8, 0x40u8, 0x73u8, 0x69u8, 0x67u8, 0x6eu8, 0x61u8, 0x74u8, 0x75u8, 0x72u8, 0x65u8, 0x2du8, 0x70u8, 0x61u8, 0x72u8, 0x61u8, 0x6du8, 0x73u8, 0x22u8, 0x3au8, 0x20u8]) by {
        reveal_strlit("\"@signature-params\": ");
        is_ascii_chars_encode_utf8("\"@signature-params\": "@);
    }
    assert("signature".spec_bytes() =~= seq![0x73u8, 0x69u8, 0x67u8, 0x6eu8, 0x61u8, 0x74u8, 0x75u8, 0x72u8, 0x65u8]) by {
        reveal_strlit("signature");
        is_ascii_chars_encode_utf8("signature"@);
    }
    assert("signature-key".spec_bytes() =~= seq![0x73u8, 0x69u8, 0x67u8, 0x6eu8, 0x61u8, 0x74u8, 0x75u8, 0x72u8, 0x65u8, 0x2du8, 0x6bu8, 0x65u8, 0x79u8]) by {
        reveal_strlit("signature-key");
        is_ascii_chars_encode_utf8("signature-key"@);
    }
    assert("signature-input".spec_bytes() =~= seq![0x73u8, 0x69u8, 0x67u8, 0x6eu8, 0x61u8, 0x74u8, 0x75u8, 0x72u8, 0x65u8, 0x2du8, 0x69u8, 0x6eu8, 0x70u8, 0x75u8, 0x74u8]) by {
        reveal_strlit("signature-input");
        is_ascii_chars_encode_utf8("signature-input"@);
    }
}

/// The path of a target that was taken apart, as bytes.
pub open spec fn path_view(path: Result<String, String>) -> Option<Seq<u8>> {
    match path {
        Ok(path) => Some(encode_utf8(path@)),
        Err(_) => None,
    }
}

/// The query of a target that was taken apart, as bytes.
pub open spec fn query_view(query: Result<Option<String>, String>) -> Option<Option<Seq<u8>>> {
    match query {
        Ok(Some(query)) => Some(Some(encode_utf8(query@))),
        Ok(None) => Some(None),
        Err(_) => None,
    }
}

/// The bytes of a successful result, or the rejection of a failed one.
pub open spec fn bytes_outcome(r: Result<Vec<u8>, HttpAuthError>) -> Result<Seq<u8>, Rejection> {
    match r {
        Ok(bytes) => Ok(bytes@),
        Err(e) => Err(e.kind()),
    }
}

/// Resolves one component of a request to its value.
pub fn resolve_component(
    method: &str,
    path: &Result<String, String>,
    query: &Result<Option<String>, String>,
    headers: &[HeaderField],
    name: &[u8],
) -> (r: Result<Vec<u8>, HttpAuthError>)
    ensures
        bytes_outcome(r) == component_value(
            method.spec_bytes(),
            Target { path: path_view(*path), query: query_view(*query) },
            headers_view(headers@),
            name@,
        ),
{
    if slice_eq(name, "@method".as_bytes()) {
        Ok(to_ascii_uppercase(method.as_bytes()))
    } else if slice_eq(name, "@path".as_bytes()) {
        match path {
            Ok(path) => Ok(path.as_str().as_bytes_vec()),
            Err(reason) => Err(HttpAuthError::HttpCertificationError(reason.clone())),
        }
    } else if slice_eq(name, "@query".as_bytes()) {
        match query {
            Ok(Some(query)) => {
                let mut value: Vec<u8> = "?".as_bytes_vec();
                value.extend_from_slice(query.as_str().as_bytes());
                assert(value@ =~= "?".spec_bytes() + encode_utf8(query@));
                Ok(value)
            },
            Ok(None) => Ok(Vec::new()),
            Err(reason) => Err(HttpAuthError::HttpCertificationError(reason.clone())),
        }
    } else {
        match find_header(headers, name) {
            Some(value) => Ok(value.as_bytes_vec()),
            None => Err(HttpAuthError::MissingHeaderField(text_from_bytes(name))),
        }
    }
}

/// Builds the canonical payload from the parts of a request.
pub fn canonical_payload(
    method: &str,
    path: &Result<String, String>,
    query: &Result<Option<String>, String>,
    headers: &[HeaderField],
    params: &[u8],
    components: &Vec<&[u8]>,
) -> (r: Result<Vec<u8>, HttpAuthError>)
    ensures
        bytes_outcome(r) == signature_base(
            method.spec_bytes(),
            Target { path: path_view(*path), query: query_view(*query) },
            headers_view(headers@),
            params@,
            slice_views(components@),
        ),
{
    let ghost target = Target { path: path_view(*path), query: query_view(*query) };
    let ghost names = slice_views(components@);
    let mut payload: Vec<u8> = Vec::new();
    let mut i: usize = 0;
    assert(names.skip(0) =~= names);
    while i < components.len()
        invariant
            i <= components@.len(),
            names == slice_views(components@),
            target == (Target { path: path_view(*path), query: query_view(*query) }),
            component_lines(method.spec_bytes(), target, headers_view(headers@), names)
                == match component_lines(
                method.spec_bytes(),
                target,
                headers_view(headers@),
                names.skip(i as int),
            ) {
                Ok(rest) => Ok(payload@ + rest),
                Err(rejection) => Err(rejection),
            },
        decreases components@.len() - i,
    {
        let name: &[u8] = components[i];
        proof {
            assert(names.skip(i as int)[0] == name@);
            assert(names.skip(i as int).drop_first() =~= names.skip(i + 1));
        }
        let value: Vec<u8> = resolve_component(method, path, query, headers, name)?;
        let ghost before = payload@;
        payload.extend_from_slice("\"".as_bytes());
        payload.extend_from_slice(name);
        payload.extend_from_slice("\": ".as_bytes());
        payload.extend_from_slice(value.as_slice());
        payload.extend_from_slice("\n".as_bytes());
        proof {
            assert(payload@ =~= before + component_line(name@, value@));
            match component_lines(
                method.spec_bytes(),
                target,
                headers_view(headers@),
                names.skip(i + 1),
            ) {
                Ok(rest) => {
                    assert((before + component_line(name@, value@)) + rest =~= before + (
                    component_line(name@, value@) + rest));
                },
                Err(_) => {},
            }
        }
        i += 1;
    }
    let ghost lines = payload@;
    payload.extend_from_slice("\"@signature-params\": ".as_bytes());
    payload.extend_from_slice(params);
    payload.extend_from_slice("\n".as_bytes());
    proof {
        assert(names.skip(i as int) =~= Seq::<Seq<u8>>::empty());
        assert(lines + Seq::<u8>::empty() =~= lines);
        assert(payload@ =~= lines + params_line(params@));
    }
    Ok(payload)
}

/// Builds the canonical payload of a request for the parameters and the
/// components that its `signature-input` header lists.
pub fn calculate_http_sig(
    req: &HttpRequest,
    req_headers: &[HeaderField],
    http_sig_input: &[u8],
    http_sig_input_elems: Vec<&[u8]>,
) -> (r: Result<Vec<u8>, HttpAuthError>)
    ensures
        bytes_outcome(r) == signature_base(
            req@.method,
            target_of(req@.url),
            headers_view(req_headers@),
            http_sig_input@,
            slice_views(http_sig_input_elems@),
        ),
{
    let path: Result<String, String> = url_path(req.url.as_str());
    let query: Result<Option<String>, String> = url_query(req.url.as_str());
    canonical_payload(
        req.method(),
        &path,
        &query,
        req_headers,
        http_sig_input,
        &http_sig_input_elems,
    )
}

/// The signature that the `signature` header of `headers` carries.
pub open spec fn header_signature(headers: Seq<(Seq<u8>, Seq<u8>)>) -> Result<Seq<u8>, Rejection> {
    match header_value(headers, SIGNATURE_HEADER_NAME.spec_bytes()) {
        None => Err(Rejection::MissingSignatureHeader),
        Some(value) => match labeled_value(value) {
            Err(_) => Err(Rejection::MalformedHttpSig),
            Ok((_, payload)) => match base64url_decoding(payload) {
                Ok(signature) => Ok(signature),
                Err(_) => Err(Rejection::MalformedHttpSig),
            },
        },
    }
}

/// The JSON text that the `signature-key` header of `headers` carries.
pub open spec fn header_signature_key_json(headers: Seq<(Seq<u8>, Seq<u8>)>) -> Result<
    Seq<u8>,
    Rejection,
> {
    match header_value(headers, SIGNATURE_KEY_HEADER_NAME.spec_bytes()) {
        None => Err(Rejection::MissingSignatureKeyHeader),
        Some(value) => match labeled_value(value) {
            Err(_) => Err(Rejection::MalformedHttpSigKey),
            Ok((_, payload)) => match base64url_decoding(payload) {
                Ok(json) => Ok(json),
                Err(_) => Err(Rejection::MalformedHttpSigKey),
            },
        },
    }
}

/// The key and the delegation chain that a JSON text holds.
pub open spec fn signature_key_from_json_text(text: Seq<u8>) -> Result<SignatureKeyView, Rejection> {
    match json_document(text) {
        Err(_) => Err(Rejection::MalformedHttpSigKey),
        Ok(json) => match signature_key_of(json) {
            Some(key) => Ok(key),
            None => Err(Rejection::MalformedHttpSigKey),
        },
    }
}

/// The key and the delegation chain that the `signature-key` header of
/// `headers` carries.
pub open spec fn header_signature_key(headers: Seq<(Seq<u8>, Seq<u8>)>) -> Result<
    SignatureKeyView,
    Rejection,
> {
    match header_signature_key_json(headers) {
        Err(rejection) => Err(rejection),
        Ok(text) => signature_key_from_json_text(text),
    }
}

/// The canonical payload of a request with the headers `headers`, for what
/// their `signature-input` header lists.
pub open spec fn header_payload(req: RequestView, headers: Seq<(Seq<u8>, Seq<u8>)>) -> Result<
    Seq<u8>,
    Rejection,
> {
    match header_value(headers, SIGNATURE_INPUT_HEADER_NAME.spec_bytes()) {
        None => Err(Rejection::MissingSignatureInputHeader),
        Some(value) => match signature_input(value) {
            Err(_) => Err(Rejection::MalformedHttpSigInput),
            Ok(input) => signature_base(
                req.method,
                target_of(req.url),
                headers,
                input.params,
                input.components,
            ),
        },
    }
}

/// What verification needs of a request: the key, the signature and the
/// canonical payload.
pub struct ValidationInputView {
    pub signature_key_header: SignatureKeyView,
    pub signature: Seq<u8>,
    pub payload: Seq<u8>,
}

/// What the three signature headers of a request give, or the first
/// failure: the `signature` header is read first, then `signature-key`,
/// then `signature-input`.
pub open spec fn validation_input(req: RequestView) -> Result<ValidationInputView, Rejection> {
    match header_signature(req.headers) {
        Err(rejection) => Err(rejection),
        Ok(signature) => match header_signature_key(req.headers) {
            Err(rejection) => Err(rejection),
            Ok(signature_key_header) => match header_payload(req, req.headers) {
                Err(rejection) => Err(rejection),
                Ok(payload) => Ok(ValidationInputView { signature_key_header, signature, payload }),
            },
        },
    }
}

/// The identity that verified headers give: that of the delegation chain
/// where there is one, else that of the key itself. Either way the key
/// counts in its DER form: the chain has to name it in this form, and the
/// identity of the key is derived from it.
pub open spec fn identity_of(input: ValidationInputView, root_key: Seq<u8>) -> Result<
    Seq<u8>,
    Rejection,
> {
    match public_key_der(input.signature_key_header.pub_key) {
        Err(rejection) => Err(rejection),
        Ok(der) => match input.signature_key_header.delegation_chain {
            Some(chain) => delegation_outcome(chain, der, DELEGATION_ISSUER@, root_key),
            None => Ok(self_authenticating_id(der)),
        },
    }
}

/// The outcome of authenticating a request against the trusted root key in
/// its DER envelope: the caller's identifier, or the first failure.
///
/// The headers are read, the signature is checked against the canonical
/// payload under the key of the `signature-key` header, and the identity is
/// derived. No identity is derived from a request whose signature does not
/// verify.
pub open spec fn validation_outcome(req: RequestView, root_key: Seq<u8>) -> Result<
    Seq<u8>,
    Rejection,
> {
    match validation_input(req) {
        Err(rejection) => Err(rejection),
        Ok(input) => match signature_check(
            input.payload,
            input.signature,
            input.signature_key_header.pub_key,
        ) {
            Err(rejection) => Err(rejection),
            Ok(()) => identity_of(input, root_key),
        },
    }
}

/// Reads the signature from the `signature` header.
pub fn get_http_sig_bytes(req_headers: &[HeaderField]) -> (r: Result<Vec<u8>, HttpAuthError>)
    ensures
        bytes_outcome(r) == header_signature(headers_view(req_headers@)),
{
    let sig_header_str: &str = match find_header(req_headers, SIGNATURE_HEADER_NAME.as_bytes()) {
        Some(value) => value,
        None => {
            return Err(HttpAuthError::MissingSignatureHeader);
        },
    };
    let (_, http_sig) = parse_http_sig(sig_header_str)?;
    match base64_decode(http_sig) {
        Ok(bytes) => Ok(bytes),
        Err(reason) => Err(HttpAuthError::MalformedHttpSig(reason)),
    }
}

/// Builds the canonical payload of a request from its `signature-input`
/// header.
pub fn get_http_sig_input_payload(req: &HttpRequest, req_headers: &[HeaderField]) -> (r: Result<
    Vec<u8>,
    HttpAuthError,
>)
    ensures
        bytes_outcome(r) == header_payload(req@, headers_view(req_headers@)),
{
    let sig_input_header: &str = match find_header(
        req_headers,
        SIGNATURE_INPUT_HEADER_NAME.as_bytes(),
    ) {
        Some(value) => value,
        None => {
            return Err(HttpAuthError::MissingSignatureInputHeader);
        },
    };
    let (_, http_sig_input, http_sig_input_elems) = parse_http_sig_input(sig_input_header)?;
    calculate_http_sig(req, req_headers, http_sig_input, http_sig_input_elems)
}

/// The key of a successful result, or the rejection of a failed one.
pub open spec fn signature_key_outcome(r: Result<SignatureKeyHeader, HttpAuthError>) -> Result<
    SignatureKeyView,
    Rejection,
> {
    match r {
        Ok(header) => Ok(header@),
        Err(e) => Err(e.kind()),
    }
}

impl SignatureKeyHeader {
    /// Reads the key and the delegation chain from a JSON document.
    pub fn from_json(json: &Json) -> (r: Result<SignatureKeyHeader, String>)
        ensures
            match r {
                Ok(header) => signature_key_of(json@) == Some(header@),
                Err(_) => signature_key_of(json@).is_none(),
            },
    {
        let text: &String = match json.text_field("pubKey") {
            Some(text) => text,
            None => {
                return Err(crate::error::diagnostic("missing member `pubKey`: expected a text"));
            },
        };
        let member: Option<&Json> = json.field("delegationChain");
        assert(optional_view(member) == json@.field("delegationChain"@));
        let delegation_chain: Option<DelegationChain> = DelegationChain::optional_from_json(
            member,
        )?;
        let pub_key: Vec<u8> = base64_decode(text.as_str().as_bytes())?;
        Ok(SignatureKeyHeader { pub_key, delegation_chain })
    }

    /// Reads the key and the delegation chain from a JSON text.
    pub fn from_json_text(text: &[u8]) -> (r: Result<SignatureKeyHeader, HttpAuthError>)
        ensures
            signature_key_outcome(r) == signature_key_from_json_text(text@),
    {
        let json: Json = match parse_json(text) {
            Ok(json) => json,
            Err(reason) => {
                return Err(HttpAuthError::MalformedHttpSigKey(reason));
            },
        };
        match SignatureKeyHeader::from_json(&json) {
            Ok(header) => Ok(header),
            Err(reason) => Err(HttpAuthError::MalformedHttpSigKey(reason)),
        }
    }

    /// Reads the key and the delegation chain from the `signature-key`
    /// header.
    pub fn try_from(headers: &[HeaderField]) -> (r: Result<SignatureKeyHeader, HttpAuthError>)
        ensures
            signature_key_outcome(r) == header_signature_key(headers_view(headers@)),
    {
        let sig_key_header_str: &str = match find_header(
            headers,
            SIGNATURE_KEY_HEADER_NAME.as_bytes(),
        ) {
            Some(value) => value,
            None => {
                return Err(HttpAuthError::MissingSignatureKeyHeader);
            },
        };
        let (_, http_sig_key) = parse_http_sig_key(sig_key_header_str)?;
        let sig_key_bytes: Vec<u8> = match base64_decode(http_sig_key) {
            Ok(bytes) => bytes,
            Err(reason) => {
                return Err(HttpAuthError::MalformedHttpSigKey(reason));
            },
        };
        SignatureKeyHeader::from_json_text(sig_key_bytes.as_slice())
    }

    /// The key in the DER form in which it is written back.
    pub fn signature_pub_key_der(&self) -> (r: Result<Vec<u8>, HttpAuthError>)
        ensures
            bytes_outcome(r) == public_key_der(self.pub_key@),
    {
        reencode_public_key(self.pub_key.as_slice())
    }
}

/// What verification needs of a request: the key, the signature and the
/// canonical payload.
#[derive(Debug)]
pub struct HttpSignatureValidationInput {
    /// The value of the `signature-key` header.
    pub signature_key_header: SignatureKeyHeader,
    /// The signature of the `signature` header.
    pub signature: Vec<u8>,
    /// The canonical payload for the `signature-input` header.
    pub payload: Vec<u8>,
}

impl View for HttpSignatureValidationInput {
    type V = ValidationInputView;

    open spec fn view(&self) -> ValidationInputView {
        ValidationInputView {
            signature_key_header: self.signature_key_header@,
            signature: self.signature@,
            payload: self.payload@,
        }
    }
}

/// The input of a successful result, or the rejection of a failed one.
pub open spec fn input_outcome(r: Result<HttpSignatureValidationInput, HttpAuthError>) -> Result<
    ValidationInputView,
    Rejection,
> {
    match r {
        Ok(input) => Ok(input@),
        Err(e) => Err(e.kind()),
    }
}

impl HttpSignatureValidationInput {
    /// Reads the three signature headers of a request.
    pub fn try_from(req: &HttpRequest) -> (r: Result<HttpSignatureValidationInput, HttpAuthError>)
        ensures
            input_outcome(r) == validation_input(req@),
    {
        let headers: &[HeaderField] = req.headers();
        let signature: Vec<u8> = get_http_sig_bytes(headers)?;
        let signature_key_header: SignatureKeyHeader = SignatureKeyHeader::try_from(headers)?;
        let payload: Vec<u8> = get_http_sig_input_payload(req, headers)?;
        Ok(HttpSignatureValidationInput { signature_key_header, signature, payload })
    }

    /// The key that verifies the request's signature.
    pub fn signature_pub_key(&self) -> (r: &[u8])
        ensures
            r@ == self@.signature_key_header.pub_key,
    {
        self.signature_key_header.pub_key.as_slice()
    }

    /// The key in the DER form in which it is written back.
    pub fn signature_pub_key_der(&self) -> (r: Result<Vec<u8>, HttpAuthError>)
        ensures
            bytes_outcome(r) == public_key_der(self@.signature_key_header.pub_key),
    {
        self.signature_key_header.signature_pub_key_der()
    }

    /// The delegation chain, if the request carries one.
    pub fn delegation_chain(&self) -> (r: Option<&DelegationChain>)
        ensures
            match r {
                Some(chain) => self@.signature_key_header.delegation_chain == Some(chain@),
                None => self@.signature_key_header.delegation_chain.is_none(),
            },
    {
        self.signature_key_header.delegation_chain.as_ref()
    }

    /// Derives the identity of the caller of a request whose signature has
    /// been verified.
    pub fn identity(&self, ic_root_key_raw: &[u8]) -> (r: Result<Principal, HttpAuthError>)
        ensures
            crate::delegation::principal_outcome(r) == identity_of(self@, ic_root_key_raw@),
    {
        let public_key_der: Vec<u8> = self.signature_pub_key_der()?;
        match self.delegation_chain() {
            Some(delegation_chain) => validate_delegation_and_get_principal(
                delegation_chain,
                public_key_der.as_slice(),
                DELEGATION_ISSUER,
                ic_root_key_raw,
            ),
            None => Ok(Principal::self_authenticating(public_key_der.as_slice())),
        }
    }
}

/// The identifier of a successful validation, or the rejection of a failed
/// one.
pub open spec fn validation_view(r: Result<HttpSignatureValidationData, HttpAuthError>) -> Result<
    Seq<u8>,
    Rejection,
> {
    match r {
        Ok(data) => Ok(data.principal@),
        Err(e) => Err(e.kind()),
    }
}

/// Authenticates a request: verifies its signature headers and resolves it
/// to the caller's identity.
///
/// `ic_root_key_raw` is the trusted root public key in its DER envelope; it
/// is read only where the request carries a delegation chain.
pub fn validate_http_signature_headers(req: &HttpRequest, ic_root_key_raw: &[u8]) -> (r: Result<
    HttpSignatureValidationData,
    HttpAuthError,
>)
    ensures
        validation_view(r) == validation_outcome(req@, ic_root_key_raw@),
{
    let validation_input: HttpSignatureValidationInput = HttpSignatureValidationInput::try_from(
        req,
    )?;
    verify_sig(
        validation_input.payload.as_slice(),
        validation_input.signature.as_slice(),
        validation_input.signature_pub_key(),
    )?;
    let principal: Principal = validation_input.identity(ic_root_key_raw)?;
    Ok(HttpSignatureValidationData { principal })
}

/// Authenticates a request against the root key that `store` holds.
pub fn validate_with_root_key_store(req: &HttpRequest, store: &RootKeyStore) -> (r: Result<
    HttpSignatureValidationData,
    HttpAuthError,
>)
    ensures
        validation_view(r) == validation_outcome(req@, store@),
{
    validate_http_signature_headers(req, store.der())
}

} // verus!
