//! The closed set of reasons for which a request is rejected.

use vstd::prelude::*;
use vstd::string::StringExecFns;

verus! {

/// Why authentication of a request failed.
///
/// Every failure is terminal for the request at hand and none is fatal to
/// the service. Variants that carry a `String` hold a diagnostic for a human
/// reader; contracts speak of the variant, through [`HttpAuthError::kind`].
#[derive(Debug, Clone)]
pub enum HttpAuthError {
    /// The request has no `authorization` header.
    MissingAuthorizationHeader,
    /// The request has no `signature` header.
    MissingSignatureHeader,
    /// The request has no `signature-input` header.
    MissingSignatureInputHeader,
    /// The request has no `signature-key` header.
    MissingSignatureKeyHeader,
    /// A recomputed signature differs from the one presented.
    HttpSignatureMismatch { expected: String, actual: String },
    /// The signature is well formed but does not verify against the canonical
    /// payload and the presented key.
    JwtSignatureVerificationFailed(String),
    /// The `signature` header does not follow the grammar, or its payload is
    /// not base64.
    MalformedHttpSig(String),
    /// The `signature-input` header does not follow the grammar.
    MalformedHttpSigInput(String),
    /// The `signature-key` header does not follow the grammar, or its payload
    /// is not base64, not JSON, or JSON of the wrong shape.
    MalformedHttpSigKey(String),
    /// A component named by `signature-input` is not among the request's
    /// headers.
    MissingHeaderField(String),
    /// A token lacks its header component.
    MissingJwtHeaderComponent,
    /// A token's header component is not base64.
    MalformedJwtHeaderBase64Encoding,
    /// A token's header component is not JSON.
    MalformedJwtHeaderJsonEncoding(String),
    /// A token lacks its claims component.
    MissingJwtClaimsComponent,
    /// A token's claims component is not base64.
    MalformedJwtClaimsBase64Encoding,
    /// A token's claims component is not JSON.
    MalformedJwtClaimsJsonEncoding(String),
    /// A token lacks its signature component.
    MissingJwtSignatureComponent,
    /// A token's signature component is not base64.
    MalformedJwtSignatureBase64Encoding,
    /// The presented key is not a P-256 public key.
    MalformedEcdsaPublicKey,
    /// The presented signature is not an ECDSA signature encoding.
    MalformedEcdsaSignature,
    /// The request's URL cannot be taken apart into path and query.
    HttpCertificationError(String),
    /// The delegation chain does not hold exactly one delegation.
    InvalidDelegationChainLength,
    /// The chain's public key is not a canister-signature public key.
    MalformedDelegationPublicKey(String),
    /// The expected issuer is not the text form of an identifier.
    MalformedIssuerId(String),
    /// The chain was issued by another service than the expected one.
    DelegationIssuerMismatch,
    /// The delegation names another session key than the one that signed the
    /// request.
    DelegationSessionKeyMismatch,
    /// The credential signature does not verify against the root key.
    InvalidDelegationSignature(String),
    /// The trusted root key is not the expected DER envelope.
    MalformedRootKey(String),
}

/// A rejection reason without its diagnostic text: what contracts state.
pub enum Rejection {
    MissingAuthorizationHeader,
    MissingSignatureHeader,
    MissingSignatureInputHeader,
    MissingSignatureKeyHeader,
    HttpSignatureMismatch,
    SignatureVerificationFailed,
    MalformedHttpSig,
    MalformedHttpSigInput,
    MalformedHttpSigKey,
    /// Holds the name that the error reports.
    MissingHeaderField(Seq<char>),
    MalformedToken,
    MalformedEcdsaPublicKey,
    MalformedEcdsaSignature,
    MalformedUrl,
    InvalidDelegationChainLength,
    MalformedDelegationPublicKey,
    MalformedIssuerId,
    DelegationIssuerMismatch,
    DelegationSessionKeyMismatch,
    InvalidDelegationSignature,
    MalformedRootKey,
}

impl HttpAuthError {
    /// The rejection reason that this error stands for.
    pub open spec fn kind(self) -> Rejection {
        match self {
            HttpAuthError::MissingAuthorizationHeader => Rejection::MissingAuthorizationHeader,
            HttpAuthError::MissingSignatureHeader => Rejection::MissingSignatureHeader,
            HttpAuthError::MissingSignatureInputHeader => Rejection::MissingSignatureInputHeader,
            HttpAuthError::MissingSignatureKeyHeader => Rejection::MissingSignatureKeyHeader,
            HttpAuthError::HttpSignatureMismatch { .. } => Rejection::HttpSignatureMismatch,
            HttpAuthError::JwtSignatureVerificationFailed(_) => Rejection::SignatureVerificationFailed,
            HttpAuthError::MalformedHttpSig(_) => Rejection::MalformedHttpSig,
            HttpAuthError::MalformedHttpSigInput(_) => Rejection::MalformedHttpSigInput,
            HttpAuthError::MalformedHttpSigKey(_) => Rejection::MalformedHttpSigKey,
            HttpAuthError::MissingHeaderField(name) => Rejection::MissingHeaderField(name@),
            HttpAuthError::MissingJwtHeaderComponent => Rejection::MalformedToken,
            HttpAuthError::MalformedJwtHeaderBase64Encoding => Rejection::MalformedToken,
            HttpAuthError::MalformedJwtHeaderJsonEncoding(_) => Rejection::MalformedToken,
            HttpAuthError::MissingJwtClaimsComponent => Rejection::MalformedToken,
            HttpAuthError::MalformedJwtClaimsBase64Encoding => Rejection::MalformedToken,
            HttpAuthError::MalformedJwtClaimsJsonEncoding(_) => Rejection::MalformedToken,
            HttpAuthError::MissingJwtSignatureComponent => Rejection::MalformedToken,
            HttpAuthError::MalformedJwtSignatureBase64Encoding => Rejection::MalformedToken,
            HttpAuthError::MalformedEcdsaPublicKey => Rejection::MalformedEcdsaPublicKey,
            HttpAuthError::MalformedEcdsaSignature => Rejection::MalformedEcdsaSignature,
            HttpAuthError::HttpCertificationError(_) => Rejection::MalformedUrl,
            HttpAuthError::InvalidDelegationChainLength => Rejection::InvalidDelegationChainLength,
            HttpAuthError::MalformedDelegationPublicKey(_) => Rejection::MalformedDelegationPublicKey,
            HttpAuthError::MalformedIssuerId(_) => Rejection::MalformedIssuerId,
            HttpAuthError::DelegationIssuerMismatch => Rejection::DelegationIssuerMismatch,
            HttpAuthError::DelegationSessionKeyMismatch => Rejection::DelegationSessionKeyMismatch,
            HttpAuthError::InvalidDelegationSignature(_) => Rejection::InvalidDelegationSignature,
            HttpAuthError::MalformedRootKey(_) => Rejection::MalformedRootKey,
        }
    }

    /// The sentence that describes this error to a human reader.
    pub open spec fn text(self) -> Seq<char> {
        match self {
            HttpAuthError::MissingAuthorizationHeader => "The \"Authorization\" header is missing from the provided HTTP request."@,
            HttpAuthError::MissingSignatureHeader => "The \"Signature\" header is missing from the provided HTTP request."@,
            HttpAuthError::MissingSignatureInputHeader => "The \"Signature-Input\" header is missing from the provided HTTP request."@,
            HttpAuthError::MissingSignatureKeyHeader => "The \"Signature-Key\" header is missing from the provided HTTP request."@,
            HttpAuthError::HttpSignatureMismatch { expected, actual } => "HTTP message signature mismatch, expected \""@
                + expected@ + "\", but got \""@ + actual@ + "\"."@,
            HttpAuthError::JwtSignatureVerificationFailed(detail) => "Signature verification failed: "@ + detail@ + "."@,
            HttpAuthError::MalformedHttpSig(detail) => "Failed to parse the \"Signature\" header: "@ + detail@ + "."@,
            HttpAuthError::MalformedHttpSigInput(detail) => "Failed to parse the \"Signature-Input\" header: "@ + detail@ + "."@,
            HttpAuthError::MalformedHttpSigKey(detail) => "Failed to parse the \"Signature-Key\" header: "@ + detail@ + "."@,
            HttpAuthError::MissingHeaderField(detail) => "The \""@ + detail@ + "\" header field was listed in the HTTP signature input, but was not found in the request."@,
            HttpAuthError::MissingJwtHeaderComponent => "The provided JWT is missing the required header component."@,
            HttpAuthError::MalformedJwtHeaderBase64Encoding => "The provided JWT's header component is not base64 encoded correctly."@,
            HttpAuthError::MalformedJwtHeaderJsonEncoding(detail) => "The provided JWT's header component is not JSON encoded correctly: "@ + detail@ + "."@,
            HttpAuthError::MissingJwtClaimsComponent => "The provided JWT is missing the required claims component."@,
            HttpAuthError::MalformedJwtClaimsBase64Encoding => "The provided JWT's claim component is not base64 encoded correctly."@,
            HttpAuthError::MalformedJwtClaimsJsonEncoding(detail) => "The provided JWT's claim component is not JSON encoded correctly: "@ + detail@ + "."@,
            HttpAuthError::MissingJwtSignatureComponent => "The provided JWT is missing the required signature component."@,
            HttpAuthError::MalformedJwtSignatureBase64Encoding => "The provided JWT's signature component is not base64 encoded correctly."@,
            HttpAuthError::MalformedEcdsaPublicKey => "The provided public key is not a valid ECDSA public key."@,
            HttpAuthError::MalformedEcdsaSignature => "The provided signature is not a valid ECDSA signature."@,
            HttpAuthError::HttpCertificationError(detail) => detail@,
            HttpAuthError::InvalidDelegationChainLength => "Expected exactly one signed delegation."@,
            HttpAuthError::MalformedDelegationPublicKey(detail) => "Invalid publicKey in delegation chain: "@ + detail@ + "."@,
            HttpAuthError::MalformedIssuerId(detail) => "Invalid issuer id: "@ + detail@ + "."@,
            HttpAuthError::DelegationIssuerMismatch => "The delegation's signing canister does not match the expected issuer."@,
            HttpAuthError::DelegationSessionKeyMismatch => "The delegation's public key does not match the key that signed the request."@,
            HttpAuthError::InvalidDelegationSignature(detail) => "Invalid canister signature: "@ + detail@ + "."@,
            HttpAuthError::MalformedRootKey(detail) => "Invalid root key: "@ + detail@ + "."@,
        }
    }

    /// Renders the error as a sentence for a human reader.
    pub fn message(&self) -> (r: String)
        ensures
            r@ == self.text(),
    {
        match self {
            HttpAuthError::MissingAuthorizationHeader => diagnostic("The \"Authorization\" header is missing from the provided HTTP request."),
            HttpAuthError::MissingSignatureHeader => diagnostic("The \"Signature\" header is missing from the provided HTTP request."),
            HttpAuthError::MissingSignatureInputHeader => diagnostic("The \"Signature-Input\" header is missing from the provided HTTP request."),
            HttpAuthError::MissingSignatureKeyHeader => diagnostic("The \"Signature-Key\" header is missing from the provided HTTP request."),
            HttpAuthError::HttpSignatureMismatch { expected, actual } => {
                let mut text: String = joined(
                    "HTTP message signature mismatch, expected \"",
                    expected.as_str(),
                    "\", but got \"",
                );
                text.append(actual.as_str());
                text.append("\".");
                assert(text@ =~= self.text());
                text
            },
            HttpAuthError::JwtSignatureVerificationFailed(detail) => joined("Signature verification failed: ", detail.as_str(), "."),
            HttpAuthError::MalformedHttpSig(detail) => joined("Failed to parse the \"Signature\" header: ", detail.as_str(), "."),
            HttpAuthError::MalformedHttpSigInput(detail) => joined("Failed to parse the \"Signature-Input\" header: ", detail.as_str(), "."),
            HttpAuthError::MalformedHttpSigKey(detail) => joined("Failed to parse the \"Signature-Key\" header: ", detail.as_str(), "."),
            HttpAuthError::MissingHeaderField(detail) => joined("The \"", detail.as_str(), "\" header field was listed in the HTTP signature input, but was not found in the request."),
            HttpAuthError::MissingJwtHeaderComponent => diagnostic("The provided JWT is missing the required header component."),
            HttpAuthError::MalformedJwtHeaderBase64Encoding => diagnostic("The provided JWT's header component is not base64 encoded correctly."),
            HttpAuthError::MalformedJwtHeaderJsonEncoding(detail) => joined("The provided JWT's header component is not JSON encoded correctly: ", detail.as_str(), "."),
            HttpAuthError::MissingJwtClaimsComponent => diagnostic("The provided JWT is missing the required claims component."),
            HttpAuthError::MalformedJwtClaimsBase64Encoding => diagnostic("The provided JWT's claim component is not base64 encoded correctly."),
            HttpAuthError::MalformedJwtClaimsJsonEncoding(detail) => joined("The provided JWT's claim component is not JSON encoded correctly: ", detail.as_str(), "."),
            HttpAuthError::MissingJwtSignatureComponent => diagnostic("The provided JWT is missing the required signature component."),
            HttpAuthError::MalformedJwtSignatureBase64Encoding => diagnostic("The provided JWT's signature component is not base64 encoded correctly."),
            HttpAuthError::MalformedEcdsaPublicKey => diagnostic("The provided public key is not a valid ECDSA public key."),
            HttpAuthError::MalformedEcdsaSignature => diagnostic("The provided signature is not a valid ECDSA signature."),
            HttpAuthError::HttpCertificationError(detail) => detail.clone(),
            HttpAuthError::InvalidDelegationChainLength => diagnostic("Expected exactly one signed delegation."),
            HttpAuthError::MalformedDelegationPublicKey(detail) => joined("Invalid publicKey in delegation chain: ", detail.as_str(), "."),
            HttpAuthError::MalformedIssuerId(detail) => joined("Invalid issuer id: ", detail.as_str(), "."),
            HttpAuthError::DelegationIssuerMismatch => diagnostic("The delegation's signing canister does not match the expected issuer."),
            HttpAuthError::DelegationSessionKeyMismatch => diagnostic("The delegation's public key does not match the key that signed the request."),
            HttpAuthError::InvalidDelegationSignature(detail) => joined("Invalid canister signature: ", detail.as_str(), "."),
            HttpAuthError::MalformedRootKey(detail) => joined("Invalid root key: ", detail.as_str(), "."),
        }
    }
}

/// `detail` between `prefix` and `suffix`.
pub fn joined(prefix: &str, detail: &str, suffix: &str) -> (r: String)
    ensures
        r@ == prefix@ + detail@ + suffix@,
{
    let mut text: String = String::from_str(prefix);
    text.append(detail);
    text.append(suffix);
    text
}

/// The rejection reason of a failed result, or the value of a successful one.
pub open spec fn outcome<T>(r: Result<T, HttpAuthError>) -> Result<T, Rejection> {
    match r {
        Ok(v) => Ok(v),
        Err(e) => Err(e.kind()),
    }
}

/// An owned copy of a diagnostic text.
pub fn diagnostic(text: &str) -> (r: String)
    ensures
        r@ == text@,
{
    String::from_str(text)
}

} // verus!
