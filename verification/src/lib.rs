//! Authentication of HTTP requests by message signature and single-hop
//! delegation, with machine-checked contracts.
//!
//! A request carries three headers: `signature`, `signature-input` and
//! `signature-key`. [`validate_http_signature_headers`] reads them, rebuilds
//! the bytes that were signed, checks the ECDSA P-256 signature over them
//! and, where the request carries a delegation chain, validates the chain
//! against the trusted root public key. It answers with the caller's
//! identity or with the reason of the rejection.
//!
//! Every function states what it returns over spec functions on bytes and
//! text, and is proved to meet that statement. What other crates compute
//! (base64, JSON, URLs, ECDSA, canister signatures, identifiers) enters
//! through small functions whose contracts are trusted; each of them says
//! in its documentation which function it calls and what it claims of it.
//! Where such a result cannot be stated in a few lines it is named by a
//! spec function without a body, so that contracts say exactly which
//! outside computation an outcome rests on. [`laws`] and [`text`] hold what
//! follows for the verification as a whole.

pub mod base64;
pub mod bytes;
pub mod decimal;
pub mod delegation;
pub mod ecdsa;
pub mod error;
pub mod http_signature;
pub mod json;
pub mod laws;
pub mod parse_utils;
pub mod principal;
pub mod request;
pub mod root_key;
pub mod text;
pub mod wire;

pub use delegation::Delegation;
pub use delegation::DelegationChain;
pub use delegation::SignedDelegation;
pub use error::HttpAuthError;
pub use http_signature::validate_http_signature_headers;
pub use http_signature::validate_with_root_key_store;
pub use http_signature::HttpSignatureValidationData;
pub use http_signature::SignatureKeyHeader;
pub use principal::Principal;
pub use request::HeaderField;
pub use request::HttpRequest;
pub use root_key::set_root_key;
pub use root_key::with_root_key;
pub use root_key::RootKeyStore;
