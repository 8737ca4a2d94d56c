//! ECDSA over P-256 with SHA-256: the check of a request's own signature.

use crate::error::HttpAuthError;
use crate::error::Rejection;
use crate::error::outcome;
use p256::ecdsa::signature::Verifier;
use p256::pkcs8::DecodePublicKey;
use p256::pkcs8::EncodePublicKey;
use vstd::prelude::*;

verus! {

/// The number that a byte string denotes when read as a big-endian integer.
pub open spec fn big_endian(s: Seq<u8>) -> nat
    decreases s.len(),
{
    if s.len() == 0 {
        0
    } else {
        big_endian(s.drop_last()) * 256 + s.last() as nat
    }
}

/// The order of the P-256 group.
pub open spec fn p256_order() -> nat {
    0xffffffff00000000ffffffffffffffffbce6faada7179e84f3b9cac2fc632551nat
}

/// Whether `sig` is the fixed-size encoding of an ECDSA signature over
/// P-256: 64 bytes, of which each half is a big-endian integer in the range
/// from 1 to the group order, exclusive.
pub open spec fn is_p256_signature(sig: Seq<u8>) -> bool {
    &&& sig.len() == 64
    &&& 0 < big_endian(sig.subrange(0, 32)) < p256_order()
    &&& 0 < big_endian(sig.subrange(32, 64)) < p256_order()
}

/// The DER encoding (SubjectPublicKeyInfo) that the P-256 public key read
/// from the DER encoding `der` is written back as; `None` where `der`
/// encodes no key.
pub uninterp spec fn p256_public_key_der(der: Seq<u8>) -> Option<Seq<u8>>;

/// The DER encoding (SubjectPublicKeyInfo) of the P-256 public key that
/// `point` encodes as a curve point, compressed or not; `None` where
/// `point` encodes no key.
pub uninterp spec fn p256_sec1_key_der(point: Seq<u8>) -> Option<Seq<u8>>;

/// The verdict on `sig` as a signature of `payload` under the key `der`:
/// `Ok` when it verifies, else the verifier's description of the failure.
pub uninterp spec fn p256_verification(payload: Seq<u8>, sig: Seq<u8>, der: Seq<u8>) -> Result<
    (),
    Seq<char>,
>;

/// Whether `sig` encodes a signature.
///
/// Trusted: calls `p256::ecdsa::Signature::from_slice`, which accepts
/// exactly the inputs of 64 bytes whose two halves are big-endian integers
/// from 1 to the group order, exclusive.
#[verifier::external_body]
fn signature_parses(sig: &[u8]) -> (r: bool)
    ensures
        r == is_p256_signature(sig@),
{
    p256::ecdsa::Signature::from_slice(sig).is_ok()
}

/// Reads a public key from its DER form and writes it back.
///
/// Trusted: calls `to_public_key_der` on the key that
/// `p256::PublicKey::from_public_key_der` reads from `der`. The contract
/// claims only that the result is a function of the input, which it names
/// [`p256_public_key_der`].
#[verifier::external_body]
fn public_key_reencoded(der: &[u8]) -> (r: Option<Vec<u8>>)
    ensures
        match r {
            Some(encoded) => p256_public_key_der(der@) == Some(encoded@),
            None => p256_public_key_der(der@).is_none(),
        },
{
    p256::PublicKey::from_public_key_der(der).ok()?.to_public_key_der().ok().map(|d| d.to_vec())
}

/// Reads a public key from its encoding as a curve point and writes it in
/// DER form.
///
/// Trusted: calls `to_public_key_der` on the key that
/// `p256::PublicKey::from_sec1_bytes` reads from `point`. The contract
/// claims only that the result is a function of the input, which it names
/// [`p256_sec1_key_der`].
#[verifier::external_body]
fn point_encoded_as_der(point: &[u8]) -> (r: Option<Vec<u8>>)
    ensures
        match r {
            Some(encoded) => p256_sec1_key_der(point@) == Some(encoded@),
            None => p256_sec1_key_der(point@).is_none(),
        },
{
    p256::PublicKey::from_sec1_bytes(point).ok()?.to_public_key_der().ok().map(|d| d.to_vec())
}

/// Verifies a signature.
///
/// Trusted: calls `verify` of `p256::ecdsa::VerifyingKey` on the signature
/// and the key that `sig` and `der` encode, and renders each error as text.
/// The contract claims only that the verdict is a function of the three
/// inputs, which it names [`p256_verification`].
#[verifier::external_body]
fn signature_verifies(payload: &[u8], sig: &[u8], der: &[u8]) -> (r: Result<(), String>)
    ensures
        match r {
            Ok(()) => p256_verification(payload@, sig@, der@) == Ok::<(), Seq<char>>(()),
            Err(reason) => p256_verification(payload@, sig@, der@) == Err::<(), Seq<char>>(
                reason@,
            ),
        },
{
    let signature = p256::ecdsa::Signature::from_slice(sig).map_err(|e| e.to_string())?;
    let key = p256::PublicKey::from_public_key_der(der).map_err(|e| e.to_string())?;
    p256::ecdsa::VerifyingKey::from(key).verify(payload, &signature).map_err(|e| e.to_string())
}

/// The DER form of the key that `public_key` encodes, in DER form or as a
/// curve point, or the rejection of bytes that encode no key.
pub open spec fn public_key_der(public_key: Seq<u8>) -> Result<Seq<u8>, Rejection> {
    match p256_public_key_der(public_key) {
        Some(der) => Ok(der),
        None => match p256_sec1_key_der(public_key) {
            Some(der) => Ok(der),
            None => Err(Rejection::MalformedEcdsaPublicKey),
        },
    }
}

/// The outcome of checking `sig` as a signature of `payload` under the key
/// `public_key`: malformed signature bytes, malformed key bytes and a
/// signature that does not verify are told apart, in this order.
pub open spec fn signature_check(payload: Seq<u8>, sig: Seq<u8>, public_key: Seq<u8>) -> Result<
    (),
    Rejection,
> {
    if !is_p256_signature(sig) {
        Err(Rejection::MalformedEcdsaSignature)
    } else {
        match public_key_der(public_key) {
            Err(rejection) => Err(rejection),
            Ok(der) => if p256_verification(payload, sig, der) is Err {
                Err(Rejection::SignatureVerificationFailed)
            } else {
                Ok(())
            },
        }
    }
}

/// Writes the key that `public_key` encodes in DER form. The key may be
/// given in DER form or as a curve point, compressed or not.
pub fn reencode_public_key(public_key: &[u8]) -> (r: Result<Vec<u8>, HttpAuthError>)
    ensures
        match r {
            Ok(der) => public_key_der(public_key@) == Ok::<Seq<u8>, Rejection>(der@),
            Err(e) => public_key_der(public_key@) == Err::<Seq<u8>, Rejection>(e.kind()),
        },
{
    match public_key_reencoded(public_key) {
        Some(der) => Ok(der),
        None => match point_encoded_as_der(public_key) {
            Some(der) => Ok(der),
            None => Err(HttpAuthError::MalformedEcdsaPublicKey),
        },
    }
}

/// Checks that `sig` is a valid signature of `payload` under `public_key`.
/// The key may be given in DER form or as a curve point.
pub fn verify_sig(payload: &[u8], sig: &[u8], public_key: &[u8]) -> (r: Result<(), HttpAuthError>)
    ensures
        outcome(r) == signature_check(payload@, sig@, public_key@),
{
    if !signature_parses(sig) {
        return Err(HttpAuthError::MalformedEcdsaSignature);
    }
    let der: Vec<u8> = reencode_public_key(public_key)?;
    match signature_verifies(payload, sig, der.as_slice()) {
        Ok(()) => Ok(()),
        Err(reason) => Err(HttpAuthError::JwtSignatureVerificationFailed(reason)),
    }
}

} // verus!
