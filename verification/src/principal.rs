//! Identifiers of callers and services.

use crate::bytes::slice_eq;
use vstd::prelude::*;
use vstd::slice::slice_to_vec;

verus! {

/// The greatest number of bytes an identifier can have.
pub const MAX_PRINCIPAL_LENGTH: usize = 29;

/// The self-authenticating identifier of a DER-encoded public key: a digest
/// of the key followed by a tag byte.
pub uninterp spec fn self_authenticating_id(public_key: Seq<u8>) -> Seq<u8>;

/// What the text form `text` of an identifier decodes to: the identifier's
/// bytes, or the decoder's description of why `text` is no text form.
pub uninterp spec fn principal_text_decoding(text: Seq<char>) -> Result<Seq<u8>, Seq<char>>;

/// An opaque identifier of at most 29 bytes.
#[derive(Debug)]
pub struct Principal {
    bytes: Vec<u8>,
}

/// Derives the self-authenticating identifier of a public key.
///
/// Trusted: calls `candid::Principal::self_authenticating`, which hashes the
/// key with SHA-224 and appends the tag byte 2. The contract names the result
/// [`self_authenticating_id`] and claims its length, 28 digest bytes and the
/// tag.
#[verifier::external_body]
fn self_authenticating_bytes(public_key: &[u8]) -> (r: Vec<u8>)
    ensures
        r@ == self_authenticating_id(public_key@),
        r@.len() == 29,
{
    candid::Principal::self_authenticating(public_key).as_slice().to_vec()
}

/// Decodes the text form of an identifier.
///
/// Trusted: calls `candid::Principal::from_text` and renders its error as
/// text. The contract names the result [`principal_text_decoding`] and claims
/// that a decoded identifier has at most 29 bytes, which `from_text` checks
/// before it builds one.
#[verifier::external_body]
fn principal_bytes_from_text(text: &str) -> (r: Result<Vec<u8>, String>)
    ensures
        match r {
            Ok(bytes) => principal_text_decoding(text@) == Ok::<Seq<u8>, Seq<char>>(bytes@)
                && bytes@.len() <= 29,
            Err(reason) => principal_text_decoding(text@) == Err::<Seq<u8>, Seq<char>>(reason@),
        },
{
    candid::Principal::from_text(text).map(|p| p.as_slice().to_vec()).map_err(|e| e.to_string())
}

impl View for Principal {
    type V = Seq<u8>;

    closed spec fn view(&self) -> Seq<u8> {
        self.bytes@
    }
}

impl Principal {
    #[verifier::type_invariant]
    spec fn well_formed(self) -> bool {
        self.bytes@.len() <= MAX_PRINCIPAL_LENGTH
    }

    /// The identifier with the given bytes; `None` when there are more than
    /// 29 of them.
    pub fn from_slice(bytes: &[u8]) -> (r: Option<Principal>)
        ensures
            match r {
                Some(p) => p@ == bytes@ && bytes@.len() <= MAX_PRINCIPAL_LENGTH,
                None => bytes@.len() > MAX_PRINCIPAL_LENGTH,
            },
    {
        if bytes.len() <= MAX_PRINCIPAL_LENGTH {
            Some(Principal { bytes: slice_to_vec(bytes) })
        } else {
            None
        }
    }

    /// The identifier's bytes.
    pub fn as_slice(&self) -> (r: &[u8])
        ensures
            r@ == self@,
            r@.len() <= MAX_PRINCIPAL_LENGTH,
    {
        proof {
            use_type_invariant(self);
        }
        self.bytes.as_slice()
    }

    /// The self-authenticating identifier of the DER-encoded `public_key`.
    pub fn self_authenticating(public_key: &[u8]) -> (r: Principal)
        ensures
            r@ == self_authenticating_id(public_key@),
    {
        Principal { bytes: self_authenticating_bytes(public_key) }
    }

    /// The identifier that `text` is the text form of.
    pub fn from_text(text: &str) -> (r: Result<Principal, String>)
        ensures
            match r {
                Ok(p) => principal_text_decoding(text@) == Ok::<Seq<u8>, Seq<char>>(p@),
                Err(reason) => principal_text_decoding(text@) == Err::<Seq<u8>, Seq<char>>(
                    reason@,
                ),
            },
    {
        match principal_bytes_from_text(text) {
            Ok(bytes) => Ok(Principal { bytes }),
            Err(reason) => Err(reason),
        }
    }

    /// Whether two identifiers have the same bytes.
    pub fn same_as(&self, other: &Principal) -> (r: bool)
        ensures
            r == (self@ == other@),
    {
        slice_eq(self.bytes.as_slice(), other.bytes.as_slice())
    }
}

} // verus!
