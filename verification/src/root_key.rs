//! The trusted root public key: its DER envelope and the store that holds
//! the key in use.
//!
//! The key travels as 133 bytes, a fixed prefix of 37 bytes that identifies
//! the algorithm followed by the 96 bytes of the key itself.

use crate::bytes::slice_eq;
use crate::error::diagnostic;
use crate::error::HttpAuthError;
use vstd::prelude::*;
use vstd::slice::slice_subrange;
use vstd::slice::slice_to_vec;

verus! {

/// The number of bytes of a root public key.
pub const IC_ROOT_PK_LENGTH: usize = 96;

/// The number of bytes of a root public key in its DER envelope.
pub const IC_ROOT_PK_DER_LENGTH: usize = 133;

/// The bytes that precede the key in its DER envelope.
pub const IC_ROOT_PK_DER_PREFIX: [u8; 37] = [
    0x30, 0x81, 0x82, 0x30, 0x1d, 0x06, 0x0d, 0x2b, 0x06, 0x01, 0x04, 0x01,
    0x82, 0xdc, 0x7c, 0x05, 0x03, 0x01, 0x02, 0x01, 0x06, 0x0c, 0x2b, 0x06,
    0x01, 0x04, 0x01, 0x82, 0xdc, 0x7c, 0x05, 0x03, 0x02, 0x01, 0x03, 0x61,
    0x00,
];

/// The well-known root public key that is in use where no other is set.
pub const IC_ROOT_PUBLIC_KEY: [u8; 96] = [
    0x81, 0x4c, 0x0e, 0x6e, 0xc7, 0x1f, 0xab, 0x58, 0x3b, 0x08, 0xbd, 0x81,
    0x37, 0x3c, 0x25, 0x5c, 0x3c, 0x37, 0x1b, 0x2e, 0x84, 0x86, 0x3c, 0x98,
    0xa4, 0xf1, 0xe0, 0x8b, 0x74, 0x23, 0x5d, 0x14, 0xfb, 0x5d, 0x9c, 0x0c,
    0xd5, 0x46, 0xd9, 0x68, 0x5f, 0x91, 0x3a, 0x0c, 0x0b, 0x2c, 0xc5, 0x34,
    0x15, 0x83, 0xbf, 0x4b, 0x43, 0x92, 0xe4, 0x67, 0xdb, 0x96, 0xd6, 0x5b,
    0x9b, 0xb4, 0xcb, 0x71, 0x71, 0x12, 0xf8, 0x47, 0x2e, 0x0d, 0x5a, 0x4d,
    0x14, 0x50, 0x5f, 0xfd, 0x74, 0x84, 0xb0, 0x12, 0x91, 0x09, 0x1c, 0x5f,
    0x87, 0xb9, 0x88, 0x83, 0x46, 0x3f, 0x98, 0x09, 0x1a, 0x0b, 0xaa, 0xae,
];

/// Whether `der` is a root public key in its DER envelope: 133 bytes that
/// begin with the prefix.
pub open spec fn is_root_key_der(der: Seq<u8>) -> bool {
    &&& der.len() == IC_ROOT_PK_DER_LENGTH
    &&& der.subrange(0, 37) == IC_ROOT_PK_DER_PREFIX@
}

/// The key that the envelope `der` holds: its last 96 bytes.
pub open spec fn raw_root_key(der: Seq<u8>) -> Seq<u8> {
    der.subrange(37, 133)
}

/// The envelope of the well-known root public key.
pub open spec fn default_root_key_der() -> Seq<u8> {
    IC_ROOT_PK_DER_PREFIX@ + IC_ROOT_PUBLIC_KEY@
}

/// Takes the root public key out of its DER envelope.
///
/// Fails with [`HttpAuthError::MalformedRootKey`] when `pk_der` has not 133
/// bytes, and when its first 37 bytes are not the prefix; the diagnostic
/// tells the two apart.
pub fn extract_raw_root_pk_from_der<'a>(pk_der: &'a [u8]) -> (r: Result<&'a [u8], HttpAuthError>)
    ensures
        match r {
            Ok(key) => is_root_key_der(pk_der@) && key@ == raw_root_key(pk_der@) && key@.len()
                == IC_ROOT_PK_LENGTH,
            Err(HttpAuthError::MalformedRootKey(reason)) => !is_root_key_der(pk_der@) && reason@
                == (if pk_der@.len() != IC_ROOT_PK_DER_LENGTH {
                "invalid root pk length"@
            } else {
                "invalid OID"@
            }),
            Err(_) => false,
        },
{
    if pk_der.len() != IC_ROOT_PK_DER_LENGTH {
        return Err(HttpAuthError::MalformedRootKey(diagnostic("invalid root pk length")));
    }
    if !slice_eq(slice_subrange(pk_der, 0, 37), IC_ROOT_PK_DER_PREFIX.as_slice()) {
        return Err(HttpAuthError::MalformedRootKey(diagnostic("invalid OID")));
    }
    Ok(slice_subrange(pk_der, 37, IC_ROOT_PK_DER_LENGTH))
}

/// Holds the root public key in use, in its DER envelope.
///
/// A store starts with the well-known key and changes only through
/// [`RootKeyStore::set`], which accepts nothing but a valid envelope: what a
/// store holds is a valid envelope at all times. A service makes one store
/// when it starts and hands it to whatever verifies requests. Readers borrow
/// the store and a replacement needs it exclusively, so that no reader ever
/// sees a key that is half replaced.
pub struct RootKeyStore {
    der: Vec<u8>,
}

impl View for RootKeyStore {
    type V = Seq<u8>;

    /// The envelope of the key in use.
    closed spec fn view(&self) -> Seq<u8> {
        self.der@
    }
}

impl RootKeyStore {
    #[verifier::type_invariant]
    spec fn well_formed(self) -> bool {
        is_root_key_der(self.der@)
    }

    /// A store that holds the well-known root public key.
    pub fn new() -> (r: RootKeyStore)
        ensures
            r@ == default_root_key_der(),
            is_root_key_der(r@),
    {
        let mut der: Vec<u8> = slice_to_vec(IC_ROOT_PK_DER_PREFIX.as_slice());
        der.extend_from_slice(IC_ROOT_PUBLIC_KEY.as_slice());
        assert(der@.subrange(0, 37) =~= IC_ROOT_PK_DER_PREFIX@);
        RootKeyStore { der }
    }

    /// The key in use, without its envelope.
    pub fn get(&self) -> (r: &[u8])
        ensures
            r@ == raw_root_key(self@),
            r@.len() == IC_ROOT_PK_LENGTH,
            is_root_key_der(self@),
    {
        proof {
            use_type_invariant(self);
        }
        slice_subrange(self.der.as_slice(), 37, IC_ROOT_PK_DER_LENGTH)
    }

    /// The key in use, in its envelope.
    pub fn der(&self) -> (r: &[u8])
        ensures
            r@ == self@,
            is_root_key_der(r@),
    {
        proof {
            use_type_invariant(self);
        }
        self.der.as_slice()
    }

    /// Puts another key in use, given in its DER envelope.
    ///
    /// Fails, and leaves the store as it was, when `raw_der` is no valid
    /// envelope.
    pub fn set(&mut self, raw_der: &[u8]) -> (r: Result<(), HttpAuthError>)
        ensures
            match r {
                Ok(()) => is_root_key_der(raw_der@) && final(self)@ == raw_der@,
                Err(e) => !is_root_key_der(raw_der@) && final(self)@ == old(self)@ && e
                    is MalformedRootKey,
            },
    {
        match extract_raw_root_pk_from_der(raw_der) {
            Ok(_) => {
                self.der = slice_to_vec(raw_der);
                Ok(())
            },
            Err(e) => Err(e),
        }
    }
}

/// Runs `f` on the envelope of the key that `store` holds and hands back
/// what `f` returns.
pub fn with_root_key<F, R>(store: &RootKeyStore, f: F) -> (r: R) where F: FnOnce(&[u8]) -> R
    requires
        forall|key: &[u8]| key@ == store@ ==> f.requires((key,)),
    ensures
        exists|key: &[u8]| key@ == store@ && f.ensures((key,), r),
        is_root_key_der(store@),
{
    let key: &[u8] = store.der();
    f(key)
}

/// Puts the key with the envelope `root_key` in use.
///
/// Fails, and leaves the store as it was, when `root_key` is no valid
/// envelope.
pub fn set_root_key(store: &mut RootKeyStore, root_key: Vec<u8>) -> (r: Result<(), HttpAuthError>)
    ensures
        match r {
            Ok(()) => is_root_key_der(root_key@) && final(store)@ == root_key@,
            Err(e) => !is_root_key_der(root_key@) && final(store)@ == old(store)@ && e
                is MalformedRootKey,
        },
{
    store.set(root_key.as_slice())
}

} // verus!
