//! Delegation chains: the credential by which an issuing service lets a
//! session key act for one of its users.
//!
//! A chain names the user's public key, a canister-signature key of the
//! issuing service, and carries one delegation: the session key, an
//! expiration and an optional scope, signed by the issuing service. The
//! signature is checked against the trusted root public key.
//!
//! The expiration of a delegation enters the signed message and is not
//! compared with any clock: a delegation is accepted however old it is.

use crate::base64::base64_decode;
use crate::base64::base64url_decoding;
use crate::bytes::slice_eq;
use crate::decimal::decimal_u64;
use crate::decimal::parse_u64;
use crate::error::diagnostic;
use crate::error::HttpAuthError;
use crate::error::Rejection;
use crate::principal::principal_text_decoding;
use crate::principal::self_authenticating_id;
use crate::principal::Principal;
use crate::root_key::extract_raw_root_pk_from_der;
use crate::root_key::is_root_key_der;
use crate::root_key::raw_root_key;
use vstd::prelude::*;
use vstd::utf8::encode_utf8;

verus! {

/// The domain separator of delegation signatures, `ic-request-auth-delegation`.
pub const DELEGATION_SIG_DOMAIN: [u8; 26] = [
    0x69, 0x63, 0x2d, 0x72, 0x65, 0x71, 0x75, 0x65, 0x73, 0x74, 0x2d, 0x61,
    0x75, 0x74, 0x68, 0x2d, 0x64, 0x65, 0x6c, 0x65, 0x67, 0x61, 0x74, 0x69,
    0x6f, 0x6e,
];

/// The algorithm identifier of canister-signature public keys, which stands
/// at the bytes 2 to 15 of their DER encoding.
pub const CANISTER_SIG_PK_DER_OID: [u8; 14] = [
    0x30, 0x0c, 0x06, 0x0a, 0x2b, 0x06, 0x01, 0x04, 0x01, 0x83, 0xb8, 0x43,
    0x01, 0x02,
];

/// A statement that lets a session key act until an expiration, within an
/// optional scope.
#[derive(Debug)]
pub struct Delegation {
    /// The session key, DER-encoded, as base64 text.
    pub pub_key: String,
    /// The expiration in nanoseconds since the epoch, as a decimal number.
    pub expiration: String,
    /// The identifiers that the delegation is limited to, if it is limited.
    pub targets: Option<Vec<Vec<u8>>>,
}

/// A delegation with the issuing service's signature.
#[derive(Debug)]
pub struct SignedDelegation {
    /// The statement that is signed.
    pub delegation: Delegation,
    /// The signature, as base64 text.
    pub sig: String,
}

/// A user's public key with the delegations that start from it.
#[derive(Debug)]
pub struct DelegationChain {
    /// The user's public key, DER-encoded, as base64 text.
    pub pub_key: String,
    /// The delegations; a chain is valid only with exactly one.
    pub delegations: Vec<SignedDelegation>,
}

/// The mathematical form of a [`Delegation`].
pub struct DelegationView {
    pub pub_key: Seq<char>,
    pub expiration: Seq<char>,
    pub targets: Option<Seq<Seq<u8>>>,
}

/// The mathematical form of a [`SignedDelegation`].
pub struct SignedDelegationView {
    pub delegation: DelegationView,
    pub sig: Seq<char>,
}

/// The mathematical form of a [`DelegationChain`].
pub struct DelegationChainView {
    pub pub_key: Seq<char>,
    pub delegations: Seq<SignedDelegationView>,
}

/// The byte strings that `targets` holds, in order.
pub open spec fn targets_view(targets: Option<Vec<Vec<u8>>>) -> Option<Seq<Seq<u8>>> {
    match targets {
        Some(list) => Some(Seq::new(list@.len(), |i: int| list@[i]@)),
        None => None,
    }
}

impl View for Delegation {
    type V = DelegationView;

    open spec fn view(&self) -> DelegationView {
        DelegationView {
            pub_key: self.pub_key@,
            expiration: self.expiration@,
            targets: targets_view(self.targets),
        }
    }
}

impl View for SignedDelegation {
    type V = SignedDelegationView;

    open spec fn view(&self) -> SignedDelegationView {
        SignedDelegationView { delegation: self.delegation@, sig: self.sig@ }
    }
}

impl View for DelegationChain {
    type V = DelegationChainView;

    open spec fn view(&self) -> DelegationChainView {
        DelegationChainView {
            pub_key: self.pub_key@,
            delegations: Seq::new(self.delegations@.len(), |i: int| self.delegations@[i]@),
        }
    }
}

impl Delegation {
    /// The expiration as a number, where the text is a decimal number of at
    /// most 64 bits.
    pub fn expiration(&self) -> (r: Option<u64>)
        ensures
            r == decimal_u64(encode_utf8(self.expiration@)),
    {
        parse_u64(self.expiration.as_str().as_bytes())
    }
}

/// A public key of canister signatures: the signing canister and a seed.
#[derive(Debug)]
pub struct CanisterSigPublicKey {
    /// The canister that signs.
    pub canister_id: Principal,
    /// The seed that tells the canister's keys apart.
    pub seed: Vec<u8>,
}

/// The parts of the canister-signature public key that `der` encodes: the
/// signing canister's identifier and the seed.
///
/// The algorithm identifier stands at the bytes 2 to 15, the length of the
/// identifier at byte 19, then the identifier, of at most 29 bytes, and the
/// seed, which takes the rest.
pub open spec fn canister_sig_key_parts(der: Seq<u8>) -> Option<(Seq<u8>, Seq<u8>)> {
    if der.len() >= 20 && der.subrange(2, 16) == CANISTER_SIG_PK_DER_OID@ && der[19] <= 29
        && der.len() >= 20 + der[19] {
        Some((der.subrange(20, 20 + der[19]), der.subrange(20 + der[19], der.len() as int)))
    } else {
        None
    }
}

/// The number of bytes of a canister-signature public key without its DER
/// envelope.
pub open spec fn canister_sig_key_raw_len(canister_id: Seq<u8>, seed: Seq<u8>) -> nat {
    1 + canister_id.len() + seed.len()
}

/// Whether a canister-signature public key can be written in DER form: its
/// length, taken modulo 256, leaves room for the 17 bytes of the envelope
/// in one byte.
pub open spec fn canister_sig_key_encodable(canister_id: Seq<u8>, seed: Seq<u8>) -> bool {
    &&& canister_id.len() <= 29
    &&& canister_sig_key_raw_len(canister_id, seed) % 256 <= 238
}

/// The DER form of a canister-signature public key.
pub open spec fn canister_sig_key_der(canister_id: Seq<u8>, seed: Seq<u8>) -> Seq<u8> {
    let n = canister_sig_key_raw_len(canister_id, seed) % 256;
    seq![0x30u8, (17 + n) as u8] + CANISTER_SIG_PK_DER_OID@ + seq![0x03u8, (1 + n) as u8, 0x00u8]
        + seq![canister_id.len() as u8] + canister_id + seed
}

/// The message that the signature of a delegation is made over, before the
/// domain separator is put in front: a hash of the session key, the
/// expiration and the scope that does not depend on how they are encoded.
pub uninterp spec fn delegation_signature_message(
    pubkey: Seq<u8>,
    expiration: u64,
    targets: Option<Seq<Seq<u8>>>,
) -> Seq<u8>;

/// The verdict on `signature` as a canister signature of `message` under
/// the canister-signature key `public_key_der`, certified by the root key
/// `root_key`: `Ok` when it verifies, else the verifier's description of
/// the failure.
pub uninterp spec fn canister_signature_verification(
    message: Seq<u8>,
    signature: Seq<u8>,
    public_key_der: Seq<u8>,
    root_key: Seq<u8>,
) -> Result<(), Seq<char>>;

/// Reads a canister-signature public key from its DER form.
///
/// Trusted: calls `CanisterSigPublicKey::try_from` of
/// `ic_canister_sig_creation` and hands out the two fields of its result.
/// That function compares the bytes 2 to 15 with the algorithm identifier,
/// which needs 16 bytes to be there, reads the identifier's length at byte
/// 19, and fails where the input is shorter than that length asks or the
/// identifier is longer than 29 bytes; the seed is what follows the
/// identifier.
#[verifier::external_body]
fn canister_sig_pk_from_der(der: &[u8]) -> (r: Result<(Vec<u8>, Vec<u8>), String>)
    requires
        der@.len() >= 16,
    ensures
        match r {
            Ok((canister_id, seed)) => canister_sig_key_parts(der@) == Some(
                (canister_id@, seed@),
            ),
            Err(_) => canister_sig_key_parts(der@).is_none(),
        },
{
    ic_canister_sig_creation::CanisterSigPublicKey::try_from(der).map(
        |key| (key.canister_id.as_slice().to_vec(), key.seed),
    )
}

/// Writes a canister-signature public key in DER form.
///
/// Trusted: calls `to_der` of `ic_canister_sig_creation::CanisterSigPublicKey`
/// on the key with the given identifier and seed. That function writes the
/// tag `0x30`, 17 plus the key's length, the algorithm identifier, the tag
/// `0x03`, 1 plus the key's length, a zero byte, and the key: the length of
/// the identifier, the identifier and the seed. Both lengths are taken as
/// one byte before the addition, which must not overflow.
#[verifier::external_body]
fn canister_sig_pk_to_der(canister_id: &[u8], seed: &[u8]) -> (r: Vec<u8>)
    requires
        canister_sig_key_encodable(canister_id@, seed@),
    ensures
        r@ == canister_sig_key_der(canister_id@, seed@),
{
    ic_canister_sig_creation::CanisterSigPublicKey::new(
        candid::Principal::from_slice(canister_id),
        seed.to_vec(),
    ).to_der()
}

/// Computes the message that a delegation's signature is made over.
///
/// Trusted: calls `delegation_signature_msg` of `ic_canister_sig_creation`.
/// The contract claims only that the result is a function of the three
/// inputs, which it names [`delegation_signature_message`].
#[verifier::external_body]
fn delegation_signature_msg(pubkey: &[u8], expiration: u64, targets: &Option<Vec<Vec<u8>>>) -> (r:
    Vec<u8>)
    ensures
        r@ == delegation_signature_message(pubkey@, expiration, targets_view(*targets)),
{
    ic_canister_sig_creation::delegation_signature_msg(pubkey, expiration, targets.as_ref())
}

/// Verifies a canister signature.
///
/// Trusted: calls `verify_canister_sig` of `ic_signature_verification`,
/// which reads the key with `CanisterSigPublicKey::try_from` and so needs
/// 16 bytes of it. The contract claims only that the verdict is a function
/// of the four inputs, which it names [`canister_signature_verification`].
#[verifier::external_body]
fn verify_canister_sig(
    message: &[u8],
    signature: &[u8],
    public_key_der: &[u8],
    root_key: &[u8],
) -> (r: Result<(), String>)
    requires
        public_key_der@.len() >= 16,
    ensures
        match r {
            Ok(()) => canister_signature_verification(
                message@,
                signature@,
                public_key_der@,
                root_key@,
            ) == Ok::<(), Seq<char>>(()),
            Err(reason) => canister_signature_verification(
                message@,
                signature@,
                public_key_der@,
                root_key@,
            ) == Err::<(), Seq<char>>(reason@),
        },
{
    ic_signature_verification::verify_canister_sig(message, signature, public_key_der, root_key)
}

impl CanisterSigPublicKey {
    /// Reads a canister-signature public key from its DER form.
    pub fn try_from_der(der: &[u8]) -> (r: Result<CanisterSigPublicKey, HttpAuthError>)
        ensures
            match r {
                Ok(key) => canister_sig_key_parts(der@) == Some((key.canister_id@, key.seed@)),
                Err(e) => canister_sig_key_parts(der@).is_none() && e.kind()
                    == Rejection::MalformedDelegationPublicKey,
            },
    {
        if der.len() < 16 {
            return Err(
                HttpAuthError::MalformedDelegationPublicKey(
                    diagnostic("canister sig pk shorter than DER prefix"),
                ),
            );
        }
        match canister_sig_pk_from_der(der) {
            Ok((canister_id, seed)) => {
                match Principal::from_slice(canister_id.as_slice()) {
                    Some(canister_id) => Ok(CanisterSigPublicKey { canister_id, seed }),
                    None => Err(
                        HttpAuthError::MalformedDelegationPublicKey(
                            diagnostic("invalid canister id in canister sig pk"),
                        ),
                    ),
                }
            },
            Err(reason) => Err(HttpAuthError::MalformedDelegationPublicKey(reason)),
        }
    }

    /// Writes the key in DER form; `None` where the key is too long for it.
    pub fn to_der(&self) -> (r: Option<Vec<u8>>)
        ensures
            match r {
                Some(der) => canister_sig_key_encodable(self.canister_id@, self.seed@) && der@
                    == canister_sig_key_der(self.canister_id@, self.seed@),
                None => !canister_sig_key_encodable(self.canister_id@, self.seed@),
            },
    {
        let canister_id: &[u8] = self.canister_id.as_slice();
        let total: u64 = 1 + canister_id.len() as u64 + (self.seed.len() % 256) as u64;
        if total % 256 <= 238 {
            Some(canister_sig_pk_to_der(canister_id, self.seed.as_slice()))
        } else {
            None
        }
    }
}

/// `bytes` behind the domain separator `sep` and one byte that holds the
/// separator's length.
pub open spec fn domain_separated(sep: Seq<u8>, bytes: Seq<u8>) -> Seq<u8> {
    seq![(sep.len() % 256) as u8] + sep + bytes
}

/// Puts a domain separator, preceded by its length in one byte, in front of
/// a message.
pub fn msg_with_domain(sep: &[u8], bytes: &[u8]) -> (r: Vec<u8>)
    ensures
        r@ == domain_separated(sep@, bytes@),
{
    let mut msg: Vec<u8> = Vec::new();
    msg.push((sep.len() % 256) as u8);
    msg.extend_from_slice(sep);
    msg.extend_from_slice(bytes);
    assert(msg@ =~= domain_separated(sep@, bytes@));
    msg
}

/// The fields of a chain's only delegation, decoded.
pub struct DecodedDelegation {
    /// The signature of the issuing service.
    pub signature: Seq<u8>,
    /// The session key that the delegation names.
    pub session_key: Seq<u8>,
    /// The user's public key, a canister-signature key.
    pub chain_key: Seq<u8>,
}

/// The base64 fields of a chain with one delegation, decoded; `None` where
/// one of them is no base64 text.
pub open spec fn decoded_delegation(chain: DelegationChainView) -> Option<DecodedDelegation> {
    let signed = chain.delegations[0];
    match (
        base64url_decoding(encode_utf8(signed.sig)),
        base64url_decoding(encode_utf8(signed.delegation.pub_key)),
        base64url_decoding(encode_utf8(chain.pub_key)),
    ) {
        (Ok(signature), Ok(session_key), Ok(chain_key)) => Some(
            DecodedDelegation { signature, session_key, chain_key },
        ),
        _ => None,
    }
}

/// Whether a delegation is bound to its issuer and to the request: the
/// chain's key was issued by the expected service, and the delegation names
/// the key that signed the request.
pub open spec fn delegation_binding(
    issuer: Seq<u8>,
    expected_issuer: Seq<u8>,
    delegated_key: Seq<u8>,
    session_key: Seq<u8>,
) -> Result<(), Rejection> {
    if issuer != expected_issuer {
        Err(Rejection::DelegationIssuerMismatch)
    } else if delegated_key != session_key {
        Err(Rejection::DelegationSessionKeyMismatch)
    } else {
        Ok(())
    }
}

/// The outcome of validating `chain` for a request that `session_key`
/// signed, against the expected issuer `issuer`, given in text form, and
/// the trusted root key in its DER envelope `root_key_der`: the user's
/// identifier, or the first of the checks that fails.
///
/// The checks, in order: the chain holds exactly one delegation; its base64
/// fields decode; the chain's key is a canister-signature key; the expected
/// issuer's text form decodes; the chain's key belongs to the expected
/// issuer; the delegation names the session key; the expiration is a
/// number; the chain's key can be written in DER form; the root key's
/// envelope is valid; the signature verifies.
pub open spec fn delegation_outcome(
    chain: DelegationChainView,
    session_key: Seq<u8>,
    issuer: Seq<char>,
    root_key_der: Seq<u8>,
) -> Result<Seq<u8>, Rejection> {
    if chain.delegations.len() != 1 {
        Err(Rejection::InvalidDelegationChainLength)
    } else {
        match decoded_delegation(chain) {
            None => Err(Rejection::MalformedHttpSigKey),
            Some(decoded) => match canister_sig_key_parts(decoded.chain_key) {
                None => Err(Rejection::MalformedDelegationPublicKey),
                Some((canister_id, seed)) => match principal_text_decoding(issuer) {
                    Err(_) => Err(Rejection::MalformedIssuerId),
                    Ok(expected) => match delegation_binding(
                        canister_id,
                        expected,
                        decoded.session_key,
                        session_key,
                    ) {
                        Err(rejection) => Err(rejection),
                        Ok(()) => signed_delegation_outcome(
                            chain.delegations[0].delegation,
                            decoded,
                            canister_id,
                            seed,
                            root_key_der,
                        ),
                    },
                },
            },
        }
    }
}

/// The outcome of checking the signature of a delegation that is bound to
/// its issuer and to the request.
pub open spec fn signed_delegation_outcome(
    delegation: DelegationView,
    decoded: DecodedDelegation,
    canister_id: Seq<u8>,
    seed: Seq<u8>,
    root_key_der: Seq<u8>,
) -> Result<Seq<u8>, Rejection> {
    match decimal_u64(encode_utf8(delegation.expiration)) {
        None => Err(Rejection::MalformedHttpSigKey),
        Some(expiration) => if !canister_sig_key_encodable(canister_id, seed) {
            Err(Rejection::MalformedDelegationPublicKey)
        } else if !is_root_key_der(root_key_der) {
            Err(Rejection::MalformedRootKey)
        } else if canister_signature_verification(
            domain_separated(
                DELEGATION_SIG_DOMAIN@,
                delegation_signature_message(decoded.session_key, expiration, delegation.targets),
            ),
            decoded.signature,
            canister_sig_key_der(canister_id, seed),
            raw_root_key(root_key_der),
        ) is Err {
            Err(Rejection::InvalidDelegationSignature)
        } else {
            Ok(self_authenticating_id(decoded.chain_key))
        },
    }
}

/// Checks that a delegation is bound to its issuer and to the request.
pub fn check_delegation_binding(
    issuer: &Principal,
    expected_issuer: &Principal,
    delegated_key: &[u8],
    session_key: &[u8],
) -> (r: Result<(), HttpAuthError>)
    ensures
        match r {
            Ok(()) => delegation_binding(issuer@, expected_issuer@, delegated_key@, session_key@)
                == Ok::<(), Rejection>(()),
            Err(e) => delegation_binding(issuer@, expected_issuer@, delegated_key@, session_key@)
                == Err::<(), Rejection>(e.kind()),
        },
{
    if !issuer.same_as(expected_issuer) {
        return Err(HttpAuthError::DelegationIssuerMismatch);
    }
    if !slice_eq(delegated_key, session_key) {
        return Err(HttpAuthError::DelegationSessionKeyMismatch);
    }
    Ok(())
}

/// The identifier of a successful validation, or the rejection of a failed
/// one.
pub open spec fn principal_outcome(r: Result<Principal, HttpAuthError>) -> Result<
    Seq<u8>,
    Rejection,
> {
    match r {
        Ok(principal) => Ok(principal@),
        Err(e) => Err(e.kind()),
    }
}

/// Validates a delegation chain and derives the user's identifier.
///
/// `session_key` is the key that verified the request's own signature,
/// `ii_canister_id` the text form of the issuing service's identifier, and
/// `ic_root_public_key_raw` the trusted root public key in its DER
/// envelope. The chain is valid when it holds exactly one delegation, was
/// issued by the expected service for the session key, and carries a
/// signature of the issuing service that the root key certifies. No
/// cryptographic check is made before the structural ones have passed.
pub fn validate_delegation_and_get_principal(
    delegation_chain: &DelegationChain,
    session_key: &[u8],
    ii_canister_id: &str,
    ic_root_public_key_raw: &[u8],
) -> (r: Result<Principal, HttpAuthError>)
    ensures
        principal_outcome(r) == delegation_outcome(
            delegation_chain@,
            session_key@,
            ii_canister_id@,
            ic_root_public_key_raw@,
        ),
{
    if delegation_chain.delegations.len() != 1 {
        return Err(HttpAuthError::InvalidDelegationChainLength);
    }
    let signed_delegation: &SignedDelegation = &delegation_chain.delegations[0];
    assert(delegation_chain@.delegations[0] == signed_delegation@);
    let delegation_sig: Vec<u8> = match base64_decode(signed_delegation.sig.as_str().as_bytes()) {
        Ok(bytes) => bytes,
        Err(reason) => {
            return Err(HttpAuthError::MalformedHttpSigKey(reason));
        },
    };
    let delegation_pub_key: Vec<u8> = match base64_decode(
        signed_delegation.delegation.pub_key.as_str().as_bytes(),
    ) {
        Ok(bytes) => bytes,
        Err(reason) => {
            return Err(HttpAuthError::MalformedHttpSigKey(reason));
        },
    };
    let pub_key: Vec<u8> = match base64_decode(delegation_chain.pub_key.as_str().as_bytes()) {
        Ok(bytes) => bytes,
        Err(reason) => {
            return Err(HttpAuthError::MalformedHttpSigKey(reason));
        },
    };
    let cs_pk: CanisterSigPublicKey = CanisterSigPublicKey::try_from_der(pub_key.as_slice())?;
    let expected_ii_canister_id: Principal = match Principal::from_text(ii_canister_id) {
        Ok(principal) => principal,
        Err(reason) => {
            return Err(HttpAuthError::MalformedIssuerId(reason));
        },
    };
    check_delegation_binding(
        &cs_pk.canister_id,
        &expected_ii_canister_id,
        delegation_pub_key.as_slice(),
        session_key,
    )?;
    let expiration: u64 = match signed_delegation.delegation.expiration() {
        Some(expiration) => expiration,
        None => {
            return Err(
                HttpAuthError::MalformedHttpSigKey(
                    diagnostic("invalid expiration: expected a decimal number of 64 bits"),
                ),
            );
        },
    };
    let cs_pk_der: Vec<u8> = match cs_pk.to_der() {
        Some(der) => der,
        None => {
            return Err(
                HttpAuthError::MalformedDelegationPublicKey(
                    diagnostic("canister sig pk too long"),
                ),
            );
        },
    };
    let message: Vec<u8> = msg_with_domain(
        DELEGATION_SIG_DOMAIN.as_slice(),
        delegation_signature_msg(
            delegation_pub_key.as_slice(),
            expiration,
            &signed_delegation.delegation.targets,
        ).as_slice(),
    );
    let ic_root_public_key: &[u8] = extract_raw_root_pk_from_der(ic_root_public_key_raw)?;
    match verify_canister_sig(
        message.as_slice(),
        delegation_sig.as_slice(),
        cs_pk_der.as_slice(),
        ic_root_public_key,
    ) {
        Ok(()) => Ok(Principal::self_authenticating(pub_key.as_slice())),
        Err(reason) => Err(HttpAuthError::InvalidDelegationSignature(reason)),
    }
}

} // verus!
