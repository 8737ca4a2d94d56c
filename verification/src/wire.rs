//! The JSON form in which a `signature-key` header carries the key and the
//! delegation chain.
//!
//! ```text
//! { "pubKey": "<base64>",
//!   "delegationChain": {
//!     "pubKey": "<base64>",
//!     "delegations": [
//!       { "delegation": { "pubKey": "<base64>", "expiration": "<number>",
//!                         "targets": [[<byte>, ...], ...] },
//!         "sig": "<base64>" } ] } }
//! ```
//!
//! `delegationChain` and `targets` may be left out or be `null`. Members
//! with other names are passed over.

use crate::base64::base64url_decoding;
use crate::delegation::Delegation;
use crate::delegation::DelegationChain;
use crate::delegation::DelegationChainView;
use crate::delegation::DelegationView;
use crate::delegation::SignedDelegation;
use crate::delegation::SignedDelegationView;
use crate::error::diagnostic;
use crate::json::lemma_items_view;
use crate::json::Json;
use crate::json::JsonView;
use vstd::prelude::*;
use vstd::utf8::encode_utf8;

verus! {

/// The byte that a JSON number denotes, where it is an integer from 0 to
/// 255.
pub open spec fn byte_of(json: JsonView) -> Option<u8> {
    match json {
        JsonView::Number(Some(n)) => if n <= 255 {
            Some(n as u8)
        } else {
            None
        },
        _ => None,
    }
}

/// The byte string that a JSON array of bytes denotes.
pub open spec fn byte_string_of(json: JsonView) -> Option<Seq<u8>> {
    match json {
        JsonView::Array(items) => if forall|i: int|
            0 <= i < items.len() ==> byte_of(#[trigger] items[i]).is_some() {
            Some(Seq::new(items.len(), |i: int| byte_of(items[i]).unwrap()))
        } else {
            None
        },
        _ => None,
    }
}

/// The scope that the member `targets` denotes: none where the member is
/// left out or `null`, else the byte strings of an array; `None` where the
/// member has another shape.
pub open spec fn targets_of(member: Option<JsonView>) -> Option<Option<Seq<Seq<u8>>>> {
    match member {
        None => Some(None),
        Some(JsonView::Null) => Some(None),
        Some(JsonView::Array(items)) => if forall|i: int|
            0 <= i < items.len() ==> byte_string_of(#[trigger] items[i]).is_some() {
            Some(Some(Seq::new(items.len(), |i: int| byte_string_of(items[i]).unwrap())))
        } else {
            None
        },
        Some(_) => None,
    }
}

/// The delegation that a JSON object denotes.
pub open spec fn delegation_of(json: JsonView) -> Option<DelegationView> {
    match (
        json.text_field("pubKey"@),
        json.text_field("expiration"@),
        targets_of(json.field("targets"@)),
    ) {
        (Some(pub_key), Some(expiration), Some(targets)) => Some(
            DelegationView { pub_key, expiration, targets },
        ),
        _ => None,
    }
}

/// The signed delegation that a JSON object denotes.
pub open spec fn signed_delegation_of(json: JsonView) -> Option<SignedDelegationView> {
    match (json.field("delegation"@), json.text_field("sig"@)) {
        (Some(inner), Some(sig)) => match delegation_of(inner) {
            Some(delegation) => Some(SignedDelegationView { delegation, sig }),
            None => None,
        },
        _ => None,
    }
}

/// The delegation chain that a JSON object denotes.
pub open spec fn delegation_chain_of(json: JsonView) -> Option<DelegationChainView> {
    match (json.text_field("pubKey"@), json.field("delegations"@)) {
        (Some(pub_key), Some(JsonView::Array(items))) => if forall|i: int|
            0 <= i < items.len() ==> signed_delegation_of(#[trigger] items[i]).is_some() {
            Some(
                DelegationChainView {
                    pub_key,
                    delegations: Seq::new(
                        items.len(),
                        |i: int| signed_delegation_of(items[i]).unwrap(),
                    ),
                },
            )
        } else {
            None
        },
        _ => None,
    }
}

/// The chain that the member `delegationChain` denotes: none where the
/// member is left out or `null`; `None` where it is no chain.
pub open spec fn optional_chain_of(member: Option<JsonView>) -> Option<Option<DelegationChainView>> {
    match member {
        None => Some(None),
        Some(JsonView::Null) => Some(None),
        Some(json) => match delegation_chain_of(json) {
            Some(chain) => Some(Some(chain)),
            None => None,
        },
    }
}

/// The value of a `signature-key` header, as its JSON form gives it.
pub struct SignatureKeyView {
    /// The key that verifies the request's signature, in DER form or as a
    /// curve point.
    pub pub_key: Seq<u8>,
    /// The delegation chain, if the request carries one.
    pub delegation_chain: Option<DelegationChainView>,
}

/// The signature key that a JSON document denotes.
pub open spec fn signature_key_of(json: JsonView) -> Option<SignatureKeyView> {
    match (json.text_field("pubKey"@), optional_chain_of(json.field("delegationChain"@))) {
        (Some(text), Some(delegation_chain)) => match base64url_decoding(encode_utf8(text)) {
            Ok(pub_key) => Some(SignatureKeyView { pub_key, delegation_chain }),
            Err(_) => None,
        },
        _ => None,
    }
}

/// Reads a byte string from a JSON array of bytes.
pub fn byte_string_from_json(json: &Json) -> (r: Result<Vec<u8>, String>)
    ensures
        match r {
            Ok(bytes) => byte_string_of(json@) == Some(bytes@),
            Err(_) => byte_string_of(json@).is_none(),
        },
{
    match json {
        Json::Array(items) => {
            proof {
                lemma_items_view(items@);
            }
            let ghost views = json@->Array_0;
            let mut bytes: Vec<u8> = Vec::new();
            let mut i: usize = 0;
            while i < items.len()
                invariant
                    i <= items@.len(),
                    json@ == JsonView::Array(views),
                    views.len() == items@.len(),
                    forall|j: int| 0 <= j < items@.len() ==> #[trigger] views[j] == items@[j]@,
                    bytes@.len() == i,
                    forall|j: int|
                        0 <= j < i ==> byte_of(#[trigger] views[j]) == Some(bytes@[j]),
                decreases items@.len() - i,
            {
                match &items[i] {
                    Json::Number(Some(n)) => {
                        if *n > 255 {
                            assert(byte_of(views[i as int]).is_none());
                            return Err(diagnostic("invalid value: expected a byte"));
                        }
                        bytes.push(*n as u8);
                    },
                    _ => {
                        assert(byte_of(views[i as int]).is_none());
                        return Err(diagnostic("invalid type: expected a byte"));
                    },
                }
                i += 1;
            }
            assert(byte_string_of(json@).unwrap() =~= bytes@);
            Ok(bytes)
        },
        _ => Err(diagnostic("invalid type: expected an array of bytes")),
    }
}

/// Reads the scope of a delegation from the member `targets`.
pub fn targets_from_json(member: Option<&Json>) -> (r: Result<Option<Vec<Vec<u8>>>, String>)
    ensures
        match r {
            Ok(targets) => targets_of(optional_view(member)) == Some(
                crate::delegation::targets_view(targets),
            ),
            Err(_) => targets_of(optional_view(member)).is_none(),
        },
{
    match member {
        None => Ok(None),
        Some(Json::Null) => Ok(None),
        Some(Json::Array(items)) => {
            proof {
                lemma_items_view(items@);
            }
            let ghost views = member.unwrap()@->Array_0;
            let mut targets: Vec<Vec<u8>> = Vec::new();
            let mut i: usize = 0;
            while i < items.len()
                invariant
                    i <= items@.len(),
                    optional_view(member) == Some(JsonView::Array(views)),
                    views.len() == items@.len(),
                    forall|j: int| 0 <= j < items@.len() ==> #[trigger] views[j] == items@[j]@,
                    targets@.len() == i,
                    forall|j: int|
                        0 <= j < i ==> byte_string_of(#[trigger] views[j]) == Some(targets@[j]@),
                decreases items@.len() - i,
            {
                match byte_string_from_json(&items[i]) {
                    Ok(target) => {
                        targets.push(target);
                    },
                    Err(reason) => {
                        assert(byte_string_of(views[i as int]).is_none());
                        return Err(reason);
                    },
                }
                i += 1;
            }
            assert(targets_of(optional_view(member)).unwrap().unwrap()
                =~= crate::delegation::targets_view(Some(targets)).unwrap());
            Ok(Some(targets))
        },
        Some(_) => Err(diagnostic("invalid type of `targets`: expected an array")),
    }
}

/// The mathematical form of a member that may be missing.
pub open spec fn optional_view(member: Option<&Json>) -> Option<JsonView> {
    match member {
        Some(json) => Some(json@),
        None => None,
    }
}

impl Delegation {
    /// Reads a delegation from its JSON form.
    pub fn from_json(json: &Json) -> (r: Result<Delegation, String>)
        ensures
            match r {
                Ok(delegation) => delegation_of(json@) == Some(delegation@),
                Err(_) => delegation_of(json@).is_none(),
            },
    {
        let pub_key: String = match json.text_field("pubKey") {
            Some(text) => text.clone(),
            None => {
                return Err(diagnostic("missing member `pubKey` of a delegation: expected a text"));
            },
        };
        let expiration: String = match json.text_field("expiration") {
            Some(text) => text.clone(),
            None => {
                return Err(
                    diagnostic("missing member `expiration` of a delegation: expected a text"),
                );
            },
        };
        let member: Option<&Json> = json.field("targets");
        assert(optional_view(member) == json@.field("targets"@));
        let targets: Option<Vec<Vec<u8>>> = targets_from_json(member)?;
        Ok(Delegation { pub_key, expiration, targets })
    }
}

impl SignedDelegation {
    /// Reads a signed delegation from its JSON form.
    pub fn from_json(json: &Json) -> (r: Result<SignedDelegation, String>)
        ensures
            match r {
                Ok(signed) => signed_delegation_of(json@) == Some(signed@),
                Err(_) => signed_delegation_of(json@).is_none(),
            },
    {
        let inner: &Json = match json.field("delegation") {
            Some(inner) => inner,
            None => {
                return Err(diagnostic("missing member `delegation`"));
            },
        };
        let sig: String = match json.text_field("sig") {
            Some(text) => text.clone(),
            None => {
                return Err(diagnostic("missing member `sig`: expected a text"));
            },
        };
        let delegation: Delegation = Delegation::from_json(inner)?;
        Ok(SignedDelegation { delegation, sig })
    }
}

impl DelegationChain {
    /// Reads a delegation chain from its JSON form.
    pub fn from_json(json: &Json) -> (r: Result<DelegationChain, String>)
        ensures
            match r {
                Ok(chain) => delegation_chain_of(json@) == Some(chain@),
                Err(_) => delegation_chain_of(json@).is_none(),
            },
    {
        let pub_key: String = match json.text_field("pubKey") {
            Some(text) => text.clone(),
            None => {
                return Err(diagnostic("missing member `pubKey` of a chain: expected a text"));
            },
        };
        match json.field("delegations") {
            Some(Json::Array(items)) => {
                proof {
                    lemma_items_view(items@);
                }
                let ghost views = json@.field("delegations"@).unwrap()->Array_0;
                let mut delegations: Vec<SignedDelegation> = Vec::new();
                let mut i: usize = 0;
                while i < items.len()
                    invariant
                        i <= items@.len(),
                        json@.field("delegations"@) == Some(JsonView::Array(views)),
                        views.len() == items@.len(),
                        forall|j: int| 0 <= j < items@.len() ==> #[trigger] views[j] == items@[j]@,
                        delegations@.len() == i,
                        forall|j: int|
                            0 <= j < i ==> signed_delegation_of(#[trigger] views[j]) == Some(
                                delegations@[j]@,
                            ),
                    decreases items@.len() - i,
                {
                    match SignedDelegation::from_json(&items[i]) {
                        Ok(signed) => {
                            delegations.push(signed);
                        },
                        Err(reason) => {
                            assert(signed_delegation_of(views[i as int]).is_none());
                            return Err(reason);
                        },
                    }
                    i += 1;
                }
                let chain = DelegationChain { pub_key, delegations };
                assert(delegation_chain_of(json@).unwrap().delegations =~= chain@.delegations);
                Ok(chain)
            },
            _ => Err(diagnostic("missing member `delegations`: expected an array")),
        }
    }

    /// Reads the chain that the member `delegationChain` holds, if it holds
    /// one.
    pub fn optional_from_json(member: Option<&Json>) -> (r: Result<Option<DelegationChain>, String>)
        ensures
            match r {
                Ok(Some(chain)) => optional_chain_of(optional_view(member)) == Some(Some(chain@)),
                Ok(None) => optional_chain_of(optional_view(member)) == Some(
                    None::<DelegationChainView>,
                ),
                Err(_) => optional_chain_of(optional_view(member)).is_none(),
            },
    {
        match member {
            None => Ok(None),
            Some(Json::Null) => Ok(None),
            Some(json) => {
                let chain: DelegationChain = DelegationChain::from_json(json)?;
                Ok(Some(chain))
            },
        }
    }
}

} // verus!
