//! JSON documents as trees of plain values.

use crate::bytes::str_eq;
use vstd::prelude::*;

verus! {

/// A JSON value.
///
/// A number is held as the unsigned 64-bit integer it denotes, or as `None`
/// where it denotes none (a negative number, a fraction). An object is held
/// as the list of its members.
#[derive(Debug)]
pub enum Json {
    Null,
    Bool(bool),
    Number(Option<u64>),
    Text(String),
    Array(Vec<Json>),
    Object(Vec<(String, Json)>),
}

/// The mathematical form of a [`Json`] value.
pub enum JsonView {
    Null,
    Bool(bool),
    Number(Option<u64>),
    Text(Seq<char>),
    Array(Seq<JsonView>),
    Object(Seq<(Seq<char>, JsonView)>),
}

/// The value of the first member called `name` among `members`.
pub open spec fn member(members: Seq<(Seq<char>, JsonView)>, name: Seq<char>) -> Option<JsonView>
    decreases members.len(),
{
    if members.len() == 0 {
        None
    } else if members[0].0 == name {
        Some(members[0].1)
    } else {
        member(members.drop_first(), name)
    }
}

impl JsonView {
    /// The value of the member called `name`, where `self` is an object
    /// that has one.
    pub open spec fn field(self, name: Seq<char>) -> Option<JsonView> {
        match self {
            JsonView::Object(members) => member(members, name),
            _ => None,
        }
    }

    /// The text of the member called `name`, where `self` is an object that
    /// has one and its value is a text.
    pub open spec fn text_field(self, name: Seq<char>) -> Option<Seq<char>> {
        match self.field(name) {
            Some(JsonView::Text(text)) => Some(text),
            _ => None,
        }
    }
}

impl View for Json {
    type V = JsonView;

    open spec fn view(&self) -> JsonView {
        json_view(*self)
    }
}

/// The mathematical form of a JSON value.
pub open spec fn json_view(json: Json) -> JsonView
    decreases json, 0nat,
{
    match json {
        Json::Null => JsonView::Null,
        Json::Bool(b) => JsonView::Bool(b),
        Json::Number(n) => JsonView::Number(n),
        Json::Text(text) => JsonView::Text(text@),
        Json::Array(items) => JsonView::Array(items_view(items@)),
        Json::Object(members) => JsonView::Object(members_view(members@)),
    }
}

/// The mathematical forms of the items of an array, in order.
pub open spec fn items_view(items: Seq<Json>) -> Seq<JsonView>
    decreases items, 1nat,
{
    if items.len() == 0 {
        Seq::empty()
    } else {
        items_view(items.drop_last()).push(json_view(items.last()))
    }
}

/// The names and the mathematical forms of the members of an object, in
/// order.
pub open spec fn members_view(members: Seq<(String, Json)>) -> Seq<(Seq<char>, JsonView)>
    decreases members, 1nat,
{
    if members.len() == 0 {
        Seq::empty()
    } else {
        members_view(members.drop_last()).push(
            (members.last().0@, json_view(members.last().1)),
        )
    }
}

/// `items_view` keeps length and order.
pub proof fn lemma_items_view(items: Seq<Json>)
    ensures
        items_view(items).len() == items.len(),
        forall|i: int| 0 <= i < items.len() ==> #[trigger] items_view(items)[i] == items[i]@,
    decreases items.len(),
{
    if items.len() > 0 {
        lemma_items_view(items.drop_last());
    }
}

/// `members_view` keeps length and order.
pub proof fn lemma_members_view(members: Seq<(String, Json)>)
    ensures
        members_view(members).len() == members.len(),
        forall|i: int|
            0 <= i < members.len() ==> #[trigger] members_view(members)[i] == (
                members[i].0@,
                members[i].1@,
            ),
    decreases members.len(),
{
    if members.len() > 0 {
        lemma_members_view(members.drop_last());
    }
}

/// The document that `bytes` are the JSON text of, or the parser's
/// description of why they are no JSON text.
pub uninterp spec fn json_document(bytes: Seq<u8>) -> Result<JsonView, Seq<char>>;

#[verifier::external_type_specification]
#[verifier::external_body]
pub struct ExJsonValue(serde_json::Value);

/// What a value of the parser holds.
pub uninterp spec fn json_value_view(value: serde_json::Value) -> JsonView;

/// Parses a JSON text into a value of the parser.
///
/// Trusted: calls `serde_json::from_slice` for a `serde_json::Value` and
/// renders the parser's error as text. The contract claims only that the
/// result is a function of the input, which it names [`json_document`].
#[verifier::external_body]
fn json_value_from_slice(bytes: &[u8]) -> (r: Result<serde_json::Value, String>)
    ensures
        match r {
            Ok(value) => json_document(bytes@) == Ok::<JsonView, Seq<char>>(
                json_value_view(value),
            ),
            Err(reason) => json_document(bytes@) == Err::<JsonView, Seq<char>>(reason@),
        },
{
    serde_json::from_slice::<serde_json::Value>(bytes).map_err(|e| e.to_string())
}

/// Moves a value of the parser into a [`Json`] tree, member for member.
///
/// Trusted: tells the six variants of `serde_json::Value` apart, moves
/// their fields, and reads a number with `as_u64`. The contract claims that
/// the tree holds what the value held.
#[verifier::external_body]
fn json_from_value(value: serde_json::Value) -> (r: Json)
    ensures
        r@ == json_value_view(value),
{
    match value {
        serde_json::Value::Null => Json::Null,
        serde_json::Value::Bool(b) => Json::Bool(b),
        serde_json::Value::Number(n) => Json::Number(n.as_u64()),
        serde_json::Value::String(s) => Json::Text(s),
        serde_json::Value::Array(a) => Json::Array(a.into_iter().map(json_from_value).collect()),
        serde_json::Value::Object(m) => Json::Object(
            m.into_iter().map(|(k, v)| (k, json_from_value(v))).collect(),
        ),
    }
}

/// Parses a JSON text.
pub fn parse_json(bytes: &[u8]) -> (r: Result<Json, String>)
    ensures
        match r {
            Ok(json) => json_document(bytes@) == Ok::<JsonView, Seq<char>>(json@),
            Err(reason) => json_document(bytes@) == Err::<JsonView, Seq<char>>(reason@),
        },
{
    match json_value_from_slice(bytes) {
        Ok(value) => Ok(json_from_value(value)),
        Err(reason) => Err(reason),
    }
}

impl Json {
    /// The value of the member called `name`, where `self` is an object
    /// that has one.
    pub fn field<'a>(&'a self, name: &str) -> (r: Option<&'a Json>)
        ensures
            match r {
                Some(value) => self@.field(name@) == Some(value@),
                None => self@.field(name@).is_none(),
            },
    {
        match self {
            Json::Object(members) => {
                let ghost all = self@->Object_0;
                proof {
                    lemma_members_view(members@);
                    assert(all.skip(0) =~= all);
                }
                let mut i: usize = 0;
                while i < members.len()
                    invariant
                        i <= members@.len(),
                        self@ == JsonView::Object(all),
                        all.len() == members@.len(),
                        forall|j: int|
                            0 <= j < members@.len() ==> all[j] == (
                                members@[j].0@,
                                members@[j].1@,
                            ),
                        member(all, name@) == member(all.skip(i as int), name@),
                    decreases members@.len() - i,
                {
                    proof {
                        assert(all.skip(i as int).drop_first() =~= all.skip(i + 1));
                    }
                    if str_eq(members[i].0.as_str(), name) {
                        assert(all.skip(i as int)[0] == all[i as int]);
                        return Some(&members[i].1);
                    }
                    i += 1;
                }
                None
            },
            _ => None,
        }
    }

    /// The text of the member called `name`, where `self` is an object that
    /// has one and its value is a text.
    pub fn text_field<'a>(&'a self, name: &str) -> (r: Option<&'a String>)
        ensures
            match r {
                Some(text) => self@.text_field(name@) == Some(text@),
                None => self@.text_field(name@).is_none(),
            },
    {
        match self.field(name) {
            Some(Json::Text(text)) => Some(text),
            _ => None,
        }
    }
}

} // verus!
