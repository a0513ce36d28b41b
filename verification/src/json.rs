//! JSON documents as plain values.

use vstd::prelude::*;

verus! {

/// A JSON document as contracts speak of it.
pub enum JsonValue {
    Null,
    Bool(bool),
    /// A number that is an integer in the range of `i64`.
    Integer(i64),
    /// Any other number: one with a fraction or an exponent, or an integer
    /// out of the range of `i64`.
    OtherNumber,
    Text(Seq<char>),
    Array(Seq<JsonValue>),
    /// The members of an object, each a name and a document.
    Object(Seq<(Seq<char>, JsonValue)>),
}

/// A JSON document.
#[derive(Debug, PartialEq, Eq)]
pub enum Json {
    Null,
    Bool(bool),
    /// A number that is an integer in the range of `i64`.
    Integer(i64),
    /// Any other number: one with a fraction or an exponent, or an integer
    /// out of the range of `i64`.
    OtherNumber,
    Text(String),
    Array(Vec<Json>),
    /// The members of an object, each a name and a document.
    Object(Vec<(String, Json)>),
}

impl View for Json {
    type V = JsonValue;

    open spec fn view(&self) -> JsonValue {
        document(*self)
    }
}

/// The document that `json` stands for.
pub open spec fn document(json: Json) -> JsonValue
    decreases json,
{
    match json {
        Json::Null => JsonValue::Null,
        Json::Bool(b) => JsonValue::Bool(b),
        Json::Integer(n) => JsonValue::Integer(n),
        Json::OtherNumber => JsonValue::OtherNumber,
        Json::Text(s) => JsonValue::Text(s@),
        Json::Array(items) => JsonValue::Array(
            Seq::new(
                items@.len(),
                |i: int|
                    if 0 <= i < items@.len() {
                        document(items@[i])
                    } else {
                        JsonValue::Null
                    },
            ),
        ),
        Json::Object(members) => JsonValue::Object(
            Seq::new(
                members@.len(),
                |i: int|
                    if 0 <= i < members@.len() {
                        (members@[i].0@, document(members@[i].1))
                    } else {
                        (Seq::empty(), JsonValue::Null)
                    },
            ),
        ),
    }
}

impl JsonValue {
    /// The member of an object that goes by `name`: the first one, where
    /// several do. A document that is no object has no members.
    pub open spec fn member(self, name: Seq<char>) -> Option<JsonValue> {
        match self {
            JsonValue::Object(members) => first_member(members, name),
            _ => None,
        }
    }
}

/// The document of the first of `members` whose name is `name`.
pub open spec fn first_member(members: Seq<(Seq<char>, JsonValue)>, name: Seq<char>) -> Option<
    JsonValue,
>
    decreases members.len(),
{
    if members.len() == 0 {
        None
    } else if members[0].0 == name {
        Some(members[0].1)
    } else {
        first_member(members.drop_first(), name)
    }
}

/// The tree of plain values that a `serde_json::Value` holds.
pub uninterp spec fn value_document(value: serde_json::Value) -> JsonValue;

/// What `serde_json` reads out of `text`: the document, or `None` where
/// `text` is not one JSON document.
pub uninterp spec fn document_of_text(text: Seq<u8>) -> Option<JsonValue>;

/// `serde_json::Value`, opaque to the verifier.
#[verifier::external_type_specification]
#[verifier::external_body]
pub struct ExValue(serde_json::Value);

/// `serde_json::Error`, opaque to the verifier.
#[verifier::external_type_specification]
#[verifier::external_body]
pub struct ExError(serde_json::Error);

/// `serde_json::from_slice` at the type `serde_json::Value`. Trusted: the
/// outcome is a function of the bytes alone, so it has a name; nothing is
/// claimed of which texts are accepted.
#[verifier::external_body]
fn read_value(text: &[u8]) -> (read: Result<serde_json::Value, serde_json::Error>)
    ensures
        read is Ok <==> document_of_text(text@) is Some,
        read matches Ok(value) ==> document_of_text(text@) == Some(value_document(value)),
{
    serde_json::from_slice::<serde_json::Value>(text)
}

/// Copies a `serde_json::Value` into a `Json`, variant by variant; a number
/// goes through `serde_json::Number::as_i64`, and the members of an object
/// come in the order in which `serde_json::Map::iter` yields them. Trusted:
/// the copy shows what the value holds.
#[verifier::external_body]
fn copy_value(value: &serde_json::Value) -> (json: Json)
    ensures
        json@ == value_document(*value),
{
    match value {
        serde_json::Value::Null => Json::Null,
        serde_json::Value::Bool(b) => Json::Bool(*b),
        serde_json::Value::Number(n) => n.as_i64().map_or(Json::OtherNumber, Json::Integer),
        serde_json::Value::String(s) => Json::Text(s.clone()),
        serde_json::Value::Array(items) => Json::Array(items.iter().map(copy_value).collect()),
        serde_json::Value::Object(members) => Json::Object(
            members.iter().map(|(name, member)| (name.clone(), copy_value(member))).collect(),
        ),
    }
}

impl Json {
    /// Reads one JSON document from `text`.
    pub fn parse(text: &[u8]) -> (parsed: Option<Json>)
        ensures
            parsed is Some <==> document_of_text(text@) is Some,
            parsed matches Some(json) ==> document_of_text(text@) == Some(json@),
    {
        match read_value(text) {
            Ok(value) => Some(copy_value(&value)),
            Err(_) => None,
        }
    }

    /// The member of an object that goes by `name`.
    pub fn member(&self, name: &str) -> (found: Option<&Json>)
        ensures
            found is Some <==> self@.member(name@) is Some,
            found matches Some(json) ==> self@.member(name@) == Some(json@),
    {
        match self {
            Json::Object(members) => {
                let ghost all = self@->Object_0;
                assert(all.skip(0) =~= all);
                let mut i: usize = 0;
                while i < members.len()
                    invariant
                        i <= members.len(),
                        all.len() == members@.len(),
                        self@ == JsonValue::Object(all),
                        forall|k: int|
                            0 <= k < all.len() ==> all[k] == (
                                members@[k].0@,
                                (#[trigger] members@[k]).1@,
                            ),
                        first_member(all, name@) == first_member(all.skip(i as int), name@),
                    decreases members.len() - i,
                {
                    assert(all.skip(i as int).drop_first() =~= all.skip(i as int + 1));
                    assert(all.skip(i as int)[0] == all[i as int]);
                    if crate::text::same_text(members[i].0.as_str(), name) {
                        return Some(&members[i].1);
                    }
                    i += 1;
                }
                assert(all.skip(i as int).len() == 0);
                None
            },
            _ => None,
        }
    }
}

} // verus!
