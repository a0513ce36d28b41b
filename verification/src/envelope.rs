//! The envelope that wraps every reply of the API: a `result` member that
//! tells success from error, and beside it the payload or the error's
//! description.

use vstd::prelude::*;
use crate::error::NeocitiesError;
use crate::json::{Json, JsonValue};
use crate::text::same_text;

verus! {

/// A reply of the API, read as far as its envelope.
#[derive(Debug, Clone, PartialEq, Eq)]
pub enum ApiResult<T> {
    Error { error_type: String, message: String },
    Success { data: T },
}

/// An `ApiResult` as contracts speak of it.
pub enum Envelope<T> {
    Error { error_type: Seq<char>, message: Seq<char> },
    Success { data: T },
}

impl<T: View> View for ApiResult<T> {
    type V = Envelope<T::V>;

    open spec fn view(&self) -> Envelope<T::V> {
        match self {
            ApiResult::Error { error_type, message } => Envelope::Error {
                error_type: error_type@,
                message: message@,
            },
            ApiResult::Success { data } => Envelope::Success { data: data@ },
        }
    }
}

impl<T> ApiResult<T> {
    /// The payload of a success, or the error that the service reported.
    pub fn to_result(self) -> (result: Result<T, NeocitiesError>)
        ensures
            match self {
                ApiResult::Success { data } => result == Ok::<T, NeocitiesError>(data),
                ApiResult::Error { error_type, message } => result == Err::<T, NeocitiesError>(
                    NeocitiesError::ApiErr(error_type, message),
                ),
            },
    {
        match self {
            ApiResult::Success { data } => Ok(data),
            ApiResult::Error { error_type, message } => Err(
                NeocitiesError::ApiErr(error_type, message),
            ),
        }
    }
}

/// The names under which a success carries its payload, one per kind of
/// reply.
pub open spec fn payload_names() -> Seq<Seq<char>> {
    seq!["info"@, "files"@, "api_key"@, "message"@]
}

/// The members of `json` that go by one of `names`, in the order of `names`.
pub open spec fn members_under(json: JsonValue, names: Seq<Seq<char>>) -> Seq<JsonValue>
    decreases names.len(),
{
    if names.len() == 0 {
        Seq::empty()
    } else {
        let before = members_under(json, names.drop_last());
        match json.member(names.last()) {
            Some(found) => before.push(found),
            None => before,
        }
    }
}

/// The payload of a success: the one member that goes by a payload name.
/// There is none where no such member is present, or more than one.
pub open spec fn payload_of(json: JsonValue) -> Option<JsonValue> {
    let found = members_under(json, payload_names());
    if found.len() == 1 {
        Some(found[0])
    } else {
        None
    }
}

/// A member that describes an error: its text, the empty text where the
/// member is absent, and nothing where it is present and no text.
pub open spec fn text_or_empty(member: Option<JsonValue>) -> Option<Seq<char>> {
    match member {
        None => Some(Seq::empty()),
        Some(JsonValue::Text(text)) => Some(text),
        Some(_) => None,
    }
}

/// The envelope that `json` is, if it is one: an object whose member
/// `result` is the text `error` or `success`. An error carries `error_type`
/// and `message`, each a text or absent; a success carries its payload.
pub open spec fn envelope_of(json: JsonValue) -> Option<Envelope<JsonValue>> {
    match json.member("result"@) {
        Some(JsonValue::Text(tag)) => {
            if tag == "error"@ {
                match (
                    text_or_empty(json.member("error_type"@)),
                    text_or_empty(json.member("message"@)),
                ) {
                    (Some(error_type), Some(message)) => Some(
                        Envelope::Error { error_type, message },
                    ),
                    _ => None,
                }
            } else if tag == "success"@ {
                match payload_of(json) {
                    Some(data) => Some(Envelope::Success { data }),
                    None => None,
                }
            } else {
                None
            }
        },
        _ => None,
    }
}

/// The payload of a success.
pub fn payload<'a>(json: &'a Json) -> (found: Option<&'a Json>)
    ensures
        found is Some <==> payload_of(json@) is Some,
        found matches Some(data) ==> payload_of(json@) == Some(data@),
{
    let names = ["info", "files", "api_key", "message"];
    let ghost all = payload_names();
    let mut found: Option<&Json> = None;
    let mut i: usize = 0;
    assert(all.take(0) =~= Seq::empty());
    while i < 4
        invariant
            i <= 4,
            all == payload_names(),
            all.len() == 4,
            forall|k: int| 0 <= k < 4 ==> names@[k]@ == all[k],
            members_under(json@, all.take(i as int)).len() <= 1,
            found is Some <==> members_under(json@, all.take(i as int)).len() == 1,
            found matches Some(data) ==> members_under(json@, all.take(i as int))[0] == data@,
        decreases 4 - i,
    {
        assert(all.take(i as int + 1).drop_last() =~= all.take(i as int));
        assert(all.take(i as int + 1).last() == all[i as int]);
        match json.member(names[i]) {
            Some(data) => {
                if found.is_some() {
                    proof {
                        lemma_members_under_grows(json@, all.take(i as int + 1), all);
                    }
                    return None;
                }
                found = Some(data);
            },
            None => {},
        }
        i += 1;
    }
    assert(all.take(4) =~= all);
    found
}

/// Looking under more names finds no fewer members.
proof fn lemma_members_under_grows(json: JsonValue, some: Seq<Seq<char>>, all: Seq<Seq<char>>)
    requires
        some.len() <= all.len(),
        some =~= all.take(some.len() as int),
    ensures
        members_under(json, some).len() <= members_under(json, all).len(),
    decreases all.len() - some.len(),
{
    if some.len() < all.len() {
        let next = all.take((some.len() + 1) as int);
        assert(next.drop_last() =~= some);
        lemma_members_under_grows(json, next, all);
    } else {
        assert(some =~= all);
    }
}

/// A member that describes an error.
fn error_text(json: &Json, name: &str) -> (text: Option<String>)
    ensures
        text is Some <==> text_or_empty(json@.member(name@)) is Some,
        text matches Some(t) ==> text_or_empty(json@.member(name@)) == Some(t@),
{
    match json.member(name) {
        None => Some(String::new()),
        Some(Json::Text(text)) => Some(text.clone()),
        Some(_) => None,
    }
}

/// Reads `json` as an envelope; the payload of a success stays a document.
pub fn envelope<'a>(json: &'a Json) -> (read: Option<ApiResult<&'a Json>>)
    ensures
        read is Some <==> envelope_of(json@) is Some,
        read matches Some(result) ==> envelope_of(json@) == Some(result@),
{
    match json.member("result") {
        Some(Json::Text(tag)) => {
            if same_text(tag.as_str(), "error") {
                match (error_text(json, "error_type"), error_text(json, "message")) {
                    (Some(error_type), Some(message)) => Some(
                        ApiResult::Error { error_type, message },
                    ),
                    _ => None,
                }
            } else if same_text(tag.as_str(), "success") {
                match payload(json) {
                    Some(data) => Some(ApiResult::Success { data }),
                    None => None,
                }
            } else {
                None
            }
        },
        _ => None,
    }
}

/// Whether `json` holds a payload under exactly one payload name: `data`
/// under the name at `at`, and nothing under the others.
pub open spec fn holds_one_payload(json: JsonValue, at: int, data: JsonValue) -> bool {
    &&& 0 <= at < payload_names().len()
    &&& json.member(payload_names()[at]) == Some(data)
    &&& forall|k: int|
        0 <= k < payload_names().len() && k != at ==> json.member(#[trigger] payload_names()[k])
            is None
}

/// A document that says `success` and holds a payload under exactly one
/// payload name is a success with that payload, wherever its members
/// stand.
pub proof fn lemma_one_payload_is_the_payload(json: JsonValue, at: int, data: JsonValue)
    requires
        json.member("result"@) == Some(JsonValue::Text("success"@)),
        holds_one_payload(json, at, data),
    ensures
        payload_of(json) == Some(data),
        envelope_of(json) == Some(Envelope::Success { data }),
{
    reveal_strlit("success");
    reveal_strlit("error");
    let names = payload_names();
    assert(names.take(0) =~= Seq::empty());
    assert(names.take(1).drop_last() =~= names.take(0) && names.take(1).last() == names[0]);
    assert(names.take(2).drop_last() =~= names.take(1) && names.take(2).last() == names[1]);
    assert(names.take(3).drop_last() =~= names.take(2) && names.take(3).last() == names[2]);
    assert(names.take(4).drop_last() =~= names.take(3) && names.take(4).last() == names[3]);
    assert(names.take(4) =~= names);
    assert(members_under(json, names.take(0)).len() == 0);
    assert(members_under(json, names.take(1)) =~= if at < 1 {
        seq![data]
    } else {
        Seq::empty()
    });
    assert(members_under(json, names.take(2)) =~= if at < 2 {
        seq![data]
    } else {
        Seq::empty()
    });
    assert(members_under(json, names.take(3)) =~= if at < 3 {
        seq![data]
    } else {
        Seq::empty()
    });
    assert(members_under(json, names.take(4)) =~= seq![data]);
    assert("success"@ != "error"@) by {
        assert("success"@.len() == 7 && "error"@.len() == 5);
    }
}

/// A success carries the same payload under whichever of the payload names
/// it stands: two documents that say `success` and hold the same payload,
/// each under one payload name of its own, are the same envelope.
pub proof fn lemma_payload_name_is_irrelevant(
    one: JsonValue,
    other: JsonValue,
    data: JsonValue,
    first: int,
    second: int,
)
    requires
        one.member("result"@) == Some(JsonValue::Text("success"@)),
        other.member("result"@) == Some(JsonValue::Text("success"@)),
        holds_one_payload(one, first, data),
        holds_one_payload(other, second, data),
    ensures
        envelope_of(one) == Some(Envelope::Success { data }),
        envelope_of(one) == envelope_of(other),
{
    lemma_one_payload_is_the_payload(one, first, data);
    lemma_one_payload_is_the_payload(other, second, data);
}

/// An error that leaves out its kind or its message is still an error:
/// what is left out reads as the empty text. This holds of every object
/// that says `error` and in which each of the two members is a text or
/// absent.
pub proof fn lemma_error_defaults(json: JsonValue)
    requires
        json.member("result"@) == Some(JsonValue::Text("error"@)),
        json.member("error_type"@) is None || json.member("error_type"@)->Some_0 is Text,
        json.member("message"@) is None || json.member("message"@)->Some_0 is Text,
    ensures
        envelope_of(json) == Some(
            Envelope::<JsonValue>::Error {
                error_type: match json.member("error_type"@) {
                    Some(JsonValue::Text(text)) => text,
                    _ => Seq::empty(),
                },
                message: match json.member("message"@) {
                    Some(JsonValue::Text(text)) => text,
                    _ => Seq::empty(),
                },
            },
        ),
{
}

/// A document whose `result` is absent, or is neither the text `success`
/// nor the text `error`, is no envelope.
pub proof fn lemma_unknown_result_is_no_envelope(json: JsonValue)
    requires
        json.member("result"@) != Some(JsonValue::Text("success"@)),
        json.member("result"@) != Some(JsonValue::Text("error"@)),
    ensures
        envelope_of(json) is None,
{
}

} // verus!
