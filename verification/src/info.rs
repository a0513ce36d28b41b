//! What the service tells about a site and how it is read from a payload.

use vstd::prelude::*;
use crate::json::{Json, JsonValue};
use crate::listing::{integer_member, member_integer, member_text, text_member, text_of};
use crate::text::{optional_view, texts_view};

verus! {

/// Info about a site.
#[derive(Debug, Clone, PartialEq, Eq)]
pub struct Info {
    pub site_name: String,
    pub hits: i64,
    pub created_at: String,
    pub last_updated: String,
    pub domain: Option<String>,
    pub tags: Vec<String>,
}

/// An `Info` as contracts speak of it.
pub struct InfoView {
    pub site_name: Seq<char>,
    pub hits: i64,
    pub created_at: Seq<char>,
    pub last_updated: Seq<char>,
    pub domain: Option<Seq<char>>,
    pub tags: Seq<Seq<char>>,
}

impl View for Info {
    type V = InfoView;

    open spec fn view(&self) -> InfoView {
        InfoView {
            site_name: self.site_name@,
            hits: self.hits,
            created_at: self.created_at@,
            last_updated: self.last_updated@,
            domain: optional_view(self.domain),
            tags: texts_view(self.tags@),
        }
    }
}

/// The texts of a document that is an array of texts, in its order.
pub open spec fn texts_of(json: JsonValue) -> Option<Seq<Seq<char>>> {
    match json {
        JsonValue::Array(items) => {
            if forall|i: int| 0 <= i < items.len() ==> (#[trigger] text_of(items[i])) is Some {
                Some(Seq::new(items.len(), |i: int| text_of(items[i])->Some_0))
            } else {
                None
            }
        },
        _ => None,
    }
}

/// A member that may be left out: no text where it is absent or null, its
/// text where it is one, and nothing where it is anything else.
pub open spec fn optional_text(member: Option<JsonValue>) -> Option<Option<Seq<char>>> {
    match member {
        None => Some(None),
        Some(JsonValue::Null) => Some(None),
        Some(JsonValue::Text(text)) => Some(Some(text)),
        Some(_) => None,
    }
}

/// The member `name` of `json`, where it is an array of texts.
pub open spec fn texts_member(json: JsonValue, name: Seq<char>) -> Option<Seq<Seq<char>>> {
    match json.member(name) {
        Some(texts) => texts_of(texts),
        None => None,
    }
}

/// The site info that `json` describes: an object with the texts
/// `sitename`, `created_at` and `last_updated`, the integer `hits`, the
/// array of texts `tags`, and `domain`, which may be left out.
pub open spec fn info_of(json: JsonValue) -> Option<InfoView> {
    match (
        text_member(json, "sitename"@),
        integer_member(json, "hits"@),
        text_member(json, "created_at"@),
        text_member(json, "last_updated"@),
        optional_text(json.member("domain"@)),
        texts_member(json, "tags"@),
    ) {
        (
            Some(site_name),
            Some(hits),
            Some(created_at),
            Some(last_updated),
            Some(domain),
            Some(tags),
        ) => Some(InfoView { site_name, hits, created_at, last_updated, domain, tags }),
        _ => None,
    }
}

/// The texts of a document that is an array of texts.
pub fn texts(json: &Json) -> (read: Option<Vec<String>>)
    ensures
        read is Some <==> texts_of(json@) is Some,
        read matches Some(t) ==> texts_of(json@) == Some(texts_view(t@)),
{
    match json {
        Json::Array(items) => {
            let ghost docs = json@->Array_0;
            let mut found: Vec<String> = Vec::new();
            let mut i: usize = 0;
            while i < items.len()
                invariant
                    i <= items.len(),
                    json@ == JsonValue::Array(docs),
                    docs.len() == items@.len(),
                    forall|k: int| 0 <= k < docs.len() ==> docs[k] == (#[trigger] items@[k])@,
                    found@.len() == i,
                    forall|k: int|
                        0 <= k < i ==> text_of(docs[k]) == Some((#[trigger] found@[k])@),
                decreases items.len() - i,
            {
                match &items[i] {
                    Json::Text(text) => found.push(text.clone()),
                    _ => {
                        assert(!(text_of(docs[i as int]) is Some));
                        return None;
                    },
                }
                i += 1;
            }
            assert forall|k: int| 0 <= k < docs.len() implies (#[trigger] text_of(docs[k]))
                == Some(found@[k]@) by {}
            assert(texts_of(json@)->Some_0 =~= texts_view(found@));
            Some(found)
        },
        _ => None,
    }
}

/// A member that may be left out.
fn member_optional_text(json: &Json, name: &str) -> (read: Option<Option<String>>)
    ensures
        read is Some <==> optional_text(json@.member(name@)) is Some,
        read matches Some(text) ==> optional_text(json@.member(name@)) == Some(
            optional_view(text),
        ),
{
    match json.member(name) {
        None => Some(None),
        Some(Json::Null) => Some(None),
        Some(Json::Text(text)) => Some(Some(text.clone())),
        Some(_) => None,
    }
}

/// The member `name` of `json`, where it is an array of texts.
fn member_texts(json: &Json, name: &str) -> (read: Option<Vec<String>>)
    ensures
        read is Some <==> texts_member(json@, name@) is Some,
        read matches Some(t) ==> texts_member(json@, name@) == Some(texts_view(t@)),
{
    match json.member(name) {
        Some(member) => texts(member),
        None => None,
    }
}

/// Reads the info about a site.
pub fn info(json: &Json) -> (read: Option<Info>)
    ensures
        read is Some <==> info_of(json@) is Some,
        read matches Some(i) ==> info_of(json@) == Some(i@),
{
    match (
        member_text(json, "sitename"),
        member_integer(json, "hits"),
        member_text(json, "created_at"),
        member_text(json, "last_updated"),
        member_optional_text(json, "domain"),
        member_texts(json, "tags"),
    ) {
        (
            Some(site_name),
            Some(hits),
            Some(created_at),
            Some(last_updated),
            Some(domain),
            Some(tags),
        ) => Some(Info { site_name, hits, created_at, last_updated, domain, tags }),
        _ => None,
    }
}

} // verus!
