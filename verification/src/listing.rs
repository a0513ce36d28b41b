//! The entries of a site's listing and how they are read from a payload.

use vstd::prelude::*;
use crate::json::{Json, JsonValue};

verus! {

/// A path and its metadata, as the service lists it.
#[derive(Debug, Clone, PartialEq, Eq)]
pub enum ListEntry {
    File { path: String, size: i64, updated_at: String, sha1_hash: String },
    Directory { path: String, updated_at: String },
}

/// A `ListEntry` as contracts speak of it.
pub enum ListEntryView {
    File { path: Seq<char>, size: i64, updated_at: Seq<char>, sha1_hash: Seq<char> },
    Directory { path: Seq<char>, updated_at: Seq<char> },
}

impl View for ListEntry {
    type V = ListEntryView;

    open spec fn view(&self) -> ListEntryView {
        match self {
            ListEntry::File { path, size, updated_at, sha1_hash } => ListEntryView::File {
                path: path@,
                size: *size,
                updated_at: updated_at@,
                sha1_hash: sha1_hash@,
            },
            ListEntry::Directory { path, updated_at } => ListEntryView::Directory {
                path: path@,
                updated_at: updated_at@,
            },
        }
    }
}

impl ListEntryView {
    /// The path of the entry, file or directory.
    pub open spec fn path(self) -> Seq<char> {
        match self {
            ListEntryView::File { path, .. } => path,
            ListEntryView::Directory { path, .. } => path,
        }
    }
}

/// The views of a listing's entries, in order.
pub open spec fn listing_view(entries: Seq<ListEntry>) -> Seq<ListEntryView> {
    Seq::new(entries.len(), |i: int| entries[i]@)
}

/// The text of a document that is a text.
pub open spec fn text_of(json: JsonValue) -> Option<Seq<char>> {
    match json {
        JsonValue::Text(text) => Some(text),
        _ => None,
    }
}

/// The member `name` of `json`, where it is a text.
pub open spec fn text_member(json: JsonValue, name: Seq<char>) -> Option<Seq<char>> {
    match json.member(name) {
        Some(JsonValue::Text(text)) => Some(text),
        _ => None,
    }
}

/// The member `name` of `json`, where it is an integer.
pub open spec fn integer_member(json: JsonValue, name: Seq<char>) -> Option<i64> {
    match json.member(name) {
        Some(JsonValue::Integer(n)) => Some(n),
        _ => None,
    }
}

/// The entry that `json` describes. The wire carries no tag: an object
/// with the texts `path` and `updated_at` is an entry, and it is a file
/// where it also has an integer `size` and a text `sha1_hash`, a directory
/// where it lacks either.
pub open spec fn entry_of(json: JsonValue) -> Option<ListEntryView> {
    match (text_member(json, "path"@), text_member(json, "updated_at"@)) {
        (Some(path), Some(updated_at)) => match (
            integer_member(json, "size"@),
            text_member(json, "sha1_hash"@),
        ) {
            (Some(size), Some(sha1_hash)) => Some(
                ListEntryView::File { path, size, updated_at, sha1_hash },
            ),
            _ => Some(ListEntryView::Directory { path, updated_at }),
        },
        _ => None,
    }
}

/// The listing that `json` describes: an array of entries, in its order.
/// One item that is no entry spoils the whole.
pub open spec fn listing_of(json: JsonValue) -> Option<Seq<ListEntryView>> {
    match json {
        JsonValue::Array(items) => {
            if forall|i: int| 0 <= i < items.len() ==> (#[trigger] entry_of(items[i])) is Some {
                Some(Seq::new(items.len(), |i: int| entry_of(items[i])->Some_0))
            } else {
                None
            }
        },
        _ => None,
    }
}

/// The text of a document that is a text.
pub fn text(json: &Json) -> (read: Option<String>)
    ensures
        read is Some <==> text_of(json@) is Some,
        read matches Some(t) ==> text_of(json@) == Some(t@),
{
    match json {
        Json::Text(text) => Some(text.clone()),
        _ => None,
    }
}

/// The member `name` of `json`, where it is a text.
pub fn member_text(json: &Json, name: &str) -> (read: Option<String>)
    ensures
        read is Some <==> text_member(json@, name@) is Some,
        read matches Some(t) ==> text_member(json@, name@) == Some(t@),
{
    match json.member(name) {
        Some(Json::Text(text)) => Some(text.clone()),
        _ => None,
    }
}

/// The member `name` of `json`, where it is an integer.
pub fn member_integer(json: &Json, name: &str) -> (read: Option<i64>)
    ensures
        read == integer_member(json@, name@),
{
    match json.member(name) {
        Some(Json::Integer(n)) => Some(*n),
        _ => None,
    }
}

/// Reads one entry of a listing.
pub fn entry(json: &Json) -> (read: Option<ListEntry>)
    ensures
        read is Some <==> entry_of(json@) is Some,
        read matches Some(e) ==> entry_of(json@) == Some(e@),
{
    match (member_text(json, "path"), member_text(json, "updated_at")) {
        (Some(path), Some(updated_at)) => match (
            member_integer(json, "size"),
            member_text(json, "sha1_hash"),
        ) {
            (Some(size), Some(sha1_hash)) => Some(
                ListEntry::File { path, size, updated_at, sha1_hash },
            ),
            _ => Some(ListEntry::Directory { path, updated_at }),
        },
        _ => None,
    }
}

/// Reads a listing: every entry, in the order of the payload.
pub fn listing(json: &Json) -> (read: Option<Vec<ListEntry>>)
    ensures
        read is Some <==> listing_of(json@) is Some,
        read matches Some(entries) ==> listing_of(json@) == Some(listing_view(entries@)),
{
    match json {
        Json::Array(items) => {
            let ghost docs = json@->Array_0;
            let mut entries: Vec<ListEntry> = Vec::new();
            let mut i: usize = 0;
            while i < items.len()
                invariant
                    i <= items.len(),
                    json@ == JsonValue::Array(docs),
                    docs.len() == items@.len(),
                    forall|k: int| 0 <= k < docs.len() ==> docs[k] == (#[trigger] items@[k])@,
                    entries@.len() == i,
                    forall|k: int|
                        0 <= k < i ==> entry_of(docs[k]) == Some((#[trigger] entries@[k])@),
                decreases items.len() - i,
            {
                match entry(&items[i]) {
                    Some(e) => entries.push(e),
                    None => {
                        assert(!(entry_of(docs[i as int]) is Some));
                        return None;
                    },
                }
                i += 1;
            }
            assert forall|k: int| 0 <= k < docs.len() implies (#[trigger] entry_of(
                docs[k],
            )) == Some(entries@[k]@) by {}
            assert(listing_of(json@)->Some_0 =~= listing_view(entries@));
            Some(entries)
        },
        _ => None,
    }
}

} // verus!
