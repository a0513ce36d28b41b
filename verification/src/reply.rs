//! From the reply to a request, its status and its body, to the result of
//! the operation.

use vstd::prelude::*;
use crate::envelope::{
    envelope, envelope_of, holds_one_payload, lemma_payload_name_is_irrelevant, ApiResult, Envelope,
};
use crate::error::{
    failed_status, is_failed_status, NeocitiesError, NeocitiesErrorView, TransportError,
};
use crate::info::{info, info_of, Info, InfoView};
use crate::json::{document_of_text, Json, JsonValue};
use crate::listing::{listing, listing_of, listing_view, text, text_of, ListEntry, ListEntryView};
use crate::request::Operation;

verus! {

/// The error of a reply that cannot be read.
pub open spec fn undecodable() -> NeocitiesErrorView {
    NeocitiesErrorView::TransportErr(TransportError::Decode)
}

/// Whether `operation` gives a reply up for its status, before any body is
/// looked at.
pub open spec fn gives_up(operation: Operation, status: u16) -> bool {
    failed_status(status) && !operation.reads_failed_reply()
}

/// Whether `operation` gives a reply up for its status, before any body is
/// looked at.
pub fn ends_on_status(operation: Operation, status: u16) -> (ends: bool)
    ensures
        ends == gives_up(operation, status),
{
    is_failed_status(status) && !operation.hears_failed_reply()
}

/// The envelope that a body holds, if it holds one; `parsed` is the
/// document that the body holds, if it holds one.
pub open spec fn envelope_in(parsed: Option<JsonValue>) -> Option<Envelope<JsonValue>> {
    match parsed {
        Some(json) => envelope_of(json),
        None => None,
    }
}

/// The error of a reply whose status reports failure.
pub open spec fn failed(status: u16) -> NeocitiesErrorView {
    NeocitiesErrorView::TransportErr(TransportError::Status(status))
}

/// The payload that a reply to `operation` carries, or how the operation
/// failed. `parsed` is the document that the body holds, if it holds one.
/// - No reply with a failed status carries a payload.
/// - Where the operation gives such a reply up, the status is the error,
///   whatever the body.
/// - Else an error envelope is the error that the service reported, under
///   any status.
/// - Any other body under a failed status leaves the status as the error.
/// - Under a status of success, a body that is no document, or no
///   envelope, cannot be read.
pub open spec fn payload_outcome(
    operation: Operation,
    status: u16,
    parsed: Option<JsonValue>,
) -> Result<JsonValue, NeocitiesErrorView> {
    if gives_up(operation, status) {
        Err(failed(status))
    } else {
        match envelope_in(parsed) {
            Some(Envelope::Error { error_type, message }) => Err(
                NeocitiesErrorView::ApiErr(error_type, message),
            ),
            Some(Envelope::Success { data }) => if failed_status(status) {
                Err(failed(status))
            } else {
                Ok(data)
            },
            None => if failed_status(status) {
                Err(failed(status))
            } else {
                Err(undecodable())
            },
        }
    }
}

/// The result of an operation whose payload is a text.
pub open spec fn text_outcome(operation: Operation, status: u16, parsed: Option<JsonValue>) -> Result<
    Seq<char>,
    NeocitiesErrorView,
> {
    match payload_outcome(operation, status, parsed) {
        Err(error) => Err(error),
        Ok(data) => match text_of(data) {
            Some(text) => Ok(text),
            None => Err(undecodable()),
        },
    }
}

/// The result of `list`.
pub open spec fn list_outcome(status: u16, parsed: Option<JsonValue>) -> Result<
    Seq<ListEntryView>,
    NeocitiesErrorView,
> {
    match payload_outcome(Operation::List, status, parsed) {
        Err(error) => Err(error),
        Ok(data) => match listing_of(data) {
            Some(entries) => Ok(entries),
            None => Err(undecodable()),
        },
    }
}

/// The result of `info`.
pub open spec fn info_outcome(status: u16, parsed: Option<JsonValue>) -> Result<
    InfoView,
    NeocitiesErrorView,
> {
    match payload_outcome(Operation::Info, status, parsed) {
        Err(error) => Err(error),
        Ok(data) => match info_of(data) {
            Some(info) => Ok(info),
            None => Err(undecodable()),
        },
    }
}

/// The document of a body that was read, if it held one.
pub open spec fn document_view(parsed: Option<&Json>) -> Option<JsonValue> {
    match parsed {
        Some(json) => Some(json@),
        None => None,
    }
}

/// The payload that a reply to `operation` carries, given its status and
/// the document read from its body.
pub fn reply_payload<'a>(operation: Operation, status: u16, parsed: Option<&'a Json>) -> (outcome:
    Result<&'a Json, NeocitiesError>)
    ensures
        match payload_outcome(operation, status, document_view(parsed)) {
            Ok(data) => outcome matches Ok(found) && found@ == data,
            Err(error) => outcome matches Err(e) && e@ == error,
        },
{
    if ends_on_status(operation, status) {
        return Err(NeocitiesError::TransportErr(TransportError::Status(status)));
    }
    let read = match parsed {
        Some(json) => envelope(json),
        None => None,
    };
    match read {
        Some(ApiResult::Success { data }) => {
            if is_failed_status(status) {
                Err(NeocitiesError::TransportErr(TransportError::Status(status)))
            } else {
                Ok(data)
            }
        },
        Some(error) => error.to_result(),
        None => {
            if is_failed_status(status) {
                Err(NeocitiesError::TransportErr(TransportError::Status(status)))
            } else {
                Err(NeocitiesError::TransportErr(TransportError::Decode))
            }
        },
    }
}

/// The result of an operation whose payload is a text, given the status
/// of the reply and the document read from its body.
pub fn text_result(operation: Operation, status: u16, parsed: Option<&Json>) -> (outcome: Result<
    String,
    NeocitiesError,
>)
    ensures
        match text_outcome(operation, status, document_view(parsed)) {
            Ok(text) => outcome matches Ok(found) && found@ == text,
            Err(error) => outcome matches Err(e) && e@ == error,
        },
{
    match reply_payload(operation, status, parsed) {
        Err(error) => Err(error),
        Ok(data) => match text(data) {
            Some(found) => Ok(found),
            None => Err(NeocitiesError::TransportErr(TransportError::Decode)),
        },
    }
}

/// The result of `list`, given the status of the reply and the document
/// read from its body.
pub fn list_result(status: u16, parsed: Option<&Json>) -> (outcome: Result<
    Vec<ListEntry>,
    NeocitiesError,
>)
    ensures
        match list_outcome(status, document_view(parsed)) {
            Ok(entries) => outcome matches Ok(found) && listing_view(found@) == entries,
            Err(error) => outcome matches Err(e) && e@ == error,
        },
{
    match reply_payload(Operation::List, status, parsed) {
        Err(error) => Err(error),
        Ok(data) => match listing(data) {
            Some(found) => Ok(found),
            None => Err(NeocitiesError::TransportErr(TransportError::Decode)),
        },
    }
}

/// The result of `info`, given the status of the reply and the document
/// read from its body.
pub fn info_result(status: u16, parsed: Option<&Json>) -> (outcome: Result<Info, NeocitiesError>)
    ensures
        match info_outcome(status, document_view(parsed)) {
            Ok(info) => outcome matches Ok(found) && found@ == info,
            Err(error) => outcome matches Err(e) && e@ == error,
        },
{
    match reply_payload(Operation::Info, status, parsed) {
        Err(error) => Err(error),
        Ok(data) => match info(data) {
            Some(found) => Ok(found),
            None => Err(NeocitiesError::TransportErr(TransportError::Decode)),
        },
    }
}

/// Reads the body of a reply to `operation`, unless the status already
/// ends the operation.
fn read_body(operation: Operation, status: u16, body: &[u8]) -> (parsed: Option<Json>)
    ensures
        gives_up(operation, status) ==> parsed is None,
        !gives_up(operation, status) ==> (parsed is Some <==> document_of_text(body@) is Some),
        !gives_up(operation, status) ==> (parsed matches Some(json) ==> document_of_text(body@)
            == Some(json@)),
{
    if ends_on_status(operation, status) {
        None
    } else {
        Json::parse(body)
    }
}

/// The listing that a reply to `list` brings.
pub fn list_reply(status: u16, body: &[u8]) -> (outcome: Result<Vec<ListEntry>, NeocitiesError>)
    ensures
        match list_outcome(status, document_of_text(body@)) {
            Ok(entries) => outcome matches Ok(found) && listing_view(found@) == entries,
            Err(error) => outcome matches Err(e) && e@ == error,
        },
{
    let parsed = read_body(Operation::List, status, body);
    list_result(status, parsed.as_ref())
}

/// The site info that a reply to `info` brings.
pub fn info_reply(status: u16, body: &[u8]) -> (outcome: Result<Info, NeocitiesError>)
    ensures
        match info_outcome(status, document_of_text(body@)) {
            Ok(info) => outcome matches Ok(found) && found@ == info,
            Err(error) => outcome matches Err(e) && e@ == error,
        },
{
    let parsed = read_body(Operation::Info, status, body);
    info_result(status, parsed.as_ref())
}

/// The text that a reply to `operation` brings: the API key for `key`, the
/// message of the service for `upload` and `delete`.
fn text_reply(operation: Operation, status: u16, body: &[u8]) -> (outcome: Result<
    String,
    NeocitiesError,
>)
    ensures
        match text_outcome(operation, status, document_of_text(body@)) {
            Ok(text) => outcome matches Ok(found) && found@ == text,
            Err(error) => outcome matches Err(e) && e@ == error,
        },
{
    let parsed = read_body(operation, status, body);
    text_result(operation, status, parsed.as_ref())
}

/// The API key that a reply to `key` brings.
pub fn key_reply(status: u16, body: &[u8]) -> (outcome: Result<String, NeocitiesError>)
    ensures
        match text_outcome(Operation::Key, status, document_of_text(body@)) {
            Ok(text) => outcome matches Ok(found) && found@ == text,
            Err(error) => outcome matches Err(e) && e@ == error,
        },
{
    text_reply(Operation::Key, status, body)
}

/// The message of success that a reply to `upload` brings.
pub fn upload_reply(status: u16, body: &[u8]) -> (outcome: Result<String, NeocitiesError>)
    ensures
        match text_outcome(Operation::Upload, status, document_of_text(body@)) {
            Ok(text) => outcome matches Ok(found) && found@ == text,
            Err(error) => outcome matches Err(e) && e@ == error,
        },
{
    text_reply(Operation::Upload, status, body)
}

/// The message of success that a reply to `delete` brings.
pub fn delete_reply(status: u16, body: &[u8]) -> (outcome: Result<String, NeocitiesError>)
    ensures
        match text_outcome(Operation::Delete, status, document_of_text(body@)) {
            Ok(text) => outcome matches Ok(found) && found@ == text,
            Err(error) => outcome matches Err(e) && e@ == error,
        },
{
    text_reply(Operation::Delete, status, body)
}

/// No result depends on the name under which a success carries its
/// payload: two replies that say `success` and hold the same payload, each
/// under one payload name of its own, give every operation the same
/// result, and under a status of success that result rests on the payload.
pub proof fn lemma_payload_name_is_irrelevant_to_results(
    one: JsonValue,
    other: JsonValue,
    data: JsonValue,
    first: int,
    second: int,
    operation: Operation,
    status: u16,
)
    requires
        one.member("result"@) == Some(JsonValue::Text("success"@)),
        other.member("result"@) == Some(JsonValue::Text("success"@)),
        holds_one_payload(one, first, data),
        holds_one_payload(other, second, data),
    ensures
        payload_outcome(operation, status, Some(one)) == payload_outcome(
            operation,
            status,
            Some(other),
        ),
        text_outcome(operation, status, Some(one)) == text_outcome(
            operation,
            status,
            Some(other),
        ),
        list_outcome(status, Some(one)) == list_outcome(status, Some(other)),
        info_outcome(status, Some(one)) == info_outcome(status, Some(other)),
        !failed_status(status) ==> payload_outcome(operation, status, Some(one)) == Ok::<
            JsonValue,
            NeocitiesErrorView,
        >(data),
{
    lemma_payload_name_is_irrelevant(one, other, data, first, second);
}

/// No reply with a failed status yields a value, whatever its body: every
/// operation ends in an error, and in that of the status unless the
/// operation reads such a reply and its body is an error envelope.
pub proof fn lemma_failed_status_never_succeeds(
    operation: Operation,
    status: u16,
    parsed: Option<JsonValue>,
)
    requires
        failed_status(status),
    ensures
        payload_outcome(operation, status, parsed) is Err,
        text_outcome(operation, status, parsed) is Err,
        list_outcome(status, parsed) == Err::<Seq<ListEntryView>, NeocitiesErrorView>(
            failed(status),
        ),
        info_outcome(status, parsed) == Err::<InfoView, NeocitiesErrorView>(failed(status)),
        !(operation.reads_failed_reply() && envelope_in(parsed) matches Some(
            Envelope::Error { .. },
        )) ==> {
            &&& payload_outcome(operation, status, parsed) == Err::<
                JsonValue,
                NeocitiesErrorView,
            >(failed(status))
            &&& text_outcome(operation, status, parsed) == Err::<Seq<char>, NeocitiesErrorView>(
                failed(status),
            )
        },
{
}

/// A reply whose `result` is absent, or is neither `success` nor `error`,
/// never yields a value: every operation ends in a transport error.
pub proof fn lemma_unknown_result_fails(json: JsonValue, operation: Operation, status: u16)
    requires
        json.member("result"@) != Some(JsonValue::Text("success"@)),
        json.member("result"@) != Some(JsonValue::Text("error"@)),
    ensures
        payload_outcome(operation, status, Some(json)) matches Err(
            NeocitiesErrorView::TransportErr(_),
        ),
        text_outcome(operation, status, Some(json)) matches Err(
            NeocitiesErrorView::TransportErr(_),
        ),
        list_outcome(status, Some(json)) matches Err(NeocitiesErrorView::TransportErr(_)),
        info_outcome(status, Some(json)) matches Err(NeocitiesErrorView::TransportErr(_)),
{
}

/// An error that the service reports reaches the caller as that error
/// wherever the body is read: under a status of success for every
/// operation, and under any status for an operation that reads a failed
/// reply.
pub proof fn lemma_reported_error_is_returned(
    json: JsonValue,
    operation: Operation,
    status: u16,
    error_type: Seq<char>,
    message: Seq<char>,
)
    requires
        envelope_of(json) == Some(Envelope::<JsonValue>::Error { error_type, message }),
        !gives_up(operation, status),
    ensures
        payload_outcome(operation, status, Some(json)) == Err::<JsonValue, NeocitiesErrorView>(
            NeocitiesErrorView::ApiErr(error_type, message),
        ),
        text_outcome(operation, status, Some(json)) == Err::<Seq<char>, NeocitiesErrorView>(
            NeocitiesErrorView::ApiErr(error_type, message),
        ),
        !failed_status(status) ==> list_outcome(status, Some(json)) == Err::<
            Seq<ListEntryView>,
            NeocitiesErrorView,
        >(NeocitiesErrorView::ApiErr(error_type, message)),
        !failed_status(status) ==> info_outcome(status, Some(json)) == Err::<
            InfoView,
            NeocitiesErrorView,
        >(NeocitiesErrorView::ApiErr(error_type, message)),
{
}

} // verus!
