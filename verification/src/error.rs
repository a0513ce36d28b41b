//! The errors that an operation can end in.

use vstd::prelude::*;
use vstd::string::StringExecFns;
use crate::text::{decimal, decimal_of};

verus! {

/// Why a reply could not be turned into a result.
#[derive(Debug, Clone, Copy, PartialEq, Eq, Structural)]
pub enum TransportError {
    /// The HTTP status is not one of success.
    Status(u16),
    /// The body is not a reply of the shape the API promises.
    Decode,
}

/// How an operation fails.
#[derive(Debug, Clone, PartialEq, Eq)]
pub enum NeocitiesError {
    /// The service understood the request and refused it: the kind of the
    /// refusal, then its message.
    ApiErr(String, String),
    /// The reply could not be used.
    TransportErr(TransportError),
}

/// A `NeocitiesError` as contracts speak of it.
pub enum NeocitiesErrorView {
    ApiErr(Seq<char>, Seq<char>),
    TransportErr(TransportError),
}

impl View for NeocitiesError {
    type V = NeocitiesErrorView;

    open spec fn view(&self) -> NeocitiesErrorView {
        match self {
            NeocitiesError::ApiErr(kind, message) => NeocitiesErrorView::ApiErr(kind@, message@),
            NeocitiesError::TransportErr(e) => NeocitiesErrorView::TransportErr(*e),
        }
    }
}

/// What an error says of itself in one line.
pub open spec fn message_of(error: NeocitiesErrorView) -> Seq<char> {
    match error {
        NeocitiesErrorView::ApiErr(kind, message) => "API returned error `"@ + kind
            + "` with message `"@ + message + "`"@,
        NeocitiesErrorView::TransportErr(TransportError::Status(status)) => "HTTP status "@
            + decimal_of(status as nat),
        NeocitiesErrorView::TransportErr(TransportError::Decode) => "error decoding response body"@,
    }
}

impl NeocitiesError {
    /// What the error says of itself in one line.
    pub fn message(&self) -> (text: String)
        ensures
            text@ == message_of(self@),
    {
        match self {
            NeocitiesError::ApiErr(kind, message) => String::from_str(
                "API returned error `",
            ).concat(kind.as_str()).concat("` with message `").concat(message.as_str()).concat(
                "`",
            ),
            NeocitiesError::TransportErr(TransportError::Status(status)) => String::from_str(
                "HTTP status ",
            ).concat(decimal(*status).as_str()),
            NeocitiesError::TransportErr(TransportError::Decode) => String::from_str(
                "error decoding response body",
            ),
        }
    }
}

/// Whether an HTTP status reports failure: every status does but those of
/// success, 200 to 299.
pub open spec fn failed_status(status: u16) -> bool {
    !(200 <= status <= 299)
}

/// Whether an HTTP status reports failure.
pub fn is_failed_status(status: u16) -> (failed: bool)
    ensures
        failed == failed_status(status),
{
    status < 200 || status > 299
}

} // verus!
