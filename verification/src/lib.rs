//! Client-side logic for the Neocities HTTP API: the requests that each
//! operation sends and the decoding of the answers that come back.
//!
//! The library sends nothing itself. A [`Neocities`] holds a credential
//! and makes, for each operation, the [`request::ApiRequest`] to send. The
//! caller sends it by the HTTP client of its choice and hands the status
//! and the body of the reply to the function of [`reply`] that belongs to
//! the operation, which returns the operation's result or a
//! [`NeocitiesError`].
//!
//! Every function is verified against its contract; the contracts speak
//! of the views of the values, such as [`request::ApiRequestView`] and
//! [`json::JsonValue`]. Reading JSON text is left to `serde_json`.

pub mod bulk;
pub mod command;
pub mod envelope;
pub mod error;
pub mod info;
pub mod json;
pub mod listing;
pub mod reply;
pub mod request;
pub mod text;

pub use error::NeocitiesError;
pub use info::Info;
pub use listing::ListEntry;
pub use request::Neocities;
