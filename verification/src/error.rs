//! The failures an exchange can end in.

use vstd::prelude::*;

verus! {

/// Why a session operation or a secret store operation failed.
#[derive(Debug, Clone, PartialEq, Eq)]
pub enum ClientError {
    /// The remote service answered with a status outside 200..=299; the body
    /// is kept as it was received.
    RemoteRequestFailed { status: u16, body: String },
    /// The status was a success but the body lacks a field the protocol needs.
    MalformedResponse,
    /// The turn was answered, yet no record of the stream held any text.
    EmptyAnswer,
    /// The request could not be carried out at all.
    TransportError(String),
    /// The secret store reported a failure.
    SecretStoreError(String),
}

/// The text of an optional string, as a sequence of characters.
pub open spec fn text_of(value: Option<String>) -> Option<Seq<char>> {
    match value {
        Some(s) => Some(s@),
        None => None,
    }
}

} // verus!
