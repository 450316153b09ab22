//! Plain descriptions of one request and one reply of the remote service.
//!
//! The crate never sends anything itself: it says what is to be sent, and
//! reads what came back.

use vstd::prelude::*;

verus! {

/// The JSON body of a request, by operation.
#[derive(Debug, Clone, PartialEq, Eq)]
pub enum RequestBody {
    /// Asks for a new session with a character.
    CreateChat { character_id: String },
    /// Submits one turn into a session.
    TurnCreate { chat_id: String, num_candidates: u8, author_id: String, candidates: Vec<String> },
}

/// One POST request: where it goes, its two headers and its body.
#[derive(Debug, Clone, PartialEq, Eq)]
pub struct HttpRequest {
    pub url: String,
    pub authorization: String,
    pub content_type: String,
    pub body: RequestBody,
}

/// One reply: its status code and its body as text.
#[derive(Debug, Clone, PartialEq, Eq)]
pub struct HttpResponse {
    pub status: u16,
    pub body: String,
}

/// Whether a status code reports success: 200 to 299.
pub open spec fn is_success(status: u16) -> bool {
    200 <= status < 300
}

/// Tells whether a status code reports success.
pub fn status_is_success(status: u16) -> (b: bool)
    ensures
        b == is_success(status),
{
    status >= 200 && status < 300
}

} // verus!
