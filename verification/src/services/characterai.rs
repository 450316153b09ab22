//! The two operations of the remote service: opening a session with a
//! character, and submitting one turn into a session.

use vstd::prelude::*;
use vstd::utf8::encode_utf8;
use crate::error::ClientError;
use crate::http::{is_success, status_is_success, HttpRequest, HttpResponse, RequestBody};
use crate::json::{json_member, json_parse, json_text, member, parse, text};
use crate::stream::{
    lemma_no_answer_iff_no_line_answers,
    line_answer,
    lines_from,
    reduce_stream,
    stream_answer,
};

verus! {

/// The address that opens a session.
pub open spec fn create_chat_url() -> Seq<char> {
    "https://neo.character.ai/api/v1/chat/create/"@
}

/// The address that takes a turn.
pub open spec fn turn_create_url() -> Seq<char> {
    "https://neo.character.ai/api/v1/chat/turn/create/"@
}

/// The value of the `Authorization` header for a token.
pub open spec fn authorization_of(token: Seq<char>) -> Seq<char> {
    "Token "@ + token
}

/// The value of the `Content-Type` header of both operations.
pub open spec fn json_content_type() -> Seq<char> {
    "application/json"@
}

/// Whether `req` is the request that opens a session with `character_id`.
pub open spec fn is_create_chat_request(
    req: HttpRequest,
    token: Seq<char>,
    character_id: Seq<char>,
) -> bool {
    &&& req.url@ == create_chat_url()
    &&& req.authorization@ == authorization_of(token)
    &&& req.content_type@ == json_content_type()
    &&& req.body matches RequestBody::CreateChat { character_id: c } && c@ == character_id
}

/// Whether `req` is the request that submits `message` into the session
/// `chat_id`: it names one candidate, which holds the message as it is, and
/// asks for one candidate back.
pub open spec fn is_turn_request(
    req: HttpRequest,
    token: Seq<char>,
    chat_id: Seq<char>,
    author_id: Seq<char>,
    message: Seq<char>,
) -> bool {
    &&& req.url@ == turn_create_url()
    &&& req.authorization@ == authorization_of(token)
    &&& req.content_type@ == json_content_type()
    &&& req.body matches RequestBody::TurnCreate { chat_id: c, num_candidates, author_id: a, candidates }
        && c@ == chat_id && num_candidates == 1 && a@ == author_id && candidates@.len() == 1
        && candidates@[0]@ == message
}

/// The session identifier in a parsed reply: the string under `chat`, `chat_id`.
pub open spec fn chat_id_of(value: serde_json::Value) -> Option<Seq<char>> {
    match json_member(value, "chat"@) {
        Some(chat) => match json_member(chat, "chat_id"@) {
            Some(id) => json_text(id),
            None => None,
        },
        None => None,
    }
}

/// The session identifier that a reply body holds, if it holds one.
pub open spec fn session_id_of(body: Seq<u8>) -> Option<Seq<char>> {
    match json_parse(body) {
        Some(value) => chat_id_of(value),
        None => None,
    }
}

/// Whether `r` is what a failed status demands: the status and the body of
/// the reply, unchanged.
pub open spec fn is_remote_failure(resp: HttpResponse, r: Result<String, ClientError>) -> bool {
    r matches Err(ClientError::RemoteRequestFailed { status, body }) && status == resp.status
        && body@ == resp.body@
}

/// Whether `r` is the result of opening a session, given the reply.
pub open spec fn create_chat_reply(resp: HttpResponse, r: Result<String, ClientError>) -> bool {
    if !is_success(resp.status) {
        is_remote_failure(resp, r)
    } else {
        match session_id_of(encode_utf8(resp.body@)) {
            Some(id) => r matches Ok(s) && s@ == id,
            None => r matches Err(ClientError::MalformedResponse),
        }
    }
}

/// Whether `r` is the result of submitting a turn, given the reply.
pub open spec fn turn_reply(resp: HttpResponse, r: Result<String, ClientError>) -> bool {
    if !is_success(resp.status) {
        is_remote_failure(resp, r)
    } else {
        match stream_answer(encode_utf8(resp.body@)) {
            Some(answer) => r matches Ok(s) && s@ == answer,
            None => r matches Err(ClientError::EmptyAnswer),
        }
    }
}

/// Whether `r` is the result of opening a session, given how the request
/// went: a failure to send is handed on as it is.
pub open spec fn create_chat_outcome(
    outcome: Result<HttpResponse, ClientError>,
    r: Result<String, ClientError>,
) -> bool {
    match outcome {
        Ok(resp) => create_chat_reply(resp, r),
        Err(e) => r == Err::<String, ClientError>(e),
    }
}

/// Whether `r` is the result of submitting a turn, given how the request
/// went: a failure to send is handed on as it is.
pub open spec fn turn_outcome(
    outcome: Result<HttpResponse, ClientError>,
    r: Result<String, ClientError>,
) -> bool {
    match outcome {
        Ok(resp) => turn_reply(resp, r),
        Err(e) => r == Err::<String, ClientError>(e),
    }
}

/// A status outside 200..=299 surfaces from either operation as
/// `RemoteRequestFailed`, with that status and the body of the reply.
pub proof fn lemma_failed_status_surfaces(resp: HttpResponse, r: Result<String, ClientError>)
    requires
        !is_success(resp.status),
        create_chat_reply(resp, r) || turn_reply(resp, r),
    ensures
        r matches Err(ClientError::RemoteRequestFailed { status, body }) && status == resp.status
            && body@ == resp.body@,
{
}

/// A stream whose lines carry no text that is not empty makes a successful
/// turn reply an `EmptyAnswer`.
pub proof fn lemma_turn_without_text_is_empty(resp: HttpResponse, r: Result<String, ClientError>)
    requires
        is_success(resp.status),
        turn_reply(resp, r),
        forall|i: int|
            0 <= i < lines_from(encode_utf8(resp.body@), 0).len() ==> (#[trigger] line_answer(
                lines_from(encode_utf8(resp.body@), 0)[i],
            )) is None,
    ensures
        r matches Err(ClientError::EmptyAnswer),
{
    lemma_no_answer_iff_no_line_answers(lines_from(encode_utf8(resp.body@), 0));
}

/// Whether `transport` can be called with the request that opens a session
/// with `character_id`.
pub open spec fn accepts_create_chat<F: FnOnce(HttpRequest) -> Result<HttpResponse, ClientError>>(
    transport: F,
    token: Seq<char>,
    character_id: Seq<char>,
) -> bool {
    forall|req: HttpRequest|
        is_create_chat_request(req, token, character_id) ==> #[trigger] transport.requires((req,))
}

/// Whether `r` is the result of opening a session through `transport`: the
/// request for `character_id` was sent, and `r` is read off what came back.
pub open spec fn chat_created<F: FnOnce(HttpRequest) -> Result<HttpResponse, ClientError>>(
    transport: F,
    token: Seq<char>,
    character_id: Seq<char>,
    r: Result<String, ClientError>,
) -> bool {
    exists|req: HttpRequest, outcome: Result<HttpResponse, ClientError>|
        is_create_chat_request(req, token, character_id) && #[trigger] transport.ensures(
            (req,),
            outcome,
        ) && create_chat_outcome(outcome, r)
}

/// Whether `transport` can be called with the request that submits `message`
/// into the session `chat_id`.
pub open spec fn accepts_turn<F: FnOnce(HttpRequest) -> Result<HttpResponse, ClientError>>(
    transport: F,
    token: Seq<char>,
    chat_id: Seq<char>,
    author_id: Seq<char>,
    message: Seq<char>,
) -> bool {
    forall|req: HttpRequest|
        is_turn_request(req, token, chat_id, author_id, message) ==> #[trigger] transport.requires(
            (req,),
        )
}

/// Whether `r` is the result of submitting a turn through `transport`: the
/// request with `message` was sent, and `r` is read off what came back.
pub open spec fn turn_sent<F: FnOnce(HttpRequest) -> Result<HttpResponse, ClientError>>(
    transport: F,
    token: Seq<char>,
    chat_id: Seq<char>,
    author_id: Seq<char>,
    message: Seq<char>,
    r: Result<String, ClientError>,
) -> bool {
    exists|req: HttpRequest, outcome: Result<HttpResponse, ClientError>|
        is_turn_request(req, token, chat_id, author_id, message) && #[trigger] transport.ensures(
            (req,),
            outcome,
        ) && turn_outcome(outcome, r)
}

/// Talks to the remote chat service. It holds no state.
#[derive(Debug, Clone, Copy)]
pub struct CharacterAiService {}

/// Builds the `Authorization` header value for a token.
fn authorization_header(token: &str) -> (r: String)
    ensures
        r@ == authorization_of(token@),
{
    String::from_str("Token ").concat(token)
}

/// Reads the session identifier out of a parsed reply.
pub fn chat_id_in(value: &serde_json::Value) -> (r: Option<String>)
    ensures
        crate::error::text_of(r) == chat_id_of(*value),
{
    let chat = match member(value, "chat") {
        Some(chat) => chat,
        None => { return None; },
    };
    let id = match member(chat, "chat_id") {
        Some(id) => id,
        None => { return None; },
    };
    match text(id) {
        Some(s) => Some(s.to_owned()),
        None => None,
    }
}

impl CharacterAiService {
    pub fn new() -> (r: Self) {
        CharacterAiService {  }
    }

    /// The request that opens a session with a character.
    pub fn create_chat_request(&self, token: &str, character_id: &str) -> (req: HttpRequest)
        ensures
            is_create_chat_request(req, token@, character_id@),
    {
        HttpRequest {
            url: String::from_str("https://neo.character.ai/api/v1/chat/create/"),
            authorization: authorization_header(token),
            content_type: String::from_str("application/json"),
            body: RequestBody::CreateChat { character_id: character_id.to_owned() },
        }
    }

    /// The request that submits one message into a session.
    pub fn turn_request(&self, token: &str, chat_id: &str, author_id: &str, message: &str) -> (req:
        HttpRequest)
        ensures
            is_turn_request(req, token@, chat_id@, author_id@, message@),
    {
        let mut candidates: Vec<String> = Vec::new();
        candidates.push(message.to_owned());
        HttpRequest {
            url: String::from_str("https://neo.character.ai/api/v1/chat/turn/create/"),
            authorization: authorization_header(token),
            content_type: String::from_str("application/json"),
            body: RequestBody::TurnCreate {
                chat_id: chat_id.to_owned(),
                num_candidates: 1,
                author_id: author_id.to_owned(),
                candidates,
            },
        }
    }

    /// Reads the reply to a request that opens a session. A status outside
    /// 200..=299 gives `RemoteRequestFailed` with that status and the body;
    /// a successful reply gives the session identifier, or
    /// `MalformedResponse` where the body holds none.
    pub fn read_create_chat(&self, resp: HttpResponse) -> (r: Result<String, ClientError>)
        ensures
            create_chat_reply(resp, r),
    {
        if !status_is_success(resp.status) {
            return Err(ClientError::RemoteRequestFailed { status: resp.status, body: resp.body });
        }
        let found = match parse(resp.body.as_str().as_bytes()) {
            Some(value) => chat_id_in(&value),
            None => None,
        };
        match found {
            Some(id) => Ok(id),
            None => Err(ClientError::MalformedResponse),
        }
    }

    /// Reads the reply to a turn. A status outside 200..=299 gives
    /// `RemoteRequestFailed` with that status and the body; a successful
    /// reply gives the answer of its stream, or `EmptyAnswer` where the
    /// stream has none.
    pub fn read_turn(&self, resp: HttpResponse) -> (r: Result<String, ClientError>)
        ensures
            turn_reply(resp, r),
    {
        if !status_is_success(resp.status) {
            return Err(ClientError::RemoteRequestFailed { status: resp.status, body: resp.body });
        }
        reduce_stream(resp.body.as_str().as_bytes())
    }

    /// Opens a session with a character and returns its identifier.
    ///
    /// `transport` sends the request and returns the reply, or the reason
    /// why none came. It is called once, with the request that opens a
    /// session, and the result is read off what it returned.
    pub fn create_chat<F: FnOnce(HttpRequest) -> Result<HttpResponse, ClientError>>(
        &self,
        token: &str,
        character_id: &str,
        transport: F,
    ) -> (r: Result<String, ClientError>)
        requires
            accepts_create_chat(transport, token@, character_id@),
        ensures
            chat_created(transport, token@, character_id@, r),
    {
        let req = self.create_chat_request(token, character_id);
        let ghost sent = req;
        let outcome = transport(req);
        let ghost got = outcome;
        let r = match outcome {
            Ok(resp) => self.read_create_chat(resp),
            Err(e) => Err(e),
        };
        assert(is_create_chat_request(sent, token@, character_id@) && transport.ensures(
            (sent,),
            got,
        ) && create_chat_outcome(got, r));
        r
    }

    /// Submits one message into a session and returns the answer.
    ///
    /// `transport` sends the request and returns the reply, or the reason
    /// why none came. It is called once, with the request that carries the
    /// message unchanged, and the result is read off what it returned.
    pub fn send_message<F: FnOnce(HttpRequest) -> Result<HttpResponse, ClientError>>(
        &self,
        token: &str,
        chat_id: &str,
        author_id: &str,
        message: &str,
        transport: F,
    ) -> (r: Result<String, ClientError>)
        requires
            accepts_turn(transport, token@, chat_id@, author_id@, message@),
        ensures
            turn_sent(transport, token@, chat_id@, author_id@, message@, r),
    {
        let req = self.turn_request(token, chat_id, author_id, message);
        let ghost sent = req;
        let outcome = transport(req);
        let ghost got = outcome;
        let r = match outcome {
            Ok(resp) => self.read_turn(resp),
            Err(e) => Err(e),
        };
        assert(is_turn_request(sent, token@, chat_id@, author_id@, message@) && transport.ensures(
            (sent,),
            got,
        ) && turn_outcome(got, r));
        r
    }
}

impl Default for CharacterAiService {
    fn default() -> (r: Self) {
        CharacterAiService {  }
    }
}

} // verus!
