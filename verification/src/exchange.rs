//! One exchange: find or open the session of the view, then submit the
//! message into it.

use vstd::prelude::*;
use crate::error::ClientError;
use crate::http::{HttpRequest, HttpResponse};
use crate::services::characterai::{
    accepts_create_chat,
    accepts_turn,
    chat_created,
    turn_sent,
    CharacterAiService,
};
use crate::session::{needs_creation, resolved, SessionCache};

verus! {

/// The author under which every turn is submitted: the current user.
pub open spec fn default_author_id() -> Seq<char> {
    "0"@
}

/// Whether `r` is the result of an exchange whose session was resolved as
/// `session`: into an open session the message is submitted, and a failure
/// to open one is handed on as it is, with nothing submitted.
pub open spec fn exchanged<T: FnOnce(HttpRequest) -> Result<HttpResponse, ClientError>>(
    submit: T,
    token: Seq<char>,
    message: Seq<char>,
    session: Result<String, ClientError>,
    r: Result<String, ClientError>,
) -> bool {
    match session {
        Ok(sid) => turn_sent(submit, token, sid@, default_author_id(), message, r),
        Err(e) => r == Err::<String, ClientError>(e),
    }
}

/// Carries out one exchange with a character.
///
/// The session is resolved in `cache`: with one cached, `open_session` is
/// not called; with none, it is called once to send the request that opens a
/// session with `character_id`, and a session so opened is cached. Then
/// `submit` is called once to send `message`, unchanged, into that session
/// under the default author, and the answer of its reply is returned. Where
/// no session could be opened, that failure is returned and the cache stays
/// empty.
pub fn exchange<C, T>(
    cai: &CharacterAiService,
    cache: &mut SessionCache,
    token: &str,
    character_id: &str,
    message: &str,
    open_session: C,
    submit: T,
) -> (r: Result<String, ClientError>)
    where
        C: FnOnce(HttpRequest) -> Result<HttpResponse, ClientError>,
        T: FnOnce(HttpRequest) -> Result<HttpResponse, ClientError>,
    requires
        needs_creation(old(cache)@) ==> accepts_create_chat(open_session, token@, character_id@),
        forall|sid: Seq<char>| #[trigger] accepts_turn(submit, token@, sid, default_author_id(), message@),
    ensures
        exists|session: Result<String, ClientError>|
            #[trigger] resolved(old(cache)@, final(cache)@, session) && (needs_creation(old(cache)@)
                ==> chat_created(open_session, token@, character_id@, session)) && exchanged(
                submit,
                token@,
                message@,
                session,
                r,
            ),
{
    let creator = |cid: &str| -> (created: Result<String, ClientError>)
        requires
            accepts_create_chat(open_session, token@, cid@),
        ensures
            chat_created(open_session, token@, cid@, created),
        { cai.create_chat(token, cid, open_session) };
    let session = cache.resolve(character_id, creator);
    let ghost found = session;
    let r = match session {
        Ok(sid) => {
            assert(accepts_turn(submit, token@, sid@, default_author_id(), message@));
            cai.send_message(token, sid.as_str(), "0", message, submit)
        },
        Err(e) => Err(e),
    };
    assert(resolved(old(cache)@, cache@, found) && exchanged(submit, token@, message@, found, r));
    r
}

} // verus!
