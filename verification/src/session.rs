//! The session cache of one view: at most one session, opened when the first
//! exchange needs it and used again by every later one.
//!
//! A cache is changed through `&mut`, so whoever resolves has it alone for
//! the whole call, the opening of the session included. Callers on several
//! threads share it behind a lock and are served one after the other.

use vstd::prelude::*;
use crate::error::{text_of, ClientError};

verus! {

/// Whether a slot is empty, so that resolving it has to open a session.
pub open spec fn needs_creation(slot: Option<Seq<char>>) -> bool {
    slot is None
}

/// The identifier that a result carries, if it is a success.
pub open spec fn created_id(r: Result<String, ClientError>) -> Option<Seq<char>> {
    match r {
        Ok(s) => Some(s@),
        Err(_) => None,
    }
}

/// What one resolve makes of a slot, given the result it returned: a filled
/// slot stays as it is and its identifier is returned; an empty slot takes
/// the identifier of a success and stays empty after a failure.
pub open spec fn resolved(
    before: Option<Seq<char>>,
    after: Option<Seq<char>>,
    r: Result<String, ClientError>,
) -> bool {
    match before {
        Some(id) => after == before && created_id(r) == Some(id),
        None => after == created_id(r),
    }
}

/// The session of one view, once there is one.
#[derive(Debug)]
pub struct SessionCache {
    slot: Option<String>,
}

impl View for SessionCache {
    type V = Option<Seq<char>>;

    closed spec fn view(&self) -> Option<Seq<char>> {
        text_of(self.slot)
    }
}

impl SessionCache {
    /// A cache with no session.
    pub fn new() -> (r: Self)
        ensures
            r@ is None,
    {
        SessionCache { slot: None }
    }

    /// The identifier of the cached session, if there is one.
    pub fn cached(&self) -> (r: Option<String>)
        ensures
            text_of(r) == self@,
    {
        match &self.slot {
            Some(id) => Some(id.clone()),
            None => None,
        }
    }

    /// Returns the session of this view, opening it first if there is none.
    ///
    /// With a session in the slot the identifier is returned and `creator`
    /// is left alone: nothing is known of what it demands, so it cannot be
    /// called. With an empty slot `creator` is called once, for
    /// `character_id`; its identifier fills the slot, its failure leaves the
    /// slot empty, and either is returned as it came.
    pub fn resolve<F: FnOnce(&str) -> Result<String, ClientError>>(
        &mut self,
        character_id: &str,
        creator: F,
    ) -> (r: Result<String, ClientError>)
        requires
            needs_creation(old(self)@) ==> creator.requires((character_id,)),
        ensures
            resolved(old(self)@, final(self)@, r),
            needs_creation(old(self)@) ==> creator.ensures((character_id,), r),
    {
        if let Some(id) = &self.slot {
            return Ok(id.clone());
        }
        let r = creator(character_id);
        if let Ok(id) = &r {
            self.slot = Some(id.clone());
        }
        r
    }
}

/// Once a resolve has succeeded, the slot is filled: the next resolve on the
/// same cache opens no session, returns the same identifier and leaves the
/// cache as it was.
pub proof fn lemma_session_is_reused(
    start: Option<Seq<char>>,
    middle: Option<Seq<char>>,
    end: Option<Seq<char>>,
    first: Result<String, ClientError>,
    second: Result<String, ClientError>,
)
    requires
        resolved(start, middle, first),
        resolved(middle, end, second),
        first is Ok,
    ensures
        !needs_creation(middle),
        created_id(second) == created_id(first),
        end == middle,
{
}

/// Two callers that meet at an empty slot are served one after the other.
/// Where the first one's session was opened, only that one opened a session,
/// and both hold the same identifier, whichever of them came first.
pub proof fn lemma_racing_resolves_agree(
    middle: Option<Seq<char>>,
    end: Option<Seq<char>>,
    winner: Result<String, ClientError>,
    loser: Result<String, ClientError>,
)
    requires
        resolved(None, middle, winner),
        resolved(middle, end, loser),
        winner is Ok,
    ensures
        needs_creation(None),
        !needs_creation(middle),
        loser is Ok,
        created_id(loser) == created_id(winner),
        end == created_id(winner),
{
}

/// A failure to open a session leaves the slot empty, so that the next
/// resolve tries again.
pub proof fn lemma_failure_leaves_slot_empty(
    after: Option<Seq<char>>,
    r: Result<String, ClientError>,
)
    requires
        resolved(None, after, r),
        r is Err,
    ensures
        needs_creation(after),
{
}

} // verus!
