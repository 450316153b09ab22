//! Handing one piece of work and its outcome from start to delivery.
//!
//! A dispatch is idle, then running, then delivered. The work runs while it
//! is running; its outcome is delivered once, after the work has returned,
//! and nothing is delivered before or again.

use vstd::prelude::*;
use crate::error::ClientError;

verus! {

/// The three stages of a dispatch.
#[derive(Debug, Clone, Copy, PartialEq, Eq, Structural)]
pub enum DispatchState {
    Idle,
    Running,
    Delivered,
}

/// Whether a dispatch at this stage can start: only an idle one.
pub open spec fn can_start(stage: DispatchState) -> bool {
    stage == DispatchState::Idle
}

/// Whether a dispatch at this stage can deliver: only a running one.
pub open spec fn can_deliver(stage: DispatchState) -> bool {
    stage == DispatchState::Running
}

/// The stage after an attempt to start.
pub open spec fn after_start(stage: DispatchState) -> DispatchState {
    if can_start(stage) {
        DispatchState::Running
    } else {
        stage
    }
}

/// The stage after an attempt to deliver.
pub open spec fn after_deliver(stage: DispatchState) -> DispatchState {
    if can_deliver(stage) {
        DispatchState::Delivered
    } else {
        stage
    }
}

/// Nothing is delivered before the start, nothing is delivered twice, and a
/// dispatch starts once: after a delivery no further delivery and no start
/// is possible, and after a start no further start.
pub proof fn lemma_delivery_is_single(stage: DispatchState)
    ensures
        !can_deliver(DispatchState::Idle),
        can_deliver(after_start(DispatchState::Idle)),
        !can_start(after_start(stage)),
        !can_deliver(after_deliver(stage)),
        can_deliver(stage) ==> !can_start(after_deliver(stage)),
{
}

/// One dispatch and the stage it has reached.
#[derive(Debug)]
pub struct Dispatch {
    state: DispatchState,
}

impl View for Dispatch {
    type V = DispatchState;

    closed spec fn view(&self) -> DispatchState {
        self.state
    }
}

impl Dispatch {
    /// A dispatch that has not started.
    pub fn new() -> (r: Self)
        ensures
            r@ == DispatchState::Idle,
    {
        Dispatch { state: DispatchState::Idle }
    }

    /// The stage reached.
    pub fn state(&self) -> (r: DispatchState)
        ensures
            r == self@,
    {
        self.state
    }

    /// Starts the dispatch. Only an idle one starts: the result says whether
    /// it did, and any other is left as it is.
    pub fn start(&mut self) -> (started: bool)
        ensures
            started == can_start(old(self)@),
            final(self)@ == after_start(old(self)@),
    {
        match self.state {
            DispatchState::Idle => {
                self.state = DispatchState::Running;
                true
            },
            _ => false,
        }
    }

    /// Delivers the outcome of the work. Only a running dispatch delivers:
    /// `on_done` is then called with the outcome and the dispatch is
    /// delivered. On any other stage `on_done` is not called and nothing
    /// changes. The result says whether the outcome was delivered.
    pub fn deliver<D: FnOnce(Result<String, ClientError>) -> ()>(
        &mut self,
        outcome: Result<String, ClientError>,
        on_done: D,
    ) -> (delivered: bool)
        requires
            can_deliver(old(self)@) ==> on_done.requires((outcome,)),
        ensures
            delivered == can_deliver(old(self)@),
            delivered ==> on_done.ensures((outcome,), ()),
            final(self)@ == after_deliver(old(self)@),
    {
        match self.state {
            DispatchState::Running => {
                on_done(outcome);
                self.state = DispatchState::Delivered;
                true
            },
            _ => false,
        }
    }
}

/// Runs `work` and hands its outcome to `on_done`.
///
/// `on_done` is called once, with what `work` returned, after `work` has
/// returned: whatever `on_done` establishes, it establishes of an outcome
/// of `work`.
pub fn dispatch<W, D>(work: W, on_done: D)
    where
        W: FnOnce() -> Result<String, ClientError>,
        D: FnOnce(Result<String, ClientError>) -> (),
    requires
        work.requires(()),
        forall|outcome: Result<String, ClientError>|
            work.ensures((), outcome) ==> on_done.requires((outcome,)),
    ensures
        exists|outcome: Result<String, ClientError>|
            work.ensures((), outcome) && on_done.ensures((outcome,), ()),
{
    let mut stage = Dispatch::new();
    let started = stage.start();
    let outcome = work();
    let ghost produced = outcome;
    let delivered = stage.deliver(outcome, on_done);
    assert(work.ensures((), produced) && on_done.ensures((produced,), ()));
}

} // verus!
