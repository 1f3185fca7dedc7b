//! Immediate acknowledgement of Enter: a send that waits for its first redraw.
//!
//! Enter arms a `PendingUserDispatch` and clears the composer, so that one frame can be
//! painted before the message is prepared.
use std::time::Instant;

use vstd::prelude::*;

use crate::dispatch::{same_message, QueuedMessage};

verus! {

/// Status text shown while a deferred send waits for its first redraw.
pub const PREPARING_MESSAGE_STATUS: &'static str = "Preparing message…";

#[derive(Debug, Clone, Copy, PartialEq, Eq, Structural)]
pub enum PendingDispatchState {
    /// Armed at Enter; waits for the first draw.
    Preparing,
    /// The first frame has been painted; the message may be prepared.
    ReadyToDispatch,
    /// The coordinator prepares the message and has the engine accept it.
    AwaitingEngine,
}

/// A pending send. It lives in the user interface only and is never persisted as a turn.
#[derive(Debug)]
pub struct PendingUserDispatch {
    /// Stable id by which a late result is matched.
    pub id: String,
    pub message: QueuedMessage,
    pub created_at: Instant,
    pub state: PendingDispatchState,
    /// Session generation when the send was armed; stale results are dropped.
    pub generation: u64,
    /// An edit was undone locally, and the session still has to be synchronised.
    pub needs_edit_sync: bool,
}

impl Clone for PendingUserDispatch {
    fn clone(&self) -> (copy: Self)
        ensures
            same_message(copy.message, self.message),
            copy == (PendingUserDispatch { message: copy.message, ..*self }),
    {
        PendingUserDispatch {
            id: self.id.clone(),
            message: self.message.clone(),
            created_at: self.created_at,
            state: self.state,
            generation: self.generation,
            needs_edit_sync: self.needs_edit_sync,
        }
    }
}

impl PendingUserDispatch {
    /// The text of the message.
    pub fn display(&self) -> (text: &str)
        ensures
            text@ == self.message.display@,
    {
        self.message.display.as_str()
    }

    /// Whether the message may be prepared.
    pub fn is_ready(&self) -> (ready: bool)
        ensures
            ready == (self.state == PendingDispatchState::ReadyToDispatch),
    {
        matches!(self.state, PendingDispatchState::ReadyToDispatch)
    }

    /// Whether the coordinator has the message.
    pub fn is_awaiting_engine(&self) -> (awaiting: bool)
        ensures
            awaiting == (self.state == PendingDispatchState::AwaitingEngine),
    {
        matches!(self.state, PendingDispatchState::AwaitingEngine)
    }

    /// The state after a redraw: only a send that is still preparing becomes ready.
    pub open spec fn redrawn(self) -> PendingUserDispatch {
        if self.state == PendingDispatchState::Preparing {
            PendingUserDispatch { state: PendingDispatchState::ReadyToDispatch, ..self }
        } else {
            self
        }
    }

    /// Notes that a frame has been painted.
    pub fn mark_redrawn(&mut self)
        ensures
            *final(self) == old(self).redrawn(),
    {
        if matches!(self.state, PendingDispatchState::Preparing) {
            self.state = PendingDispatchState::ReadyToDispatch;
        }
    }

    /// Notes that the coordinator has the message.
    pub fn mark_awaiting_engine(&mut self)
        ensures
            *final(self) == (PendingUserDispatch {
                state: PendingDispatchState::AwaitingEngine,
                ..*old(self)
            }),
    {
        self.state = PendingDispatchState::AwaitingEngine;
    }
}

/// Law: after a redraw a send is ready, unless the coordinator has it already: then it stays
/// there. A second redraw changes nothing.
pub proof fn law_redraw_makes_ready(pending: PendingUserDispatch)
    ensures
        pending.redrawn().state == PendingDispatchState::ReadyToDispatch <==> pending.state
            != PendingDispatchState::AwaitingEngine,
        pending.state == PendingDispatchState::AwaitingEngine ==> pending.redrawn() == pending,
        pending.redrawn().redrawn() == pending.redrawn(),
{
}

/// Law: a redraw changes nothing of a send but where it stands.
pub proof fn law_redraw_keeps_the_send(pending: PendingUserDispatch)
    ensures
        pending.redrawn().id == pending.id,
        pending.redrawn().message == pending.message,
        pending.redrawn().created_at == pending.created_at,
        pending.redrawn().generation == pending.generation,
        pending.redrawn().needs_edit_sync == pending.needs_edit_sync,
{
}

} // verus!
