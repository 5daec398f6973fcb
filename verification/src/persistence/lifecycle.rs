//! The life of a backend: set up once, then ready, then shut down.

use crate::persistence::PersistenceError;
use vstd::prelude::*;

verus! {

/// Where a backend stands in its life.
#[derive(Clone, Copy, Debug, PartialEq, Eq, Structural)]
pub enum BackendState {
    /// Not set up yet: nothing may be submitted.
    Uninitialized,
    /// Set up and taking records.
    Ready,
    /// No longer taking records; what was taken before is still being stored.
    ShuttingDown,
    /// All that was taken is stored.
    Closed,
}

impl BackendState {
    /// The state after setting up. Setting up twice is as good as once, and a
    /// backend that was shut down stays so.
    pub open spec fn after_init(self) -> BackendState {
        match self {
            BackendState::Uninitialized => BackendState::Ready,
            other => other,
        }
    }

    /// The state after shutdown was asked for.
    pub open spec fn after_shutdown_begins(self) -> BackendState {
        match self {
            BackendState::Closed => BackendState::Closed,
            _ => BackendState::ShuttingDown,
        }
    }

    /// The state after the last record in flight was stored.
    pub open spec fn after_shutdown_ends(self) -> BackendState {
        match self {
            BackendState::ShuttingDown => BackendState::Closed,
            other => other,
        }
    }

    /// Whether a record submitted now is taken.
    pub open spec fn accepts(self) -> bool {
        self == BackendState::Ready
    }

    /// A backend before its setup.
    pub fn new() -> (state: BackendState)
        ensures
            state == BackendState::Uninitialized,
    {
        BackendState::Uninitialized
    }

    /// Set the backend up.
    pub fn init(&mut self)
        ensures
            *final(self) == old(self).after_init(),
    {
        if let BackendState::Uninitialized = *self {
            *self = BackendState::Ready;
        }
    }

    /// Stop taking records.
    pub fn begin_shutdown(&mut self)
        ensures
            *final(self) == old(self).after_shutdown_begins(),
            !final(self).accepts(),
    {
        match *self {
            BackendState::Closed => {},
            _ => {
                *self = BackendState::ShuttingDown;
            },
        }
    }

    /// Note that all records in flight are stored.
    pub fn finish_shutdown(&mut self)
        ensures
            *final(self) == old(self).after_shutdown_ends(),
    {
        if let BackendState::ShuttingDown = *self {
            *self = BackendState::Closed;
        }
    }

    /// Decide on a submission: a backend that is shutting down or closed
    /// refuses it at once. Setup comes before the first submission.
    pub fn gate(&self) -> (res: Result<(), PersistenceError>)
        requires
            *self != BackendState::Uninitialized,
        ensures
            res is Ok <==> self.accepts(),
            res matches Err(e) ==> e is ShuttingDown,
    {
        match *self {
            BackendState::Ready => Ok(()),
            _ => Err(PersistenceError::ShuttingDown),
        }
    }
}

/// Once shutdown was asked for, no later setup, shutdown or end of shutdown
/// makes the backend take records again.
pub proof fn lemma_shutdown_is_final(state: BackendState)
    requires
        !state.accepts(),
        state != BackendState::Uninitialized,
    ensures
        !state.after_init().accepts(),
        !state.after_shutdown_begins().accepts(),
        !state.after_shutdown_ends().accepts(),
        state.after_init() != BackendState::Uninitialized,
        state.after_shutdown_begins() != BackendState::Uninitialized,
        state.after_shutdown_ends() != BackendState::Uninitialized,
{
}

} // verus!
