//! The rules of the persistence layer: when a backend takes a record, what
//! the fan-out makes of its two backends' answers, under which key the latest
//! state of an entity is kept, and what becomes of a message from the bus.

pub mod consumer;
pub mod duplicater;
pub mod latest_state;
pub mod lifecycle;
pub mod metrics;
pub mod pile_of_files;

use vstd::prelude::*;

verus! {

/// Why a record was not stored.
#[derive(Debug, Clone)]
pub enum PersistenceError {
    /// The backend is shutting down.
    /// No new records will be accepted.
    ShuttingDown,
    /// Unknown error.
    Unknown(String),
    /// The database behind the backend refused the record.
    DatabaseError(String),
    /// A backend behind the fan-out went away without an answer. The record
    /// may or may not have been stored.
    DuplicaterSenderDropped,
}

} // verus!
