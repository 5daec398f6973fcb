//! The fan-out: every record goes to two backends, and their two answers
//! become one.

use crate::persistence::PersistenceError;
use vstd::prelude::*;

verus! {

/// What came back from one backend for one record.
#[derive(Debug)]
pub enum Delivery {
    /// The backend went away before it answered.
    Dropped,
    /// The backend answered.
    Answered(Result<(), PersistenceError>),
}

impl Delivery {
    /// The backend answered, and with success.
    pub open spec fn succeeded(self) -> bool {
        match self {
            Delivery::Answered(answer) => answer is Ok,
            Delivery::Dropped => false,
        }
    }
}

/// What the fan-out does with a submission.
#[derive(Clone, Copy, Debug, PartialEq, Eq, Structural)]
pub enum Route {
    /// Refuse the record here, without handing it to either backend.
    RejectLocally,
    /// Hand a copy to each backend.
    ForwardToBoth,
}

/// The one answer that the fan-out gives for the two of its backends.
///
/// It is a success only if both succeeded. Where the first backend failed,
/// the answer is that of the second, whatever it is. Where the first
/// succeeded and the second failed, it is the second's error. A backend that
/// went away gives an error of its own, whatever the other one said.
pub open spec fn combined(first: Delivery, second: Delivery) -> Result<(), PersistenceError> {
    match first {
        Delivery::Dropped => Err(PersistenceError::DuplicaterSenderDropped),
        Delivery::Answered(first_answer) => match second {
            Delivery::Dropped => Err(PersistenceError::DuplicaterSenderDropped),
            Delivery::Answered(second_answer) => match first_answer {
                Ok(_) => match second_answer {
                    Ok(_) => Ok(()),
                    Err(e) => Err(e),
                },
                Err(_) => second_answer,
            },
        },
    }
}

/// Decide on a submission: after shutdown was asked for, records are refused
/// before either backend is bothered.
pub fn route(shutting_down: bool) -> (route: Route)
    ensures
        route == if shutting_down {
            Route::RejectLocally
        } else {
            Route::ForwardToBoth
        },
{
    if shutting_down {
        Route::RejectLocally
    } else {
        Route::ForwardToBoth
    }
}

/// The answer for a record that was refused locally.
pub fn rejection() -> (res: Result<(), PersistenceError>)
    ensures
        res matches Err(e) && e is ShuttingDown,
{
    Err(PersistenceError::ShuttingDown)
}

/// Make one answer of the two backends' answers.
pub fn combine(first: Delivery, second: Delivery) -> (res: Result<(), PersistenceError>)
    ensures
        res == combined(first, second),
{
    match first {
        Delivery::Dropped => Err(PersistenceError::DuplicaterSenderDropped),
        Delivery::Answered(first_answer) => match second {
            Delivery::Dropped => Err(PersistenceError::DuplicaterSenderDropped),
            Delivery::Answered(second_answer) => match first_answer {
                Ok(_) => match second_answer {
                    Ok(_) => Ok(()),
                    Err(e) => Err(e),
                },
                Err(_) => second_answer,
            },
        },
    }
}

/// The fan-out succeeds when both backends answered with success, and only
/// if both answered and the second with success: after an error of the first
/// alone, the answer is still that of the second.
pub proof fn lemma_success_needs_both(first: Delivery, second: Delivery)
    ensures
        combined(first, second) is Ok ==> first is Answered && second.succeeded(),
        first.succeeded() && second.succeeded() ==> combined(first, second) is Ok,
{
}

/// Where the first backend succeeded and the second answered with an error,
/// the fan-out gives the second's error.
pub proof fn lemma_second_error_surfaces(error: PersistenceError)
    ensures
        combined(Delivery::Answered(Ok(())), Delivery::Answered(Err(error))) == Err::<
            (),
            PersistenceError,
        >(error),
{
}

/// A backend that went away shows as such, and as nothing else.
pub proof fn lemma_dropped_is_distinct(first: Delivery, second: Delivery)
    requires
        first is Dropped || second is Dropped,
    ensures
        combined(first, second) matches Err(e) && e is DuplicaterSenderDropped,
{
}

} // verus!
