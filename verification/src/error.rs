//! What a wait can end in, besides the value it waited for.

use vstd::prelude::*;

verus! {

/// Why a wait ended without a value.
#[derive(Debug)]
pub enum SituwaitionError<E> {
    /// The check kept failing until the overall timeout was spent. Holds the
    /// failure of the last attempt.
    TimeoutError(E),
    /// One attempt was still running when its time was up.
    CheckTimeoutError,
    /// A check that is evaluated once, without retries, failed.
    ConditionFailed(E),
    /// The engine found its own state broken.
    UnexpectedError(String),
}

/// Why a waiter could not be made.
#[derive(Debug)]
pub enum WaiterCreationError {
    /// The timeout is too short for one full round of checking and pausing.
    InvalidTimeout(String),
    /// The pause between checks is longer than the whole wait.
    InvalidInterval(String),
}

impl Clone for WaiterCreationError {
    fn clone(&self) -> (copy: WaiterCreationError)
        ensures
            copy == *self,
    {
        match self {
            WaiterCreationError::InvalidTimeout(text) => WaiterCreationError::InvalidTimeout(
                text.clone(),
            ),
            WaiterCreationError::InvalidInterval(text) => WaiterCreationError::InvalidInterval(
                text.clone(),
            ),
        }
    }
}

} // verus!
