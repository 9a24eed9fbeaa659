//! The outcome of one stage of the session.

use crate::deadline::Timeout;
use vstd::prelude::*;

verus! {

/// The modem driver reported an error. Which one is of no account here:
/// every driver error ends the session.
#[derive(Clone, Copy, Debug, PartialEq, Eq, Structural)]
pub struct DriverError;

/// How one stage ended. The sequencer consumes it at once, to go on or to
/// give up.
#[derive(Copy, Debug, PartialEq, Eq)]
pub enum StageOutcome<T> {
    /// The stage's operation returned `T`.
    Success(T),
    /// The deadline guard gave up waiting.
    Timeout,
    /// The stage's operation returned an error.
    HardError,
}

impl<T: Copy> Clone for StageOutcome<T> {
    fn clone(&self) -> (copy: Self)
        ensures
            copy == *self,
    {
        *self
    }
}

impl<T> StageOutcome<T> {
    /// The outcome of a stage that the deadline guard wraps.
    pub open spec fn of_guarded(raced: Result<Result<T, DriverError>, Timeout>) -> StageOutcome<T> {
        match raced {
            Ok(Ok(value)) => StageOutcome::Success(value),
            Ok(Err(_)) => StageOutcome::HardError,
            Err(_) => StageOutcome::Timeout,
        }
    }

    /// The outcome of a stage that waits without a deadline.
    pub open spec fn of_driver(returned: Result<T, DriverError>) -> StageOutcome<T> {
        match returned {
            Ok(value) => StageOutcome::Success(value),
            Err(_) => StageOutcome::HardError,
        }
    }

    /// Turns what the deadline guard returned into the stage's outcome.
    pub fn from_guarded(raced: Result<Result<T, DriverError>, Timeout>) -> (outcome: StageOutcome<T>)
        ensures
            outcome == Self::of_guarded(raced),
    {
        match raced {
            Ok(Ok(value)) => StageOutcome::Success(value),
            Ok(Err(_)) => StageOutcome::HardError,
            Err(_) => StageOutcome::Timeout,
        }
    }

    /// Turns what the driver returned into the stage's outcome.
    pub fn from_driver(returned: Result<T, DriverError>) -> (outcome: StageOutcome<T>)
        ensures
            outcome == Self::of_driver(returned),
    {
        match returned {
            Ok(value) => StageOutcome::Success(value),
            Err(_) => StageOutcome::HardError,
        }
    }
}

} // verus!
