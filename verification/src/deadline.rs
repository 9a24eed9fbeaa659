//! The deadline guard: an operation raced against a timer.
//!
//! The guard only stops waiting. It holds no handle to the operation, so it
//! cannot cancel it or clean up after it: what was started stays as it is,
//! and whoever gave up waiting must treat its state as unknown.

use vstd::prelude::*;

verus! {

/// The deadline passed before the operation finished.
#[derive(Clone, Copy, Debug, PartialEq, Eq, Structural)]
pub struct Timeout;

/// When an operation finishes, counted in milliseconds from its start, and
/// what it returns then.
#[derive(Copy, Debug, PartialEq, Eq)]
pub enum Completion<T> {
    /// The operation never finishes.
    Never,
    /// The operation finishes after `elapsed_ms` with `output`.
    After { elapsed_ms: u64, output: T },
}

impl<T: Copy> Clone for Completion<T> {
    fn clone(&self) -> (copy: Self)
        ensures
            copy == *self,
    {
        *self
    }
}

impl<T> Completion<T> {
    /// Whether the operation finishes no later than `deadline_ms`. An
    /// operation that finishes at the very moment the timer fires is in
    /// time: it is looked at first.
    pub open spec fn in_time(self, deadline_ms: u64) -> bool {
        self matches Completion::After { elapsed_ms, .. } && elapsed_ms <= deadline_ms
    }

    /// What the guard returns for the operation.
    pub open spec fn guarded(self, deadline_ms: u64) -> Result<T, Timeout> {
        match self {
            Completion::After { elapsed_ms, output } if elapsed_ms <= deadline_ms => Ok(output),
            _ => Err(Timeout),
        }
    }

    /// How long the guard waits: until the operation finishes or the
    /// deadline passes, whichever comes first.
    pub open spec fn waited(self, deadline_ms: u64) -> u64 {
        match self {
            Completion::After { elapsed_ms, .. } if elapsed_ms <= deadline_ms => elapsed_ms,
            _ => deadline_ms,
        }
    }
}

/// Races an operation against a deadline. An operation that finishes in
/// time hands its output through unchanged, whether that output is a
/// success or the operation's own error; otherwise the result is `Timeout`.
pub fn guard<T>(operation: Completion<T>, deadline_ms: u64) -> (outcome: Result<T, Timeout>)
    ensures
        outcome == operation.guarded(deadline_ms),
        outcome.is_ok() == operation.in_time(deadline_ms),
{
    match operation {
        Completion::After { elapsed_ms, output } => {
            if elapsed_ms <= deadline_ms {
                Ok(output)
            } else {
                Err(Timeout)
            }
        },
        Completion::Never => Err(Timeout),
    }
}

/// The time that the guard takes to return for an operation.
pub fn time_waited<T>(operation: &Completion<T>, deadline_ms: u64) -> (waited: u64)
    ensures
        waited == operation.waited(deadline_ms),
        waited <= deadline_ms,
{
    match operation {
        Completion::After { elapsed_ms, .. } => {
            if *elapsed_ms <= deadline_ms {
                *elapsed_ms
            } else {
                deadline_ms
            }
        },
        Completion::Never => deadline_ms,
    }
}

} // verus!
