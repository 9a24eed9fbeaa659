//! The ways in which the bring-up can fail. Every one of them is fatal: the
//! core never retries and never recovers.

use vstd::prelude::*;

verus! {

/// Why the bring-up stopped.
#[derive(Clone, Copy, Debug, PartialEq, Eq, Structural)]
pub enum Fault {
    /// A register write addressed a region or peripheral that does not exist.
    HardwareFault,
    /// The modem driver reported an error, or answered out of turn.
    DriverError,
    /// A guarded stage did not finish before its deadline.
    Timeout,
}

/// The single observable result of a run.
#[derive(Clone, Copy, Debug, PartialEq, Eq, Structural)]
pub enum Exit {
    /// The session reached its end.
    Success,
    /// The session was abandoned.
    Halted(Fault),
}

} // verus!
