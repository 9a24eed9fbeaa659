//! Bring-up core for a cellular-modem microcontroller with a secure and a
//! non-secure domain.
//!
//! The crate holds the decisions of the bring-up as verified code that
//! touches no hardware:
//!
//! * [`perm`]: the permission words of the security unit,
//! * [`layout`]: which RAM regions the shared memory extent covers,
//! * [`grant`]: the register writes that hand RAM and peripherals to the
//!   non-secure domain, and a register bank to apply them to,
//! * [`startup`]: the order of the one-time hardware operations,
//! * [`deadline`]: the race of an operation against a timer,
//! * [`outcome`] and [`fault`]: how a stage and how a session can end,
//! * [`net`]: addresses and the fixed payloads,
//! * [`sequencer`]: the state machine of the network session,
//! * [`replay`]: the session run against a scripted driver.
//!
//! Register writes, interrupts, the modem and the timer are driven by the
//! firmware around this crate, which performs what the crate decides and
//! reports back what came of it.

pub mod deadline;
pub mod fault;
pub mod grant;
pub mod layout;
pub mod net;
pub mod outcome;
pub mod perm;
pub mod replay;
pub mod sequencer;
pub mod startup;
