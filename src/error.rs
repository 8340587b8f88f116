//! Error kinds of an update session.
use vstd::prelude::*;

use crate::planner::PlanError;

verus! {

/// Why a device refuses an operation.
#[derive(Clone, Copy, Debug, PartialEq, Eq, Structural)]
pub enum DeviceError {
    /// A write that does not continue where the previous one stopped, or
    /// with no update started.
    OffsetMismatch,
    /// A write that would carry the update past 32-bit offsets.
    TooLarge,
    /// The device declares that it accepts no bytes in a write.
    ZeroMtu,
}

/// Why an update session stops short of a `Sync`.
#[derive(Clone, Copy, Debug, PartialEq, Eq, Structural)]
pub enum DfuError {
    /// Network or device input/output failed.
    Transport,
    /// A malformed status or command, or one the protocol cannot carry.
    Protocol,
    /// The source could not answer the device's report.
    Planner(PlanError),
    /// The device refused an operation.
    Device(DeviceError),
    /// Reading local files failed.
    Io,
    /// The cloud answered with this non-success HTTP status.
    Http(u16),
}

} // verus!
