//! Error taxonomy of the session subsystem.
//!
//! Action failures are always recoverable for the caller; acquisition
//! failures are fatal to starting a session.

use vstd::prelude::*;

verus! {

/// Failure of a primitive browser action.
#[derive(Clone, Copy, Debug, PartialEq, Eq, Structural)]
pub enum ActionError {
    /// Bad coordinates, bad key names or a malformed direction; the caller
    /// should retry with corrected input.
    InvalidInput,
    /// No session is open; the caller must open one first.
    SessionNotOpen,
    /// The control-protocol call failed; the session stays open and the
    /// caller may retry.
    ProtocolFailure,
    /// The operation is not defined for the selected control protocol.
    UnsupportedOperation,
}

impl ActionError {
    /// A short description of the failure.
    pub fn message(&self) -> (r: &'static str)
        ensures
            *self is InvalidInput ==> r@ == "invalid input"@,
            *self is SessionNotOpen ==> r@ == "browser not opened"@,
            *self is ProtocolFailure ==> r@ == "protocol call failed"@,
            *self is UnsupportedOperation ==> r@ == "operation not supported by this protocol"@,
    {
        match self {
            ActionError::InvalidInput => "invalid input",
            ActionError::SessionNotOpen => "browser not opened",
            ActionError::ProtocolFailure => "protocol call failed",
            ActionError::UnsupportedOperation => "operation not supported by this protocol",
        }
    }
}

/// Failure while acquiring a driver or browser binary.
#[derive(Clone, Copy, Debug, PartialEq, Eq, Structural)]
pub enum AcquireError {
    /// No usable binary was found and downloading is disabled.
    BinaryNotFound,
    /// The target port is already bound by an unrelated process.
    PortInUse,
    /// The launched process never started accepting connections.
    AcquisitionTimeout,
}

impl AcquireError {
    /// A short description of the failure.
    pub fn message(&self) -> (r: &'static str)
        ensures
            *self is BinaryNotFound ==> r@ == "binary not found"@,
            *self is PortInUse ==> r@ == "port already in use"@,
            *self is AcquisitionTimeout ==> r@ == "endpoint failed to become ready"@,
    {
        match self {
            AcquireError::BinaryNotFound => "binary not found",
            AcquireError::PortInUse => "port already in use",
            AcquireError::AcquisitionTimeout => "endpoint failed to become ready",
        }
    }
}

} // verus!
