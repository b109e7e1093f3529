//! Errors of the driver and the process exit code that each one maps to.
use crate::status::{State, Status};
use vstd::prelude::*;

verus! {

/// Why a USB transfer failed, as the transport reports it.
#[derive(Debug, Clone, Copy, PartialEq, Eq, Structural)]
pub enum UsbError {
    /// The transfer was cancelled.
    Cancelled,
    /// The device answered with a STALL (EPIPE on Linux).
    Stall,
    /// The device went away.
    Disconnected,
    /// Hardware fault or protocol violation.
    Fault,
    /// Any other failure.
    Unknown,
}

/// Everything that can go wrong while talking to a DFU device.
#[derive(Debug, Clone)]
pub enum Error {
    DeviceNotFound(String),
    Argument(String),
    InvalidControlResponse(String),
    InvalidState(Status, State),
    InvalidStatus(Status, u8),
    USB(String, UsbError),
    FileIO(String),
    UnknownCommandByte(u8),
    Address(u32),
    Verify(u32),
    MemoryLayout(String),
}

/// The process exit code for an error.
pub open spec fn exit_code_of(e: Error) -> i32 {
    match e {
        Error::DeviceNotFound(_) => 64,
        Error::Argument(_) => 65,
        Error::USB(_, _) => 66,
        Error::InvalidControlResponse(_) => 68,
        Error::InvalidState(_, _) => 69,
        Error::InvalidStatus(_, _) => 70,
        Error::FileIO(_) => 71,
        Error::UnknownCommandByte(_) => 72,
        Error::Address(_) => 73,
        Error::Verify(_) => 74,
        Error::MemoryLayout(_) => 75,
    }
}

impl Error {
    /// The process exit code for this error.
    pub fn exit_code(&self) -> (r: i32)
        ensures
            r == exit_code_of(*self),
    {
        match self {
            Error::DeviceNotFound(_) => 64,
            Error::Argument(_) => 65,
            Error::USB(_, _) => 66,
            Error::InvalidControlResponse(_) => 68,
            Error::InvalidState(_, _) => 69,
            Error::InvalidStatus(_, _) => 70,
            Error::FileIO(_) => 71,
            Error::UnknownCommandByte(_) => 72,
            Error::Address(_) => 73,
            Error::Verify(_) => 74,
            Error::MemoryLayout(_) => 75,
        }
    }
}

impl From<Error> for i32 {
    fn from(err: Error) -> (r: i32) {
        err.exit_code()
    }
}

impl vstd::std_specs::convert::FromSpecImpl<Error> for i32 {
    open spec fn obeys_from_spec() -> bool {
        true
    }

    open spec fn from_spec(err: Error) -> i32 {
        exit_code_of(err)
    }
}

} // verus!
