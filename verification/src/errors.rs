//! Error taxonomy of the acquisition core.
//!
//! `ProtocolError` covers malformed frames (recoverable: the next poll simply
//! retries), `DriverError` scopes one sensor's failure to that sensor,
//! `PiWeatherError` is the coarse process-facing error of the bus factory,
//! and `TransmitError` reports a delivery failure, which is escalated to the
//! engine's caller rather than retried.

use vstd::prelude::*;

verus! {

/// Validation failure of a wire-protocol decoder. A frame that fails one of
/// these checks is discarded; no driver state is updated.
#[derive(Debug, Copy, Clone, PartialEq, Eq, Structural)]
pub enum ProtocolError {
    /// The leading function/op code byte is not the expected one.
    OpCodeMismatch,
    /// A declared payload length differs from the fixed expected value.
    LengthMismatch,
    /// The two-byte magic header of the particulate frame is wrong.
    BadHeader,
    /// The summed payload bytes do not match the trailing checksum field.
    ChecksumMismatch,
}

/// Failure of one driver's read, scoped to that sensor: the driver stays
/// usable for later calls whichever variant is returned.
#[derive(Debug, Copy, Clone, PartialEq, Eq, Structural)]
pub enum DriverError {
    /// A bus transaction (write or read) failed.
    BusIo,
    /// The frame read from the bus failed decoder validation.
    Protocol(ProtocolError),
}

/// Transport-level failure of a single bus operation, as reported by a bus
/// device implementation.
#[derive(Debug, Copy, Clone, PartialEq, Eq, Structural)]
pub struct BusIoError;

/// Coarse process-facing error. The bus factory reports a missing device
/// resource as `I2CError`, carrying the resource locator.
#[derive(Debug, Clone)]
pub enum PiWeatherError {
    /// A bus device could not be reached; the payload names the resource.
    I2CError(String),
    /// Any other input/output failure, described in the payload.
    Io(String),
}

/// Delivery failure reported by a transmitter; carries the response status
/// code (if any was received) and an optional description.
#[derive(Debug, Clone, PartialEq, Eq)]
pub enum TransmitError {
    HttpTransmitterError(Option<u16>, Option<String>),
}

} // verus!
