//! Flat single-quantity record: one timestamped scalar measurement, as a
//! transmitter-side representation of a bundle entry.

use vstd::prelude::*;

verus! {

/// The quantity a flat record carries.
#[derive(Debug, Copy, Clone, PartialEq, Eq, Structural)]
pub enum ReadoutKind {
    Humidity,
    Temperature,
    Pressure,
}

/// One scalar measurement at one capture time. The value is in hundredths of
/// the quantity's unit for temperatures and tenths for humidity, matching the
/// measurement model's scaling.
#[derive(Debug, Copy, Clone, PartialEq, Eq, Structural)]
pub struct Readout {
    pub when_ms: u64,
    pub kind: ReadoutKind,
    pub value: i32,
}

} // verus!
