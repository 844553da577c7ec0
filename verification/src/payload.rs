//! Measurement bundle: the fixed-cardinality set of readouts one sensor
//! produces in one acquisition, paired with the capture timestamp.
//!
//! Timestamps are plain milliseconds on the caller's clock; the core never
//! reads a clock itself. A bundle is only ever built complete: a partial
//! read yields "no data yet" upstream, never a short bundle.

use crate::modality::Modality;
use vstd::prelude::*;

verus! {

/// One sensor's readouts from one acquisition, with its capture time in
/// milliseconds. The number of readouts always equals the producing sensor's
/// declared cardinality.
#[derive(Debug, Clone, PartialEq)]
pub struct Payload {
    pub when_ms: u64,
    pub readouts: Vec<Modality>,
}

impl Payload {
    /// Wraps already-captured readouts with their capture time.
    pub fn new(when_ms: u64, readouts: Vec<Modality>) -> (p: Payload)
        ensures
            p.when_ms == when_ms,
            p.readouts@ == readouts@,
    {
        Payload { when_ms, readouts }
    }
}

} // verus!
