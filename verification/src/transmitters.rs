//! Transmitter boundary: the engine only requires `send(batch)`, and decides
//! nothing about wire format or transport. A recording in-memory transmitter
//! serves the tests; the process wires a real one in at the edge, where the
//! verified status-code rule below decides delivery success.

use crate::errors::TransmitError;
use crate::payload::Payload;
use vstd::prelude::*;

verus! {

/// Delivers one batch of measurement bundles to the collector.
///
/// Nothing is promised of the outcome: delivery depends on the network and
/// the remote end. What is promised is the attempt itself: every
/// implementation carries a record of the batches handed to it, and each
/// call appends exactly the one batch it was given, so a caller's contract
/// can say what was attempted and how often.
pub trait Transmitter: Sized {
    /// Every batch handed to this transmitter so far, oldest first — one
    /// entry per delivery attempt, accepted or refused. Left unspecified by
    /// default: an implementation must define it to meet `send`'s contract.
    open spec fn deliveries(&self) -> Seq<Seq<Payload>> {
        arbitrary()
    }

    /// Attempts to deliver `batch`; a failure is final for this batch
    /// (at-most-once delivery — the engine does not retry it).
    fn send(&mut self, batch: &Vec<Payload>) -> (r: Result<(), TransmitError>)
        ensures
            final(self).deliveries() == old(self).deliveries().push(batch@),
    ;
}

/// In-memory transmitter that records every batch handed to it, and can be
/// set to refuse delivery, for exercising the engine's escalation policy.
/// The runtime record `sent` (accepted batches) is what the tests inspect;
/// the spec-level record `attempts` pins, batch by batch, exactly which
/// bundles were handed over.
pub struct MockTransmitter {
    /// Every accepted batch so far, in order (runtime record).
    pub sent: Vec<Vec<Payload>>,
    /// Every batch handed over so far, accepted or refused, in order.
    pub attempts: Ghost<Seq<Seq<Payload>>>,
    /// When set, every delivery fails.
    pub fail: bool,
}

impl MockTransmitter {
    /// A transmitter that accepts and records every batch.
    pub fn new() -> (t: MockTransmitter)
        ensures
            t.sent@.len() == 0,
            t.attempts@ == Seq::<Seq<Payload>>::empty(),
            !t.fail,
    {
        MockTransmitter { sent: Vec::new(), attempts: Ghost(Seq::empty()), fail: false }
    }

    /// A transmitter that refuses every batch.
    pub fn failing() -> (t: MockTransmitter)
        ensures
            t.sent@.len() == 0,
            t.attempts@ == Seq::<Seq<Payload>>::empty(),
            t.fail,
    {
        MockTransmitter { sent: Vec::new(), attempts: Ghost(Seq::empty()), fail: true }
    }
}

impl Transmitter for MockTransmitter {
    open spec fn deliveries(&self) -> Seq<Seq<Payload>> {
        self.attempts@
    }

    fn send(&mut self, batch: &Vec<Payload>) -> (r: Result<(), TransmitError>)
        ensures
            final(self).fail == old(self).fail,
            r is Err <==> old(self).fail,
            old(self).fail ==> final(self).sent == old(self).sent,
            !old(self).fail ==> final(self).sent@.len() == old(self).sent@.len() + 1,
    {
        proof {
            self.attempts@ = self.attempts@.push(batch@);
        }
        if self.fail {
            Err(TransmitError::HttpTransmitterError(None, None))
        } else {
            self.sent.push(batch.clone());
            Ok(())
        }
    }
}

/// The delivery verdict for an HTTP response status: any 2xx status is
/// success; anything else is a delivery failure carrying that status.
pub fn transmit_status_outcome(status: u16) -> (r: Result<(), TransmitError>)
    ensures
        r is Ok <==> 200 <= status < 300,
        r matches Err(e) ==> e == TransmitError::HttpTransmitterError(Some(status), None),
{
    if 200 <= status && status < 300 {
        Ok(())
    } else {
        Err(TransmitError::HttpTransmitterError(Some(status), None))
    }
}

} // verus!
