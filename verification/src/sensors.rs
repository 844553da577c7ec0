//! Sensor drivers, one per sensor model, and the homogeneous sensor type the
//! engine polls. Each driver owns one bus device and turns raw frames into
//! normalized measurement bundles.

pub mod am2315;
pub mod pmsa003;

use crate::bus::spec_log_grew_by_read;
use crate::bus::BusDevice;
use crate::errors::DriverError;
use crate::errors::ProtocolError;
use crate::payload::Payload;
use am2315::spec_am2315_modality;
use am2315::spec_uses_cache;
use am2315::spec_wake_sequence;
use am2315::Am2315;
use pmsa003::spec_pmsa003_decode;
use pmsa003::spec_pmsa003_modality;
use pmsa003::PmsA003;
use pmsa003::PmsA003Readout;
use vstd::prelude::*;

verus! {

/// The engine's homogeneous view of a registered sensor driver.
pub enum PiWeatherSensor<B: BusDevice> {
    Am2315(Am2315<B>),
    PmsA003(PmsA003<B>),
}

impl<B: BusDevice> PiWeatherSensor<B> {
    /// Internal consistency of the wrapped driver.
    pub open spec fn wf(self) -> bool {
        match self {
            PiWeatherSensor::Am2315(d) => d.wf(),
            PiWeatherSensor::PmsA003(_) => true,
        }
    }

    /// Whether two values wrap the same driver model.
    pub open spec fn same_model(self, other: PiWeatherSensor<B>) -> bool {
        match (self, other) {
            (PiWeatherSensor::Am2315(_), PiWeatherSensor::Am2315(_)) => true,
            (PiWeatherSensor::PmsA003(_), PiWeatherSensor::PmsA003(_)) => true,
            _ => false,
        }
    }

    /// The fixed number of readouts one acquisition of this sensor yields.
    pub open spec fn cardinality(self) -> int {
        match self {
            PiWeatherSensor::Am2315(_) => 2,
            PiWeatherSensor::PmsA003(_) => 12,
        }
    }

    /// Whether polling this sensor at `now_ms` is a debounce cache hit: a
    /// bundle is then owed without any bus transaction.
    pub open spec fn cache_hit(self, now_ms: u64) -> bool {
        self matches PiWeatherSensor::Am2315(d) && spec_uses_cache(d.last_read, now_ms)
    }

    /// What one poll at `now_ms` may do to the wrapped driver's device, by
    /// model: a debounced temperature/humidity driver is left untouched;
    /// otherwise its device saw the wake sequence, possibly followed by the
    /// one 6-byte read; a particulate driver's device saw exactly one
    /// 32-byte read. (In particular the model never changes.)
    pub open spec fn polled_from(self, pre: PiWeatherSensor<B>, now_ms: u64) -> bool {
        match (pre, self) {
            (PiWeatherSensor::Am2315(d0), PiWeatherSensor::Am2315(d1)) => {
                if spec_uses_cache(d0.last_read, now_ms) {
                    d1 == d0
                } else {
                    ||| d1.device.log() == spec_wake_sequence(d0.device.log())
                    ||| spec_log_grew_by_read(
                        spec_wake_sequence(d0.device.log()),
                        d1.device.log(),
                        6,
                    )
                }
            },
            (PiWeatherSensor::PmsA003(d0), PiWeatherSensor::PmsA003(d1)) => spec_log_grew_by_read(
                d0.device.log(),
                d1.device.log(),
                32,
            ),
            _ => false,
        }
    }

    /// The sensor model's name.
    pub fn name(&self) -> (r: &'static str)
        ensures
            *self matches PiWeatherSensor::Am2315(_) ==> r@ == "AM2315"@,
            *self matches PiWeatherSensor::PmsA003(_) ==> r@ == "PMSA003"@,
    {
        match self {
            PiWeatherSensor::Am2315(_) => "AM2315",
            PiWeatherSensor::PmsA003(_) => "PMSA003",
        }
    }

    /// Polls the wrapped driver once at time `now_ms` and wraps any fresh
    /// readouts as a complete bundle captured at `now_ms` — a pure
    /// delegation to the wrapped driver's own read, carrying its promises:
    /// the bundle is never partial, its contents are the driver's (the
    /// cached pair for the temperature/humidity model, a decoded frame's
    /// twelve fields for the particulate model), a failure leaves the
    /// driver's cache as it was, and the device saw exactly the driver's
    /// operations. A debounced driver is left entirely untouched, bus
    /// device included, and still yields its cached bundle.
    pub fn read(&mut self, now_ms: u64) -> (r: Result<Option<Payload>, DriverError>)
        requires
            old(self).wf(),
        ensures
            final(self).wf(),
            old(self).same_model(*final(self)),
            final(self).polled_from(*old(self), now_ms),
            r matches Ok(Some(p)) ==> {
                &&& p.when_ms == now_ms
                &&& p.readouts@.len() == old(self).cardinality()
            },
            old(self).cache_hit(now_ms) ==> *final(self) == *old(self) && r is Ok && (r matches Ok(
                o,
            ) ==> o is Some),
            *old(self) matches PiWeatherSensor::Am2315(d0) ==> {
                &&& (r matches Ok(Some(p)) ==> *final(self) matches PiWeatherSensor::Am2315(d1) && (
                d1.last_readouts matches Some(pair) && p.readouts@ =~= seq![
                    spec_am2315_modality(pair.0),
                    spec_am2315_modality(pair.1),
                ]))
                &&& (r matches Ok(o) ==> o is Some)
                &&& (r is Err ==> (*final(self) matches PiWeatherSensor::Am2315(d1)
                    && d1.last_read == d0.last_read && d1.last_readouts == d0.last_readouts))
                &&& (r matches Err(DriverError::Protocol(e)) ==> (e
                    == ProtocolError::OpCodeMismatch || e == ProtocolError::LengthMismatch))
            },
            *old(self) matches PiWeatherSensor::PmsA003(_) ==> {
                &&& (r matches Ok(Some(p)) ==> exists|f: Seq<u8>|
                    f.len() == 32 && (spec_pmsa003_decode(f) matches Ok(s) && p.readouts@
                        == s.map_values(|x: PmsA003Readout| spec_pmsa003_modality(x))))
                &&& (r matches Ok(o) ==> o is Some)
                &&& (r matches Err(DriverError::Protocol(e)) ==> (e == ProtocolError::BadHeader
                    || e == ProtocolError::LengthMismatch || e == ProtocolError::ChecksumMismatch))
            },
    {
        match self {
            PiWeatherSensor::Am2315(d) => d.payload(now_ms),
            PiWeatherSensor::PmsA003(d) => d.payload(now_ms),
        }
    }
}

} // verus!
