//! Driver for the AM2315 temperature/humidity sensor.
//!
//! The wire protocol: a response frame of 6 bytes, `[op, count, hum_hi,
//! hum_lo, temp_hi, temp_lo]`. Byte 0 must equal the read op code and byte 1
//! the payload length 4. Humidity is the 16-bit big-endian value in tenths
//! of a percent. Temperature is big-endian in tenths of a degree Celsius,
//! except that the top bit of its high byte (bit 15 of the raw value) is a
//! sign flag over a 15-bit magnitude.
//!
//! The driver debounces physical reads: a second read within the minimum
//! re-read interval is served from the cache without touching the bus, which
//! protects the sensor from self-heating and the bus from contention.

use crate::bus::BusDevice;
use crate::bus::spec_log_grew_by_read;
use crate::bus::BusOp;
use crate::errors::DriverError;
use crate::errors::ProtocolError;
use crate::modality::Modality;
use crate::modality::Temperature;
use crate::payload::Payload;
use vstd::prelude::*;

verus! {

/// The function/op code of the sensor's read command and response.
pub const AM2315_I2C_READ_FUNC_CODE: u8 = 0x03;

/// Settle delay between the wake write and the read request, milliseconds.
pub const AM2315_WAKEUP_TIME_MS: u64 = 100;

/// Minimum interval between two physical reads, milliseconds.
pub const AM2315_READ_INTERVAL_MS: u64 = 2000;

/// One decoded AM2315 quantity: temperature in tenths of a degree Celsius,
/// or relative humidity in tenths of a percent.
#[derive(Debug, Copy, Clone, PartialEq, Eq, Structural)]
pub enum Am2315Readout {
    Temperature(i16),
    Humidity(u16),
}

/// The humidity value of wire bytes `hi, lo`: big-endian, in tenths.
pub open spec fn spec_humidity_tenths(hi: u8, lo: u8) -> int {
    hi * 256 + lo
}

/// The temperature value of wire bytes `hi, lo`, in tenths: the top bit of
/// `hi` (bit 15 of the raw value) is the sign, the remaining 15 bits the
/// magnitude.
pub open spec fn spec_temperature_tenths(hi: u8, lo: u8) -> int {
    if hi >= 128 {
        -((hi - 128) * 256 + lo)
    } else {
        hi * 256 + lo
    }
}

/// What decoding a 6-byte AM2315 response frame yields: the op-code check,
/// the count check, then the temperature and humidity readouts, in that
/// order.
pub open spec fn spec_am2315_decode(frame: Seq<u8>) -> Result<Seq<Am2315Readout>, ProtocolError>
    recommends
        frame.len() == 6,
{
    if frame[0] != AM2315_I2C_READ_FUNC_CODE {
        Err(ProtocolError::OpCodeMismatch)
    } else if frame[1] != 4 {
        Err(ProtocolError::LengthMismatch)
    } else {
        Ok(
            seq![
                Am2315Readout::Temperature(spec_temperature_tenths(frame[4], frame[5]) as i16),
                Am2315Readout::Humidity(spec_humidity_tenths(frame[2], frame[3]) as u16),
            ],
        )
    }
}

/// Assembles the big-endian humidity bytes into tenths of a percent.
pub fn humidity_from_le_bytes(hi: u8, lo: u8) -> (r: u16)
    ensures
        r == spec_humidity_tenths(hi, lo),
{
    (hi as u16) * 256 + (lo as u16)
}

/// Assembles the sign-and-magnitude temperature bytes into tenths of a
/// degree Celsius.
pub fn temperature_from_le_bytes(hi: u8, lo: u8) -> (r: i16)
    ensures
        r == spec_temperature_tenths(hi, lo),
{
    let mag: i16 = ((hi % 128) as i16) * 256 + (lo as i16);
    if hi >= 128 {
        -mag
    } else {
        mag
    }
}

/// Driver for one AM2315, owning its bus device, the time of the last
/// successful read and the readouts it produced.
pub struct Am2315<B: BusDevice> {
    pub device: B,
    pub last_read: Option<u64>,
    pub last_readouts: Option<(Am2315Readout, Am2315Readout)>,
}

/// Whether a read at `now_ms` is served from the cache: a successful read
/// exists and less than the minimum re-read interval has elapsed since.
/// (A clock reading earlier than the cached one counts as zero elapsed.)
pub open spec fn spec_uses_cache(last_read: Option<u64>, now_ms: u64) -> bool {
    match last_read {
        Some(t) => now_ms < t + AM2315_READ_INTERVAL_MS,
        None => false,
    }
}

/// The wake sequence on the wire: the no-op wake byte, the settle pause,
/// then the read-request frame (function code, start address, count).
pub open spec fn spec_wake_sequence(log: Seq<BusOp>) -> Seq<BusOp> {
    log.push(BusOp::Write(seq![0x00u8])).push(BusOp::Settle(AM2315_WAKEUP_TIME_MS)).push(
        BusOp::Write(seq![0x03u8, 0x00u8, 0x04u8]),
    )
}

impl<B: BusDevice> Am2315<B> {
    /// The cache is consistent: a read time is recorded exactly when cached
    /// readouts are, and what is cached is always one temperature and one
    /// humidity, in that order.
    pub open spec fn wf(self) -> bool {
        &&& (self.last_read is Some <==> self.last_readouts is Some)
        &&& (self.last_readouts matches Some(p) ==> p.0 is Temperature && p.1 is Humidity)
    }

    /// A fresh driver for an opened device, with an empty cache.
    pub fn new(device: B) -> (d: Am2315<B>)
        ensures
            d.device == device,
            d.last_read is None,
            d.last_readouts is None,
            d.wf(),
    {
        Am2315 { device, last_read: None, last_readouts: None }
    }

    /// Decodes a 6-byte response frame, exactly as `spec_am2315_decode`.
    pub fn decode(frame: &Vec<u8>) -> (r: Result<Vec<Am2315Readout>, ProtocolError>)
        requires
            frame@.len() == 6,
        ensures
            r matches Ok(v) ==> spec_am2315_decode(frame@) matches Ok(s) && v@ == s,
            r matches Err(e) ==> spec_am2315_decode(frame@) matches Err(e2) && e == e2,
    {
        if frame[0] != AM2315_I2C_READ_FUNC_CODE {
            return Err(ProtocolError::OpCodeMismatch);
        }
        if frame[1] != 4 {
            return Err(ProtocolError::LengthMismatch);
        }
        let temperature = temperature_from_le_bytes(frame[4], frame[5]);
        let humidity = humidity_from_le_bytes(frame[2], frame[3]);
        let v: Vec<Am2315Readout> = vec![
            Am2315Readout::Temperature(temperature),
            Am2315Readout::Humidity(humidity),
        ];
        proof {
            assert(v@ =~= spec_am2315_decode(frame@)->Ok_0);
        }
        Ok(v)
    }

    /// Wake sequence: a no-op wake write (whose outcome is deliberately
    /// ignored — the sensor may not acknowledge it), the settle delay, then
    /// the read-request frame. Exactly that operation sequence is issued —
    /// no read — whatever the writes' outcomes; the call fails with `BusIo`
    /// exactly when the request write fails. The cache is never touched.
    fn wake(&mut self) -> (r: Result<(), DriverError>)
        ensures
            final(self).last_read == old(self).last_read,
            final(self).last_readouts == old(self).last_readouts,
            final(self).device.log() == spec_wake_sequence(old(self).device.log()),
            r matches Err(e) ==> e == DriverError::BusIo,
    {
        let wake_frame: Vec<u8> = vec![0x00u8];
        let _ = self.device.write_frame(&wake_frame);
        self.device.settle(AM2315_WAKEUP_TIME_MS);
        let request: Vec<u8> = vec![AM2315_I2C_READ_FUNC_CODE, 0x00, 0x04];
        proof {
            assert(wake_frame@ =~= seq![0x00u8]);
            assert(request@ =~= seq![0x03u8, 0x00u8, 0x04u8]);
        }
        match self.device.write_frame(&request) {
            Ok(_) => Ok(()),
            Err(_) => Err(DriverError::BusIo),
        }
    }

    /// Reads one response frame and decodes it: exactly one 6-byte read
    /// transaction is issued, whatever its outcome. On success the cache and
    /// the time of last successful read are updated to `now_ms`; on any
    /// failure both are left exactly as they were, so an earlier cache stays
    /// valid.
    pub fn read_temperature_and_humidity(&mut self, now_ms: u64) -> (r: Result<
        Vec<Am2315Readout>,
        DriverError,
    >)
        ensures
            spec_log_grew_by_read(old(self).device.log(), final(self).device.log(), 6),
            r matches Ok(v) ==> {
                &&& v@.len() == 2
                &&& (final(self).device.log().last() matches BusOp::Read(n, Some(f)) && n == 6
                    && f.len() == 6 && (spec_am2315_decode(f) matches Ok(s) && s == v@))
                &&& final(self).last_read == Some(now_ms)
                &&& final(self).last_readouts == Some((v@[0], v@[1]))
            },
            r is Err ==> {
                &&& final(self).last_read == old(self).last_read
                &&& final(self).last_readouts == old(self).last_readouts
            },
            r matches Err(DriverError::Protocol(e)) ==> (e == ProtocolError::OpCodeMismatch || e
                == ProtocolError::LengthMismatch),
            old(self).wf() ==> final(self).wf(),
    {
        let ghost log0 = self.device.log();
        let frame = match self.device.read_frame(6) {
            Ok(f) => f,
            Err(_) => {
                proof {
                    assert(self.device.log().drop_last() =~= log0);
                }
                return Err(DriverError::BusIo);
            },
        };
        proof {
            assert(self.device.log().drop_last() =~= log0);
        }
        match Self::decode(&frame) {
            Ok(v) => {
                self.last_read = Some(now_ms);
                self.last_readouts = Some((v[0], v[1]));
                proof {
                    assert(spec_am2315_decode(frame@) matches Ok(s) && s == v@);
                }
                Ok(v)
            },
            Err(e) => Err(DriverError::Protocol(e)),
        }
    }

    /// One driver read at time `now_ms`, applying the debounce policy:
    /// within the minimum re-read interval of the last successful read, the
    /// identical cached readouts are returned and the device is left
    /// entirely untouched — no operation at all; otherwise the wake
    /// sequence (wake byte, settle pause, request frame) is issued and, if
    /// the request write landed, exactly one 6-byte read, caching the fresh
    /// readouts on success and keeping all cached state on failure.
    pub fn read(&mut self, now_ms: u64) -> (r: Result<Option<Vec<Am2315Readout>>, DriverError>)
        requires
            old(self).wf(),
        ensures
            final(self).wf(),
            spec_uses_cache(old(self).last_read, now_ms) ==> {
                &&& *final(self) == *old(self)
                &&& old(self).last_readouts matches Some(p) && r matches Ok(Some(v)) && v@
                    =~= seq![p.0, p.1]
            },
            !spec_uses_cache(old(self).last_read, now_ms) ==> {
                &&& ({
                    let woken = spec_wake_sequence(old(self).device.log());
                    ||| final(self).device.log() == woken
                    ||| spec_log_grew_by_read(woken, final(self).device.log(), 6)
                })
                &&& (r matches Ok(o) ==> {
                    &&& o matches Some(v)
                    &&& v@.len() == 2
                    &&& (final(self).device.log().last() matches BusOp::Read(n, Some(f)) && n == 6
                        && f.len() == 6 && (spec_am2315_decode(f) matches Ok(s) && s == v@))
                    &&& spec_log_grew_by_read(
                        spec_wake_sequence(old(self).device.log()),
                        final(self).device.log(),
                        6,
                    )
                    &&& final(self).last_read == Some(now_ms)
                    &&& final(self).last_readouts == Some((v@[0], v@[1]))
                })
                &&& (r is Err ==> {
                    &&& final(self).last_read == old(self).last_read
                    &&& final(self).last_readouts == old(self).last_readouts
                })
                &&& (r matches Err(DriverError::Protocol(e)) ==> (e
                    == ProtocolError::OpCodeMismatch || e == ProtocolError::LengthMismatch))
            },
    {
        if let Some(t) = self.last_read {
            let fresh = if t <= now_ms {
                now_ms - t < AM2315_READ_INTERVAL_MS
            } else {
                true
            };
            if fresh {
                let cached = match self.last_readouts {
                    Some(p) => p,
                    // A fresh cache window implies a recorded read, and with
                    // it cached readouts.
                    None => unreached(),
                };
                let v: Vec<Am2315Readout> = vec![cached.0, cached.1];
                return Ok(Some(v));
            }
        }
        match self.wake() {
            Ok(_) => {},
            Err(e) => {
                return Err(e);
            },
        }
        match self.read_temperature_and_humidity(now_ms) {
            Ok(readouts) => Ok(Some(readouts)),
            Err(e) => Err(e),
        }
    }

    /// One driver read wrapped as a measurement bundle captured at `now_ms`:
    /// always the complete pair `[temperature, humidity]`, in model units.
    /// A debounced call leaves the driver (bus device included) untouched
    /// and still yields the cached bundle.
    pub fn payload(&mut self, now_ms: u64) -> (r: Result<Option<Payload>, DriverError>)
        requires
            old(self).wf(),
        ensures
            final(self).wf(),
            spec_uses_cache(old(self).last_read, now_ms) ==> *final(self) == *old(self) && r is Ok
                && (r matches Ok(o) ==> o is Some),
            !spec_uses_cache(old(self).last_read, now_ms) ==> ({
                let woken = spec_wake_sequence(old(self).device.log());
                ||| final(self).device.log() == woken
                ||| spec_log_grew_by_read(woken, final(self).device.log(), 6)
            }),
            r is Err ==> {
                &&& final(self).last_read == old(self).last_read
                &&& final(self).last_readouts == old(self).last_readouts
            },
            r matches Err(DriverError::Protocol(e)) ==> (e == ProtocolError::OpCodeMismatch || e
                == ProtocolError::LengthMismatch),
            r matches Ok(Some(p)) ==> {
                &&& p.when_ms == now_ms
                &&& p.readouts@.len() == 2
                &&& final(self).last_readouts matches Some(pair) && p.readouts@ =~= seq![
                    spec_am2315_modality(pair.0),
                    spec_am2315_modality(pair.1),
                ]
            },
            r matches Ok(o) ==> o is Some,
    {
        let readouts = match self.read(now_ms) {
            Ok(Some(v)) => v,
            Ok(None) => {
                return Ok(None);
            },
            Err(e) => {
                return Err(e);
            },
        };
        let m0 = Modality::from(readouts[0]);
        let m1 = Modality::from(readouts[1]);
        let modalities: Vec<Modality> = vec![m0, m1];
        Ok(Some(Payload::new(now_ms, modalities)))
    }
}

/// The measurement-model value of one AM2315 readout: tenths of a degree
/// become hundredths, humidity keeps its tenths.
pub open spec fn spec_am2315_modality(r: Am2315Readout) -> Modality {
    match r {
        Am2315Readout::Temperature(t) => Modality::Temperature(
            Temperature::Celsius((t * 10) as i32),
        ),
        Am2315Readout::Humidity(h) => Modality::Humidity(h),
    }
}

impl From<Am2315Readout> for Modality {
    /// Lifts one AM2315 readout into the measurement model, exactly as
    /// `spec_am2315_modality`.
    fn from(value: Am2315Readout) -> (r: Modality) {
        match value {
            Am2315Readout::Temperature(t) => Modality::Temperature(
                Temperature::Celsius((t as i32) * 10),
            ),
            Am2315Readout::Humidity(h) => Modality::Humidity(h),
        }
    }
}

impl vstd::std_specs::convert::FromSpecImpl<Am2315Readout> for Modality {
    open spec fn obeys_from_spec() -> bool {
        true
    }

    open spec fn from_spec(t: Am2315Readout) -> Modality {
        spec_am2315_modality(t)
    }
}

/// Decoding is deterministic: the decoded result is a function of the frame
/// bytes alone, so equal frames decode identically — and the executable
/// decoder, whose contract equates it with this function, yields
/// bit-identical readouts every time it sees the same bytes.
pub proof fn lemma_am2315_decode_deterministic(f1: Seq<u8>, f2: Seq<u8>)
    requires
        f1 == f2,
    ensures
        spec_am2315_decode(f1) == spec_am2315_decode(f2),
{
}

/// Serving a second read from the cache is exactly the debounce window:
/// after a successful read at time `t`, any read strictly less than the
/// minimum re-read interval later is a cache hit, and the driver contract
/// then returns the identical cached readouts and leaves the bus device
/// untouched.
pub proof fn lemma_am2315_debounce_hit(t: u64, now_ms: u64)
    requires
        now_ms < t + AM2315_READ_INTERVAL_MS,
    ensures
        spec_uses_cache(Some(t), now_ms),
{
}

/// Once the minimum re-read interval has elapsed, a read is never served
/// from the cache: the driver contract then performs a fresh bus
/// transaction.
pub proof fn lemma_am2315_debounce_expired(t: u64, now_ms: u64)
    requires
        now_ms >= t + AM2315_READ_INTERVAL_MS,
    ensures
        !spec_uses_cache(Some(t), now_ms),
{
}

} // verus!
