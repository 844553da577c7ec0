//! Driver for the PMSA003 particulate-matter sensor.
//!
//! The wire protocol: a 32-byte frame opening with the magic bytes `'B'`,
//! `'M'`, then a 16-bit big-endian declared length that must equal 28, then
//! twelve 16-bit big-endian data fields — six mass concentrations (three
//! size classes in "standard" units, the same three in "environmental"
//! units) followed by six particle counts across six size classes — and a
//! trailing 16-bit big-endian checksum equal to the unsigned sum of all 30
//! preceding bytes. Field order is preserved exactly as laid out.

use crate::bus::BusDevice;
use crate::bus::spec_log_grew_by_read;
use crate::bus::BusOp;
use crate::errors::DriverError;
use crate::errors::ProtocolError;
use crate::modality::AirQuality;
use crate::modality::Modality;
use crate::modality::Particle;
use crate::payload::Payload;
use vstd::prelude::*;

verus! {

/// First magic byte of a frame, the character 'B'.
pub const PMSA003_MAGIC_0: u8 = 0x42;

/// Second magic byte of a frame, the character 'M'.
pub const PMSA003_MAGIC_1: u8 = 0x4D;

/// The declared payload length every valid frame carries.
pub const PMSA003_DECLARED_LEN: u16 = 28;

/// Total size of one response frame in bytes.
pub const PMSA003_FRAME_LEN: usize = 32;

/// Particle size classes as the PMSA003 reports them.
#[derive(Debug, Copy, Clone, Eq, PartialEq, Structural)]
pub enum PmsA003Particle {
    PM0_3,
    PM0_5,
    PM1_0,
    PM2_5,
    PM5_0,
    PM10_0,
}

/// The two unit conventions of the concentration fields.
#[derive(Debug, Copy, Clone, Eq, PartialEq, Structural)]
pub enum ConcentrationUnit {
    Standard,
    Environmental,
}

/// One decoded PMSA003 quantity: a mass concentration (micrograms per cubic
/// metre) under one unit convention, or a particle count (per 0.1 litre).
#[derive(Debug, Copy, Clone, Eq, PartialEq, Structural)]
pub enum PmsA003Readout {
    Concentration(PmsA003Particle, ConcentrationUnit, u16),
    Count(PmsA003Particle, u16),
}

/// The 16-bit big-endian value of wire bytes `hi, lo`.
pub open spec fn spec_be16(hi: u8, lo: u8) -> int {
    hi * 256 + lo
}

/// Unsigned sum of the first `n` bytes of a frame.
pub open spec fn spec_checksum(frame: Seq<u8>, n: int) -> int
    recommends
        0 <= n <= frame.len(),
    decreases n,
{
    if n <= 0 {
        0
    } else {
        spec_checksum(frame, n - 1) + frame[n - 1]
    }
}

/// The twelve data fields of a valid frame, in wire order.
pub open spec fn spec_pmsa003_fields(frame: Seq<u8>) -> Seq<PmsA003Readout>
    recommends
        frame.len() == 32,
{
    seq![
        PmsA003Readout::Concentration(
            PmsA003Particle::PM1_0,
            ConcentrationUnit::Standard,
            spec_be16(frame[4], frame[5]) as u16,
        ),
        PmsA003Readout::Concentration(
            PmsA003Particle::PM2_5,
            ConcentrationUnit::Standard,
            spec_be16(frame[6], frame[7]) as u16,
        ),
        PmsA003Readout::Concentration(
            PmsA003Particle::PM10_0,
            ConcentrationUnit::Standard,
            spec_be16(frame[8], frame[9]) as u16,
        ),
        PmsA003Readout::Concentration(
            PmsA003Particle::PM1_0,
            ConcentrationUnit::Environmental,
            spec_be16(frame[10], frame[11]) as u16,
        ),
        PmsA003Readout::Concentration(
            PmsA003Particle::PM2_5,
            ConcentrationUnit::Environmental,
            spec_be16(frame[12], frame[13]) as u16,
        ),
        PmsA003Readout::Concentration(
            PmsA003Particle::PM10_0,
            ConcentrationUnit::Environmental,
            spec_be16(frame[14], frame[15]) as u16,
        ),
        PmsA003Readout::Count(PmsA003Particle::PM0_3, spec_be16(frame[16], frame[17]) as u16),
        PmsA003Readout::Count(PmsA003Particle::PM0_5, spec_be16(frame[18], frame[19]) as u16),
        PmsA003Readout::Count(PmsA003Particle::PM1_0, spec_be16(frame[20], frame[21]) as u16),
        PmsA003Readout::Count(PmsA003Particle::PM2_5, spec_be16(frame[22], frame[23]) as u16),
        PmsA003Readout::Count(PmsA003Particle::PM5_0, spec_be16(frame[24], frame[25]) as u16),
        PmsA003Readout::Count(PmsA003Particle::PM10_0, spec_be16(frame[26], frame[27]) as u16),
    ]
}

/// What decoding a 32-byte PMSA003 frame yields: the magic-header check,
/// the declared-length check, the checksum check, then the twelve fields.
pub open spec fn spec_pmsa003_decode(frame: Seq<u8>) -> Result<Seq<PmsA003Readout>, ProtocolError>
    recommends
        frame.len() == 32,
{
    if frame[0] != PMSA003_MAGIC_0 || frame[1] != PMSA003_MAGIC_1 {
        Err(ProtocolError::BadHeader)
    } else if spec_be16(frame[2], frame[3]) != PMSA003_DECLARED_LEN {
        Err(ProtocolError::LengthMismatch)
    } else if spec_checksum(frame, 30) != spec_be16(frame[30], frame[31]) {
        Err(ProtocolError::ChecksumMismatch)
    } else {
        Ok(spec_pmsa003_fields(frame))
    }
}

/// Assembles two wire bytes big-endian.
fn be16(hi: u8, lo: u8) -> (r: u16)
    ensures
        r == spec_be16(hi, lo),
{
    (hi as u16) * 256 + (lo as u16)
}

/// Driver for one PMSA003, owning its bus device. This model needs no wake
/// sequence and applies no read debounce: every read is a fresh frame.
pub struct PmsA003<B: BusDevice> {
    pub device: B,
}

impl<B: BusDevice> PmsA003<B> {
    /// A driver for an opened device.
    pub fn new(device: B) -> (d: PmsA003<B>)
        ensures
            d.device == device,
    {
        PmsA003 { device }
    }

    /// Decodes a 32-byte response frame, exactly as `spec_pmsa003_decode`.
    pub fn decode(frame: &Vec<u8>) -> (r: Result<Vec<PmsA003Readout>, ProtocolError>)
        requires
            frame@.len() == 32,
        ensures
            r matches Ok(v) ==> spec_pmsa003_decode(frame@) matches Ok(s) && v@ == s,
            r matches Err(e) ==> spec_pmsa003_decode(frame@) matches Err(e2) && e == e2,
    {
        if frame[0] != PMSA003_MAGIC_0 || frame[1] != PMSA003_MAGIC_1 {
            return Err(ProtocolError::BadHeader);
        }
        if be16(frame[2], frame[3]) != PMSA003_DECLARED_LEN {
            return Err(ProtocolError::LengthMismatch);
        }
        let mut sum: u16 = 0;
        let mut i: usize = 0;
        while i < 30
            invariant
                i <= 30,
                frame@.len() == 32,
                sum == spec_checksum(frame@, i as int),
                sum <= i * 255,
            decreases 30 - i,
        {
            sum = sum + (frame[i] as u16);
            i = i + 1;
        }
        let checksum = be16(frame[30], frame[31]);
        if sum != checksum {
            return Err(ProtocolError::ChecksumMismatch);
        }
        let v: Vec<PmsA003Readout> = vec![
            PmsA003Readout::Concentration(
                PmsA003Particle::PM1_0,
                ConcentrationUnit::Standard,
                be16(frame[4], frame[5]),
            ),
            PmsA003Readout::Concentration(
                PmsA003Particle::PM2_5,
                ConcentrationUnit::Standard,
                be16(frame[6], frame[7]),
            ),
            PmsA003Readout::Concentration(
                PmsA003Particle::PM10_0,
                ConcentrationUnit::Standard,
                be16(frame[8], frame[9]),
            ),
            PmsA003Readout::Concentration(
                PmsA003Particle::PM1_0,
                ConcentrationUnit::Environmental,
                be16(frame[10], frame[11]),
            ),
            PmsA003Readout::Concentration(
                PmsA003Particle::PM2_5,
                ConcentrationUnit::Environmental,
                be16(frame[12], frame[13]),
            ),
            PmsA003Readout::Concentration(
                PmsA003Particle::PM10_0,
                ConcentrationUnit::Environmental,
                be16(frame[14], frame[15]),
            ),
            PmsA003Readout::Count(PmsA003Particle::PM0_3, be16(frame[16], frame[17])),
            PmsA003Readout::Count(PmsA003Particle::PM0_5, be16(frame[18], frame[19])),
            PmsA003Readout::Count(PmsA003Particle::PM1_0, be16(frame[20], frame[21])),
            PmsA003Readout::Count(PmsA003Particle::PM2_5, be16(frame[22], frame[23])),
            PmsA003Readout::Count(PmsA003Particle::PM5_0, be16(frame[24], frame[25])),
            PmsA003Readout::Count(PmsA003Particle::PM10_0, be16(frame[26], frame[27])),
        ];
        proof {
            assert(v@ =~= spec_pmsa003_fields(frame@));
        }
        Ok(v)
    }

    /// Reads one 32-byte frame and decodes it: exactly one 32-byte read
    /// transaction is issued and no other driver state exists to mutate —
    /// decoding is a pure function of the frame bytes. Bus failure surfaces
    /// as `BusIo`, a malformed frame as `Protocol` with the decoder's error;
    /// the driver stays usable either way.
    pub fn read(&mut self) -> (r: Result<Option<Vec<PmsA003Readout>>, DriverError>)
        ensures
            spec_log_grew_by_read(old(self).device.log(), final(self).device.log(), 32),
            r matches Ok(o) ==> {
                &&& o matches Some(v)
                &&& v@.len() == 12
                &&& (final(self).device.log().last() matches BusOp::Read(n, Some(f)) && n == 32
                    && f.len() == 32 && (spec_pmsa003_decode(f) matches Ok(s) && s == v@))
            },
            r matches Err(DriverError::Protocol(e)) ==> (e == ProtocolError::BadHeader || e
                == ProtocolError::LengthMismatch || e == ProtocolError::ChecksumMismatch),
    {
        let ghost log0 = self.device.log();
        let frame = match self.device.read_frame(PMSA003_FRAME_LEN) {
            Ok(f) => f,
            Err(_) => {
                proof {
                    assert(self.device.log().drop_last() =~= log0);
                }
                return Err(DriverError::BusIo);
            },
        };
        proof {
            assert(self.device.log().drop_last() =~= log0);
        }
        match Self::decode(&frame) {
            Ok(v) => {
                proof {
                    assert(spec_pmsa003_decode(frame@) matches Ok(s) && s == v@);
                }
                Ok(Some(v))
            },
            Err(e) => Err(DriverError::Protocol(e)),
        }
    }

    /// One read lifted into the measurement model: the twelve readouts of a
    /// successfully decoded frame, in wire order, each as an air-quality
    /// modality.
    pub fn probe(&mut self) -> (r: Result<Option<Vec<Modality>>, DriverError>)
        ensures
            spec_log_grew_by_read(old(self).device.log(), final(self).device.log(), 32),
            r matches Ok(o) ==> o matches Some(ms) && ms@.len() == 12,
            r matches Ok(Some(ms)) ==> exists|f: Seq<u8>|
                f.len() == 32 && (spec_pmsa003_decode(f) matches Ok(s) && ms@ == s.map_values(
                    |x: PmsA003Readout| spec_pmsa003_modality(x),
                )),
            r matches Err(DriverError::Protocol(e)) ==> (e == ProtocolError::BadHeader || e
                == ProtocolError::LengthMismatch || e == ProtocolError::ChecksumMismatch),
    {
        let readouts = match self.read() {
            Ok(Some(v)) => v,
            Ok(None) => {
                return Ok(None);
            },
            Err(e) => {
                return Err(e);
            },
        };
        let mut modalities: Vec<Modality> = Vec::new();
        let mut i: usize = 0;
        while i < readouts.len()
            invariant
                i <= readouts@.len(),
                modalities@.len() == i,
                forall|j: int|
                    0 <= j < i ==> modalities@[j] == spec_pmsa003_modality(#[trigger] readouts@[j]),
            decreases readouts@.len() - i,
        {
            modalities.push(Modality::from(readouts[i]));
            i = i + 1;
        }
        proof {
            let f = choose|f: Seq<u8>|
                f.len() == 32 && (spec_pmsa003_decode(f) matches Ok(s) && s == readouts@);
            assert(spec_pmsa003_decode(f) matches Ok(s) && modalities@ =~= s.map_values(
                |x: PmsA003Readout| spec_pmsa003_modality(x),
            ));
        }
        Ok(Some(modalities))
    }

    /// One read wrapped as a measurement bundle captured at `now_ms`:
    /// always the complete twelve air-quality readouts of a successfully
    /// decoded frame.
    pub fn payload(&mut self, now_ms: u64) -> (r: Result<Option<Payload>, DriverError>)
        ensures
            spec_log_grew_by_read(old(self).device.log(), final(self).device.log(), 32),
            r matches Err(DriverError::Protocol(e)) ==> (e == ProtocolError::BadHeader || e
                == ProtocolError::LengthMismatch || e == ProtocolError::ChecksumMismatch),
            r matches Ok(Some(p)) ==> {
                &&& p.when_ms == now_ms
                &&& p.readouts@.len() == 12
                &&& exists|f: Seq<u8>|
                    f.len() == 32 && (spec_pmsa003_decode(f) matches Ok(s) && p.readouts@
                        == s.map_values(|x: PmsA003Readout| spec_pmsa003_modality(x)))
            },
            r matches Ok(o) ==> o is Some,
    {
        match self.probe() {
            Ok(Some(modalities)) => Ok(Some(Payload::new(now_ms, modalities))),
            Ok(None) => Ok(None),
            Err(e) => Err(e),
        }
    }
}

/// The measurement-model size class of a PMSA003 size class.
pub open spec fn spec_particle_of(p: PmsA003Particle) -> Particle {
    match p {
        PmsA003Particle::PM0_3 => Particle::PM0_3,
        PmsA003Particle::PM0_5 => Particle::PM0_5,
        PmsA003Particle::PM1_0 => Particle::PM1_0,
        PmsA003Particle::PM2_5 => Particle::PM2_5,
        PmsA003Particle::PM5_0 => Particle::PM5_0,
        PmsA003Particle::PM10_0 => Particle::PM10_0,
    }
}

impl From<PmsA003Particle> for Particle {
    /// Renames a PMSA003 size class into the measurement model, exactly as
    /// `spec_particle_of`.
    fn from(value: PmsA003Particle) -> (r: Particle) {
        match value {
            PmsA003Particle::PM0_3 => Particle::PM0_3,
            PmsA003Particle::PM0_5 => Particle::PM0_5,
            PmsA003Particle::PM1_0 => Particle::PM1_0,
            PmsA003Particle::PM2_5 => Particle::PM2_5,
            PmsA003Particle::PM5_0 => Particle::PM5_0,
            PmsA003Particle::PM10_0 => Particle::PM10_0,
        }
    }
}

impl vstd::std_specs::convert::FromSpecImpl<PmsA003Particle> for Particle {
    open spec fn obeys_from_spec() -> bool {
        true
    }

    open spec fn from_spec(t: PmsA003Particle) -> Particle {
        spec_particle_of(t)
    }
}

/// The measurement-model value of one PMSA003 readout: an air-quality
/// modality of the same kind, size class and value. (The unit convention of
/// a concentration is not represented in the model.)
pub open spec fn spec_pmsa003_modality(r: PmsA003Readout) -> Modality {
    match r {
        PmsA003Readout::Concentration(p, _unit, v) => Modality::AirQuality(
            AirQuality::Concentration(spec_particle_of(p), v),
        ),
        PmsA003Readout::Count(p, v) => Modality::AirQuality(
            AirQuality::Count(spec_particle_of(p), v),
        ),
    }
}

impl From<PmsA003Readout> for Modality {
    /// Lifts one PMSA003 readout into the measurement model, exactly as
    /// `spec_pmsa003_modality`.
    fn from(value: PmsA003Readout) -> (r: Modality) {
        match value {
            PmsA003Readout::Concentration(p, _unit, v) => Modality::AirQuality(
                AirQuality::Concentration(Particle::from(p), v),
            ),
            PmsA003Readout::Count(p, v) => Modality::AirQuality(
                AirQuality::Count(Particle::from(p), v),
            ),
        }
    }
}

impl vstd::std_specs::convert::FromSpecImpl<PmsA003Readout> for Modality {
    open spec fn obeys_from_spec() -> bool {
        true
    }

    open spec fn from_spec(t: PmsA003Readout) -> Modality {
        spec_pmsa003_modality(t)
    }
}

/// Decoding is deterministic: the decoded result is a function of the frame
/// bytes alone, so equal frames decode identically — and the executable
/// decoder, whose contract equates it with this function, yields
/// bit-identical readouts every time it sees the same bytes.
pub proof fn lemma_pmsa003_decode_deterministic(f1: Seq<u8>, f2: Seq<u8>)
    requires
        f1 == f2,
    ensures
        spec_pmsa003_decode(f1) == spec_pmsa003_decode(f2),
{
}

/// The checksum of a prefix depends only on the bytes of that prefix.
proof fn lemma_checksum_congruence(s1: Seq<u8>, s2: Seq<u8>, n: int)
    requires
        0 <= n <= s1.len(),
        n <= s2.len(),
        forall|j: int| 0 <= j < n ==> s1[j] == s2[j],
    ensures
        spec_checksum(s1, n) == spec_checksum(s2, n),
    decreases n,
{
    if n > 0 {
        lemma_checksum_congruence(s1, s2, n - 1);
    }
}

/// Replacing byte `i` shifts a prefix sum over it by exactly the difference
/// of the bytes.
proof fn lemma_checksum_update(frame: Seq<u8>, i: int, b: u8, n: int)
    requires
        0 <= i < n <= frame.len(),
    ensures
        spec_checksum(frame.update(i, b), n) == spec_checksum(frame, n) - frame[i] + b,
    decreases n,
{
    let g = frame.update(i, b);
    if i == n - 1 {
        lemma_checksum_congruence(g, frame, n - 1);
    } else {
        lemma_checksum_update(frame, i, b, n - 1);
    }
}

/// Checksum rejection: flipping any single payload byte of a frame that
/// decodes successfully — any byte strictly between the header/length
/// fields and the trailing checksum field — makes decoding fail with
/// `ChecksumMismatch`. (Flipping a header or declared-length byte fails
/// that field's own check instead, so those bytes are outside this
/// statement, as is the checksum field itself.)
pub proof fn lemma_pmsa003_checksum_rejection(frame: Seq<u8>, i: int, b: u8)
    requires
        frame.len() == 32,
        spec_pmsa003_decode(frame) is Ok,
        4 <= i < 30,
        b != frame[i],
    ensures
        spec_pmsa003_decode(frame.update(i, b)) == Err::<Seq<PmsA003Readout>, ProtocolError>(
            ProtocolError::ChecksumMismatch,
        ),
{
    let g = frame.update(i, b);
    lemma_checksum_update(frame, i, b, 30);
    assert(g[0] == frame[0] && g[1] == frame[1] && g[2] == frame[2] && g[3] == frame[3]);
    assert(g[30] == frame[30] && g[31] == frame[31]);
}

} // verus!
