//! Bus-device abstraction and the bus factory.
//!
//! `BusDevice` is the only transport interface the drivers depend on: one
//! frame out, one frame in, and a settle pause between wake and request.
//! `MockBus` is the in-memory implementation used by the tests; the process
//! wires a real device implementation in at the edge. The factory only
//! validates the resource locator — no data moves at open time.

use crate::errors::BusIoError;
use crate::errors::PiWeatherError;
use vstd::prelude::*;

verus! {

/// One operation issued to a bus device: a written frame, a settle pause of
/// the given milliseconds, or a read of a requested length carrying the
/// bytes the device returned (`None` when the read failed).
pub enum BusOp {
    Write(Seq<u8>),
    Settle(u64),
    Read(nat, Option<Seq<u8>>),
}

/// The log grew by exactly one read of `len` bytes, whatever it returned.
pub open spec fn spec_log_grew_by_read(pre: Seq<BusOp>, post: Seq<BusOp>, len: nat) -> bool {
    &&& post.len() == pre.len() + 1
    &&& post.drop_last() == pre
    &&& (post.last() matches BusOp::Read(n, _) && n == len)
}

/// One serial bus endpoint, addressed as a device: a driver owns exactly one.
///
/// Nothing is promised about what a read returns beyond its length — bus
/// contents are decided by hardware. What a device *is asked to do* is fully
/// specified: every implementation carries an operation log, and each call
/// appends exactly its own operation, whether or not it succeeded; a
/// successful read's entry also records the bytes it returned, so what a
/// driver decoded can be traced to what its device served.
pub trait BusDevice: Sized {
    /// Every operation issued to this device so far, oldest first. Left
    /// unspecified by default: an implementation must define it to meet the
    /// contracts below, which bind every call to append exactly its own
    /// operation.
    open spec fn log(&self) -> Seq<BusOp> {
        arbitrary()
    }

    /// Writes one frame to the device in a single transaction.
    fn write_frame(&mut self, data: &Vec<u8>) -> (r: Result<(), BusIoError>)
        ensures
            final(self).log() == old(self).log().push(BusOp::Write(data@)),
    ;

    /// Reads one frame of exactly `len` bytes in a single transaction; the
    /// log records the bytes actually served.
    fn read_frame(&mut self, len: usize) -> (r: Result<Vec<u8>, BusIoError>)
        ensures
            r matches Ok(v) ==> v@.len() == len && final(self).log() == old(self).log().push(
                BusOp::Read(len as nat, Some(v@)),
            ),
            r is Err ==> final(self).log() == old(self).log().push(
                BusOp::Read(len as nat, None),
            ),
    ;

    /// Lets the device settle for `ms` milliseconds (a wake-up delay); no
    /// frame moves, and the pause itself is logged.
    fn settle(&mut self, ms: u64)
        ensures
            final(self).log() == old(self).log().push(BusOp::Settle(ms)),
    ;
}

/// In-memory bus device: reads return a prefix of a fixed register bank, and
/// every attempted transaction is counted, so tests can check exactly how
/// often the physical bus would have been touched.
pub struct MockBus {
    /// Bytes that a read returns from offset zero.
    pub registers: Vec<u8>,
    /// When set, every read transaction fails.
    pub fail_reads: bool,
    /// When set, every write transaction fails.
    pub fail_writes: bool,
    /// Read transactions attempted so far.
    pub reads: u64,
    /// Write transactions attempted so far.
    pub writes: u64,
    /// Spec-level record of every transaction attempted, oldest first.
    pub ops: Ghost<Seq<BusOp>>,
}

impl MockBus {
    /// A healthy bus whose reads serve the given register bank.
    pub fn new(registers: Vec<u8>) -> (b: MockBus)
        ensures
            b.registers@ == registers@,
            !b.fail_reads,
            !b.fail_writes,
            b.reads == 0,
            b.writes == 0,
            b.ops@ == Seq::<BusOp>::empty(),
    {
        MockBus {
            registers,
            fail_reads: false,
            fail_writes: false,
            reads: 0,
            writes: 0,
            ops: Ghost(Seq::empty()),
        }
    }

    /// A bus whose every transaction fails, for exercising failure isolation.
    pub fn failing() -> (b: MockBus)
        ensures
            b.fail_reads,
            b.fail_writes,
            b.reads == 0,
            b.writes == 0,
            b.ops@ == Seq::<BusOp>::empty(),
    {
        MockBus {
            registers: Vec::new(),
            fail_reads: true,
            fail_writes: true,
            reads: 0,
            writes: 0,
            ops: Ghost(Seq::empty()),
        }
    }
}

impl BusDevice for MockBus {
    open spec fn log(&self) -> Seq<BusOp> {
        self.ops@
    }

    fn write_frame(&mut self, data: &Vec<u8>) -> (r: Result<(), BusIoError>)
        ensures
            final(self).registers == old(self).registers,
            final(self).fail_reads == old(self).fail_reads,
            final(self).fail_writes == old(self).fail_writes,
            final(self).reads == old(self).reads,
            old(self).writes < u64::MAX ==> final(self).writes == old(self).writes + 1,
            r is Ok <==> !old(self).fail_writes,
    {
        proof {
            self.ops@ = self.ops@.push(BusOp::Write(data@));
        }
        if self.writes < u64::MAX {
            self.writes = self.writes + 1;
        }
        if self.fail_writes {
            Err(BusIoError)
        } else {
            Ok(())
        }
    }

    fn read_frame(&mut self, len: usize) -> (r: Result<Vec<u8>, BusIoError>)
        ensures
            final(self).registers == old(self).registers,
            final(self).fail_reads == old(self).fail_reads,
            final(self).fail_writes == old(self).fail_writes,
            final(self).writes == old(self).writes,
            old(self).reads < u64::MAX ==> final(self).reads == old(self).reads + 1,
            r is Ok <==> (!old(self).fail_reads && len <= old(self).registers@.len()),
            r matches Ok(v) ==> v@ == old(self).registers@.subrange(0, len as int),
    {
        if self.reads < u64::MAX {
            self.reads = self.reads + 1;
        }
        if self.fail_reads || len > self.registers.len() {
            proof {
                self.ops@ = self.ops@.push(BusOp::Read(len as nat, None));
            }
            return Err(BusIoError);
        }
        let mut out: Vec<u8> = Vec::new();
        let mut i: usize = 0;
        while i < len
            invariant
                i <= len,
                len <= self.registers@.len(),
                out@ == self.registers@.subrange(0, i as int),
            decreases len - i,
        {
            out.push(self.registers[i]);
            i = i + 1;
            proof {
                assert(out@ =~= self.registers@.subrange(0, i as int));
            }
        }
        proof {
            self.ops@ = self.ops@.push(BusOp::Read(len as nat, Some(out@)));
        }
        Ok(out)
    }

    fn settle(&mut self, ms: u64)
        ensures
            final(self).registers == old(self).registers,
            final(self).fail_reads == old(self).fail_reads,
            final(self).fail_writes == old(self).fail_writes,
            final(self).reads == old(self).reads,
            final(self).writes == old(self).writes,
    {
        proof {
            self.ops@ = self.ops@.push(BusOp::Settle(ms));
        }
    }
}

/// Relies on `std::path::Path::exists`: whether the path refers to an
/// existing filesystem entity. Nothing is promised of the result — it
/// depends on the machine's filesystem at call time.
#[verifier::external_body]
fn path_exists(p: &String) -> bool {
    std::path::Path::new(p.as_str()).exists()
}

/// Bus factory bound to one device path: it validates the resource locator
/// at construction and holds no other state. Opening the OS-level device is
/// the transport layer's job.
#[derive(Debug, Clone)]
pub struct LinuxI2CDeviceFactory {
    /// The device path the factory was validated against.
    pub fd: String,
}

impl LinuxI2CDeviceFactory {
    /// The factory-construction decision, over the result of the existence
    /// probe: a factory bound to the path exactly when the path exists, and
    /// the environment error naming the path otherwise.
    pub fn factory_of(fd: String, exists: bool) -> (r: Result<LinuxI2CDeviceFactory, PiWeatherError>)
        ensures
            r is Ok <==> exists,
            r matches Ok(f) ==> f.fd@ == fd@,
            r matches Err(e) ==> e matches PiWeatherError::I2CError(p) && p@ == fd@,
    {
        if exists {
            Ok(LinuxI2CDeviceFactory { fd })
        } else {
            Err(PiWeatherError::I2CError(fd))
        }
    }

    /// Validates that the device path exists; a missing path is an
    /// environment error, reported as `I2CError` naming the path. The
    /// verdict for each probe outcome is `factory_of`'s; which outcome the
    /// machine's filesystem gives is the one thing no contract can fix.
    pub fn new(fd: String) -> (r: Result<LinuxI2CDeviceFactory, PiWeatherError>)
        ensures
            r matches Ok(f) ==> f.fd@ == fd@,
            r matches Err(e) ==> e matches PiWeatherError::I2CError(p) && p@ == fd@,
    {
        let exists = path_exists(&fd);
        Self::factory_of(fd, exists)
    }
}

/// The platform's bus factory for the device at the given path.
pub fn get_os_i2c_factory(fd: String) -> (r: Result<LinuxI2CDeviceFactory, PiWeatherError>)
    ensures
        r matches Ok(f) ==> f.fd@ == fd@,
        r matches Err(e) ==> e matches PiWeatherError::I2CError(p) && p@ == fd@,
{
    LinuxI2CDeviceFactory::new(fd)
}

} // verus!
