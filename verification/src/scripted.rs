//! A probe without a target: it answers from a script and records every
//! call, so that what the backend asks of a probe can be tried and looked at.
use crate::error::DebugProbeError;
use crate::error::Error;
use crate::probe::reply_view;
use crate::probe::JtagAccess;
use crate::probe::JtagOp;
use crate::probe::MemoryOp;
use crate::probe::TargetMemory;
use vstd::prelude::*;

verus! {

/// One call of the JTAG transport as the scripted probe records it.
#[allow(inconsistent_fields)]
#[derive(Debug, PartialEq, Eq)]
pub enum ScanRecord {
    SetIrLen { len: u32 },
    TargetResetAssert { reply: Result<(), DebugProbeError> },
    ReadRegister { address: u32, len: u32, reply: Result<Vec<u8>, DebugProbeError> },
    WriteRegister { address: u32, data: Vec<u8>, len: u32, reply: Result<Vec<u8>, DebugProbeError> },
}

impl View for ScanRecord {
    type V = JtagOp;

    open spec fn view(&self) -> JtagOp {
        match *self {
            ScanRecord::SetIrLen { len } => JtagOp::SetIrLen { len },
            ScanRecord::TargetResetAssert { reply } => JtagOp::TargetResetAssert { reply },
            ScanRecord::ReadRegister { address, len, reply } => JtagOp::ReadRegister {
                address,
                len,
                reply: reply_view(reply),
            },
            ScanRecord::WriteRegister { address, data, len, reply } => JtagOp::WriteRegister {
                address,
                data: data@,
                len,
                reply: reply_view(reply),
            },
        }
    }
}

/// The calls that a list of records stands for.
pub open spec fn records_view(log: Seq<ScanRecord>) -> Seq<JtagOp> {
    Seq::new(log.len(), |i: int| log[i]@)
}

/// A copy of some bytes.
pub fn copy_bytes(bytes: &[u8]) -> (r: Vec<u8>)
    ensures
        r@ == bytes@,
{
    let mut r: Vec<u8> = Vec::new();
    let mut i: usize = 0;
    while i < bytes.len()
        invariant
            i <= bytes@.len(),
            r@ == bytes@.take(i as int),
        decreases bytes@.len() - i,
    {
        r.push(bytes[i]);
        assert(r@ =~= bytes@.take(i + 1));
        i += 1;
    }
    assert(bytes@.take(bytes@.len() as int) =~= bytes@);
    r
}

/// A probe that answers from a script. A scan of a register takes the
/// next of the scripted scan answers, a read of memory the next of the
/// scripted read answers and a write to memory the next of the scripted
/// write answers. When the scan or read answers have run out, the probe
/// answers with a timeout; when the write answers have run out, it
/// accepts every write.
pub struct ScriptedProbe {
    scan_replies: Vec<Result<Vec<u8>, DebugProbeError>>,
    reset_reply: Result<(), DebugProbeError>,
    read_replies: Vec<Result<u32, Error>>,
    write_replies: Vec<Result<(), Error>>,
    scan_log: Vec<ScanRecord>,
    memory_log: Vec<MemoryOp>,
}

impl ScriptedProbe {
    /// The calls of the JTAG transport recorded so far.
    pub closed spec fn scan_history(&self) -> Seq<JtagOp> {
        records_view(self.scan_log@)
    }

    /// The accesses to memory recorded so far.
    pub closed spec fn access_history(&self) -> Seq<MemoryOp> {
        self.memory_log@
    }

    /// The scan answers that are left.
    pub closed spec fn scans_left(&self) -> Seq<Result<Seq<u8>, DebugProbeError>> {
        Seq::new(self.scan_replies@.len(), |i: int| reply_view(self.scan_replies@[i]))
    }

    /// The read answers that are left.
    pub closed spec fn reads_left(&self) -> Seq<Result<u32, Error>> {
        self.read_replies@
    }

    /// The write answers that are left.
    pub closed spec fn writes_left(&self) -> Seq<Result<(), Error>> {
        self.write_replies@
    }

    /// The answer to every assertion of the reset line.
    pub closed spec fn reset_answer(&self) -> Result<(), DebugProbeError> {
        self.reset_reply
    }

    /// A probe with the given script and nothing recorded.
    pub fn new(
        scan_replies: Vec<Result<Vec<u8>, DebugProbeError>>,
        reset_reply: Result<(), DebugProbeError>,
        read_replies: Vec<Result<u32, Error>>,
        write_replies: Vec<Result<(), Error>>,
    ) -> (r: Self)
        ensures
            r.scans() == Seq::<JtagOp>::empty(),
            r.accesses() == Seq::<MemoryOp>::empty(),
            r.scans_left() == Seq::new(scan_replies@.len(), |i: int| reply_view(scan_replies@[i])),
            r.reset_answer() == reset_reply,
            r.reads_left() == read_replies@,
            r.writes_left() == write_replies@,
    {
        let r = Self {
            scan_replies,
            reset_reply,
            read_replies,
            write_replies,
            scan_log: Vec::new(),
            memory_log: Vec::new(),
        };
        assert(r.scans() =~= Seq::<JtagOp>::empty());
        assert(r.scans_left() =~= Seq::new(
            scan_replies@.len(),
            |i: int| reply_view(scan_replies@[i]),
        ));
        assert(r.reads_left() =~= read_replies@);
        assert(r.writes_left() =~= write_replies@);
        r
    }

    /// The calls of the JTAG transport recorded so far, oldest first.
    pub fn scan_log(&self) -> (log: &Vec<ScanRecord>)
        ensures
            records_view(log@) == self.scans(),
    {
        &self.scan_log
    }

    /// The accesses to memory recorded so far, oldest first.
    pub fn memory_log(&self) -> (log: &Vec<MemoryOp>)
        ensures
            log@ == self.accesses(),
    {
        &self.memory_log
    }

    /// The next scripted answer to a scan, or a timeout when none is left.
    fn next_scan_reply(&mut self) -> (reply: Result<Vec<u8>, DebugProbeError>)
        ensures
            final(self).scan_log == old(self).scan_log,
            final(self).memory_log == old(self).memory_log,
            final(self).reset_reply == old(self).reset_reply,
            final(self).reads_left() == old(self).reads_left(),
            final(self).writes_left() == old(self).writes_left(),
            old(self).scans_left().len() == 0 ==> reply_view(reply) == Err::<
                Seq<u8>,
                DebugProbeError,
            >(DebugProbeError::Timeout) && final(self).scans_left() == old(self).scans_left(),
            old(self).scans_left().len() > 0 ==> reply_view(reply) == old(self).scans_left()[0]
                && final(self).scans_left() == old(self).scans_left().skip(1),
    {
        if self.scan_replies.len() > 0 {
            let reply = self.scan_replies.remove(0);
            assert(final(self).scans_left() =~= old(self).scans_left().skip(1));
            reply
        } else {
            Err(DebugProbeError::Timeout)
        }
    }
}

impl JtagAccess for ScriptedProbe {
    open spec fn scans(&self) -> Seq<JtagOp> {
        self.scan_history()
    }

    fn set_ir_len(&mut self, len: u32)
        ensures
            final(self).access_history() == old(self).access_history(),
            final(self).scans_left() == old(self).scans_left(),
            final(self).reset_answer() == old(self).reset_answer(),
            final(self).reads_left() == old(self).reads_left(),
            final(self).writes_left() == old(self).writes_left(),
    {
        self.scan_log.push(ScanRecord::SetIrLen { len });
        assert(final(self).scans() =~= old(self).scans().push(JtagOp::SetIrLen { len }));
    }

    fn target_reset_assert(&mut self) -> (reply: Result<(), DebugProbeError>)
        ensures
            reply == old(self).reset_answer(),
            final(self).access_history() == old(self).access_history(),
            final(self).scans_left() == old(self).scans_left(),
            final(self).reset_answer() == old(self).reset_answer(),
            final(self).reads_left() == old(self).reads_left(),
            final(self).writes_left() == old(self).writes_left(),
    {
        let reply = self.reset_reply;
        self.scan_log.push(ScanRecord::TargetResetAssert { reply });
        assert(final(self).scans() =~= old(self).scans().push(
            JtagOp::TargetResetAssert { reply },
        ));
        reply
    }

    fn read_register(&mut self, address: u32, len: u32) -> (reply: Result<Vec<u8>, DebugProbeError>)
        ensures
            final(self).access_history() == old(self).access_history(),
            final(self).reset_answer() == old(self).reset_answer(),
            final(self).reads_left() == old(self).reads_left(),
            final(self).writes_left() == old(self).writes_left(),
            old(self).scans_left().len() == 0 ==> reply_view(reply) == Err::<
                Seq<u8>,
                DebugProbeError,
            >(DebugProbeError::Timeout) && final(self).scans_left() == old(self).scans_left(),
            old(self).scans_left().len() > 0 ==> reply_view(reply) == old(self).scans_left()[0]
                && final(self).scans_left() == old(self).scans_left().skip(1),
    {
        let reply = self.next_scan_reply();
        let kept = match &reply {
            Ok(bytes) => Ok(copy_bytes(bytes.as_slice())),
            Err(e) => Err(*e),
        };
        self.scan_log.push(ScanRecord::ReadRegister { address, len, reply: kept });
        assert(final(self).scans() =~= old(self).scans().push(
            JtagOp::ReadRegister { address, len, reply: reply_view(reply) },
        ));
        reply
    }

    fn write_register(&mut self, address: u32, data: &[u8], len: u32) -> (reply: Result<
        Vec<u8>,
        DebugProbeError,
    >)
        ensures
            final(self).access_history() == old(self).access_history(),
            final(self).reset_answer() == old(self).reset_answer(),
            final(self).reads_left() == old(self).reads_left(),
            final(self).writes_left() == old(self).writes_left(),
            old(self).scans_left().len() == 0 ==> reply_view(reply) == Err::<
                Seq<u8>,
                DebugProbeError,
            >(DebugProbeError::Timeout) && final(self).scans_left() == old(self).scans_left(),
            old(self).scans_left().len() > 0 ==> reply_view(reply) == old(self).scans_left()[0]
                && final(self).scans_left() == old(self).scans_left().skip(1),
    {
        let reply = self.next_scan_reply();
        let kept = match &reply {
            Ok(bytes) => Ok(copy_bytes(bytes.as_slice())),
            Err(e) => Err(*e),
        };
        self.scan_log.push(
            ScanRecord::WriteRegister { address, data: copy_bytes(data), len, reply: kept },
        );
        assert(final(self).scans() =~= old(self).scans().push(
            JtagOp::WriteRegister { address, data: data@, len, reply: reply_view(reply) },
        ));
        reply
    }
}

impl ScriptedProbe {
    /// The next scripted answer to a read of memory, or a timeout when
    /// none is left.
    fn next_read_reply(&mut self) -> (reply: Result<u32, Error>)
        ensures
            final(self).scan_log == old(self).scan_log,
            final(self).memory_log == old(self).memory_log,
            final(self).reset_reply == old(self).reset_reply,
            final(self).scans_left() == old(self).scans_left(),
            final(self).writes_left() == old(self).writes_left(),
            old(self).reads_left().len() == 0 ==> reply == Err::<u32, Error>(
                Error::Probe(DebugProbeError::Timeout),
            ) && final(self).reads_left() == old(self).reads_left(),
            old(self).reads_left().len() > 0 ==> reply == old(self).reads_left()[0] && final(self).reads_left() == old(self).reads_left().skip(1),
    {
        if self.read_replies.len() > 0 {
            let reply = self.read_replies.remove(0);
            assert(final(self).reads_left() =~= old(self).reads_left().skip(1));
            reply
        } else {
            Err(Error::Probe(DebugProbeError::Timeout))
        }
    }

    /// The next scripted answer to a write to memory, or success when
    /// none is left.
    fn next_write_reply(&mut self) -> (reply: Result<(), Error>)
        ensures
            final(self).scan_log == old(self).scan_log,
            final(self).memory_log == old(self).memory_log,
            final(self).reset_reply == old(self).reset_reply,
            final(self).scans_left() == old(self).scans_left(),
            final(self).reads_left() == old(self).reads_left(),
            old(self).writes_left().len() == 0 ==> reply is Ok && final(self).writes_left() == old(self).writes_left(),
            old(self).writes_left().len() > 0 ==> reply == old(self).writes_left()[0] && final(self).writes_left() == old(self).writes_left().skip(1),
    {
        if self.write_replies.len() > 0 {
            let reply = self.write_replies.remove(0);
            assert(final(self).writes_left() =~= old(self).writes_left().skip(1));
            reply
        } else {
            Ok(())
        }
    }
}

impl TargetMemory for ScriptedProbe {
    open spec fn accesses(&self) -> Seq<MemoryOp> {
        self.access_history()
    }

    fn read_target_word(&mut self, address: u32) -> (reply: Result<u32, Error>)
        ensures
            final(self).scan_history() == old(self).scan_history(),
            final(self).scans_left() == old(self).scans_left(),
            final(self).reset_answer() == old(self).reset_answer(),
            final(self).writes_left() == old(self).writes_left(),
            old(self).reads_left().len() == 0 ==> reply == Err::<u32, Error>(
                Error::Probe(DebugProbeError::Timeout),
            ) && final(self).reads_left() == old(self).reads_left(),
            old(self).reads_left().len() > 0 ==> reply == old(self).reads_left()[0] && final(self).reads_left() == old(self).reads_left().skip(1),
    {
        let reply = self.next_read_reply();
        self.memory_log.push(MemoryOp::ReadWord32 { address, reply });
        reply
    }

    /// A scripted word answers a read of a byte with its low byte.
    fn read_target_byte(&mut self, address: u32) -> (reply: Result<u8, Error>)
        ensures
            final(self).scan_history() == old(self).scan_history(),
            final(self).scans_left() == old(self).scans_left(),
            final(self).reset_answer() == old(self).reset_answer(),
            final(self).writes_left() == old(self).writes_left(),
            old(self).reads_left().len() == 0 ==> reply == Err::<u8, Error>(
                Error::Probe(DebugProbeError::Timeout),
            ) && final(self).reads_left() == old(self).reads_left(),
            old(self).reads_left().len() > 0 ==> final(self).reads_left() == old(self).reads_left().skip(1) && reply == match old(self).reads_left()[0] {
                Ok(word) => Ok::<u8, Error>((word & 0xff) as u8),
                Err(e) => Err::<u8, Error>(e),
            },
    {
        let reply = match self.next_read_reply() {
            Ok(word) => {
                assert(word & 0xff < 256) by (bit_vector);
                Ok((word & 0xff) as u8)
            },
            Err(e) => Err(e),
        };
        self.memory_log.push(MemoryOp::ReadWord8 { address, reply });
        reply
    }

    fn write_target_word(&mut self, address: u32, data: u32) -> (reply: Result<(), Error>)
        ensures
            final(self).scan_history() == old(self).scan_history(),
            final(self).scans_left() == old(self).scans_left(),
            final(self).reset_answer() == old(self).reset_answer(),
            final(self).reads_left() == old(self).reads_left(),
            old(self).writes_left().len() == 0 ==> reply is Ok && final(self).writes_left() == old(self).writes_left(),
            old(self).writes_left().len() > 0 ==> reply == old(self).writes_left()[0] && final(self).writes_left() == old(self).writes_left().skip(1),
    {
        let reply = self.next_write_reply();
        self.memory_log.push(MemoryOp::WriteWord32 { address, data, reply });
        reply
    }

    fn write_target_byte(&mut self, address: u32, data: u8) -> (reply: Result<(), Error>)
        ensures
            final(self).scan_history() == old(self).scan_history(),
            final(self).scans_left() == old(self).scans_left(),
            final(self).reset_answer() == old(self).reset_answer(),
            final(self).reads_left() == old(self).reads_left(),
            old(self).writes_left().len() == 0 ==> reply is Ok && final(self).writes_left() == old(self).writes_left(),
            old(self).writes_left().len() > 0 ==> reply == old(self).writes_left()[0] && final(self).writes_left() == old(self).writes_left().skip(1),
    {
        let reply = self.next_write_reply();
        self.memory_log.push(MemoryOp::WriteWord8 { address, data, reply });
        reply
    }
}

} // verus!
