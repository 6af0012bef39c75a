//! What the backend asks of the debug probe: scans of JTAG registers,
//! and reads and writes of words of target memory.
//!
//! A driver of a probe implements `JtagProbe` and, where it can reach the
//! memory of the target, `MemoryProbe`. The backend works on `JtagAccess`
//! and `TargetMemory`, which keep, in ghost state, the history of the calls
//! made through them. A call adds one entry with its arguments and its
//! answer and changes no other entry, so the contract of a function that
//! drives a probe can say which calls it made, in which order and with
//! which data. `Traced` keeps that history for any driver.
use crate::error::DebugProbeError;
use crate::error::Error;
use vstd::prelude::*;

verus! {

/// One call of the JTAG transport, with what it answered.
#[allow(inconsistent_fields)]
pub enum JtagOp {
    /// The length of the instruction register was set.
    SetIrLen { len: u32 },
    /// The target's reset line was asserted.
    TargetResetAssert { reply: Result<(), DebugProbeError> },
    /// The register selected by instruction `address` was read, `len` bits of it.
    ReadRegister { address: u32, len: u32, reply: Result<Seq<u8>, DebugProbeError> },
    /// `len` bits of `data` were shifted into the register selected by
    /// instruction `address`; the answer holds what was shifted out.
    WriteRegister { address: u32, data: Seq<u8>, len: u32, reply: Result<Seq<u8>, DebugProbeError> },
}

/// The answer of a scan with the bytes as a sequence.
pub open spec fn reply_view(reply: Result<Vec<u8>, DebugProbeError>) -> Result<
    Seq<u8>,
    DebugProbeError,
> {
    match reply {
        Ok(bytes) => Ok(bytes@),
        Err(e) => Err(e),
    }
}

/// The JTAG transport with its history. The backend owns it and is its
/// only caller, so the history holds every call that reached the transport.
pub trait JtagAccess {
    /// Every call made so far, oldest first.
    spec fn scans(&self) -> Seq<JtagOp>;

    /// Sets the length of the instruction register, in bits.
    fn set_ir_len(&mut self, len: u32)
        ensures
            final(self).scans() == old(self).scans().push(JtagOp::SetIrLen { len }),
    ;

    /// Asserts the reset line of the target.
    fn target_reset_assert(&mut self) -> (reply: Result<(), DebugProbeError>)
        ensures
            final(self).scans() == old(self).scans().push(JtagOp::TargetResetAssert { reply }),
    ;

    /// Reads `len` bits of the register that instruction `address` selects.
    fn read_register(&mut self, address: u32, len: u32) -> (reply: Result<Vec<u8>, DebugProbeError>)
        ensures
            final(self).scans() == old(self).scans().push(
                JtagOp::ReadRegister { address, len, reply: reply_view(reply) },
            ),
    ;

    /// Shifts `len` bits of `data` into the register that instruction
    /// `address` selects and answers with the bits shifted out, which are
    /// what the register held before.
    fn write_register(&mut self, address: u32, data: &[u8], len: u32) -> (reply: Result<
        Vec<u8>,
        DebugProbeError,
    >)
        ensures
            final(self).scans() == old(self).scans().push(
                JtagOp::WriteRegister { address, data: data@, len, reply: reply_view(reply) },
            ),
    ;
}

/// One access to target memory, with what it answered.
#[allow(inconsistent_fields)]
#[derive(Debug, Clone, Copy, PartialEq, Eq)]
pub enum MemoryOp {
    /// The word at `address` was read.
    ReadWord32 { address: u32, reply: Result<u32, Error> },
    /// The byte at `address` was read.
    ReadWord8 { address: u32, reply: Result<u8, Error> },
    /// `data` was written to the word at `address`.
    WriteWord32 { address: u32, data: u32, reply: Result<(), Error> },
    /// `data` was written to the byte at `address`.
    WriteWord8 { address: u32, data: u8, reply: Result<(), Error> },
}

/// Access to the memory of the target with its history, a word or a byte
/// at a time, at 32-bit addresses. The debug registers of the core are
/// reached through it too.
pub trait TargetMemory {
    /// Every access made so far, oldest first.
    spec fn accesses(&self) -> Seq<MemoryOp>;

    /// Reads the word at `address`.
    fn read_target_word(&mut self, address: u32) -> (reply: Result<u32, Error>)
        ensures
            final(self).accesses() == old(self).accesses().push(
                MemoryOp::ReadWord32 { address, reply },
            ),
    ;

    /// Reads the byte at `address`.
    fn read_target_byte(&mut self, address: u32) -> (reply: Result<u8, Error>)
        ensures
            final(self).accesses() == old(self).accesses().push(
                MemoryOp::ReadWord8 { address, reply },
            ),
    ;

    /// Writes `data` to the word at `address`.
    fn write_target_word(&mut self, address: u32, data: u32) -> (reply: Result<(), Error>)
        ensures
            final(self).accesses() == old(self).accesses().push(
                MemoryOp::WriteWord32 { address, data, reply },
            ),
    ;

    /// Writes `data` to the byte at `address`.
    fn write_target_byte(&mut self, address: u32, data: u8) -> (reply: Result<(), Error>)
        ensures
            final(self).accesses() == old(self).accesses().push(
                MemoryOp::WriteWord8 { address, data, reply },
            ),
    ;
}

/// What a function added to a history that was `before` and is now `after`.
pub open spec fn issued<T>(before: Seq<T>, after: Seq<T>) -> Seq<T> {
    after.skip(before.len() as int)
}

/// A driver of a JTAG transport. Nothing is asked of what it answers.
pub trait JtagProbe {
    /// Sets the length of the instruction register, in bits.
    fn set_ir_len(&mut self, len: u32);

    /// Asserts the reset line of the target.
    fn target_reset_assert(&mut self) -> Result<(), DebugProbeError>;

    /// Reads `len` bits of the register that instruction `address` selects.
    fn read_register(&mut self, address: u32, len: u32) -> Result<Vec<u8>, DebugProbeError>;

    /// Shifts `len` bits of `data` into the register that instruction
    /// `address` selects and answers with the bits shifted out.
    fn write_register(&mut self, address: u32, data: &[u8], len: u32) -> Result<
        Vec<u8>,
        DebugProbeError,
    >;
}

/// A driver that reaches the memory of the target. Nothing is asked of
/// what it answers.
pub trait MemoryProbe {
    /// Reads the word at `address`.
    fn read_target_word(&mut self, address: u32) -> Result<u32, Error>;

    /// Reads the byte at `address`.
    fn read_target_byte(&mut self, address: u32) -> Result<u8, Error>;

    /// Writes `data` to the word at `address`.
    fn write_target_word(&mut self, address: u32, data: u32) -> Result<(), Error>;

    /// Writes `data` to the byte at `address`.
    fn write_target_byte(&mut self, address: u32, data: u8) -> Result<(), Error>;
}

/// A driver together with the history of the calls made through it.
pub struct Traced<T> {
    inner: T,
    scans: Ghost<Seq<JtagOp>>,
    accesses: Ghost<Seq<MemoryOp>>,
}

impl<T> Traced<T> {
    /// The driver.
    pub closed spec fn driver(&self) -> T {
        self.inner
    }

    /// The calls of the JTAG transport made so far.
    pub closed spec fn scan_history(&self) -> Seq<JtagOp> {
        self.scans@
    }

    /// The accesses to memory made so far.
    pub closed spec fn access_history(&self) -> Seq<MemoryOp> {
        self.accesses@
    }

    /// Starts the history of a driver.
    pub fn new(inner: T) -> (r: Self)
        ensures
            r.driver() == inner,
            r.scan_history() == Seq::<JtagOp>::empty(),
            r.access_history() == Seq::<MemoryOp>::empty(),
    {
        Traced { inner, scans: Ghost(Seq::empty()), accesses: Ghost(Seq::empty()) }
    }

    /// Gives the driver back.
    pub fn into_inner(self) -> (inner: T)
        ensures
            inner == self.driver(),
    {
        self.inner
    }

    /// The driver, to look at.
    pub fn get_ref(&self) -> (inner: &T)
        ensures
            *inner == self.driver(),
    {
        &self.inner
    }
}

impl<T: JtagProbe> JtagAccess for Traced<T> {
    open spec fn scans(&self) -> Seq<JtagOp> {
        self.scan_history()
    }

    fn set_ir_len(&mut self, len: u32)
        ensures
            final(self).access_history() == old(self).access_history(),
    {
        self.inner.set_ir_len(len);
        self.scans = Ghost(self.scans@.push(JtagOp::SetIrLen { len }));
    }

    fn target_reset_assert(&mut self) -> (reply: Result<(), DebugProbeError>)
        ensures
            final(self).access_history() == old(self).access_history(),
    {
        let reply = self.inner.target_reset_assert();
        self.scans = Ghost(self.scans@.push(JtagOp::TargetResetAssert { reply }));
        reply
    }

    fn read_register(&mut self, address: u32, len: u32) -> (reply: Result<Vec<u8>, DebugProbeError>)
        ensures
            final(self).access_history() == old(self).access_history(),
    {
        let reply = self.inner.read_register(address, len);
        self.scans = Ghost(
            self.scans@.push(JtagOp::ReadRegister { address, len, reply: reply_view(reply) }),
        );
        reply
    }

    fn write_register(&mut self, address: u32, data: &[u8], len: u32) -> (reply: Result<
        Vec<u8>,
        DebugProbeError,
    >)
        ensures
            final(self).access_history() == old(self).access_history(),
    {
        let reply = self.inner.write_register(address, data, len);
        self.scans = Ghost(
            self.scans@.push(
                JtagOp::WriteRegister { address, data: data@, len, reply: reply_view(reply) },
            ),
        );
        reply
    }
}

impl<T: MemoryProbe> TargetMemory for Traced<T> {
    open spec fn accesses(&self) -> Seq<MemoryOp> {
        self.access_history()
    }

    fn read_target_word(&mut self, address: u32) -> (reply: Result<u32, Error>)
        ensures
            final(self).scan_history() == old(self).scan_history(),
    {
        let reply = self.inner.read_target_word(address);
        self.accesses = Ghost(self.accesses@.push(MemoryOp::ReadWord32 { address, reply }));
        reply
    }

    fn read_target_byte(&mut self, address: u32) -> (reply: Result<u8, Error>)
        ensures
            final(self).scan_history() == old(self).scan_history(),
    {
        let reply = self.inner.read_target_byte(address);
        self.accesses = Ghost(self.accesses@.push(MemoryOp::ReadWord8 { address, reply }));
        reply
    }

    fn write_target_word(&mut self, address: u32, data: u32) -> (reply: Result<(), Error>)
        ensures
            final(self).scan_history() == old(self).scan_history(),
    {
        let reply = self.inner.write_target_word(address, data);
        self.accesses = Ghost(
            self.accesses@.push(MemoryOp::WriteWord32 { address, data, reply }),
        );
        reply
    }

    fn write_target_byte(&mut self, address: u32, data: u8) -> (reply: Result<(), Error>)
        ensures
            final(self).scan_history() == old(self).scan_history(),
    {
        let reply = self.inner.write_target_byte(address, data);
        self.accesses = Ghost(self.accesses@.push(MemoryOp::WriteWord8 { address, data, reply }));
        reply
    }
}

} // verus!
