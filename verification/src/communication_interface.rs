//! The connection to a MIPS core: the EJTAG session, and access to the
//! memory of the target at the 64-bit addresses of the debugger.
use crate::ejtag::connect_words;
use crate::ejtag::is_connect_run;
use crate::ejtag::lemma_issued;
use crate::ejtag::lemma_issued_back;
use crate::ejtag::Ejtag;
use crate::ejtag::EjtagVersion;
use crate::error::Error;
use crate::error::MipsError;
use crate::probe::issued;
use crate::probe::JtagAccess;
use crate::probe::MemoryOp;
use crate::probe::TargetMemory;
use vstd::prelude::*;

verus! {

/// What is known of the debug unit of the core.
#[derive(Debug, Copy, Clone, PartialEq, Eq, Structural)]
pub struct MipsCommunicationInterfaceState {
    pub ejtag_version: EjtagVersion,
}

/// The connection to one MIPS core.
pub struct MipsCommunicationInterface<P: JtagAccess> {
    pub ejtag: Ejtag<P>,
    pub state: MipsCommunicationInterfaceState,
}

/// The address as one of the 32-bit address space of the target.
pub open spec fn spec_valid_32bit_address(address: u64) -> Result<u32, Error> {
    if address <= 0xFFFF_FFFF {
        Ok(address as u32)
    } else {
        Err(Error::InvalidAddress(address))
    }
}

/// Checks that an address lies in the 32-bit address space of the target.
#[verifier::when_used_as_spec(spec_valid_32bit_address)]
pub fn valid_32bit_address(address: u64) -> (r: Result<u32, Error>)
    ensures
        r == spec_valid_32bit_address(address),
{
    if address <= 0xFFFF_FFFF {
        Ok(address as u32)
    } else {
        Err(Error::InvalidAddress(address))
    }
}

/// The 64-bit word made of two words of 32 bits.
pub open spec fn join_words(hi: u32, lo: u32) -> u64 {
    (hi as u64) << 32u64 | (lo as u64)
}

/// Whether `ops` is the read of the 64-bit word at `address` that
/// ended with `result`: the low word is read at `address` and the high
/// word four bytes behind it. An address beyond the 32-bit address space
/// is refused before anything is read of it, and a read that fails ends
/// the run with its error.
pub open spec fn is_read_64_run(ops: Seq<MemoryOp>, address: u64, result: Result<
    u64,
    Error,
>) -> bool {
    if address > 0xFFFF_FFFF {
        ops.len() == 0 && result == Err::<u64, Error>(Error::InvalidAddress(address))
    } else {
        &&& ops.len() >= 1
        &&& ops[0] is ReadWord32
        &&& ops[0]->ReadWord32_address == address
        &&& match ops[0]->ReadWord32_reply {
            Err(e) => ops.len() == 1 && result == Err::<u64, Error>(e),
            Ok(lo) => if address + 4 > 0xFFFF_FFFF {
                ops.len() == 1 && result == Err::<u64, Error>(
                    Error::InvalidAddress((address + 4) as u64),
                )
            } else {
                &&& ops.len() == 2
                &&& ops[1] is ReadWord32
                &&& ops[1]->ReadWord32_address == address + 4
                &&& result == match ops[1]->ReadWord32_reply {
                    Err(e) => Err::<u64, Error>(e),
                    Ok(hi) => Ok::<u64, Error>(join_words(hi, lo)),
                }
            },
        }
    }
}

/// Whether `ops` is the write of the 64-bit word `data` at `address`
/// that ended with `result`: the low word is written at `address` and
/// the high word four bytes behind it. An address beyond the 32-bit
/// address space is refused before anything is written to it, and a write
/// that fails ends the run with its error.
pub open spec fn is_write_64_run(ops: Seq<MemoryOp>, address: u64, data: u64, result: Result<
    (),
    Error,
>) -> bool {
    if address > 0xFFFF_FFFF {
        ops.len() == 0 && result == Err::<(), Error>(Error::InvalidAddress(address))
    } else {
        &&& ops.len() >= 1
        &&& ops[0] is WriteWord32
        &&& ops[0]->WriteWord32_address == address
        &&& ops[0]->WriteWord32_data == data & 0xFFFF_FFFF
        &&& match ops[0]->WriteWord32_reply {
            Err(e) => ops.len() == 1 && result == Err::<(), Error>(e),
            Ok(_) => if address + 4 > 0xFFFF_FFFF {
                ops.len() == 1 && result == Err::<(), Error>(
                    Error::InvalidAddress((address + 4) as u64),
                )
            } else {
                &&& ops.len() == 2
                &&& ops[1] is WriteWord32
                &&& ops[1]->WriteWord32_address == address + 4
                &&& ops[1]->WriteWord32_data == data >> 32u64
                &&& match result {
                    Ok(_) => ops[1]->WriteWord32_reply is Ok,
                    Err(e) => ops[1]->WriteWord32_reply == Err::<(), Error>(e),
                }
            },
        }
    }
}

/// Whether `ops` is the read of the words at `address` and behind it
/// into a block that held `before`, that left `after` in it and ended with
/// `result`: the words are read in turn, four bytes apart, each into its
/// place. The first word whose address lies beyond the 32-bit address
/// space, or whose read fails, ends the run with its error, and the places
/// from it on keep what they held.
pub open spec fn is_read_32_block_run(
    ops: Seq<MemoryOp>,
    address: u64,
    before: Seq<u32>,
    after: Seq<u32>,
    result: Result<(), Error>,
) -> bool {
    let done = ops.len() as int;
    &&& after.len() == before.len()
    &&& done <= before.len()
    &&& forall|i: int|
        0 <= i < done ==> (#[trigger] ops[i]) is ReadWord32 && ops[i]->ReadWord32_address
            == address + 4 * i
    &&& forall|i: int| 0 <= i < done - 1 ==> (#[trigger] ops[i])->ReadWord32_reply is Ok
    &&& forall|i: int|
        0 <= i < before.len() ==> #[trigger] after[i] == if i < done
            && ops[i]->ReadWord32_reply is Ok {
            ops[i]->ReadWord32_reply->Ok_0
        } else {
            before[i]
        }
    &&& match result {
        Ok(_) => done == before.len() && (done > 0 ==> ops.last()->ReadWord32_reply is Ok),
        Err(e) => if done > 0 && ops.last()->ReadWord32_reply is Err {
            ops.last()->ReadWord32_reply == Err::<u32, Error>(e)
        } else {
            &&& done < before.len()
            &&& address + 4 * done > 0xFFFF_FFFF
            &&& e == Error::InvalidAddress((address + 4 * done) as u64)
        },
    }
}

/// Whether `ops` is the read of the bytes at `address` and behind it
/// into a block that held `before`, that left `after` in it and ended with
/// `result`: as for a block of words, with one byte for each place.
pub open spec fn is_read_8_block_run(
    ops: Seq<MemoryOp>,
    address: u64,
    before: Seq<u8>,
    after: Seq<u8>,
    result: Result<(), Error>,
) -> bool {
    let done = ops.len() as int;
    &&& after.len() == before.len()
    &&& done <= before.len()
    &&& forall|i: int|
        0 <= i < done ==> (#[trigger] ops[i]) is ReadWord8 && ops[i]->ReadWord8_address == address
            + i
    &&& forall|i: int| 0 <= i < done - 1 ==> (#[trigger] ops[i])->ReadWord8_reply is Ok
    &&& forall|i: int|
        0 <= i < before.len() ==> #[trigger] after[i] == if i < done
            && ops[i]->ReadWord8_reply is Ok {
            ops[i]->ReadWord8_reply->Ok_0
        } else {
            before[i]
        }
    &&& match result {
        Ok(_) => done == before.len() && (done > 0 ==> ops.last()->ReadWord8_reply is Ok),
        Err(e) => if done > 0 && ops.last()->ReadWord8_reply is Err {
            ops.last()->ReadWord8_reply == Err::<u8, Error>(e)
        } else {
            &&& done < before.len()
            &&& address + done > 0xFFFF_FFFF
            &&& e == Error::InvalidAddress((address + done) as u64)
        },
    }
}

/// Whether `ops` is the write of the words `data` at `address` and
/// behind it that ended with `result`: the words are written in turn, four
/// bytes apart. The first word whose address lies beyond the 32-bit
/// address space, or whose write fails, ends the run with its error.
pub open spec fn is_write_32_block_run(
    ops: Seq<MemoryOp>,
    address: u64,
    data: Seq<u32>,
    result: Result<(), Error>,
) -> bool {
    let done = ops.len() as int;
    &&& done <= data.len()
    &&& forall|i: int|
        0 <= i < done ==> {
            &&& (#[trigger] ops[i]) is WriteWord32
            &&& ops[i]->WriteWord32_address == address + 4 * i
            &&& ops[i]->WriteWord32_data == data[i]
        }
    &&& forall|i: int| 0 <= i < done - 1 ==> (#[trigger] ops[i])->WriteWord32_reply is Ok
    &&& match result {
        Ok(_) => done == data.len() && (done > 0 ==> ops.last()->WriteWord32_reply is Ok),
        Err(e) => if done > 0 && ops.last()->WriteWord32_reply is Err {
            ops.last()->WriteWord32_reply == Err::<(), Error>(e)
        } else {
            &&& done < data.len()
            &&& address + 4 * done > 0xFFFF_FFFF
            &&& e == Error::InvalidAddress((address + 4 * done) as u64)
        },
    }
}

/// Whether `ops` is the write of the bytes `data` at `address` and
/// behind it that ended with `result`: as for a block of words, with one
/// byte for each place.
pub open spec fn is_write_8_block_run(
    ops: Seq<MemoryOp>,
    address: u64,
    data: Seq<u8>,
    result: Result<(), Error>,
) -> bool {
    let done = ops.len() as int;
    &&& done <= data.len()
    &&& forall|i: int|
        0 <= i < done ==> {
            &&& (#[trigger] ops[i]) is WriteWord8
            &&& ops[i]->WriteWord8_address == address + i
            &&& ops[i]->WriteWord8_data == data[i]
        }
    &&& forall|i: int| 0 <= i < done - 1 ==> (#[trigger] ops[i])->WriteWord8_reply is Ok
    &&& match result {
        Ok(_) => done == data.len() && (done > 0 ==> ops.last()->WriteWord8_reply is Ok),
        Err(e) => if done > 0 && ops.last()->WriteWord8_reply is Err {
            ops.last()->WriteWord8_reply == Err::<(), Error>(e)
        } else {
            &&& done < data.len()
            &&& address + done > 0xFFFF_FFFF
            &&& e == Error::InvalidAddress((address + done) as u64)
        },
    }
}

/// Whether `ops` is the read of 64-bit words into a block, as
/// `is_read_64_block_run` describes it, with `done` words read in full.
pub open spec fn is_read_64_block_run_to(
    ops: Seq<MemoryOp>,
    address: u64,
    before: Seq<u64>,
    after: Seq<u64>,
    result: Result<(), Error>,
    done: int,
) -> bool {
    &&& after.len() == before.len()
    &&& 0 <= done <= before.len()
    &&& ops.len() >= 2 * done
    &&& forall|i: int|
        0 <= i < done ==> is_read_64_run(
            ops.subrange(2 * i, 2 * i + 2),
            (address + 8 * i) as u64,
            Ok(#[trigger] after[i]),
        )
    &&& forall|i: int| done <= i < before.len() ==> #[trigger] after[i] == before[i]
    &&& match result {
        Ok(_) => done == before.len() && ops.len() == 2 * done,
        Err(e) => done < before.len() && is_read_64_run(
            ops.skip(2 * done),
            (address + 8 * done) as u64,
            Err(e),
        ),
    }
}

/// Whether `ops` is the read of the 64-bit words at `address` and
/// behind it into a block that held `before`, that left `after` in it and
/// ended with `result`: the words are read in turn, eight bytes apart,
/// each as `is_read_64_run` describes, into its place. The first word
/// whose read fails ends the run with its error, and the places from it on
/// keep what they held.
pub open spec fn is_read_64_block_run(
    ops: Seq<MemoryOp>,
    address: u64,
    before: Seq<u64>,
    after: Seq<u64>,
    result: Result<(), Error>,
) -> bool {
    exists|done: int| is_read_64_block_run_to(ops, address, before, after, result, done)
}

/// Whether `ops` is the write of 64-bit words, as
/// `is_write_64_block_run` describes it, with `done` words written in full.
pub open spec fn is_write_64_block_run_to(
    ops: Seq<MemoryOp>,
    address: u64,
    data: Seq<u64>,
    result: Result<(), Error>,
    done: int,
) -> bool {
    &&& 0 <= done <= data.len()
    &&& ops.len() >= 2 * done
    &&& forall|i: int|
        0 <= i < done ==> is_write_64_run(
            ops.subrange(2 * i, 2 * i + 2),
            (address + 8 * i) as u64,
            #[trigger] data[i],
            Ok(()),
        )
    &&& match result {
        Ok(_) => done == data.len() && ops.len() == 2 * done,
        Err(e) => done < data.len() && is_write_64_run(
            ops.skip(2 * done),
            (address + 8 * done) as u64,
            data[done],
            Err(e),
        ),
    }
}

/// Whether `ops` is the write of the 64-bit words `data` at `address`
/// and behind it that ended with `result`: the words are written in turn,
/// eight bytes apart, each as `is_write_64_run` describes. The first word
/// whose write fails ends the run with its error.
pub open spec fn is_write_64_block_run(
    ops: Seq<MemoryOp>,
    address: u64,
    data: Seq<u64>,
    result: Result<(), Error>,
) -> bool {
    exists|done: int| is_write_64_block_run_to(ops, address, data, result, done)
}

impl<P: JtagAccess> MipsCommunicationInterface<P> {
    /// Whether the connection differs from `before` at most in the probe.
    pub open spec fn same_session(&self, before: &Self) -> bool {
        &&& self.state == before.state
        &&& self.ejtag.same_unit(&before.ejtag)
        &&& self.ejtag.ejtag_ctrl == before.ejtag.ejtag_ctrl
        &&& self.ejtag.phase == before.ejtag.phase
    }

    /// Connects to the core behind `probe`, as `Ejtag::new` does, and
    /// notes the version of the debug unit.
    pub fn new(probe: P) -> (r: Result<Self, (P, MipsError)>)
        ensures
            ({
                let after = match r {
                    Ok(i) => i.ejtag.probe,
                    Err(back) => back.0,
                };
                let ops = issued(probe.scans(), after.scans());
                &&& probe.scans().is_prefix_of(after.scans())
                &&& is_connect_run(ops)
                &&& match r {
                    Ok(i) => {
                        &&& connect_words(ops) is Ok
                        &&& i.ejtag.connected_with(
                            connect_words(ops)->Ok_0.0,
                            connect_words(ops)->Ok_0.1,
                            connect_words(ops)->Ok_0.2,
                        )
                        &&& i.state.ejtag_version == i.ejtag.ejtag_version
                    },
                    Err(back) => connect_words(ops) is Err && back.1 == MipsError::Error(
                        connect_words(ops)->Err_0,
                    ),
                }
            }),
    {
        match Ejtag::new(probe) {
            Ok(ejtag) => {
                let state = MipsCommunicationInterfaceState { ejtag_version: ejtag.ejtag_version };
                Ok(Self { ejtag, state })
            },
            Err(back) => Err(back),
        }
    }
}

impl<P: JtagAccess + TargetMemory> MipsCommunicationInterface<P> {
    /// What every access to memory keeps: all of the connection but
    /// the probe, whose history of accesses grows.
    pub open spec fn accessed(&self, before: &Self) -> bool {
        &&& self.same_session(before)
        &&& before.ejtag.probe.accesses().is_prefix_of(self.ejtag.probe.accesses())
    }

    /// What was added to the history of accesses since `before`.
    pub open spec fn new_accesses(&self, before: &Self) -> Seq<MemoryOp> {
        issued(before.ejtag.probe.accesses(), self.ejtag.probe.accesses())
    }

    /// Whether the target takes 64-bit accesses: it does not.
    pub fn supports_native_64bit_access(&mut self) -> (r: bool)
        ensures
            !r,
            *final(self) == *old(self),
    {
        false
    }

    /// Whether the target takes 8-bit accesses: it does.
    pub fn supports_8bit_transfers(&self) -> (r: Result<bool, Error>)
        ensures
            r == Ok::<bool, Error>(true),
    {
        Ok(true)
    }

    /// Waits for the accesses made so far to reach the target. None is
    /// held back, so there is nothing to wait for.
    pub fn flush(&mut self) -> (r: Result<(), Error>)
        ensures
            r is Ok,
            *final(self) == *old(self),
    {
        Ok(())
    }

    /// Reads the word at `address`. An address beyond the 32-bit
    /// address space is refused and nothing is read.
    pub fn read_word_32(&mut self, address: u64) -> (r: Result<u32, Error>)
        ensures
            final(self).accessed(old(self)),
            match valid_32bit_address(address) {
                Ok(a) => final(self).new_accesses(old(self)) == seq![
                    MemoryOp::ReadWord32 { address: a, reply: r },
                ],
                Err(e) => r == Err::<u32, Error>(e) && *final(self) == *old(self),
            },
    {
        let ghost before = self.ejtag.probe.accesses();
        let address = match valid_32bit_address(address) {
            Ok(a) => a,
            Err(e) => {
                return Err(e);
            },
        };
        let r = self.ejtag.probe.read_target_word(address);
        proof {
            let op = MemoryOp::ReadWord32 { address, reply: r };
            assert(self.ejtag.probe.accesses() =~= before + seq![op]);
            lemma_issued(before, seq![op]);
        }
        r
    }

    /// Reads the byte at `address`. An address beyond the 32-bit
    /// address space is refused and nothing is read.
    pub fn read_word_8(&mut self, address: u64) -> (r: Result<u8, Error>)
        ensures
            final(self).accessed(old(self)),
            match valid_32bit_address(address) {
                Ok(a) => final(self).new_accesses(old(self)) == seq![
                    MemoryOp::ReadWord8 { address: a, reply: r },
                ],
                Err(e) => r == Err::<u8, Error>(e) && *final(self) == *old(self),
            },
    {
        let ghost before = self.ejtag.probe.accesses();
        let address = match valid_32bit_address(address) {
            Ok(a) => a,
            Err(e) => {
                return Err(e);
            },
        };
        let r = self.ejtag.probe.read_target_byte(address);
        proof {
            let op = MemoryOp::ReadWord8 { address, reply: r };
            assert(self.ejtag.probe.accesses() =~= before + seq![op]);
            lemma_issued(before, seq![op]);
        }
        r
    }

    /// Writes `data` to the word at `address`. An address beyond the
    /// 32-bit address space is refused and nothing is written.
    pub fn write_word_32(&mut self, address: u64, data: u32) -> (r: Result<(), Error>)
        ensures
            final(self).accessed(old(self)),
            match valid_32bit_address(address) {
                Ok(a) => final(self).new_accesses(old(self)) == seq![
                    MemoryOp::WriteWord32 { address: a, data, reply: r },
                ],
                Err(e) => r == Err::<(), Error>(e) && *final(self) == *old(self),
            },
    {
        let ghost before = self.ejtag.probe.accesses();
        let address = match valid_32bit_address(address) {
            Ok(a) => a,
            Err(e) => {
                return Err(e);
            },
        };
        let r = self.ejtag.probe.write_target_word(address, data);
        proof {
            let op = MemoryOp::WriteWord32 { address, data, reply: r };
            assert(self.ejtag.probe.accesses() =~= before + seq![op]);
            lemma_issued(before, seq![op]);
        }
        r
    }

    /// Writes `data` to the byte at `address`. An address beyond the
    /// 32-bit address space is refused and nothing is written.
    pub fn write_word_8(&mut self, address: u64, data: u8) -> (r: Result<(), Error>)
        ensures
            final(self).accessed(old(self)),
            match valid_32bit_address(address) {
                Ok(a) => final(self).new_accesses(old(self)) == seq![
                    MemoryOp::WriteWord8 { address: a, data, reply: r },
                ],
                Err(e) => r == Err::<(), Error>(e) && *final(self) == *old(self),
            },
    {
        let ghost before = self.ejtag.probe.accesses();
        let address = match valid_32bit_address(address) {
            Ok(a) => a,
            Err(e) => {
                return Err(e);
            },
        };
        let r = self.ejtag.probe.write_target_byte(address, data);
        proof {
            let op = MemoryOp::WriteWord8 { address, data, reply: r };
            assert(self.ejtag.probe.accesses() =~= before + seq![op]);
            lemma_issued(before, seq![op]);
        }
        r
    }

    /// Reads the 64-bit word at `address` as two words of 32 bits, the
    /// low one first; `is_read_64_run` describes the accesses.
    pub fn read_word_64(&mut self, address: u64) -> (r: Result<u64, Error>)
        ensures
            final(self).accessed(old(self)),
            is_read_64_run(final(self).new_accesses(old(self)), address, r),
    {
        let ghost before = self.ejtag.probe.accesses();
        let lo = match self.read_word_32(address) {
            Ok(lo) => lo,
            Err(e) => {
                return Err(e);
            },
        };
        let ghost mid = self.ejtag.probe.accesses();
        let ghost op1 = MemoryOp::ReadWord32 {
            address: address as u32,
            reply: Ok::<u32, Error>(lo),
        };
        proof {
            lemma_issued_back(before, mid);
        }
        let hi = match self.read_word_32(address + 4) {
            Ok(hi) => hi,
            Err(e) => {
                proof {
                    lemma_issued_back(mid, self.ejtag.probe.accesses());
                    if address + 4 <= 0xFFFF_FFFF {
                        let op2 = MemoryOp::ReadWord32 {
                            address: (address + 4) as u32,
                            reply: Err::<u32, Error>(e),
                        };
                        assert(self.ejtag.probe.accesses() =~= before + seq![op1, op2]);
                        lemma_issued(before, seq![op1, op2]);
                    }
                }
                return Err(e);
            },
        };
        proof {
            lemma_issued_back(mid, self.ejtag.probe.accesses());
            let op2 = MemoryOp::ReadWord32 {
                address: (address + 4) as u32,
                reply: Ok::<u32, Error>(hi),
            };
            assert(self.ejtag.probe.accesses() =~= before + seq![op1, op2]);
            lemma_issued(before, seq![op1, op2]);
        }
        Ok((hi as u64) << 32u64 | (lo as u64))
    }

    /// Writes the 64-bit word `data` at `address` as two words of 32
    /// bits, the low one first; `is_write_64_run` describes the accesses.
    pub fn write_word_64(&mut self, address: u64, data: u64) -> (r: Result<(), Error>)
        ensures
            final(self).accessed(old(self)),
            is_write_64_run(final(self).new_accesses(old(self)), address, data, r),
    {
        let ghost before = self.ejtag.probe.accesses();
        assert(data & 0xFFFF_FFFF <= 0xFFFF_FFFF && data >> 32u64 <= 0xFFFF_FFFF) by (bit_vector);
        let lo = (data & 0xFFFF_FFFF) as u32;
        let hi = (data >> 32u64) as u32;
        let first = self.write_word_32(address, lo);
        match first {
            Ok(_) => {},
            Err(e) => {
                return Err(e);
            },
        }
        let ghost mid = self.ejtag.probe.accesses();
        let ghost op1 = MemoryOp::WriteWord32 { address: address as u32, data: lo, reply: first };
        proof {
            lemma_issued_back(before, mid);
        }
        let r = self.write_word_32(address + 4, hi);
        proof {
            lemma_issued_back(mid, self.ejtag.probe.accesses());
            if address + 4 <= 0xFFFF_FFFF {
                let op2 = MemoryOp::WriteWord32 {
                    address: (address + 4) as u32,
                    data: hi,
                    reply: r,
                };
                assert(self.ejtag.probe.accesses() =~= before + seq![op1, op2]);
                lemma_issued(before, seq![op1, op2]);
            }
        }
        r
    }

    /// Reads the words at `address` and behind it into `data`;
    /// `is_read_32_block_run` describes the accesses.
    pub fn read_32(&mut self, address: u64, data: &mut [u32]) -> (r: Result<(), Error>)
        ensures
            final(self).accessed(old(self)),
            is_read_32_block_run(
                final(self).new_accesses(old(self)),
                address,
                old(data)@,
                final(data)@,
                r,
            ),
    {
        let ghost before = self.ejtag.probe.accesses();
        let ghost mut ops: Seq<MemoryOp> = Seq::empty();
        let n = data.len();
        let mut i: usize = 0;
        proof {
            assert(before + ops =~= before);
            lemma_issued(before, ops);
        }
        while i < n
            invariant
                n == data@.len(),
                n == old(data)@.len(),
                i <= n,
                before == old(self).ejtag.probe.accesses(),
                self.ejtag.probe.accesses() == before + ops,
                self.same_session(old(self)),
                ops.len() == i,
                i > 0 ==> address + 4 * (i - 1) <= 0xFFFF_FFFF,
                forall|j: int|
                    0 <= j < i ==> {
                        &&& (#[trigger] ops[j]) is ReadWord32
                        &&& ops[j]->ReadWord32_address == address + 4 * j
                        &&& ops[j]->ReadWord32_reply is Ok
                        &&& data@[j] == ops[j]->ReadWord32_reply->Ok_0
                    },
                forall|j: int| i <= j < n ==> data@[j] == old(data)@[j],
            decreases n - i,
        {
            proof {
                lemma_issued(before, ops);
            }
            let ghost mid = self.ejtag.probe.accesses();
            let at = address + 4 * (i as u64);
            let read = self.read_word_32(at);
            proof {
                lemma_issued_back(mid, self.ejtag.probe.accesses());
                if at <= 0xFFFF_FFFF {
                    let op = MemoryOp::ReadWord32 { address: at as u32, reply: read };
                    let ops0 = ops;
                    ops = ops0.push(op);
                    assert(self.ejtag.probe.accesses() =~= before + ops);
                    assert(ops.last() == op);
                    assert forall|j: int| 0 <= j < i implies #[trigger] ops[j] == ops0[j] by {}
                }
                lemma_issued(before, ops);
            }
            let word = match read {
                Ok(word) => word,
                Err(e) => {
                    return Err(e);
                },
            };
            data[i] = word;
            i += 1;
        }
        proof {
            lemma_issued(before, ops);
        }
        Ok(())
    }

    /// Reads the bytes at `address` and behind it into `data`;
    /// `is_read_8_block_run` describes the accesses.
    pub fn read_8(&mut self, address: u64, data: &mut [u8]) -> (r: Result<(), Error>)
        ensures
            final(self).accessed(old(self)),
            is_read_8_block_run(
                final(self).new_accesses(old(self)),
                address,
                old(data)@,
                final(data)@,
                r,
            ),
    {
        let ghost before = self.ejtag.probe.accesses();
        let ghost mut ops: Seq<MemoryOp> = Seq::empty();
        let n = data.len();
        let mut i: usize = 0;
        proof {
            assert(before + ops =~= before);
            lemma_issued(before, ops);
        }
        while i < n
            invariant
                n == data@.len(),
                n == old(data)@.len(),
                i <= n,
                before == old(self).ejtag.probe.accesses(),
                self.ejtag.probe.accesses() == before + ops,
                self.same_session(old(self)),
                ops.len() == i,
                i > 0 ==> address + (i - 1) <= 0xFFFF_FFFF,
                forall|j: int|
                    0 <= j < i ==> {
                        &&& (#[trigger] ops[j]) is ReadWord8
                        &&& ops[j]->ReadWord8_address == address + j
                        &&& ops[j]->ReadWord8_reply is Ok
                        &&& data@[j] == ops[j]->ReadWord8_reply->Ok_0
                    },
                forall|j: int| i <= j < n ==> data@[j] == old(data)@[j],
            decreases n - i,
        {
            proof {
                lemma_issued(before, ops);
            }
            let ghost mid = self.ejtag.probe.accesses();
            let at = address + (i as u64);
            let read = self.read_word_8(at);
            proof {
                lemma_issued_back(mid, self.ejtag.probe.accesses());
                if at <= 0xFFFF_FFFF {
                    let op = MemoryOp::ReadWord8 { address: at as u32, reply: read };
                    let ops0 = ops;
                    ops = ops0.push(op);
                    assert(self.ejtag.probe.accesses() =~= before + ops);
                    assert(ops.last() == op);
                    assert forall|j: int| 0 <= j < i implies #[trigger] ops[j] == ops0[j] by {}
                }
                lemma_issued(before, ops);
            }
            let byte = match read {
                Ok(byte) => byte,
                Err(e) => {
                    return Err(e);
                },
            };
            data[i] = byte;
            i += 1;
        }
        proof {
            lemma_issued(before, ops);
        }
        Ok(())
    }

    /// Writes the words of `data` at `address` and behind it;
    /// `is_write_32_block_run` describes the accesses.
    pub fn write_32(&mut self, address: u64, data: &[u32]) -> (r: Result<(), Error>)
        ensures
            final(self).accessed(old(self)),
            is_write_32_block_run(final(self).new_accesses(old(self)), address, data@, r),
    {
        let ghost before = self.ejtag.probe.accesses();
        let ghost mut ops: Seq<MemoryOp> = Seq::empty();
        let n = data.len();
        let mut i: usize = 0;
        proof {
            assert(before + ops =~= before);
            lemma_issued(before, ops);
        }
        while i < n
            invariant
                n == data@.len(),
                i <= n,
                before == old(self).ejtag.probe.accesses(),
                self.ejtag.probe.accesses() == before + ops,
                self.same_session(old(self)),
                ops.len() == i,
                i > 0 ==> address + 4 * (i - 1) <= 0xFFFF_FFFF,
                forall|j: int|
                    0 <= j < i ==> {
                        &&& (#[trigger] ops[j]) is WriteWord32
                        &&& ops[j]->WriteWord32_address == address + 4 * j
                        &&& ops[j]->WriteWord32_data == data@[j]
                        &&& ops[j]->WriteWord32_reply is Ok
                    },
            decreases n - i,
        {
            proof {
                lemma_issued(before, ops);
            }
            let ghost mid = self.ejtag.probe.accesses();
            let at = address + 4 * (i as u64);
            let wrote = self.write_word_32(at, data[i]);
            proof {
                lemma_issued_back(mid, self.ejtag.probe.accesses());
                if at <= 0xFFFF_FFFF {
                    let op = MemoryOp::WriteWord32 {
                        address: at as u32,
                        data: data@[i as int],
                        reply: wrote,
                    };
                    let ops0 = ops;
                    ops = ops0.push(op);
                    assert(self.ejtag.probe.accesses() =~= before + ops);
                    assert(ops.last() == op);
                    assert forall|j: int| 0 <= j < i implies #[trigger] ops[j] == ops0[j] by {}
                }
                lemma_issued(before, ops);
            }
            match wrote {
                Ok(_) => {},
                Err(e) => {
                    return Err(e);
                },
            }
            i += 1;
        }
        proof {
            lemma_issued(before, ops);
        }
        Ok(())
    }

    /// Writes the bytes of `data` at `address` and behind it;
    /// `is_write_8_block_run` describes the accesses.
    pub fn write_8(&mut self, address: u64, data: &[u8]) -> (r: Result<(), Error>)
        ensures
            final(self).accessed(old(self)),
            is_write_8_block_run(final(self).new_accesses(old(self)), address, data@, r),
    {
        let ghost before = self.ejtag.probe.accesses();
        let ghost mut ops: Seq<MemoryOp> = Seq::empty();
        let n = data.len();
        let mut i: usize = 0;
        proof {
            assert(before + ops =~= before);
            lemma_issued(before, ops);
        }
        while i < n
            invariant
                n == data@.len(),
                i <= n,
                before == old(self).ejtag.probe.accesses(),
                self.ejtag.probe.accesses() == before + ops,
                self.same_session(old(self)),
                ops.len() == i,
                i > 0 ==> address + (i - 1) <= 0xFFFF_FFFF,
                forall|j: int|
                    0 <= j < i ==> {
                        &&& (#[trigger] ops[j]) is WriteWord8
                        &&& ops[j]->WriteWord8_address == address + j
                        &&& ops[j]->WriteWord8_data == data@[j]
                        &&& ops[j]->WriteWord8_reply is Ok
                    },
            decreases n - i,
        {
            proof {
                lemma_issued(before, ops);
            }
            let ghost mid = self.ejtag.probe.accesses();
            let at = address + (i as u64);
            let wrote = self.write_word_8(at, data[i]);
            proof {
                lemma_issued_back(mid, self.ejtag.probe.accesses());
                if at <= 0xFFFF_FFFF {
                    let op = MemoryOp::WriteWord8 {
                        address: at as u32,
                        data: data@[i as int],
                        reply: wrote,
                    };
                    let ops0 = ops;
                    ops = ops0.push(op);
                    assert(self.ejtag.probe.accesses() =~= before + ops);
                    assert(ops.last() == op);
                    assert forall|j: int| 0 <= j < i implies #[trigger] ops[j] == ops0[j] by {}
                }
                lemma_issued(before, ops);
            }
            match wrote {
                Ok(_) => {},
                Err(e) => {
                    return Err(e);
                },
            }
            i += 1;
        }
        proof {
            lemma_issued(before, ops);
        }
        Ok(())
    }

    /// Reads the 64-bit words at `address` and behind it into `data`;
    /// `is_read_64_block_run` describes the accesses.
    pub fn read_64(&mut self, address: u64, data: &mut [u64]) -> (r: Result<(), Error>)
        ensures
            final(self).accessed(old(self)),
            is_read_64_block_run(
                final(self).new_accesses(old(self)),
                address,
                old(data)@,
                final(data)@,
                r,
            ),
    {
        let ghost before = self.ejtag.probe.accesses();
        let ghost mut ops: Seq<MemoryOp> = Seq::empty();
        let n = data.len();
        let mut i: usize = 0;
        proof {
            assert(before + ops =~= before);
            lemma_issued(before, ops);
        }
        while i < n
            invariant
                n == data@.len(),
                n == old(data)@.len(),
                i <= n,
                before == old(self).ejtag.probe.accesses(),
                self.ejtag.probe.accesses() == before + ops,
                self.same_session(old(self)),
                ops.len() == 2 * i,
                i > 0 ==> address + 8 * (i - 1) + 4 <= 0xFFFF_FFFF,
                forall|j: int|
                    0 <= j < i ==> is_read_64_run(
                        ops.subrange(2 * j, 2 * j + 2),
                        (address + 8 * j) as u64,
                        Ok(#[trigger] data@[j]),
                    ),
                forall|j: int| i <= j < n ==> data@[j] == old(data)@[j],
            decreases n - i,
        {
            let ghost mid = self.ejtag.probe.accesses();
            let ghost ops0 = ops;
            let ghost data0 = data@;
            let at = address + 8 * (i as u64);
            let read = self.read_word_64(at);
            proof {
                lemma_issued_back(mid, self.ejtag.probe.accesses());
                let step = issued(mid, self.ejtag.probe.accesses());
                ops = ops0 + step;
                assert(self.ejtag.probe.accesses() =~= before + ops);
                lemma_issued(before, ops);
                assert(ops.skip(2 * i) =~= step);
                assert forall|j: int| 0 <= j < i implies is_read_64_run(
                    ops.subrange(2 * j, 2 * j + 2),
                    (address + 8 * j) as u64,
                    Ok(#[trigger] data@[j]),
                ) by {
                    assert(ops.subrange(2 * j, 2 * j + 2) =~= ops0.subrange(2 * j, 2 * j + 2));
                }
                if read is Ok {
                    assert(ops.subrange(2 * i, 2 * i + 2) =~= step);
                }
            }
            let word = match read {
                Ok(word) => word,
                Err(e) => {
                    proof {
                        assert(is_read_64_block_run_to(
                            ops,
                            address,
                            old(data)@,
                            data@,
                            Err(e),
                            i as int,
                        ));
                    }
                    return Err(e);
                },
            };
            data[i] = word;
            proof {
                assert forall|j: int| 0 <= j <= i implies is_read_64_run(
                    ops.subrange(2 * j, 2 * j + 2),
                    (address + 8 * j) as u64,
                    Ok(#[trigger] data@[j]),
                ) by {
                    if j < i {
                        assert(data@[j] == data0[j]);
                    }
                }
            }
            i += 1;
        }
        proof {
            lemma_issued(before, ops);
            assert(is_read_64_block_run_to(ops, address, old(data)@, data@, Ok(()), n as int));
        }
        Ok(())
    }

    /// Writes the 64-bit words of `data` at `address` and behind it;
    /// `is_write_64_block_run` describes the accesses.
    pub fn write_64(&mut self, address: u64, data: &[u64]) -> (r: Result<(), Error>)
        ensures
            final(self).accessed(old(self)),
            is_write_64_block_run(final(self).new_accesses(old(self)), address, data@, r),
    {
        let ghost before = self.ejtag.probe.accesses();
        let ghost mut ops: Seq<MemoryOp> = Seq::empty();
        let n = data.len();
        let mut i: usize = 0;
        proof {
            assert(before + ops =~= before);
            lemma_issued(before, ops);
        }
        while i < n
            invariant
                n == data@.len(),
                i <= n,
                before == old(self).ejtag.probe.accesses(),
                self.ejtag.probe.accesses() == before + ops,
                self.same_session(old(self)),
                ops.len() == 2 * i,
                i > 0 ==> address + 8 * (i - 1) + 4 <= 0xFFFF_FFFF,
                forall|j: int|
                    0 <= j < i ==> is_write_64_run(
                        ops.subrange(2 * j, 2 * j + 2),
                        (address + 8 * j) as u64,
                        #[trigger] data@[j],
                        Ok(()),
                    ),
            decreases n - i,
        {
            let ghost mid = self.ejtag.probe.accesses();
            let ghost ops0 = ops;
            let at = address + 8 * (i as u64);
            let wrote = self.write_word_64(at, data[i]);
            proof {
                lemma_issued_back(mid, self.ejtag.probe.accesses());
                let step = issued(mid, self.ejtag.probe.accesses());
                ops = ops0 + step;
                assert(self.ejtag.probe.accesses() =~= before + ops);
                lemma_issued(before, ops);
                assert(ops.skip(2 * i) =~= step);
                assert forall|j: int| 0 <= j < i implies is_write_64_run(
                    ops.subrange(2 * j, 2 * j + 2),
                    (address + 8 * j) as u64,
                    #[trigger] data@[j],
                    Ok(()),
                ) by {
                    assert(ops.subrange(2 * j, 2 * j + 2) =~= ops0.subrange(2 * j, 2 * j + 2));
                }
                if wrote is Ok {
                    assert(ops.subrange(2 * i, 2 * i + 2) =~= step);
                }
            }
            match wrote {
                Ok(_) => {},
                Err(e) => {
                    proof {
                        assert(is_write_64_block_run_to(ops, address, data@, Err(e), i as int));
                    }
                    return Err(e);
                },
            }
            i += 1;
        }
        proof {
            lemma_issued(before, ops);
            assert(is_write_64_block_run_to(ops, address, data@, Ok(()), n as int));
        }
        Ok(())
    }
}

} // verus!
