//! The MIPS32 core as the debugger sees it: its breakpoint units, its
//! memory and what it can and cannot do.
use crate::communication_interface::is_read_32_block_run;
use crate::communication_interface::is_read_64_block_run;
use crate::communication_interface::is_read_64_run;
use crate::communication_interface::is_read_8_block_run;
use crate::communication_interface::is_write_32_block_run;
use crate::communication_interface::is_write_64_block_run;
use crate::communication_interface::is_write_8_block_run;
use crate::communication_interface::is_write_64_run;
use crate::communication_interface::valid_32bit_address;
use crate::communication_interface::MipsCommunicationInterface;
use crate::debug_regs::Config1;
use crate::debug_regs::DebugCtrl;
use crate::debug_regs::IBS;
use crate::ejtag::lemma_issued;
use crate::ejtag::lemma_issued_back;
use crate::ejtag::BreakpointRegister;
use crate::ejtag::EjtagOffsets;
use crate::ejtag::EJTAG_DRSEG;
use crate::bits::field;
use crate::bits::flag;
use crate::error::Capability;
use crate::error::Error;
use crate::error::MipsError;
use crate::probe::issued;
use crate::probe::JtagAccess;
use crate::probe::MemoryOp;
use crate::probe::TargetMemory;
use crate::registers::fp;
use crate::registers::mips32_core_registers;
use crate::registers::pc;
use crate::registers::ra;
use crate::registers::sp;
use crate::registers::spec_core_registers;
use crate::registers::spec_gpr;
use crate::registers::spec_pc;
use crate::registers::specs_of;
use crate::registers::CoreRegister;
use vstd::prelude::*;

verus! {

/// The architecture of a core.
#[derive(Debug, Copy, Clone, PartialEq, Eq, Structural)]
pub enum Architecture {
    Arm,
    Riscv,
    Mips,
}

/// The kind of a core.
#[derive(Debug, Copy, Clone, PartialEq, Eq, Structural)]
pub enum CoreType {
    Armv6m,
    Armv7a,
    Armv7m,
    Armv7em,
    Armv8a,
    Armv8m,
    Riscv,
    Mips,
}

/// What is kept of a MIPS core between two attachments.
#[derive(Debug, Copy, Clone, PartialEq, Eq, Structural)]
pub struct MipsState {
    /// The Config1 register of the core, which tells whether it has a
    /// floating point unit.
    pub cfg: Config1,
}

impl MipsState {
    /// The state of a core of which nothing is known yet.
    pub fn new() -> (r: Self)
        ensures
            r.cfg == Config1(0),
    {
        Self { cfg: Config1(0) }
    }
}

/// The enable bits that belong to a number of breakpoint channels.
pub open spec fn channel_enable_mask(bcn: u32) -> u32 {
    if bcn == 4 {
        0b1111
    } else if bcn == 2 {
        0b0111
    } else if bcn == 3 {
        0b0011
    } else if bcn == 1 {
        0b0001
    } else {
        0
    }
}

/// The value to write to the status register of the instruction
/// breakpoints, which held `ibs`: to enable, the enable bits of its number
/// of channels are set; to disable, it is written back as it is.
pub open spec fn spec_ibs_with_breakpoints(ibs: u32, state: bool) -> u32 {
    if state {
        ibs | channel_enable_mask(field(ibs, 27, 24))
    } else {
        ibs
    }
}

/// Computes the value to write to the status register of the
/// instruction breakpoints to enable or disable them.
#[verifier::when_used_as_spec(spec_ibs_with_breakpoints)]
pub fn ibs_with_breakpoints(ibs: u32, state: bool) -> (r: u32)
    ensures
        r == spec_ibs_with_breakpoints(ibs, state),
{
    let mask = if state {
        0b1111u32
    } else {
        0u32
    };
    let mut value = ibs;
    assert(ibs | (0u32 & 0b1111) == ibs && ibs | (0u32 & 0b0111) == ibs && ibs | (0u32 & 0b0011)
        == ibs && ibs | (0u32 & 0b0001) == ibs && 0b1111u32 & 0b1111 == 0b1111 && 0b1111u32
        & 0b0111 == 0b0111 && 0b1111u32 & 0b0011 == 0b0011 && 0b1111u32 & 0b0001 == 0b0001 && ibs
        | 0 == ibs) by (bit_vector);
    match IBS(ibs).bcn() {
        4 => value |= mask & 0b1111,
        2 => value |= mask & 0b0111,
        3 => value |= mask & 0b0011,
        1 => value |= mask & 0b0001,
        _ => (),
    }
    value
}

/// The word that the debug unit is given for a breakpoint at `addr`,
/// which must lie in the 32-bit address space.
pub open spec fn spec_breakpoint_word(addr: u64) -> Result<u32, Error> {
    if addr & 0xFFFFFFFF_00000000u64 != 0 {
        Err(Error::Mips(MipsError::BreakpointError((addr & 0xFFFF_FFFF) as u32)))
    } else {
        Ok(addr as u32)
    }
}

/// Checks the address of a breakpoint: one with a bit above bit 31 is
/// refused, with its low 32 bits in the error.
#[verifier::when_used_as_spec(spec_breakpoint_word)]
pub fn breakpoint_word(addr: u64) -> (r: Result<u32, Error>)
    ensures
        r == spec_breakpoint_word(addr),
        addr <= 0xFFFF_FFFF <==> r is Ok,
{
    assert(addr & 0xFFFF_FFFF <= 0xFFFF_FFFF && (addr & 0xFFFFFFFF_00000000u64 != 0 <==> addr
        > 0xFFFF_FFFF)) by (bit_vector);
    if addr & 0xFFFFFFFF_00000000u64 != 0 {
        Err(Error::Mips(MipsError::BreakpointError((addr & 0xFFFF_FFFF) as u32)))
    } else {
        Ok(addr as u32)
    }
}

/// The address of the status register of the instruction breakpoints.
pub open spec fn ibs_address(offsets: EjtagOffsets) -> Result<u64, Error> {
    offsets.get_mmio_address_by_id(EJTAG_DRSEG, BreakpointRegister::Ibs, 0)
}

/// The address of the address register of instruction breakpoint `index`.
pub open spec fn iba_address(offsets: EjtagOffsets, index: usize) -> Result<u64, Error> {
    offsets.get_mmio_address_by_id(EJTAG_DRSEG, BreakpointRegister::Iba, index)
}

/// The number of accesses that it takes to learn the number of
/// breakpoint units, of which `known` are known: one, unless the number
/// is known already or its register has no address.
pub open spec fn discovery_len(known: u32, offsets: EjtagOffsets) -> nat {
    if known != 0 || ibs_address(offsets) is Err {
        0
    } else {
        1
    }
}

/// Whether `ops` are the accesses that learn the number of breakpoint
/// units: none when it is known, else one read of the status register.
pub open spec fn is_discovery(ops: Seq<MemoryOp>, known: u32, offsets: EjtagOffsets) -> bool {
    &&& ops.len() == discovery_len(known, offsets)
    &&& ops.len() == 1 ==> ops[0] is ReadWord32 && ops[0]->ReadWord32_address == ibs_address(
        offsets,
    )->Ok_0
}

/// The number of breakpoint units after the accesses `ops` that learn
/// it: the known number, or the channel count in the status word read.
pub open spec fn discovery_result(ops: Seq<MemoryOp>, known: u32, offsets: EjtagOffsets) -> Result<
    u32,
    Error,
> {
    if known != 0 {
        Ok(known)
    } else {
        match ibs_address(offsets) {
            Err(e) => Err(e),
            Ok(_) => match ops[0]->ReadWord32_reply {
                Err(e) => Err(e),
                Ok(ibs) => Ok(field(ibs, 27, 24)),
            },
        }
    }
}

/// The number of breakpoint units that is kept after the accesses
/// `ops` that learn it.
pub open spec fn discovery_cache(ops: Seq<MemoryOp>, known: u32, offsets: EjtagOffsets) -> u32 {
    match discovery_result(ops, known, offsets) {
        Ok(count) => count,
        Err(_) => known,
    }
}

/// What a breakpoint unit holds, from the word in its address
/// register: zero stands for no breakpoint.
pub open spec fn breakpoint_of(word: u32) -> Option<u64> {
    if word == 0 {
        None
    } else {
        Some(word as u64)
    }
}

/// Whether `ops` are the accesses that list the breakpoints and end
/// with `result`: the number of units is learnt, then the address
/// register of each unit is read in turn. The first address that leaves
/// the address space, or read that fails, ends the run with its error.
pub open spec fn is_list_run(
    ops: Seq<MemoryOp>,
    known: u32,
    offsets: EjtagOffsets,
    result: Result<Seq<Option<u64>>, Error>,
) -> bool {
    let n = discovery_len(known, offsets) as int;
    &&& ops.len() >= n
    &&& is_discovery(ops.take(n), known, offsets)
    &&& match discovery_result(ops.take(n), known, offsets) {
        Err(e) => ops.len() == n && result == Err::<Seq<Option<u64>>, Error>(e),
        Ok(count) => {
            let reads = ops.len() - n;
            &&& reads <= count
            &&& forall|i: int|
                0 <= i < reads ==> {
                    &&& iba_address(offsets, i as usize) is Ok
                    &&& (#[trigger] ops[n + i]) is ReadWord32
                    &&& ops[n + i]->ReadWord32_address == iba_address(offsets, i as usize)->Ok_0
                }
            &&& forall|i: int|
                0 <= i < reads - 1 ==> (#[trigger] ops[n + i])->ReadWord32_reply is Ok
            &&& match result {
                Ok(list) => {
                    &&& reads == count
                    &&& list.len() == count
                    &&& forall|i: int|
                        0 <= i < count ==> (#[trigger] ops[n + i])->ReadWord32_reply is Ok
                            && list[i] == breakpoint_of(ops[n + i]->ReadWord32_reply->Ok_0)
                },
                Err(e) => if reads > 0 && ops.last()->ReadWord32_reply is Err {
                    ops.last()->ReadWord32_reply == Err::<u32, Error>(e)
                } else {
                    reads < count && iba_address(offsets, reads as usize) == Err::<u64, Error>(e)
                },
            }
        },
    }
}

/// Whether `ops` are the accesses that enable or disable the
/// breakpoints and end with `result`: the status register is read and
/// written back with the value of `ibs_with_breakpoints`.
pub open spec fn is_enable_run(
    ops: Seq<MemoryOp>,
    offsets: EjtagOffsets,
    state: bool,
    result: Result<(), Error>,
) -> bool {
    match ibs_address(offsets) {
        Err(e) => ops.len() == 0 && result == Err::<(), Error>(e),
        Ok(a) => {
            &&& ops.len() >= 1
            &&& ops[0] is ReadWord32
            &&& ops[0]->ReadWord32_address == a
            &&& match ops[0]->ReadWord32_reply {
                Err(e) => ops.len() == 1 && result == Err::<(), Error>(e),
                Ok(ibs) => {
                    &&& ops.len() == 2
                    &&& ops[1] == (MemoryOp::WriteWord32 {
                        address: a as u32,
                        data: ibs_with_breakpoints(ibs, state),
                        reply: result,
                    })
                },
            }
        },
    }
}

/// The number of breakpoint units that is kept after the accesses
/// `ops` that enable or disable the breakpoints: the known number, or the
/// channel count in the status word read.
pub open spec fn enable_cache(ops: Seq<MemoryOp>, known: u32) -> u32 {
    if known == 0 && ops.len() >= 1 && ops[0]->ReadWord32_reply is Ok {
        field(ops[0]->ReadWord32_reply->Ok_0, 27, 24)
    } else {
        known
    }
}

/// Whether `ops` are the accesses that set a breakpoint and end with
/// `result`: an address beyond 32 bits is refused before any access;
/// else the number of units is learnt and the address is written to the
/// address register of unit `unit_index`.
pub open spec fn is_set_run(
    ops: Seq<MemoryOp>,
    known: u32,
    offsets: EjtagOffsets,
    unit_index: usize,
    addr: u64,
    result: Result<(), Error>,
) -> bool {
    match breakpoint_word(addr) {
        Err(e) => ops.len() == 0 && result == Err::<(), Error>(e),
        Ok(word) => {
            let n = discovery_len(known, offsets) as int;
            &&& ops.len() >= n
            &&& is_discovery(ops.take(n), known, offsets)
            &&& match discovery_result(ops.take(n), known, offsets) {
                Err(e) => ops.len() == n && result == Err::<(), Error>(e),
                Ok(_) => match iba_address(offsets, unit_index) {
                    Err(e) => ops.len() == n && result == Err::<(), Error>(e),
                    Ok(a) => ops.len() == n + 1 && ops[n] == (MemoryOp::WriteWord32 {
                        address: a as u32,
                        data: word,
                        reply: result,
                    }),
                },
            }
        },
    }
}

/// Whether `ops` are the accesses that clear a breakpoint and end with
/// `result`: the number of units is learnt, and zero is written to the
/// address register of unit `unit_index` once for each unit that there
/// is. An address that leaves the address space, or the first write that
/// fails, ends the run with its error.
pub open spec fn is_clear_run(
    ops: Seq<MemoryOp>,
    known: u32,
    offsets: EjtagOffsets,
    unit_index: usize,
    result: Result<(), Error>,
) -> bool {
    let n = discovery_len(known, offsets) as int;
    &&& ops.len() >= n
    &&& is_discovery(ops.take(n), known, offsets)
    &&& match discovery_result(ops.take(n), known, offsets) {
        Err(e) => ops.len() == n && result == Err::<(), Error>(e),
        Ok(count) => if count == 0 {
            ops.len() == n && result is Ok
        } else {
            match iba_address(offsets, unit_index) {
                Err(e) => ops.len() == n && result == Err::<(), Error>(e),
                Ok(a) => {
                    let writes = ops.len() - n;
                    &&& 1 <= writes <= count
                    &&& forall|i: int|
                        0 <= i < writes ==> {
                            &&& (#[trigger] ops[n + i]) is WriteWord32
                            &&& ops[n + i]->WriteWord32_address == a
                            &&& ops[n + i]->WriteWord32_data == 0
                        }
                    &&& forall|i: int|
                        0 <= i < writes - 1 ==> (#[trigger] ops[n + i])->WriteWord32_reply is Ok
                    &&& match result {
                        Ok(_) => ops.last()->WriteWord32_reply is Ok && writes == count,
                        Err(e) => ops.last()->WriteWord32_reply == Err::<(), Error>(e),
                    }
                },
            }
        },
    }
}

/// A MIPS32 core that a debugger is attached to.
pub struct Mips32<'probe, P: JtagAccess + TargetMemory> {
    pub id: usize,
    pub interface: &'probe mut MipsCommunicationInterface<P>,
    pub state: &'probe mut MipsState,
    /// The number of breakpoint units, zero as long as it is not known.
    pub breakpoints: u32,
}

impl<'probe, P: JtagAccess + TargetMemory> Mips32<'probe, P> {
    /// Attaches to the core behind `interface`.
    pub fn new(
        interface: &'probe mut MipsCommunicationInterface<P>,
        state: &'probe mut MipsState,
        id: usize,
    ) -> (r: Self)
        ensures
            r.id == id,
            r.breakpoints == 0,
            *r.interface == *old(interface),
            *r.state == *old(state),
            *final(r.interface) == *final(interface),
            *final(r.state) == *final(state),
    {
        Self { id, interface, state, breakpoints: 0 }
    }

    /// What every operation of the core keeps: its number, its state,
    /// and all of the connection but the probe, whose history of accesses grows.
    pub open spec fn kept(&self, before: &Self) -> bool {
        &&& self.id == before.id
        &&& *self.state == *before.state
        &&& self.interface.accessed(before.interface)
    }

    /// Whether nothing at all has changed since `before`.
    pub open spec fn untouched(&self, before: &Self) -> bool {
        &&& self.id == before.id
        &&& self.breakpoints == before.breakpoints
        &&& *self.state == *before.state
        &&& *self.interface == *before.interface
    }

    /// What was added to the history of accesses since `before`.
    pub open spec fn new_accesses(&self, before: &Self) -> Seq<MemoryOp> {
        self.interface.new_accesses(before.interface)
    }

    /// The Config1 word that the state holds.
    pub open spec fn config1(&self) -> Config1 {
        self.state.cfg
    }

    /// The Debug Control word that the session holds.
    pub open spec fn debug_ctrl(&self) -> DebugCtrl {
        self.interface.ejtag.debug_ctrl
    }

    /// The memory map of the breakpoint registers.
    pub open spec fn offsets(&self) -> EjtagOffsets {
        self.interface.ejtag.offsets
    }

    /// The number of breakpoint units. It is read from the status
    /// register of the instruction breakpoints when it is not known, and
    /// kept from then on.
    pub fn available_breakpoint_units(&mut self) -> (r: Result<u32, Error>)
        ensures
            final(self).kept(old(self)),
            *final(final(self).interface) == *final(old(self).interface),
            *final(final(self).state) == *final(old(self).state),
            is_discovery(final(self).new_accesses(old(self)), old(self).breakpoints, old(self).offsets()),
            r == discovery_result(
                final(self).new_accesses(old(self)),
                old(self).breakpoints,
                old(self).offsets(),
            ),
            final(self).breakpoints == discovery_cache(
                final(self).new_accesses(old(self)),
                old(self).breakpoints,
                old(self).offsets(),
            ),
    {
        let ghost before = self.interface.ejtag.probe.accesses();
        proof {
            lemma_issued(before, Seq::empty());
            assert(before + Seq::<MemoryOp>::empty() =~= before);
        }
        if self.breakpoints == 0 {
            let ibs_addr = match self.interface.ejtag.offsets.get_mmio_address_by_id(
                EJTAG_DRSEG,
                BreakpointRegister::Ibs,
                0,
            ) {
                Ok(a) => a,
                Err(e) => {
                    return Err(e);
                },
            };
            let ibs = match self.interface.read_word_32(ibs_addr) {
                Ok(word) => IBS(word),
                Err(e) => {
                    return Err(e);
                },
            };
            self.breakpoints = ibs.bcn();
        }
        Ok(self.breakpoints)
    }

    /// Lists what each breakpoint unit holds; `is_list_run` describes the accesses.
    pub fn hw_breakpoints(&mut self) -> (r: Result<Vec<Option<u64>>, Error>)
        ensures
            final(self).kept(old(self)),
            *final(final(self).interface) == *final(old(self).interface),
            *final(final(self).state) == *final(old(self).state),
            is_list_run(
                final(self).new_accesses(old(self)),
                old(self).breakpoints,
                old(self).offsets(),
                match r {
                    Ok(list) => Ok(list@),
                    Err(e) => Err(e),
                },
            ),
            final(self).breakpoints == discovery_cache(
                final(self).new_accesses(old(self)).take(
                    discovery_len(old(self).breakpoints, old(self).offsets()) as int,
                ),
                old(self).breakpoints,
                old(self).offsets(),
            ),
    {
        let ghost before = self.interface.ejtag.probe.accesses();
        let ghost known = self.breakpoints;
        let offsets = self.interface.ejtag.offsets;
        let found = self.available_breakpoint_units();
        let ghost d_ops = issued(before, self.interface.ejtag.probe.accesses());
        let ghost nd = discovery_len(known, offsets) as int;
        proof {
            lemma_issued_back(before, self.interface.ejtag.probe.accesses());
            assert(d_ops.take(nd) =~= d_ops);
        }
        let count = match found {
            Ok(count) => count,
            Err(e) => {
                return Err(e);
            },
        };
        let mut bps: Vec<Option<u64>> = Vec::new();
        let ghost mut reads: Seq<MemoryOp> = Seq::empty();
        let mut n: u32 = 0;
        proof {
            assert(before + d_ops + reads =~= before + d_ops);
        }
        while n < count
            invariant
                n <= count,
                before == old(self).interface.ejtag.probe.accesses(),
                known == old(self).breakpoints,
                offsets == old(self).offsets(),
                nd == discovery_len(known, offsets),
                d_ops.len() == nd,
                is_discovery(d_ops, known, offsets),
                discovery_result(d_ops, known, offsets) == Ok::<u32, Error>(count),
                self.breakpoints == discovery_cache(d_ops, known, offsets),
                self.interface.ejtag.probe.accesses() == before + d_ops + reads,
                reads.len() == n,
                bps@.len() == n,
                forall|i: int|
                    0 <= i < n ==> {
                        &&& iba_address(offsets, i as usize) is Ok
                        &&& (#[trigger] reads[i]) is ReadWord32
                        &&& reads[i]->ReadWord32_address == iba_address(offsets, i as usize)->Ok_0
                        &&& reads[i]->ReadWord32_reply is Ok
                        &&& bps@[i] == breakpoint_of(reads[i]->ReadWord32_reply->Ok_0)
                    },
                self.id == old(self).id,
                *self.state == *old(self).state,
                self.interface.same_session(old(self).interface),
                *final(self.interface) == *final(old(self).interface),
                *final(self.state) == *final(old(self).state),
            decreases count - n,
        {
            let ghost ops = d_ops + reads;
            proof {
                lemma_issued(before, ops);
                assert(before + ops =~= before + d_ops + reads);
                assert(ops.take(nd) =~= d_ops);
                assert forall|i: int| 0 <= i < n implies #[trigger] ops[nd + i] == reads[i] by {}
            }
            let iban_addr = match offsets.get_mmio_address_by_id(
                EJTAG_DRSEG,
                BreakpointRegister::Iba,
                n as usize,
            ) {
                Ok(a) => a,
                Err(e) => {
                    return Err(e);
                },
            };
            let ghost mid = self.interface.ejtag.probe.accesses();
            let read = self.interface.read_word_32(iban_addr);
            let ghost op = MemoryOp::ReadWord32 { address: iban_addr as u32, reply: read };
            proof {
                lemma_issued_back(mid, self.interface.ejtag.probe.accesses());
                let ops1 = d_ops + reads.push(op);
                assert(self.interface.ejtag.probe.accesses() =~= before + ops1);
                assert(before + ops1 =~= before + d_ops + reads.push(op));
                lemma_issued(before, ops1);
                assert(ops1.take(nd) =~= d_ops);
                assert(ops1.last() == op);
                assert forall|i: int| 0 <= i <= n implies #[trigger] ops1[nd + i] == reads.push(
                    op,
                )[i] by {}
                assert forall|i: int| 0 <= i < n implies reads.push(op)[i] == reads[i] by {}
            }
            let word = match read {
                Ok(word) => word,
                Err(e) => {
                    return Err(e);
                },
            };
            bps.push(
                match word {
                    0 => None,
                    val => Some(val as u64),
                },
            );
            proof {
                reads = reads.push(op);
            }
            n += 1;
        }
        proof {
            let ops = d_ops + reads;
            lemma_issued(before, ops);
            assert(before + ops =~= before + d_ops + reads);
            assert(ops.take(nd) =~= d_ops);
            assert forall|i: int| 0 <= i < n implies #[trigger] ops[nd + i] == reads[i] by {}
        }
        Ok(bps)
    }

    /// Enables or disables the instruction breakpoints; `is_enable_run`
    /// describes the accesses. The number of breakpoint units is noted
    /// from the status word when it is not known.
    pub fn enable_breakpoints(&mut self, state: bool) -> (r: Result<(), Error>)
        ensures
            final(self).kept(old(self)),
            *final(final(self).interface) == *final(old(self).interface),
            *final(final(self).state) == *final(old(self).state),
            is_enable_run(final(self).new_accesses(old(self)), old(self).offsets(), state, r),
            final(self).breakpoints == enable_cache(
                final(self).new_accesses(old(self)),
                old(self).breakpoints,
            ),
    {
        let ghost before = self.interface.ejtag.probe.accesses();
        let offsets = self.interface.ejtag.offsets;
        proof {
            lemma_issued(before, Seq::empty());
            assert(before + Seq::<MemoryOp>::empty() =~= before);
        }
        let ibs_addr = match offsets.get_mmio_address_by_id(
            EJTAG_DRSEG,
            BreakpointRegister::Ibs,
            0,
        ) {
            Ok(a) => a,
            Err(e) => {
                return Err(e);
            },
        };
        let read = self.interface.read_word_32(ibs_addr);
        let ghost op1 = MemoryOp::ReadWord32 { address: ibs_addr as u32, reply: read };
        let ghost mid = self.interface.ejtag.probe.accesses();
        proof {
            lemma_issued_back(before, mid);
        }
        let ibs = match read {
            Ok(word) => word,
            Err(e) => {
                return Err(e);
            },
        };
        if self.breakpoints == 0 {
            self.breakpoints = IBS(ibs).bcn();
        }
        let value = ibs_with_breakpoints(ibs, state);
        let r = self.interface.write_word_32(ibs_addr, value);
        proof {
            let op2 = MemoryOp::WriteWord32 { address: ibs_addr as u32, data: value, reply: r };
            lemma_issued_back(mid, self.interface.ejtag.probe.accesses());
            assert(self.interface.ejtag.probe.accesses() =~= before + seq![op1, op2]);
            lemma_issued(before, seq![op1, op2]);
        }
        r
    }

    /// Sets a breakpoint at `addr` in unit `unit_index`; `is_set_run`
    /// describes the accesses. An address with a bit above bit 31 is
    /// refused, and nothing is read or written for it.
    pub fn set_hw_breakpoint(&mut self, unit_index: usize, addr: u64) -> (r: Result<(), Error>)
        ensures
            final(self).kept(old(self)),
            *final(final(self).interface) == *final(old(self).interface),
            *final(final(self).state) == *final(old(self).state),
            is_set_run(
                final(self).new_accesses(old(self)),
                old(self).breakpoints,
                old(self).offsets(),
                unit_index,
                addr,
                r,
            ),
            addr > 0xFFFF_FFFF ==> final(self).untouched(old(self)),
            addr <= 0xFFFF_FFFF ==> final(self).breakpoints == discovery_cache(
                final(self).new_accesses(old(self)).take(
                    discovery_len(old(self).breakpoints, old(self).offsets()) as int,
                ),
                old(self).breakpoints,
                old(self).offsets(),
            ),
    {
        let ghost before = self.interface.ejtag.probe.accesses();
        let ghost known = self.breakpoints;
        let offsets = self.interface.ejtag.offsets;
        proof {
            lemma_issued(before, Seq::empty());
            assert(before + Seq::<MemoryOp>::empty() =~= before);
        }
        let word = match breakpoint_word(addr) {
            Ok(word) => word,
            Err(e) => {
                return Err(e);
            },
        };
        let found = self.available_breakpoint_units();
        let ghost d_ops = issued(before, self.interface.ejtag.probe.accesses());
        let ghost nd = discovery_len(known, offsets) as int;
        let ghost mid = self.interface.ejtag.probe.accesses();
        proof {
            lemma_issued_back(before, mid);
            assert(d_ops.take(nd) =~= d_ops);
        }
        match found {
            Ok(_) => {},
            Err(e) => {
                return Err(e);
            },
        }
        let iban_addr = match offsets.get_mmio_address_by_id(
            EJTAG_DRSEG,
            BreakpointRegister::Iba,
            unit_index,
        ) {
            Ok(a) => a,
            Err(e) => {
                return Err(e);
            },
        };
        let r = self.interface.write_word_32(iban_addr, word);
        proof {
            let op = MemoryOp::WriteWord32 { address: iban_addr as u32, data: word, reply: r };
            lemma_issued_back(mid, self.interface.ejtag.probe.accesses());
            let ops = d_ops.push(op);
            assert(self.interface.ejtag.probe.accesses() =~= before + ops);
            lemma_issued(before, ops);
            assert(ops.take(nd) =~= d_ops);
        }
        r
    }

    /// Clears the breakpoint of unit `unit_index`; `is_clear_run`
    /// describes the accesses.
    pub fn clear_hw_breakpoint(&mut self, unit_index: usize) -> (r: Result<(), Error>)
        ensures
            final(self).kept(old(self)),
            *final(final(self).interface) == *final(old(self).interface),
            *final(final(self).state) == *final(old(self).state),
            is_clear_run(
                final(self).new_accesses(old(self)),
                old(self).breakpoints,
                old(self).offsets(),
                unit_index,
                r,
            ),
            final(self).breakpoints == discovery_cache(
                final(self).new_accesses(old(self)).take(
                    discovery_len(old(self).breakpoints, old(self).offsets()) as int,
                ),
                old(self).breakpoints,
                old(self).offsets(),
            ),
    {
        let ghost before = self.interface.ejtag.probe.accesses();
        let ghost known = self.breakpoints;
        let offsets = self.interface.ejtag.offsets;
        let found = self.available_breakpoint_units();
        let ghost d_ops = issued(before, self.interface.ejtag.probe.accesses());
        let ghost nd = discovery_len(known, offsets) as int;
        proof {
            lemma_issued_back(before, self.interface.ejtag.probe.accesses());
            assert(d_ops.take(nd) =~= d_ops);
        }
        let count = match found {
            Ok(count) => count,
            Err(e) => {
                return Err(e);
            },
        };
        let ghost mut writes: Seq<MemoryOp> = Seq::empty();
        let mut n: u32 = 0;
        proof {
            assert(before + d_ops + writes =~= before + d_ops);
        }
        while n < count
            invariant
                n <= count,
                before == old(self).interface.ejtag.probe.accesses(),
                known == old(self).breakpoints,
                offsets == old(self).offsets(),
                nd == discovery_len(known, offsets),
                d_ops.len() == nd,
                is_discovery(d_ops, known, offsets),
                discovery_result(d_ops, known, offsets) == Ok::<u32, Error>(count),
                self.breakpoints == discovery_cache(d_ops, known, offsets),
                self.interface.ejtag.probe.accesses() == before + d_ops + writes,
                writes.len() == n,
                n > 0 ==> iba_address(offsets, unit_index) is Ok,
                forall|i: int|
                    0 <= i < n ==> {
                        &&& (#[trigger] writes[i]) is WriteWord32
                        &&& writes[i]->WriteWord32_address == iba_address(
                            offsets,
                            unit_index,
                        )->Ok_0
                        &&& writes[i]->WriteWord32_data == 0
                        &&& writes[i]->WriteWord32_reply is Ok
                    },
                self.id == old(self).id,
                *self.state == *old(self).state,
                self.interface.same_session(old(self).interface),
                *final(self.interface) == *final(old(self).interface),
                *final(self.state) == *final(old(self).state),
            decreases count - n,
        {
            let ghost ops = d_ops + writes;
            proof {
                lemma_issued(before, ops);
                assert(before + ops =~= before + d_ops + writes);
                assert(ops.take(nd) =~= d_ops);
            }
            let iban_addr = match offsets.get_mmio_address_by_id(
                EJTAG_DRSEG,
                BreakpointRegister::Iba,
                unit_index,
            ) {
                Ok(a) => a,
                Err(e) => {
                    return Err(e);
                },
            };
            let ghost mid = self.interface.ejtag.probe.accesses();
            let wrote = self.interface.write_word_32(iban_addr, 0);
            let ghost op = MemoryOp::WriteWord32 {
                address: iban_addr as u32,
                data: 0,
                reply: wrote,
            };
            proof {
                lemma_issued_back(mid, self.interface.ejtag.probe.accesses());
                let ops1 = d_ops + writes.push(op);
                assert(self.interface.ejtag.probe.accesses() =~= before + ops1);
                assert(before + ops1 =~= before + d_ops + writes.push(op));
                lemma_issued(before, ops1);
                assert(ops1.take(nd) =~= d_ops);
                assert(ops1.last() == op);
                assert forall|i: int| 0 <= i <= n implies #[trigger] ops1[nd + i] == writes.push(
                    op,
                )[i] by {}
                assert forall|i: int| 0 <= i < n implies writes.push(op)[i] == writes[i] by {}
            }
            match wrote {
                Ok(_) => {},
                Err(e) => {
                    return Err(e);
                },
            }
            proof {
                writes = writes.push(op);
            }
            n += 1;
        }
        proof {
            let ops = d_ops + writes;
            lemma_issued(before, ops);
            assert(before + ops =~= before + d_ops + writes);
            assert(ops.take(nd) =~= d_ops);
            assert forall|i: int| 0 <= i < n implies #[trigger] ops[nd + i] == writes[i] by {}
            if n > 0 {
                assert(ops.last() == writes[n - 1]);
            }
        }
        Ok(())
    }

    /// Whether the debug unit has instruction breakpoints.
    pub fn hw_breakpoints_enabled(&self) -> (r: bool)
        ensures
            r == flag(self.debug_ctrl().0, 16),
    {
        self.interface.ejtag.debug_ctrl.inst_brk()
    }

    /// Asks for a halt at software breakpoints. The core halts at them
    /// anyway, so nothing is done.
    pub fn debug_on_sw_breakpoint(&mut self, _enabled: bool) -> (r: Result<(), Error>)
        ensures
            r is Ok,
            final(self).untouched(old(self)),
            *final(final(self).interface) == *final(old(self).interface),
            *final(final(self).state) == *final(old(self).state),
    {
        Ok(())
    }

    /// The architecture of the core.
    pub fn architecture(&self) -> (r: Architecture)
        ensures
            r == Architecture::Mips,
    {
        Architecture::Mips
    }

    /// The kind of the core.
    pub fn core_type(&self) -> (r: CoreType)
        ensures
            r == CoreType::Mips,
    {
        CoreType::Mips
    }

    /// Whether the core has a floating point unit, as its Config1
    /// register told.
    pub fn fpu_support(&mut self) -> (r: Result<bool, Error>)
        ensures
            r == Ok::<bool, Error>(flag(old(self).state.cfg.0, 0)),
            final(self).untouched(old(self)),
            *final(final(self).interface) == *final(old(self).interface),
            *final(final(self).state) == *final(old(self).state),
    {
        Ok(self.state.cfg.FP())
    }

    /// The registers of the core: with those of the floating point unit
    /// when the Config1 register, as the state holds it, tells of one.
    pub fn registers(&self) -> (list: Vec<CoreRegister>)
        ensures
            specs_of(list@) == spec_core_registers(flag(self.config1().0, 0)),
    {
        if !self.state.cfg.FP() {
            mips32_core_registers(false)
        } else {
            mips32_core_registers(true)
        }
    }

    /// The program counter.
    pub fn program_counter(&self) -> (r: CoreRegister)
        ensures
            r@ == spec_pc(),
    {
        pc()
    }

    /// The frame pointer.
    pub fn frame_pointer(&self) -> (r: CoreRegister)
        ensures
            r@ == spec_gpr(30),
    {
        fp()
    }

    /// The stack pointer.
    pub fn stack_pointer(&self) -> (r: CoreRegister)
        ensures
            r@ == spec_gpr(29),
    {
        sp()
    }

    /// The register that holds the return address.
    pub fn return_address(&self) -> (r: CoreRegister)
        ensures
            r@ == spec_gpr(31),
    {
        ra()
    }

    /// The number of the core.
    pub fn id(&self) -> (r: usize)
        ensures
            r == self.id,
    {
        self.id
    }

    /// Called when the session ends. There is nothing to undo.
    pub fn on_session_stop(&mut self) -> (r: Result<(), Error>)
        ensures
            r is Ok,
            final(self).untouched(old(self)),
            *final(final(self).interface) == *final(old(self).interface),
            *final(final(self).state) == *final(old(self).state),
    {
        Ok(())
    }

    /// Catching of exception vectors is not implemented.
    pub fn enable_vector_catch(&mut self) -> (r: Result<(), Error>)
        ensures
            r == Err::<(), Error>(Error::NotImplemented(Capability::VectorCatch)),
            final(self).untouched(old(self)),
            *final(final(self).interface) == *final(old(self).interface),
            *final(final(self).state) == *final(old(self).state),
    {
        Err(Error::NotImplemented(Capability::VectorCatch))
    }

    /// Catching of exception vectors is not implemented.
    pub fn disable_vector_catch(&mut self) -> (r: Result<(), Error>)
        ensures
            r == Err::<(), Error>(Error::NotImplemented(Capability::VectorCatch)),
            final(self).untouched(old(self)),
            *final(final(self).interface) == *final(old(self).interface),
            *final(final(self).state) == *final(old(self).state),
    {
        Err(Error::NotImplemented(Capability::VectorCatch))
    }

    /// Unwinding through exception frames is not implemented: the
    /// caller stops at the first frame that an exception handler called.
    pub fn exception_details(&mut self) -> (r: Result<(), Error>)
        ensures
            r == Err::<(), Error>(Error::NotImplemented(Capability::ExceptionDetails)),
            final(self).untouched(old(self)),
            *final(final(self).interface) == *final(old(self).interface),
            *final(final(self).state) == *final(old(self).state),
    {
        Err(Error::NotImplemented(Capability::ExceptionDetails))
    }

    /// The registers of the calling frame of an exception are not implemented.
    pub fn calling_frame_registers(&mut self) -> (r: Result<(), Error>)
        ensures
            r == Err::<(), Error>(Error::NotImplemented(Capability::CallingFrameRegisters)),
            final(self).untouched(old(self)),
            *final(final(self).interface) == *final(old(self).interface),
            *final(final(self).state) == *final(old(self).state),
    {
        Err(Error::NotImplemented(Capability::CallingFrameRegisters))
    }

    /// The description of an exception is not implemented.
    pub fn exception_description(&mut self) -> (r: Result<(), Error>)
        ensures
            r == Err::<(), Error>(Error::NotImplemented(Capability::ExceptionDescription)),
            final(self).untouched(old(self)),
            *final(final(self).interface) == *final(old(self).interface),
            *final(final(self).state) == *final(old(self).state),
    {
        Err(Error::NotImplemented(Capability::ExceptionDescription))
    }

    /// Whether the target takes 64-bit accesses: it does not.
    pub fn supports_native_64bit_access(&mut self) -> (r: bool)
        ensures
            !r,
            final(self).untouched(old(self)),
            *final(final(self).interface) == *final(old(self).interface),
            *final(final(self).state) == *final(old(self).state),
    {
        false
    }

    /// Whether the target takes 8-bit accesses: it does.
    pub fn supports_8bit_transfers(&self) -> (r: Result<bool, Error>)
        ensures
            r == Ok::<bool, Error>(true),
    {
        Ok(true)
    }

    /// Waits for the accesses made so far to reach the target. None is
    /// held back, so there is nothing to wait for.
    pub fn flush(&mut self) -> (r: Result<(), Error>)
        ensures
            r is Ok,
            final(self).untouched(old(self)),
            *final(final(self).interface) == *final(old(self).interface),
            *final(final(self).state) == *final(old(self).state),
    {
        Ok(())
    }

    /// Reads the word at `address`. An address beyond the 32-bit
    /// address space is refused and nothing is read.
    pub fn read_word_32(&mut self, address: u64) -> (r: Result<u32, Error>)
        ensures
            final(self).kept(old(self)),
            final(self).breakpoints == old(self).breakpoints,
            *final(final(self).interface) == *final(old(self).interface),
            *final(final(self).state) == *final(old(self).state),
            match valid_32bit_address(address) {
                Ok(a) => final(self).new_accesses(old(self)) == seq![
                    MemoryOp::ReadWord32 { address: a, reply: r },
                ],
                Err(e) => r == Err::<u32, Error>(e) && final(self).untouched(old(self)),
            },
    {
        self.interface.read_word_32(address)
    }

    /// Reads the byte at `address`. An address beyond the 32-bit
    /// address space is refused and nothing is read.
    pub fn read_word_8(&mut self, address: u64) -> (r: Result<u8, Error>)
        ensures
            final(self).kept(old(self)),
            final(self).breakpoints == old(self).breakpoints,
            *final(final(self).interface) == *final(old(self).interface),
            *final(final(self).state) == *final(old(self).state),
            match valid_32bit_address(address) {
                Ok(a) => final(self).new_accesses(old(self)) == seq![
                    MemoryOp::ReadWord8 { address: a, reply: r },
                ],
                Err(e) => r == Err::<u8, Error>(e) && final(self).untouched(old(self)),
            },
    {
        self.interface.read_word_8(address)
    }

    /// Reads the 64-bit word at `address` as two words of 32 bits, the
    /// low one first; `is_read_64_run` describes the accesses.
    pub fn read_word_64(&mut self, address: u64) -> (r: Result<u64, Error>)
        ensures
            final(self).kept(old(self)),
            final(self).breakpoints == old(self).breakpoints,
            *final(final(self).interface) == *final(old(self).interface),
            *final(final(self).state) == *final(old(self).state),
            is_read_64_run(final(self).new_accesses(old(self)), address, r),
    {
        self.interface.read_word_64(address)
    }

    /// Writes `data` to the word at `address`. An address beyond the
    /// 32-bit address space is refused and nothing is written.
    pub fn write_word_32(&mut self, address: u64, data: u32) -> (r: Result<(), Error>)
        ensures
            final(self).kept(old(self)),
            final(self).breakpoints == old(self).breakpoints,
            *final(final(self).interface) == *final(old(self).interface),
            *final(final(self).state) == *final(old(self).state),
            match valid_32bit_address(address) {
                Ok(a) => final(self).new_accesses(old(self)) == seq![
                    MemoryOp::WriteWord32 { address: a, data, reply: r },
                ],
                Err(e) => r == Err::<(), Error>(e) && final(self).untouched(old(self)),
            },
    {
        self.interface.write_word_32(address, data)
    }

    /// Writes `data` to the byte at `address`. An address beyond the
    /// 32-bit address space is refused and nothing is written.
    pub fn write_word_8(&mut self, address: u64, data: u8) -> (r: Result<(), Error>)
        ensures
            final(self).kept(old(self)),
            final(self).breakpoints == old(self).breakpoints,
            *final(final(self).interface) == *final(old(self).interface),
            *final(final(self).state) == *final(old(self).state),
            match valid_32bit_address(address) {
                Ok(a) => final(self).new_accesses(old(self)) == seq![
                    MemoryOp::WriteWord8 { address: a, data, reply: r },
                ],
                Err(e) => r == Err::<(), Error>(e) && final(self).untouched(old(self)),
            },
    {
        self.interface.write_word_8(address, data)
    }

    /// Writes the 64-bit word `data` at `address` as two words of 32
    /// bits, the low one first; `is_write_64_run` describes the accesses.
    pub fn write_word_64(&mut self, address: u64, data: u64) -> (r: Result<(), Error>)
        ensures
            final(self).kept(old(self)),
            final(self).breakpoints == old(self).breakpoints,
            *final(final(self).interface) == *final(old(self).interface),
            *final(final(self).state) == *final(old(self).state),
            is_write_64_run(final(self).new_accesses(old(self)), address, data, r),
    {
        self.interface.write_word_64(address, data)
    }

    /// Reads the 64-bit words at `address` and behind it into `data`;
    /// `is_read_64_block_run` describes the accesses.
    pub fn read_64(&mut self, address: u64, data: &mut [u64]) -> (r: Result<(), Error>)
        ensures
            final(self).kept(old(self)),
            final(self).breakpoints == old(self).breakpoints,
            *final(final(self).interface) == *final(old(self).interface),
            *final(final(self).state) == *final(old(self).state),
            is_read_64_block_run(final(self).new_accesses(old(self)), address, old(data)@, final(data)@, r),
    {
        self.interface.read_64(address, data)
    }

    /// Reads the words at `address` and behind it into `data`;
    /// `is_read_32_block_run` describes the accesses.
    pub fn read_32(&mut self, address: u64, data: &mut [u32]) -> (r: Result<(), Error>)
        ensures
            final(self).kept(old(self)),
            final(self).breakpoints == old(self).breakpoints,
            *final(final(self).interface) == *final(old(self).interface),
            *final(final(self).state) == *final(old(self).state),
            is_read_32_block_run(final(self).new_accesses(old(self)), address, old(data)@, final(data)@, r),
    {
        self.interface.read_32(address, data)
    }

    /// Reads the bytes at `address` and behind it into `data`;
    /// `is_read_8_block_run` describes the accesses.
    pub fn read_8(&mut self, address: u64, data: &mut [u8]) -> (r: Result<(), Error>)
        ensures
            final(self).kept(old(self)),
            final(self).breakpoints == old(self).breakpoints,
            *final(final(self).interface) == *final(old(self).interface),
            *final(final(self).state) == *final(old(self).state),
            is_read_8_block_run(final(self).new_accesses(old(self)), address, old(data)@, final(data)@, r),
    {
        self.interface.read_8(address, data)
    }

    /// Writes the 64-bit words of `data` at `address` and behind it;
    /// `is_write_64_block_run` describes the accesses.
    pub fn write_64(&mut self, address: u64, data: &[u64]) -> (r: Result<(), Error>)
        ensures
            final(self).kept(old(self)),
            final(self).breakpoints == old(self).breakpoints,
            *final(final(self).interface) == *final(old(self).interface),
            *final(final(self).state) == *final(old(self).state),
            is_write_64_block_run(final(self).new_accesses(old(self)), address, data@, r),
    {
        self.interface.write_64(address, data)
    }

    /// Writes the words of `data` at `address` and behind it;
    /// `is_write_32_block_run` describes the accesses.
    pub fn write_32(&mut self, address: u64, data: &[u32]) -> (r: Result<(), Error>)
        ensures
            final(self).kept(old(self)),
            final(self).breakpoints == old(self).breakpoints,
            *final(final(self).interface) == *final(old(self).interface),
            *final(final(self).state) == *final(old(self).state),
            is_write_32_block_run(final(self).new_accesses(old(self)), address, data@, r),
    {
        self.interface.write_32(address, data)
    }

    /// Writes the bytes of `data` at `address` and behind it;
    /// `is_write_8_block_run` describes the accesses.
    pub fn write_8(&mut self, address: u64, data: &[u8]) -> (r: Result<(), Error>)
        ensures
            final(self).kept(old(self)),
            final(self).breakpoints == old(self).breakpoints,
            *final(final(self).interface) == *final(old(self).interface),
            *final(final(self).state) == *final(old(self).state),
            is_write_8_block_run(final(self).new_accesses(old(self)), address, data@, r),
    {
        self.interface.write_8(address, data)
    }
}

} // verus!
