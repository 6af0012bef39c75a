//! The EJTAG session: what is learnt of the debug unit when connecting,
//! the memory map of its breakpoint registers, and the scans that inject
//! instructions into a core in debug mode.
use crate::assembly::imm_of;
use crate::assembly::lemma_branch_immediate;
use crate::assembly::lemma_start_displacement_bounds;
use crate::assembly::start_displacement;
use crate::assembly::Mips32Instruction;
use crate::assembly::MIPS_NOP;
use crate::assembly::T0;
use crate::assembly::ZERO;
use crate::assembly::mips_beq;
use crate::assembly::mips_lui;
use crate::assembly::mips_mfc0;
use crate::assembly::mips_mtc0;
use crate::assembly::mips_ori;
use crate::assembly::mips_xori;
use crate::bits::flag;
use crate::bits::le_bytes;
use crate::bits::lemma_le_round_trip;
use crate::bits::le_word;
use crate::bits::word_from_le_bytes;
use crate::bits::word_to_le_bytes;
use crate::debug_regs::DebugCtrl;
use crate::debug_regs::EjtagCtrl;
use crate::debug_regs::IDCode;
use crate::debug_regs::ImpCode;
use crate::error::DebugProbeError;
use crate::error::Error;
use crate::error::MipsError;
use crate::probe::issued;
use crate::probe::reply_view;
use crate::probe::JtagAccess;
use crate::probe::JtagOp;
use std::time::Duration;
use std::time::Instant;
use vstd::prelude::*;
use vstd::std_specs::convert::FromSpecImpl;

verus! {

/// The generation of the EJTAG unit.
#[allow(non_camel_case_types)]
#[derive(Debug, Copy, Clone, PartialEq, Eq, Structural)]
pub enum EjtagVersion {
    NoModule,
    EJTAG_V20,
    EJTAG_V25,
    EJTAG_V26,
    EJTAG_V31,
    EJTAG_V41,
    EJTAG_V51,
    Unknown(u8),
}

impl From<u8> for EjtagVersion {
    fn from(raw: u8) -> (r: EjtagVersion) {
        match raw {
            0 => EjtagVersion::EJTAG_V20,
            1 => EjtagVersion::EJTAG_V25,
            2 => EjtagVersion::EJTAG_V26,
            3 => EjtagVersion::EJTAG_V31,
            4 => EjtagVersion::EJTAG_V41,
            5 => EjtagVersion::EJTAG_V51,
            255 => EjtagVersion::NoModule,
            other => EjtagVersion::Unknown(other),
        }
    }
}

impl EjtagVersion {
    /// The version that a raw version number stands for.
    pub open spec fn of_raw(raw: u8) -> EjtagVersion {
        if raw == 0 {
            EjtagVersion::EJTAG_V20
        } else if raw == 1 {
            EjtagVersion::EJTAG_V25
        } else if raw == 2 {
            EjtagVersion::EJTAG_V26
        } else if raw == 3 {
            EjtagVersion::EJTAG_V31
        } else if raw == 4 {
            EjtagVersion::EJTAG_V41
        } else if raw == 5 {
            EjtagVersion::EJTAG_V51
        } else if raw == 255 {
            EjtagVersion::NoModule
        } else {
            EjtagVersion::Unknown(raw)
        }
    }
}

impl FromSpecImpl<u8> for EjtagVersion {
    open spec fn obeys_from_spec() -> bool {
        true
    }

    open spec fn from_spec(raw: u8) -> EjtagVersion {
        EjtagVersion::of_raw(raw)
    }
}

/// Where the debug register segment starts in the address space of the target.
pub const EJTAG_DRSEG: u64 = 0xFF300000;

// The JTAG instructions of the EJTAG unit
pub const EJTAG_INST_IDCODE: u32 = 0x01;
pub const EJTAG_INST_IMPCODE: u32 = 0x03;
pub const EJTAG_INST_ADDRESS: u32 = 0x08;
pub const EJTAG_INST_DATA: u32 = 0x09;
pub const EJTAG_INST_CONTROL: u32 = 0x0A;
pub const EJTAG_INST_ALL: u32 = 0x0B;
pub const EJTAG_INST_EJTAGBOOT: u32 = 0x0C;
pub const EJTAG_INST_NORMALBOOT: u32 = 0x0D;
pub const EJTAG_INST_FASTDATA: u32 = 0x0E;
pub const EJTAG_INST_TCBCONTROLA: u32 = 0x10;
pub const EJTAG_INST_TCBCONTROLB: u32 = 0x11;
pub const EJTAG_INST_TCBDATA: u32 = 0x12;
pub const EJTAG_INST_TCBCONTROLC: u32 = 0x13;
pub const EJTAG_INST_PCSAMPLE: u32 = 0x14;
pub const EJTAG_INST_TCBCONTROLD: u32 = 0x15;
pub const EJTAG_INST_TCBCONTROLE: u32 = 0x16;
pub const EJTAG_INST_FDC: u32 = 0x17;
pub const EJTAG_INST_BYPASS: u32 = 0xFF;

// The breakpoint registers of EJTAG 2.0
pub const EJTAG_V20_IBS: u64 = 0x0004;
pub const EJTAG_V20_IBA0: u64 = 0x0100;
pub const EJTAG_V20_IBC_OFFS: u64 = 0x0104;
pub const EJTAG_V20_IBM_OFFS: u64 = 0x0108;
pub const EJTAG_V20_IBAN_STEP: u32 = 0x10;
pub const EJTAG_V20_DBS: u64 = 0x0008;
pub const EJTAG_V20_DBA0: u64 = 0x0200;
pub const EJTAG_V20_DBC_OFFS: u64 = 0x0204;
pub const EJTAG_V20_DBM_OFFS: u64 = 0x0208;
pub const EJTAG_V20_DBV_OFFS: u64 = 0x020C;
pub const EJTAG_V20_DBAN_STEP: u32 = 0x10;

// The breakpoint registers of EJTAG 2.5 and later
pub const EJTAG_V25_IBS: u64 = 0x1000;
pub const EJTAG_V25_IBA0: u64 = 0x1100;
pub const EJTAG_V25_IBM_OFFS: u64 = 0x0008;
pub const EJTAG_V25_IBASID_OFFS: u64 = 0x0010;
pub const EJTAG_V25_IBC_OFFS: u64 = 0x0018;
pub const EJTAG_V25_IBAN_STEP: u32 = 0x0100;
pub const EJTAG_V25_DBS: u64 = 0x2000;
pub const EJTAG_V25_DBA0: u64 = 0x2100;
pub const EJTAG_V25_DBM_OFFS: u64 = 0x2108;
pub const EJTAG_V25_DBASID_OFFS: u64 = 0x2110;
pub const EJTAG_V25_DBC_OFFS: u64 = 0x2118;
pub const EJTAG_V25_DBV_OFFS: u64 = 0x2120;
pub const EJTAG_V25_DBAN_STEP: u32 = 0x0100;

// The flags of the implementation register
/// EJTAG 2.0 (Lexra): an internal trace buffer is implemented.
pub const EJTAG_V26_IMP_R3K: u32 = 0x1000_0000;
pub const EJTAG_V26_IMP_DINT: u32 = 0x0100_0000;
/// EJTAG 2.0: SDBBP is a Special2 opcode.
pub const EJTAG_V20_IMP_SDBBP: u32 = 0x0080_0000;
pub const EJTAG_IMP_ASID8: u32 = 0x0040_0000;
pub const EJTAG_IMP_ASID6: u32 = 0x0020_0000;
/// EJTAG 2.0: complex breaks are supported.
pub const EJTAG_V20_IMP_COMPLEX_BREAK: u32 = 0x0010_0000;
/// EJTAG 2.0: addresses are wider than 32 bits.
pub const EJTAG_V20_IMP_EADDR_NO32BIT: u32 = 0x0008_0000;
pub const EJTAG_V20_IMP_DCACHE_COH: u32 = 0x0004_0000;
pub const EJTAG_V20_IMP_ICACHE_COH: u32 = 0x0002_0000;
pub const EJTAG_IMP_MIPS16: u32 = 0x0001_0000;
pub const EJTAG_IMP_NODMA: u32 = 0x0000_4000;
/// EJTAG 2.0: no processor breaks.
pub const EJTAG_V20_IMP_NOPB: u32 = 0x0000_0080;
/// EJTAG 2.0: no data breaks.
pub const EJTAG_V20_IMP_NODB: u32 = 0x0000_0040;
/// EJTAG 2.0: no instruction breaks.
pub const EJTAG_V20_IMP_NOIB: u32 = 0x0000_0020;
pub const EJTAG_V20_IMP_BCHANNELS_MASK: u32 = 0xf;
pub const EJTAG_V20_IMP_BCHANNELS_SHIFT: u32 = 1;
pub const EJTAG_IMP_MIPS64: u32 = 0x0000_0001;

/// The time that a poll of the control register may take, in nanoseconds.
pub const PRACC_TIMEOUT_NANOS: u128 = 1_000_000_000;

/// A register of the breakpoint units.
#[derive(Debug, Copy, Clone, PartialEq, Eq, Structural)]
pub enum BreakpointRegister {
    /// Instruction breakpoint status.
    Ibs,
    /// Instruction breakpoint address.
    Iba,
    /// Instruction breakpoint address mask.
    Ibm,
    /// Instruction breakpoint ASID.
    Ibasid,
    /// Instruction breakpoint control.
    Ibc,
    /// Data breakpoint status.
    Dbs,
    /// Data breakpoint address.
    Dba,
    /// Data breakpoint address mask.
    Dbm,
    /// Data breakpoint ASID.
    Dbasid,
    /// Data breakpoint control.
    Dbc,
    /// Data breakpoint value.
    Dbv,
}

impl BreakpointRegister {
    /// Whether the register belongs to the instruction breakpoints.
    pub open spec fn spec_is_instruction(self) -> bool {
        self is Ibs || self is Iba || self is Ibm || self is Ibasid || self is Ibc
    }

    /// Whether the register belongs to the instruction breakpoints.
    #[verifier::when_used_as_spec(spec_is_instruction)]
    pub fn is_instruction(self) -> (r: bool)
        ensures
            r == self.spec_is_instruction(),
    {
        match self {
            BreakpointRegister::Ibs
            | BreakpointRegister::Iba
            | BreakpointRegister::Ibm
            | BreakpointRegister::Ibasid
            | BreakpointRegister::Ibc => true,
            _ => false,
        }
    }
}

/// The memory map of the breakpoint registers: one entry for each
/// register, and the distance from one breakpoint unit to the next.
#[derive(Debug, Copy, Clone, PartialEq, Eq, Structural)]
pub struct EjtagOffsets {
    pub ejtag_ibs_offs: u32,
    pub ejtag_iba0_offs: u32,
    pub ejtag_ibc_offs: u32,
    pub ejtag_ibm_offs: u32,
    pub ejtag_ibasid_offs: u32,
    pub ejtag_dbs_addr: u32,
    pub ejtag_dba0_addr: u32,
    pub ejtag_dbc_offs: u32,
    pub ejtag_dbm_offs: u32,
    pub ejtag_dbv_offs: u32,
    pub ejtag_dbasid_offs: u32,
    pub ejtag_iba_step_size: u32,
    pub ejtag_dba_step_size: u32,
}

impl EjtagOffsets {
    /// The map of EJTAG 2.0. It has no ASID registers of its own: those
    /// two entries are the ones of the later map.
    pub open spec fn v20() -> EjtagOffsets {
        EjtagOffsets {
            ejtag_ibs_offs: 0x0004,
            ejtag_iba0_offs: 0x0100,
            ejtag_ibc_offs: 0x0104,
            ejtag_ibm_offs: 0x0108,
            ejtag_ibasid_offs: 0x0010,
            ejtag_dbs_addr: 0x0008,
            ejtag_dba0_addr: 0x0200,
            ejtag_dbc_offs: 0x0204,
            ejtag_dbm_offs: 0x0208,
            ejtag_dbv_offs: 0x020C,
            ejtag_dbasid_offs: 0x2110,
            ejtag_iba_step_size: 0x10,
            ejtag_dba_step_size: 0x10,
        }
    }

    /// The map of EJTAG 2.5 and of every later version.
    pub open spec fn v25() -> EjtagOffsets {
        EjtagOffsets {
            ejtag_ibs_offs: 0x1000,
            ejtag_iba0_offs: 0x1100,
            ejtag_ibc_offs: 0x0018,
            ejtag_ibm_offs: 0x0008,
            ejtag_ibasid_offs: 0x0010,
            ejtag_dbs_addr: 0x2000,
            ejtag_dba0_addr: 0x2100,
            ejtag_dbc_offs: 0x2118,
            ejtag_dbm_offs: 0x2108,
            ejtag_dbv_offs: 0x2120,
            ejtag_dbasid_offs: 0x2110,
            ejtag_iba_step_size: 0x0100,
            ejtag_dba_step_size: 0x0100,
        }
    }

    /// The map that a version uses: the one of EJTAG 2.0 for that
    /// version, the one of EJTAG 2.5 for every other.
    pub open spec fn spec_for_version(version: EjtagVersion) -> EjtagOffsets {
        if version == EjtagVersion::EJTAG_V20 {
            Self::v20()
        } else {
            Self::v25()
        }
    }

    /// Selects the map that `version` uses.
    #[verifier::when_used_as_spec(spec_for_version)]
    pub fn for_version(version: EjtagVersion) -> (r: EjtagOffsets)
        ensures
            r == Self::spec_for_version(version),
    {
        let mut map = EjtagOffsets {
            ejtag_ibs_offs: EJTAG_V25_IBS as u32,
            ejtag_iba0_offs: EJTAG_V25_IBA0 as u32,
            ejtag_ibc_offs: EJTAG_V25_IBC_OFFS as u32,
            ejtag_ibm_offs: EJTAG_V25_IBM_OFFS as u32,
            ejtag_ibasid_offs: EJTAG_V25_IBASID_OFFS as u32,
            ejtag_dbs_addr: EJTAG_V25_DBS as u32,
            ejtag_dba0_addr: EJTAG_V25_DBA0 as u32,
            ejtag_dbc_offs: EJTAG_V25_DBC_OFFS as u32,
            ejtag_dbm_offs: EJTAG_V25_DBM_OFFS as u32,
            ejtag_dbv_offs: EJTAG_V25_DBV_OFFS as u32,
            ejtag_dbasid_offs: EJTAG_V25_DBASID_OFFS as u32,
            ejtag_iba_step_size: EJTAG_V25_IBAN_STEP,
            ejtag_dba_step_size: EJTAG_V25_DBAN_STEP,
        };
        if version == EjtagVersion::EJTAG_V20 {
            map.ejtag_ibs_offs = EJTAG_V20_IBS as u32;
            map.ejtag_iba0_offs = EJTAG_V20_IBA0 as u32;
            map.ejtag_ibc_offs = EJTAG_V20_IBC_OFFS as u32;
            map.ejtag_ibm_offs = EJTAG_V20_IBM_OFFS as u32;
            map.ejtag_dbs_addr = EJTAG_V20_DBS as u32;
            map.ejtag_dba0_addr = EJTAG_V20_DBA0 as u32;
            map.ejtag_dbc_offs = EJTAG_V20_DBC_OFFS as u32;
            map.ejtag_dbm_offs = EJTAG_V20_DBM_OFFS as u32;
            map.ejtag_dbv_offs = EJTAG_V20_DBV_OFFS as u32;
            map.ejtag_iba_step_size = EJTAG_V20_IBAN_STEP;
            map.ejtag_dba_step_size = EJTAG_V20_DBAN_STEP;
        }
        map
    }

    /// The entry of a register in the map.
    pub open spec fn spec_entry(&self, kind: BreakpointRegister) -> u32 {
        match kind {
            BreakpointRegister::Ibs => self.ejtag_ibs_offs,
            BreakpointRegister::Iba => self.ejtag_iba0_offs,
            BreakpointRegister::Ibm => self.ejtag_ibm_offs,
            BreakpointRegister::Ibasid => self.ejtag_ibasid_offs,
            BreakpointRegister::Ibc => self.ejtag_ibc_offs,
            BreakpointRegister::Dbs => self.ejtag_dbs_addr,
            BreakpointRegister::Dba => self.ejtag_dba0_addr,
            BreakpointRegister::Dbm => self.ejtag_dbm_offs,
            BreakpointRegister::Dbasid => self.ejtag_dbasid_offs,
            BreakpointRegister::Dbc => self.ejtag_dbc_offs,
            BreakpointRegister::Dbv => self.ejtag_dbv_offs,
        }
    }

    /// Looks up the entry of a register in the map.
    #[verifier::when_used_as_spec(spec_entry)]
    pub fn entry(&self, kind: BreakpointRegister) -> (r: u32)
        ensures
            r == self.spec_entry(kind),
    {
        match kind {
            BreakpointRegister::Ibs => self.ejtag_ibs_offs,
            BreakpointRegister::Iba => self.ejtag_iba0_offs,
            BreakpointRegister::Ibm => self.ejtag_ibm_offs,
            BreakpointRegister::Ibasid => self.ejtag_ibasid_offs,
            BreakpointRegister::Ibc => self.ejtag_ibc_offs,
            BreakpointRegister::Dbs => self.ejtag_dbs_addr,
            BreakpointRegister::Dba => self.ejtag_dba0_addr,
            BreakpointRegister::Dbm => self.ejtag_dbm_offs,
            BreakpointRegister::Dbasid => self.ejtag_dbasid_offs,
            BreakpointRegister::Dbc => self.ejtag_dbc_offs,
            BreakpointRegister::Dbv => self.ejtag_dbv_offs,
        }
    }

    /// The distance between the registers of one kind of two
    /// neighbouring breakpoint units.
    pub open spec fn spec_step(&self, kind: BreakpointRegister) -> u32 {
        if kind.is_instruction() {
            self.ejtag_iba_step_size
        } else {
            self.ejtag_dba_step_size
        }
    }

    /// Looks up the distance between two neighbouring units.
    #[verifier::when_used_as_spec(spec_step)]
    pub fn step(&self, kind: BreakpointRegister) -> (r: u32)
        ensures
            r == self.spec_step(kind),
    {
        if kind.is_instruction() {
            self.ejtag_iba_step_size
        } else {
            self.ejtag_dba_step_size
        }
    }

    /// The place of a register of unit `index`: the base, the entry of
    /// the register and `index` steps, as an unbounded number.
    pub open spec fn mmio_sum(&self, base: u64, kind: BreakpointRegister, index: usize) -> int {
        base + self.entry(kind) + index * self.step(kind)
    }

    /// The address of a register of unit `index`, where it lies in the
    /// 32-bit address space.
    pub open spec fn spec_get_mmio_address_by_id(
        &self,
        base: u64,
        kind: BreakpointRegister,
        index: usize,
    ) -> Result<u64, Error> {
        if self.mmio_sum(base, kind, index) <= 0xFFFF_FFFF {
            Ok(self.mmio_sum(base, kind, index) as u64)
        } else {
            Err(Error::AddressOverflow)
        }
    }

    /// Computes the address of a register of breakpoint unit `index`
    /// from the base address of the register segment. An address beyond
    /// the 32-bit address space is refused, never wrapped.
    #[verifier::when_used_as_spec(spec_get_mmio_address_by_id)]
    pub fn get_mmio_address_by_id(&self, base: u64, kind: BreakpointRegister, index: usize) -> (r:
        Result<u64, Error>)
        ensures
            r == self.spec_get_mmio_address_by_id(base, kind, index),
            r matches Ok(a) ==> a <= 0xFFFF_FFFF,
    {
        let entry = self.entry(kind);
        let step = self.step(kind);
        assert(index * step <= 0xFFFF_FFFF_FFFF_FFFF * 0xFFFF_FFFF) by (nonlinear_arith)
            requires
                0 <= index <= 0xFFFF_FFFF_FFFF_FFFF,
                0 <= step <= 0xFFFF_FFFF,
        ;
        let sum: u128 = base as u128 + entry as u128 + (index as u128) * (step as u128);
        if sum <= 0xFFFF_FFFF {
            Ok(sum as u64)
        } else {
            Err(Error::AddressOverflow)
        }
    }
}

/// How far a session has come.
#[derive(Debug, Copy, Clone, PartialEq, Eq, Structural)]
pub enum SessionPhase {
    /// The debug unit was identified.
    Connected,
    /// The core was told to boot into debug mode.
    DebugEntered,
}

/// The word that a 32-bit scan answered with: the first four bytes,
/// least significant first. An answer of fewer bytes is malformed.
pub open spec fn scan_word(reply: Result<Seq<u8>, DebugProbeError>) -> Result<
    u32,
    DebugProbeError,
> {
    match reply {
        Ok(bytes) => if bytes.len() < 4 {
            Err(DebugProbeError::DebugSequenceNotSupported)
        } else {
            Ok(le_word(bytes))
        },
        Err(e) => Err(e),
    }
}

/// Reads the word out of the answer of a 32-bit scan.
pub fn decode_scan(reply: Result<Vec<u8>, DebugProbeError>) -> (r: Result<u32, DebugProbeError>)
    ensures
        r == scan_word(reply_view(reply)),
{
    match reply {
        Ok(bytes) => {
            if bytes.len() < 4 {
                Err(DebugProbeError::DebugSequenceNotSupported)
            } else {
                Ok(word_from_le_bytes(bytes.as_slice()))
            }
        },
        Err(e) => Err(e),
    }
}

impl JtagOp {
    /// Whether the call read `len` bits of the register at `address`.
    pub open spec fn is_read_of(self, address: u32, len: u32) -> bool {
        self matches JtagOp::ReadRegister { address: a, len: l, .. } && a == address && l == len
    }

    /// Whether the call shifted `len` bits of `data` into the register at `address`.
    pub open spec fn is_write_of(self, address: u32, data: Seq<u8>, len: u32) -> bool {
        self matches JtagOp::WriteRegister { address: a, data: d, len: l, .. } && a == address && d
            == data && l == len
    }

    /// Whether the call succeeded.
    pub open spec fn succeeded(self) -> bool {
        match self {
            JtagOp::SetIrLen { .. } => true,
            JtagOp::TargetResetAssert { reply } => reply is Ok,
            JtagOp::ReadRegister { reply, .. } => reply is Ok,
            JtagOp::WriteRegister { reply, .. } => reply is Ok,
        }
    }

    /// The error of the call, where there is one.
    pub open spec fn failure(self) -> Option<DebugProbeError> {
        match self {
            JtagOp::SetIrLen { .. } => None,
            JtagOp::TargetResetAssert { reply } => match reply {
                Ok(_) => None,
                Err(e) => Some(e),
            },
            JtagOp::ReadRegister { reply, .. } => match reply {
                Ok(_) => None,
                Err(e) => Some(e),
            },
            JtagOp::WriteRegister { reply, .. } => match reply {
                Ok(_) => None,
                Err(e) => Some(e),
            },
        }
    }

    /// The word that a scan answered with.
    pub open spec fn word(self) -> Result<u32, DebugProbeError> {
        match self {
            JtagOp::ReadRegister { reply, .. } => scan_word(reply),
            JtagOp::WriteRegister { reply, .. } => scan_word(reply),
            _ => Err(DebugProbeError::DebugSequenceNotSupported),
        }
    }

    /// The value of the control register that the call brought back:
    /// that of a 32-bit scan of the control register, read or written,
    /// with a well formed answer.
    pub open spec fn control_word(self) -> Option<u32> {
        if (self is ReadRegister && self->ReadRegister_address == EJTAG_INST_CONTROL
            && self->ReadRegister_len == 32) || (self is WriteRegister
            && self->WriteRegister_address == EJTAG_INST_CONTROL && self->WriteRegister_len
            == 32) {
            match self.word() {
                Ok(w) => Some(w),
                Err(_) => None,
            }
        } else {
            None
        }
    }
}

/// The value of the control register that a session holds after `ops`,
/// when it held `before`: what the last scan of the control register
/// brought back.
pub open spec fn cached_control(ops: Seq<JtagOp>, before: u32) -> u32
    decreases ops.len(),
{
    if ops.len() == 0 {
        before
    } else {
        match ops.last().control_word() {
            Some(w) => w,
            None => cached_control(ops.drop_last(), before),
        }
    }
}

/// Adding to a history keeps what was there, and what was added is
/// what `issued` finds.
pub proof fn lemma_issued<T>(before: Seq<T>, ops: Seq<T>)
    ensures
        before.is_prefix_of(before + ops),
        issued(before, before + ops) == ops,
{
    assert(issued(before, before + ops) =~= ops);
}

/// The run of calls that connects to the debug unit: the length of the
/// instruction register is set to 5 bits, then the
/// identification, the implementation and the control register are read,
/// up to the first of them that fails.
pub open spec fn is_connect_run(ops: Seq<JtagOp>) -> bool {
    &&& ops.len() >= 2
    &&& ops[0] == (JtagOp::SetIrLen { len: 5 })
    &&& ops[1].is_read_of(EJTAG_INST_IDCODE, 32)
    &&& ops[1].word() is Err ==> ops.len() == 2
    &&& ops[1].word() is Ok ==> {
        &&& ops.len() >= 3
        &&& ops[2].is_read_of(EJTAG_INST_IMPCODE, 32)
        &&& ops[2].word() is Err ==> ops.len() == 3
        &&& ops[2].word() is Ok ==> ops.len() == 4 && ops[3].is_read_of(EJTAG_INST_CONTROL, 32)
    }
}

/// What a run that connects has read: the identification, the
/// implementation and the control word, or the error of the scan that failed.
pub open spec fn connect_words(ops: Seq<JtagOp>) -> Result<(u32, u32, u32), DebugProbeError>
    recommends
        is_connect_run(ops),
{
    match ops[1].word() {
        Err(e) => Err(e),
        Ok(idcode) => match ops[2].word() {
            Err(e) => Err(e),
            Ok(impcode) => match ops[3].word() {
                Err(e) => Err(e),
                Ok(ctrl) => Ok((idcode, impcode, ctrl)),
            },
        },
    }
}

/// The version that an implementation word tells: its bits 31..=29.
pub open spec fn version_of_impcode(impcode: u32) -> EjtagVersion {
    EjtagVersion::of_raw(((impcode >> 29u32) & 0x07) as u8)
}

/// The scan that feeds one instruction to the core: the control word,
/// the instruction and four bytes of zero, 96 bits in all.
pub open spec fn exec_payload(ctrl: u32, inst: u32) -> Seq<u8> {
    le_bytes(ctrl) + le_bytes(inst) + seq![0u8, 0u8, 0u8, 0u8]
}

/// Whether calls `2 * i` and `2 * i + 1` of `ops` fed `inst` to the
/// core: the control register was read, and its word went out again in
/// front of the instruction in a scan of all three registers.
pub open spec fn is_exec_step(ops: Seq<JtagOp>, i: int, inst: u32) -> bool {
    &&& ops[2 * i].is_read_of(EJTAG_INST_CONTROL, 32)
    &&& ops[2 * i].word() is Ok
    &&& ops[2 * i + 1].is_write_of(
        EJTAG_INST_ALL,
        exec_payload(ops[2 * i].word()->Ok_0, inst),
        96,
    )
    &&& ops[2 * i + 1].succeeded()
}

/// Whether `ops` is the run that feeds `words` to the core and ends
/// with `result`: a step for each word in turn, up to the first call that
/// fails, whose error is then the result.
pub open spec fn is_exec_run(ops: Seq<JtagOp>, words: Seq<u32>, result: Result<
    (),
    DebugProbeError,
>) -> bool {
    match result {
        Ok(_) => {
            &&& ops.len() == 2 * words.len()
            &&& forall|i: int| 0 <= i < words.len() ==> is_exec_step(ops, i, #[trigger] words[i])
        },
        Err(e) => {
            let k = (ops.len() - 1) / 2;
            &&& ops.len() >= 1
            &&& k < words.len()
            &&& forall|i: int| 0 <= i < k ==> is_exec_step(ops, i, #[trigger] words[i])
            &&& ops[2 * k].is_read_of(EJTAG_INST_CONTROL, 32)
            &&& if ops.len() == 2 * k + 1 {
                ops[2 * k].word() == Err::<u32, DebugProbeError>(e)
            } else {
                &&& ops[2 * k].word() is Ok
                &&& ops[2 * k + 1].is_write_of(
                    EJTAG_INST_ALL,
                    exec_payload(ops[2 * k].word()->Ok_0, words[k]),
                    96,
                )
                &&& ops[2 * k + 1].failure() == Some(e)
            }
        },
    }
}

/// What one look at the control register means for a poll.
#[derive(Debug, Copy, Clone, PartialEq, Eq, Structural)]
pub enum PollStep {
    /// The bit has the awaited value.
    Ready,
    /// The bit has not the awaited value yet and there is time left.
    Again,
    /// The bit has not the awaited value and the time is over.
    TimedOut,
}

/// What a poll does after reading `ctrl`, `elapsed_nanos` after it began.
pub open spec fn spec_poll_step(ctrl: EjtagCtrl, want: bool, elapsed_nanos: u128) -> PollStep {
    if flag(ctrl.0, 18) == want {
        PollStep::Ready
    } else if elapsed_nanos > PRACC_TIMEOUT_NANOS {
        PollStep::TimedOut
    } else {
        PollStep::Again
    }
}

/// Decides what a poll for the processor access bit does after reading
/// `ctrl`, `elapsed_nanos` after it began: it ends well when the bit has
/// the value `want`, ends with a timeout when more than a second has
/// passed, and reads again otherwise.
#[verifier::when_used_as_spec(spec_poll_step)]
pub fn poll_step(ctrl: EjtagCtrl, want: bool, elapsed_nanos: u128) -> (r: PollStep)
    ensures
        r == spec_poll_step(ctrl, want, elapsed_nanos),
{
    if ctrl.pracc() == want {
        PollStep::Ready
    } else if elapsed_nanos > PRACC_TIMEOUT_NANOS {
        PollStep::TimedOut
    } else {
        PollStep::Again
    }
}

/// Whether `ops` is a poll of the control register for the processor
/// access bit to become `want` that ended with `result`: every call reads
/// the control register, every call but the last found the bit otherwise,
/// and the last found it so, or failed, or was the last one in time.
pub open spec fn is_poll_run(ops: Seq<JtagOp>, want: bool, result: Result<
    (),
    DebugProbeError,
>) -> bool {
    &&& ops.len() >= 1
    &&& forall|i: int| 0 <= i < ops.len() ==> (#[trigger] ops[i]).is_read_of(EJTAG_INST_CONTROL, 32)
    &&& forall|i: int|
        0 <= i < ops.len() - 1 ==> (#[trigger] ops[i]).word() is Ok && flag(
            ops[i].word()->Ok_0,
            18,
        ) != want
    &&& match result {
        Ok(_) => ops.last().word() is Ok && flag(ops.last().word()->Ok_0, 18) == want,
        Err(e) => ops.last().word() == Err::<u32, DebugProbeError>(e) || (e
            == DebugProbeError::Timeout && ops.last().word() is Ok && flag(
            ops.last().word()->Ok_0,
            18,
        ) != want),
    }
}

/// The words that switch single stepping on or off: the debug register
/// of coprocessor 0 is read into `t0`, the step bit is set and, to switch
/// off, flipped back, the register is written, `t0` gets back the value
/// `reg_t0` in two halves, and between the halves stands the branch back to
/// the start of the sequence.
pub open spec fn step_sequence(enabled: bool, reg_t0: u32) -> Seq<u32> {
    let head = seq![MIPS_NOP, mips_mfc0(T0, 23, 0), mips_ori(T0, T0, 0x100)];
    let head = if enabled {
        head
    } else {
        head.push(mips_xori(T0, T0, 0x100))
    };
    let head = head.push(mips_mtc0(T0, 23, 0)).push(mips_lui(T0, reg_t0 >> 16u32));
    head.push(mips_beq(ZERO, ZERO, start_displacement(head.len()))).push(
        mips_ori(T0, T0, reg_t0 & 0xFFFF),
    )
}

/// The scan that feeds an instruction has 96 bits: the control word in
/// front, the instruction behind it, then zeros.
pub proof fn lemma_exec_payload(ctrl: u32, inst: u32)
    ensures
        exec_payload(ctrl, inst).len() == 12,
        exec_payload(ctrl, inst).subrange(0, 4) == le_bytes(ctrl),
        exec_payload(ctrl, inst).subrange(4, 8) == le_bytes(inst),
        exec_payload(ctrl, inst).subrange(8, 12) == seq![0u8, 0u8, 0u8, 0u8],
        le_word(exec_payload(ctrl, inst).subrange(0, 4)) == ctrl,
        le_word(exec_payload(ctrl, inst).subrange(4, 8)) == inst,
{
    lemma_le_round_trip(ctrl);
    lemma_le_round_trip(inst);
    assert(exec_payload(ctrl, inst).subrange(0, 4) =~= le_bytes(ctrl));
    assert(exec_payload(ctrl, inst).subrange(4, 8) =~= le_bytes(inst));
    assert(exec_payload(ctrl, inst).subrange(8, 12) =~= seq![0u8, 0u8, 0u8, 0u8]);
}

/// The sequence that switches single stepping has seven words to
/// switch it on and eight to switch it off, and its last word but one is
/// the branch back to its first.
pub proof fn lemma_step_sequence_branch(enabled: bool, reg_t0: u32)
    ensures
        step_sequence(enabled, reg_t0).len() == if enabled {
            7nat
        } else {
            8nat
        },
        step_sequence(enabled, reg_t0)[0] == MIPS_NOP,
        imm_of(step_sequence(enabled, reg_t0)[step_sequence(enabled, reg_t0).len() - 2])
            == start_displacement((step_sequence(enabled, reg_t0).len() - 2) as nat),
{
    let n = step_sequence(enabled, reg_t0).len();
    lemma_start_displacement_bounds((n - 2) as nat);
    lemma_branch_immediate(start_displacement((n - 2) as nat));
}

/// Builds the sequence that switches single stepping on or off.
pub fn build_step_sequence(enabled: bool, reg_t0: u32) -> (queue: Mips32Instruction)
    ensures
        queue@ == step_sequence(enabled, reg_t0),
{
    let mut queue = Mips32Instruction::new();
    queue = queue.mfc0(T0, 23, 0).ori(T0, T0, 0x100);
    if !enabled {
        queue = queue.xori(T0, T0, 0x100);
    }
    queue = queue.mtc0(T0, 23, 0).lui(T0, reg_t0 >> 16u32);
    queue = queue.b_start().ori(T0, T0, reg_t0 & 0xFFFF);
    assert(queue@ =~= step_sequence(enabled, reg_t0));
    queue
}

/// A session with the EJTAG unit of one core. It owns the transport and
/// keeps what it read when it connected, the value of the control register
/// that the last scan of that register brought back, and the memory map
/// that belongs to the version of the unit.
pub struct Ejtag<P: JtagAccess> {
    pub probe: P,
    pub idcode: IDCode,
    pub impcode: ImpCode,
    pub debug_ctrl: DebugCtrl,
    pub ejtag_ctrl: EjtagCtrl,
    pub ejtag_version: EjtagVersion,
    pub phase: SessionPhase,
    pub fast_access_save: i32,
    pub config_regs: u32,
    /// Config0 to Config3 of coprocessor 0.
    pub config: [u32; 4],
    /// The value of `t0` that sequences restore.
    pub reg_t0: u32,
    /// The value of `t1` that sequences restore.
    pub reg_t1: u32,
    pub scan_delay: u32,
    pub mode: i32,
    pub pa_ctrl: u32,
    pub pa_addr: u32,
    pub isa: u32,
    pub endianness: u8,
    pub debug_caps: u32,
    pub offsets: EjtagOffsets,
}

/// `std::time::Instant`, a reading of the clock.
#[verifier::external_type_specification]
#[verifier::external_body]
pub struct ExInstant(std::time::Instant);

/// Calls `Instant::now`, which reads the clock. Nothing is known of the reading.
#[verifier::external_body]
fn clock_now() -> Instant {
    Instant::now()
}

/// Calls `Instant::elapsed`, which tells the time that has passed since
/// the reading. Nothing is known of the amount.
#[verifier::external_body]
fn clock_elapsed(start: &Instant) -> Duration {
    start.elapsed()
}

/// Calls `Duration::as_nanos`, which tells an amount of time in whole
/// nanoseconds. Nothing is said of the number.
#[verifier::external_body]
fn duration_nanos(amount: &Duration) -> u128 {
    amount.as_nanos()
}

impl<P: JtagAccess> Ejtag<P> {
    /// Whether the version is the one that the implementation word
    /// tells and the memory map is the one of that version.
    pub open spec fn wf(&self) -> bool {
        &&& self.ejtag_version == version_of_impcode(self.impcode.0)
        &&& self.offsets == EjtagOffsets::for_version(self.ejtag_version)
    }

    /// Whether the session is as `new` leaves it after reading the three words.
    pub open spec fn connected_with(&self, idcode: u32, impcode: u32, ctrl: u32) -> bool {
        &&& self.wf()
        &&& self.idcode == IDCode(idcode)
        &&& self.impcode == ImpCode(impcode)
        &&& self.debug_ctrl == DebugCtrl(0)
        &&& self.ejtag_ctrl == EjtagCtrl(ctrl)
        &&& self.phase == SessionPhase::Connected
        &&& self.fast_access_save == 0
        &&& self.config_regs == 0
        &&& self.config@ == seq![0u32, 0u32, 0u32, 0u32]
        &&& self.reg_t0 == 0
        &&& self.reg_t1 == 0
        &&& self.scan_delay == 0
        &&& self.mode == 0
        &&& self.pa_ctrl == 0
        &&& self.pa_addr == 0
        &&& self.isa == impcode & EJTAG_IMP_MIPS16
        &&& self.endianness == 0
        &&& self.debug_caps == 0
    }

    /// Whether the session differs from `before` at most in the
    /// transport, the cached control word and the phase.
    pub open spec fn same_unit(&self, before: &Self) -> bool {
        *self == (Ejtag {
            probe: self.probe,
            ejtag_ctrl: self.ejtag_ctrl,
            phase: self.phase,
            ..*before
        })
    }

    /// What every operation of a session keeps: the transport's
    /// history grows, the cached control word is the one that the last scan
    /// of the control register brought back, and all else but the phase stays.
    pub open spec fn follows(&self, before: &Self) -> bool {
        &&& before.probe.scans().is_prefix_of(self.probe.scans())
        &&& self.ejtag_ctrl.0 == cached_control(
            issued(before.probe.scans(), self.probe.scans()),
            before.ejtag_ctrl.0,
        )
        &&& self.same_unit(before)
    }

    /// Connects to the debug unit behind `probe`; `is_connect_run`
    /// describes the calls. When the three reads answer with four bytes or
    /// more each, the session is returned, with the version and its memory
    /// map. When one fails or answers with fewer bytes, the transport comes
    /// back with the error.
    pub fn new(probe: P) -> (r: Result<Self, (P, MipsError)>)
        ensures
            ({
                let after = match r {
                    Ok(e) => e.probe,
                    Err(back) => back.0,
                };
                let ops = issued(probe.scans(), after.scans());
                &&& probe.scans().is_prefix_of(after.scans())
                &&& is_connect_run(ops)
                &&& match r {
                    Ok(e) => connect_words(ops) is Ok && e.connected_with(
                        connect_words(ops)->Ok_0.0,
                        connect_words(ops)->Ok_0.1,
                        connect_words(ops)->Ok_0.2,
                    ),
                    Err(back) => connect_words(ops) is Err && back.1 == MipsError::Error(
                        connect_words(ops)->Err_0,
                    ),
                }
            }),
    {
        let ghost before = probe.scans();
        let mut probe = probe;
        // EJTAG instructions are 5 bits
        probe.set_ir_len(5);
        let reply = probe.read_register(EJTAG_INST_IDCODE, 32);
        let ghost ops = seq![
            JtagOp::SetIrLen { len: 5 },
            JtagOp::ReadRegister { address: EJTAG_INST_IDCODE, len: 32, reply: reply_view(reply) },
        ];
        proof {
            assert(probe.scans() =~= before + ops);
            lemma_issued(before, ops);
        }
        let idcode = match decode_scan(reply) {
            Ok(word) => word,
            Err(e) => {
                return Err((probe, MipsError::from(e)));
            },
        };
        let reply = probe.read_register(EJTAG_INST_IMPCODE, 32);
        let ghost ops = ops.push(
            JtagOp::ReadRegister { address: EJTAG_INST_IMPCODE, len: 32, reply: reply_view(reply) },
        );
        proof {
            assert(probe.scans() =~= before + ops);
            lemma_issued(before, ops);
        }
        let impcode = match decode_scan(reply) {
            Ok(word) => word,
            Err(e) => {
                return Err((probe, MipsError::from(e)));
            },
        };
        assert((impcode >> 29u32) & 0x07 < 256) by (bit_vector);
        let ejtag_version = EjtagVersion::from(((impcode >> 29u32) & 0x07) as u8);
        let reply = probe.read_register(EJTAG_INST_CONTROL, 32);
        let ghost ops = ops.push(
            JtagOp::ReadRegister { address: EJTAG_INST_CONTROL, len: 32, reply: reply_view(reply) },
        );
        proof {
            assert(probe.scans() =~= before + ops);
            lemma_issued(before, ops);
        }
        let ejtag_ctrl = match decode_scan(reply) {
            Ok(word) => word,
            Err(e) => {
                return Err((probe, MipsError::from(e)));
            },
        };
        Ok(
            Self {
                probe,
                idcode: IDCode(idcode),
                impcode: ImpCode(impcode),
                debug_ctrl: DebugCtrl(0),
                ejtag_ctrl: EjtagCtrl(ejtag_ctrl),
                ejtag_version,
                phase: SessionPhase::Connected,
                fast_access_save: 0,
                config_regs: 0,
                config: [0, 0, 0, 0],
                reg_t0: 0,
                reg_t1: 0,
                scan_delay: 0,
                mode: 0,
                pa_ctrl: 0,
                pa_addr: 0,
                isa: impcode & EJTAG_IMP_MIPS16,
                endianness: 0,
                debug_caps: 0,
                offsets: EjtagOffsets::for_version(ejtag_version),
            },
        )
    }

    /// Reads the control register and keeps the value read. An answer
    /// of fewer than four bytes is an error and leaves the kept value as it was.
    pub fn get_ejtag_ctrl(&mut self) -> (r: Result<EjtagCtrl, DebugProbeError>)
        ensures
            final(self).follows(old(self)),
            final(self).phase == old(self).phase,
            ({
                let ops = issued(old(self).probe.scans(), final(self).probe.scans());
                &&& ops.len() == 1
                &&& ops[0].is_read_of(EJTAG_INST_CONTROL, 32)
                &&& match r {
                    Ok(ctrl) => ops[0].word() == Ok::<u32, DebugProbeError>(ctrl.0),
                    Err(e) => ops[0].word() == Err::<u32, DebugProbeError>(e),
                }
            }),
    {
        let ghost before = self.probe.scans();
        let reply = self.probe.read_register(EJTAG_INST_CONTROL, 32);
        let ghost op = JtagOp::ReadRegister {
            address: EJTAG_INST_CONTROL,
            len: 32,
            reply: reply_view(reply),
        };
        proof {
            assert(self.probe.scans() =~= before + seq![op]);
            lemma_issued(before, seq![op]);
            lemma_cached_push(Seq::empty(), op, old(self).ejtag_ctrl.0);
            assert(Seq::<JtagOp>::empty().push(op) =~= seq![op]);
        }
        match decode_scan(reply) {
            Ok(word) => {
                self.ejtag_ctrl = EjtagCtrl(word);
                Ok(EjtagCtrl(word))
            },
            Err(e) => Err(e),
        }
    }

    /// Writes the control register and keeps the value that the scan
    /// shifted out, which is what the register held before. An answer of
    /// fewer than four bytes is an error and leaves the kept value as it was.
    pub fn set_ejtag_ctrl(&mut self, ejtag_ctrl: EjtagCtrl) -> (r: Result<(), DebugProbeError>)
        ensures
            final(self).follows(old(self)),
            final(self).phase == old(self).phase,
            ({
                let ops = issued(old(self).probe.scans(), final(self).probe.scans());
                &&& ops.len() == 1
                &&& ops[0].is_write_of(EJTAG_INST_CONTROL, le_bytes(ejtag_ctrl.0), 32)
                &&& match r {
                    Ok(_) => ops[0].word() is Ok,
                    Err(e) => ops[0].word() == Err::<u32, DebugProbeError>(e),
                }
            }),
    {
        let ghost before = self.probe.scans();
        let data = word_to_le_bytes(ejtag_ctrl.0);
        let reply = self.probe.write_register(EJTAG_INST_CONTROL, data.as_slice(), 32);
        let ghost op = JtagOp::WriteRegister {
            address: EJTAG_INST_CONTROL,
            data: le_bytes(ejtag_ctrl.0),
            len: 32,
            reply: reply_view(reply),
        };
        proof {
            assert(self.probe.scans() =~= before + seq![op]);
            lemma_issued(before, seq![op]);
            lemma_cached_push(Seq::empty(), op, old(self).ejtag_ctrl.0);
            assert(Seq::<JtagOp>::empty().push(op) =~= seq![op]);
        }
        match decode_scan(reply) {
            Ok(word) => {
                self.ejtag_ctrl = EjtagCtrl(word);
                Ok(())
            },
            Err(e) => Err(e),
        }
    }

    /// Asserts the reset line of the target and tells the core how to
    /// boot: into debug mode when `halt` is set, normally otherwise. The
    /// session is then in its first phase again.
    pub fn target_reset_assert(&mut self, halt: bool) -> (r: Result<(), DebugProbeError>)
        ensures
            final(self).follows(old(self)),
            is_reset_run(issued(old(self).probe.scans(), final(self).probe.scans()), halt, r),
            final(self).phase == if r is Ok {
                SessionPhase::Connected
            } else {
                old(self).phase
            },
    {
        let ghost before = self.probe.scans();
        let reply = self.probe.target_reset_assert();
        let ghost op1 = JtagOp::TargetResetAssert { reply };
        proof {
            assert(self.probe.scans() =~= before + seq![op1]);
            lemma_issued(before, seq![op1]);
            lemma_cached_push(Seq::empty(), op1, old(self).ejtag_ctrl.0);
            assert(Seq::<JtagOp>::empty().push(op1) =~= seq![op1]);
        }
        match reply {
            Ok(_) => {},
            Err(e) => {
                return Err(e);
            },
        }
        let boot = match halt {
            false => EJTAG_INST_NORMALBOOT,
            true => EJTAG_INST_EJTAGBOOT,
        };
        let bypass: [u8; 4] = [0xFF, 0xFF, 0xFF, 0xFF];
        let reply = self.probe.write_register(boot, bypass.as_slice(), 32);
        let ghost op2 = JtagOp::WriteRegister {
            address: boot,
            data: bypass@,
            len: 32,
            reply: reply_view(reply),
        };
        proof {
            assert(self.probe.scans() =~= before + seq![op1, op2]);
            lemma_issued(before, seq![op1, op2]);
            lemma_cached_push(seq![op1], op2, old(self).ejtag_ctrl.0);
            assert(seq![op1].push(op2) =~= seq![op1, op2]);
            assert(bypass@ =~= seq![0xFFu8, 0xFFu8, 0xFFu8, 0xFFu8]);
        }
        match reply {
            Ok(_) => {
                self.phase = SessionPhase::Connected;
                Ok(())
            },
            Err(e) => Err(e),
        }
    }

    /// Tells the core to boot into debug mode: sets the length of the
    /// instruction register to 5 bits again and scans a word of zero into
    /// the boot register of the debug unit.
    pub fn enter_debug_mode(&mut self) -> (r: Result<(), DebugProbeError>)
        ensures
            final(self).follows(old(self)),
            ({
                let ops = issued(old(self).probe.scans(), final(self).probe.scans());
                &&& ops.len() == 2
                &&& ops[0] == (JtagOp::SetIrLen { len: 5 })
                &&& ops[1].is_write_of(EJTAG_INST_EJTAGBOOT, seq![0u8, 0u8, 0u8, 0u8], 32)
                &&& r == match ops[1].failure() {
                    Some(e) => Err::<(), DebugProbeError>(e),
                    None => Ok::<(), DebugProbeError>(()),
                }
            }),
            final(self).phase == if r is Ok {
                SessionPhase::DebugEntered
            } else {
                old(self).phase
            },
    {
        let ghost before = self.probe.scans();
        self.probe.set_ir_len(5);
        let zero: [u8; 4] = [0, 0, 0, 0];
        let reply = self.probe.write_register(EJTAG_INST_EJTAGBOOT, zero.as_slice(), 32);
        let ghost op1 = JtagOp::SetIrLen { len: 5 };
        let ghost op2 = JtagOp::WriteRegister {
            address: EJTAG_INST_EJTAGBOOT,
            data: zero@,
            len: 32,
            reply: reply_view(reply),
        };
        proof {
            assert(self.probe.scans() =~= before + seq![op1, op2]);
            lemma_issued(before, seq![op1, op2]);
            lemma_cached_push(Seq::empty(), op1, old(self).ejtag_ctrl.0);
            assert(Seq::<JtagOp>::empty().push(op1) =~= seq![op1]);
            lemma_cached_push(seq![op1], op2, old(self).ejtag_ctrl.0);
            assert(seq![op1].push(op2) =~= seq![op1, op2]);
            assert(zero@ =~= seq![0u8, 0u8, 0u8, 0u8]);
        }
        match reply {
            Ok(_) => {
                self.phase = SessionPhase::DebugEntered;
                Ok(())
            },
            Err(e) => Err(e),
        }
    }

    /// Feeds the words of `queue` to the core, one after the other; `is_exec_run`
    /// describes the calls. The first call that fails ends the run with its error.
    pub fn exec_queue(&mut self, queue: Mips32Instruction) -> (r: Result<(), DebugProbeError>)
        ensures
            final(self).follows(old(self)),
            final(self).phase == old(self).phase,
            is_exec_run(issued(old(self).probe.scans(), final(self).probe.scans()), queue@, r),
    {
        let words = queue.get_raw();
        let ghost before = self.probe.scans();
        let ghost first_ctrl = self.ejtag_ctrl.0;
        let ghost mut ops: Seq<JtagOp> = Seq::empty();
        let n = words.len();
        let mut i: usize = 0;
        proof {
            assert(before + ops =~= before);
            lemma_issued(before, ops);
        }
        while i < n
            invariant
                words@ == queue@,
                n == words@.len(),
                i <= n,
                before == old(self).probe.scans(),
                first_ctrl == old(self).ejtag_ctrl.0,
                self.probe.scans() == before + ops,
                ops.len() == 2 * i,
                forall|j: int| 0 <= j < i ==> is_exec_step(ops, j, #[trigger] words@[j]),
                self.ejtag_ctrl.0 == cached_control(ops, first_ctrl),
                self.same_unit(old(self)),
                self.phase == old(self).phase,
            decreases n - i,
        {
            let ghost ops0 = ops;
            let ghost scans0 = self.probe.scans();
            let ghost ctrl0 = self.ejtag_ctrl.0;
            let read = self.get_ejtag_ctrl();
            let ghost op1 = issued(scans0, self.probe.scans())[0];
            proof {
                lemma_issued_back(scans0, self.probe.scans());
                assert(issued(scans0, self.probe.scans()) =~= seq![op1]);
                ops = ops0.push(op1);
                assert(self.probe.scans() =~= before + ops);
                lemma_issued(before, ops);
                lemma_cached_push(Seq::empty(), op1, ctrl0);
                assert(Seq::<JtagOp>::empty().push(op1) =~= seq![op1]);
                lemma_cached_push(ops0, op1, first_ctrl);
                assert forall|j: int| 0 <= j < i implies is_exec_step(
                    ops,
                    j,
                    #[trigger] words@[j],
                ) by {
                    assert(is_exec_step(ops0, j, words@[j]));
                }
            }
            let ctrl = match read {
                Ok(ctrl) => ctrl,
                Err(e) => {
                    return Err(e);
                },
            };
            let ctrl_bytes = word_to_le_bytes(ctrl.0);
            let inst_bytes = word_to_le_bytes(words[i]);
            let mut data: Vec<u8> = Vec::new();
            data.push(ctrl_bytes[0]);
            data.push(ctrl_bytes[1]);
            data.push(ctrl_bytes[2]);
            data.push(ctrl_bytes[3]);
            data.push(inst_bytes[0]);
            data.push(inst_bytes[1]);
            data.push(inst_bytes[2]);
            data.push(inst_bytes[3]);
            data.push(0);
            data.push(0);
            data.push(0);
            data.push(0);
            assert(data@ =~= exec_payload(ctrl.0, words@[i as int]));
            let reply = self.probe.write_register(EJTAG_INST_ALL, data.as_slice(), 96);
            let ghost op2 = JtagOp::WriteRegister {
                address: EJTAG_INST_ALL,
                data: data@,
                len: 96,
                reply: reply_view(reply),
            };
            let ghost ops1 = ops;
            proof {
                ops = ops1.push(op2);
                assert(self.probe.scans() =~= before + ops);
                lemma_issued(before, ops);
                lemma_cached_push(ops1, op2, first_ctrl);
                assert forall|j: int| 0 <= j < i implies is_exec_step(
                    ops,
                    j,
                    #[trigger] words@[j],
                ) by {
                    assert(is_exec_step(ops1, j, words@[j]));
                }
            }
            match reply {
                Ok(_) => {},
                Err(e) => {
                    return Err(e);
                },
            }
            i += 1;
        }
        proof {
            lemma_issued(before, ops);
        }
        Ok(())
    }

    /// Reads the control register until its processor access bit has
    /// the value `want`; `is_poll_run` describes the calls. The poll ends
    /// with a timeout when the bit has not that value more than a second
    /// after the poll began, and with the error of a read that fails. So
    /// that it ends whatever the clock tells, it gives up with a timeout
    /// too when it has read the register as often as a `u64` can count.
    pub fn poll_pracc(&mut self, want: bool) -> (r: Result<(), DebugProbeError>)
        ensures
            final(self).follows(old(self)),
            final(self).phase == old(self).phase,
            is_poll_run(issued(old(self).probe.scans(), final(self).probe.scans()), want, r),
    {
        let start = clock_now();
        let ghost before = self.probe.scans();
        let ghost first_ctrl = self.ejtag_ctrl.0;
        let ghost mut ops: Seq<JtagOp> = Seq::empty();
        let mut polls: u64 = 0;
        proof {
            assert(before + ops =~= before);
        }
        loop
            invariant
                before == old(self).probe.scans(),
                first_ctrl == old(self).ejtag_ctrl.0,
                self.probe.scans() == before + ops,
                forall|j: int|
                    0 <= j < ops.len() ==> (#[trigger] ops[j]).is_read_of(EJTAG_INST_CONTROL, 32)
                        && ops[j].word() is Ok && flag(ops[j].word()->Ok_0, 18) != want,
                self.ejtag_ctrl.0 == cached_control(ops, first_ctrl),
                self.same_unit(old(self)),
                self.phase == old(self).phase,
            decreases u64::MAX - polls,
        {
            let ghost ops0 = ops;
            let ghost scans0 = self.probe.scans();
            let ghost ctrl0 = self.ejtag_ctrl.0;
            let read = self.get_ejtag_ctrl();
            let ghost op1 = issued(scans0, self.probe.scans())[0];
            proof {
                lemma_issued_back(scans0, self.probe.scans());
                assert(issued(scans0, self.probe.scans()) =~= seq![op1]);
                ops = ops0.push(op1);
                assert(self.probe.scans() =~= before + ops);
                lemma_issued(before, ops);
                lemma_cached_push(Seq::empty(), op1, ctrl0);
                assert(Seq::<JtagOp>::empty().push(op1) =~= seq![op1]);
                lemma_cached_push(ops0, op1, first_ctrl);
                assert(ops.last() == op1);
                assert forall|j: int| 0 <= j < ops.len() - 1 implies (#[trigger] ops[j]).word()
                    is Ok && flag(ops[j].word()->Ok_0, 18) != want && ops[j].is_read_of(
                    EJTAG_INST_CONTROL,
                    32,
                ) by {
                    assert(ops[j] == ops0[j]);
                }
            }
            let ctrl = match read {
                Ok(ctrl) => ctrl,
                Err(e) => {
                    return Err(e);
                },
            };
            let elapsed = clock_elapsed(&start);
            match poll_step(ctrl, want, duration_nanos(&elapsed)) {
                PollStep::Ready => {
                    return Ok(());
                },
                PollStep::TimedOut => {
                    return Err(DebugProbeError::Timeout);
                },
                PollStep::Again => {},
            }
            if polls == u64::MAX {
                return Err(DebugProbeError::Timeout);
            }
            polls += 1;
        }
    }

    /// Waits until the core asks for the next instruction word.
    pub fn wait_for_pracc(&mut self) -> (r: Result<(), DebugProbeError>)
        ensures
            final(self).follows(old(self)),
            final(self).phase == old(self).phase,
            is_poll_run(issued(old(self).probe.scans(), final(self).probe.scans()), true, r),
    {
        self.poll_pracc(true)
    }

    /// Waits until the core has taken the instruction word.
    pub fn clean_pracc(&mut self) -> (r: Result<(), DebugProbeError>)
        ensures
            final(self).follows(old(self)),
            final(self).phase == old(self).phase,
            is_poll_run(issued(old(self).probe.scans(), final(self).probe.scans()), false, r),
    {
        self.poll_pracc(false)
    }

    /// Switches single stepping on or off by feeding the core the words
    /// of `step_sequence`, which restore `t0` from the value kept in the session.
    pub fn enable_step(&mut self, enabled: bool) -> (r: Result<(), DebugProbeError>)
        ensures
            final(self).follows(old(self)),
            final(self).phase == old(self).phase,
            is_exec_run(
                issued(old(self).probe.scans(), final(self).probe.scans()),
                step_sequence(enabled, old(self).reg_t0),
                r,
            ),
    {
        let queue = build_step_sequence(enabled, self.reg_t0);
        self.exec_queue(queue)
    }

    /// Ends the session and gives the transport back.
    pub fn detach(self) -> (probe: P)
        ensures
            probe == self.probe,
    {
        self.probe
    }

    /// Whether the debug unit has instruction breakpoints.
    pub fn supports_hardware_breakpoint(self) -> (r: bool)
        ensures
            r == flag(self.debug_ctrl.0, 16),
    {
        self.debug_ctrl.inst_brk()
    }
}

/// A history that kept what was there is what was there and what was added.
pub proof fn lemma_issued_back<T>(before: Seq<T>, after: Seq<T>)
    requires
        before.is_prefix_of(after),
    ensures
        after == before + issued(before, after),
{
    assert(after =~= before + issued(before, after));
}

/// Whether `ops` is the run that resets the target and ends with `result`:
/// the reset line is asserted, and then a word of ones is scanned into the
/// register that tells the core how to boot, into debug mode when `halt`
/// is set. A call that fails ends the run with its error.
pub open spec fn is_reset_run(ops: Seq<JtagOp>, halt: bool, result: Result<
    (),
    DebugProbeError,
>) -> bool {
    &&& ops.len() >= 1
    &&& ops[0] is TargetResetAssert
    &&& match ops[0].failure() {
        Some(e) => ops.len() == 1 && result == Err::<(), DebugProbeError>(e),
        None => {
            &&& ops.len() == 2
            &&& ops[1].is_write_of(
                if halt {
                    EJTAG_INST_EJTAGBOOT
                } else {
                    EJTAG_INST_NORMALBOOT
                },
                seq![0xFFu8, 0xFFu8, 0xFFu8, 0xFFu8],
                32,
            )
            &&& result == match ops[1].failure() {
                Some(e) => Err::<(), DebugProbeError>(e),
                None => Ok::<(), DebugProbeError>(()),
            }
        },
    }
}

/// What an operation of a session keeps, it keeps of a session whose
/// version and memory map belong together: they still do afterwards.
pub proof fn lemma_follows_keeps_wf<P: JtagAccess>(before: &Ejtag<P>, after: &Ejtag<P>)
    requires
        before.wf(),
        after.follows(before),
    ensures
        after.wf(),
        after.ejtag_version == before.ejtag_version,
        after.offsets == before.offsets,
{
}

/// The cached control word after one more call is the word that the
/// call brought back, or the one cached before it.
pub proof fn lemma_cached_push(ops: Seq<JtagOp>, op: JtagOp, before: u32)
    ensures
        cached_control(ops.push(op), before) == match op.control_word() {
            Some(w) => w,
            None => cached_control(ops, before),
        },
{
    assert(ops.push(op).last() == op);
    assert(ops.push(op).drop_last() =~= ops);
}

} // verus!
