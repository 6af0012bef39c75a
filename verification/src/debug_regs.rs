//! The registers of the debug unit and of the core that the backend
//! reads, each as the 32-bit value with its named fields.
use crate::bits::field;
use crate::bits::flag;
use crate::bits::get_field;
use crate::bits::get_flag;
use crate::bits::put_field;
use crate::bits::put_flag;
use crate::bits::with_field;
use crate::bits::with_flag;
use vstd::prelude::*;

verus! {

/// The Config1 register of coprocessor 0.
#[derive(Debug, Clone, Copy, PartialEq, Eq, Structural)]
pub struct Config1(pub u32);

#[allow(non_snake_case)]
impl Config1 {
    /// Bit 31.
    pub fn M(&self) -> (r: bool)
        ensures
            r == flag(self.0, 31),
    {
        get_flag(self.0, 31)
    }

    /// Bits 30..=25.
    pub fn MMUSize(&self) -> (r: u32)
        ensures
            r == field(self.0, 30, 25),
    {
        get_field(self.0, 30, 25)
    }

    /// Bits 24..=22.
    pub fn IS(&self) -> (r: u32)
        ensures
            r == field(self.0, 24, 22),
    {
        get_field(self.0, 24, 22)
    }

    /// Bits 21..=19.
    pub fn IL(&self) -> (r: u32)
        ensures
            r == field(self.0, 21, 19),
    {
        get_field(self.0, 21, 19)
    }

    /// Bits 18..=16.
    pub fn IA(&self) -> (r: u32)
        ensures
            r == field(self.0, 18, 16),
    {
        get_field(self.0, 18, 16)
    }

    /// Bits 15..=13.
    pub fn DS(&self) -> (r: u32)
        ensures
            r == field(self.0, 15, 13),
    {
        get_field(self.0, 15, 13)
    }

    /// Bits 12..=10.
    pub fn DL(&self) -> (r: u32)
        ensures
            r == field(self.0, 12, 10),
    {
        get_field(self.0, 12, 10)
    }

    /// Bits 9..=7.
    pub fn DA(&self) -> (r: u32)
        ensures
            r == field(self.0, 9, 7),
    {
        get_field(self.0, 9, 7)
    }

    /// Bit 6.
    pub fn C2(&self) -> (r: bool)
        ensures
            r == flag(self.0, 6),
    {
        get_flag(self.0, 6)
    }

    /// Bit 5.
    pub fn MD(&self) -> (r: bool)
        ensures
            r == flag(self.0, 5),
    {
        get_flag(self.0, 5)
    }

    /// Bit 4.
    pub fn PC(&self) -> (r: bool)
        ensures
            r == flag(self.0, 4),
    {
        get_flag(self.0, 4)
    }

    /// Bit 3.
    pub fn WR(&self) -> (r: bool)
        ensures
            r == flag(self.0, 3),
    {
        get_flag(self.0, 3)
    }

    /// Bit 2.
    pub fn CA(&self) -> (r: bool)
        ensures
            r == flag(self.0, 2),
    {
        get_flag(self.0, 2)
    }

    /// Bit 1.
    pub fn EP(&self) -> (r: bool)
        ensures
            r == flag(self.0, 1),
    {
        get_flag(self.0, 1)
    }

    /// Bit 0.
    pub fn FP(&self) -> (r: bool)
        ensures
            r == flag(self.0, 0),
    {
        get_flag(self.0, 0)
    }
}

/// The Debug Control register (DCR), found at the start of the debug register segment.
#[derive(Debug, Clone, Copy, PartialEq, Eq, Structural)]
pub struct DebugCtrl(pub u32);

#[allow(non_snake_case)]
impl DebugCtrl {
    /// Bit 29.
    pub fn enm(&self) -> (r: bool)
        ensures
            r == flag(self.0, 29),
    {
        get_flag(self.0, 29)
    }

    /// Bit 26.
    pub fn pcim(&self) -> (r: bool)
        ensures
            r == flag(self.0, 26),
    {
        get_flag(self.0, 26)
    }

    /// Bit 25.
    pub fn pc_noasid(&self) -> (r: bool)
        ensures
            r == flag(self.0, 25),
    {
        get_flag(self.0, 25)
    }

    /// Bit 24.
    pub fn dasq(&self) -> (r: bool)
        ensures
            r == flag(self.0, 24),
    {
        get_flag(self.0, 24)
    }

    /// Bit 23.
    pub fn dasen(&self) -> (r: bool)
        ensures
            r == flag(self.0, 23),
    {
        get_flag(self.0, 23)
    }

    /// Bit 22.
    pub fn das(&self) -> (r: bool)
        ensures
            r == flag(self.0, 22),
    {
        get_flag(self.0, 22)
    }

    /// Bit 18.
    pub fn fdc_impl(&self) -> (r: bool)
        ensures
            r == flag(self.0, 18),
    {
        get_flag(self.0, 18)
    }

    /// Bit 17.
    pub fn data_brk(&self) -> (r: bool)
        ensures
            r == flag(self.0, 17),
    {
        get_flag(self.0, 17)
    }

    /// Bit 16.
    pub fn inst_brk(&self) -> (r: bool)
        ensures
            r == flag(self.0, 16),
    {
        get_flag(self.0, 16)
    }

    /// Bit 15.
    pub fn ivm(&self) -> (r: bool)
        ensures
            r == flag(self.0, 15),
    {
        get_flag(self.0, 15)
    }

    /// Bit 14.
    pub fn dvm(&self) -> (r: bool)
        ensures
            r == flag(self.0, 14),
    {
        get_flag(self.0, 14)
    }

    /// Bit 11.
    pub fn rdvec(&self) -> (r: bool)
        ensures
            r == flag(self.0, 11),
    {
        get_flag(self.0, 11)
    }

    /// Bit 10.
    pub fn cbt(&self) -> (r: bool)
        ensures
            r == flag(self.0, 10),
    {
        get_flag(self.0, 10)
    }

    /// Bit 9.
    pub fn pcs(&self) -> (r: bool)
        ensures
            r == flag(self.0, 9),
    {
        get_flag(self.0, 9)
    }

    /// Bits 8..=6.
    pub fn pcr(&self) -> (r: u32)
        ensures
            r == field(self.0, 8, 6),
    {
        get_field(self.0, 8, 6)
    }

    /// Bit 5.
    pub fn pcse(&self) -> (r: bool)
        ensures
            r == flag(self.0, 5),
    {
        get_flag(self.0, 5)
    }

    /// Bit 4.
    pub fn int_en(&self) -> (r: bool)
        ensures
            r == flag(self.0, 4),
    {
        get_flag(self.0, 4)
    }

    /// Bit 3.
    pub fn nmi_en(&self) -> (r: bool)
        ensures
            r == flag(self.0, 3),
    {
        get_flag(self.0, 3)
    }

    /// Bit 2.
    pub fn nmi_pend(&self) -> (r: bool)
        ensures
            r == flag(self.0, 2),
    {
        get_flag(self.0, 2)
    }

    /// Bit 1.
    pub fn srst_en(&self) -> (r: bool)
        ensures
            r == flag(self.0, 1),
    {
        get_flag(self.0, 1)
    }

    /// Bit 0.
    pub fn prob_en(&self) -> (r: bool)
        ensures
            r == flag(self.0, 0),
    {
        get_flag(self.0, 0)
    }

    /// Writes bit 11.
    pub fn set_rdvec(&mut self, value: bool)
        ensures
            final(self).0 == with_flag(old(self).0, 11, value),
    {
        self.0 = put_flag(self.0, 11, value);
    }

    /// Writes bits 8..=6 with the low bits of `value`.
    pub fn set_pcr(&mut self, value: u32)
        ensures
            final(self).0 == with_field(old(self).0, 8, 6, value),
    {
        self.0 = put_field(self.0, 8, 6, value);
    }

    /// Writes bit 5.
    pub fn set_pcs(&mut self, value: bool)
        ensures
            final(self).0 == with_flag(old(self).0, 5, value),
    {
        self.0 = put_flag(self.0, 5, value);
    }

    /// Writes bit 4.
    pub fn set_int(&mut self, value: bool)
        ensures
            final(self).0 == with_flag(old(self).0, 4, value),
    {
        self.0 = put_flag(self.0, 4, value);
    }

    /// Writes bit 3.
    pub fn set_nmi(&mut self, value: bool)
        ensures
            final(self).0 == with_flag(old(self).0, 3, value),
    {
        self.0 = put_flag(self.0, 3, value);
    }

    /// Writes bit 1.
    pub fn set_srst(&mut self, value: bool)
        ensures
            final(self).0 == with_flag(old(self).0, 1, value),
    {
        self.0 = put_flag(self.0, 1, value);
    }
}

/// The implementation register of the EJTAG unit.
#[derive(Debug, Clone, Copy, PartialEq, Eq, Structural)]
pub struct ImpCode(pub u32);

#[allow(non_snake_case)]
impl ImpCode {
    /// Bits 31..=29.
    pub fn ejtag_ver(&self) -> (r: u32)
        ensures
            r == field(self.0, 31, 29),
    {
        get_field(self.0, 31, 29)
    }

    /// Bit 28.
    pub fn r3k(&self) -> (r: bool)
        ensures
            r == flag(self.0, 28),
    {
        get_flag(self.0, 28)
    }

    /// Bit 24.
    pub fn dint_impl(&self) -> (r: bool)
        ensures
            r == flag(self.0, 24),
    {
        get_flag(self.0, 24)
    }

    /// Bits 23..=21.
    pub fn asid_size(&self) -> (r: u32)
        ensures
            r == field(self.0, 23, 21),
    {
        get_field(self.0, 23, 21)
    }

    /// Bit 16.
    pub fn mips16(&self) -> (r: bool)
        ensures
            r == flag(self.0, 16),
    {
        get_flag(self.0, 16)
    }

    /// Bit 14.
    pub fn no_dma(&self) -> (r: bool)
        ensures
            r == flag(self.0, 14),
    {
        get_flag(self.0, 14)
    }

    /// Bits 13..=11.
    pub fn typ(&self) -> (r: u32)
        ensures
            r == field(self.0, 13, 11),
    {
        get_field(self.0, 13, 11)
    }

    /// Bits 10..=1.
    pub fn typ_info(&self) -> (r: u32)
        ensures
            r == field(self.0, 10, 1),
    {
        get_field(self.0, 10, 1)
    }

    /// Bit 0.
    pub fn isa(&self) -> (r: bool)
        ensures
            r == flag(self.0, 0),
    {
        get_flag(self.0, 0)
    }
}

/// The device identification register.
#[derive(Debug, Clone, Copy, PartialEq, Eq, Structural)]
pub struct IDCode(pub u32);

#[allow(non_snake_case)]
impl IDCode {
    /// Bits 31..=28.
    pub fn version(&self) -> (r: u32)
        ensures
            r == field(self.0, 31, 28),
    {
        get_field(self.0, 31, 28)
    }

    /// Bits 27..=12.
    pub fn part_no(&self) -> (r: u32)
        ensures
            r == field(self.0, 27, 12),
    {
        get_field(self.0, 27, 12)
    }

    /// Bits 11..=1.
    pub fn manuf_id(&self) -> (r: u32)
        ensures
            r == field(self.0, 11, 1),
    {
        get_field(self.0, 11, 1)
    }
}

/// The EJTAG Control register.
#[derive(Debug, Clone, Copy, PartialEq, Eq, Structural)]
pub struct EjtagCtrl(pub u32);

#[allow(non_snake_case)]
impl EjtagCtrl {
    /// Bit 31.
    pub fn rocc(&self) -> (r: bool)
        ensures
            r == flag(self.0, 31),
    {
        get_flag(self.0, 31)
    }

    /// Bits 30..=29.
    pub fn psz(&self) -> (r: u32)
        ensures
            r == field(self.0, 30, 29),
    {
        get_field(self.0, 30, 29)
    }

    /// Bit 23.
    pub fn vpe_de(&self) -> (r: bool)
        ensures
            r == flag(self.0, 23),
    {
        get_flag(self.0, 23)
    }

    /// Bit 22.
    pub fn doze(&self) -> (r: bool)
        ensures
            r == flag(self.0, 22),
    {
        get_flag(self.0, 22)
    }

    /// Bit 21.
    pub fn halt(&self) -> (r: bool)
        ensures
            r == flag(self.0, 21),
    {
        get_flag(self.0, 21)
    }

    /// Bit 20.
    pub fn per_rst(&self) -> (r: bool)
        ensures
            r == flag(self.0, 20),
    {
        get_flag(self.0, 20)
    }

    /// Bit 19.
    pub fn prnw(&self) -> (r: bool)
        ensures
            r == flag(self.0, 19),
    {
        get_flag(self.0, 19)
    }

    /// Bit 18.
    pub fn pracc(&self) -> (r: bool)
        ensures
            r == flag(self.0, 18),
    {
        get_flag(self.0, 18)
    }

    /// Bit 16.
    pub fn prrst(&self) -> (r: bool)
        ensures
            r == flag(self.0, 16),
    {
        get_flag(self.0, 16)
    }

    /// Bit 15.
    pub fn prob_en(&self) -> (r: bool)
        ensures
            r == flag(self.0, 15),
    {
        get_flag(self.0, 15)
    }

    /// Bit 14.
    pub fn prob_trap(&self) -> (r: bool)
        ensures
            r == flag(self.0, 14),
    {
        get_flag(self.0, 14)
    }

    /// Bit 12.
    pub fn ejtag_brk(&self) -> (r: bool)
        ensures
            r == flag(self.0, 12),
    {
        get_flag(self.0, 12)
    }

    /// Bit 3.
    pub fn dbg_mode(&self) -> (r: bool)
        ensures
            r == flag(self.0, 3),
    {
        get_flag(self.0, 3)
    }

    /// Writes bit 31.
    pub fn set_rocc(&mut self, value: bool)
        ensures
            final(self).0 == with_flag(old(self).0, 31, value),
    {
        self.0 = put_flag(self.0, 31, value);
    }

    /// Writes bit 20.
    pub fn set_perrst(&mut self, value: bool)
        ensures
            final(self).0 == with_flag(old(self).0, 20, value),
    {
        self.0 = put_flag(self.0, 20, value);
    }

    /// Writes bit 18.
    pub fn set_pracc(&mut self, value: bool)
        ensures
            final(self).0 == with_flag(old(self).0, 18, value),
    {
        self.0 = put_flag(self.0, 18, value);
    }

    /// Writes bit 16.
    pub fn set_prrst(&mut self, value: bool)
        ensures
            final(self).0 == with_flag(old(self).0, 16, value),
    {
        self.0 = put_flag(self.0, 16, value);
    }

    /// Writes bit 15.
    pub fn set_prob_en(&mut self, value: bool)
        ensures
            final(self).0 == with_flag(old(self).0, 15, value),
    {
        self.0 = put_flag(self.0, 15, value);
    }

    /// Writes bit 14.
    pub fn set_trap(&mut self, value: bool)
        ensures
            final(self).0 == with_flag(old(self).0, 14, value),
    {
        self.0 = put_flag(self.0, 14, value);
    }

    /// Writes bit 12.
    pub fn set_brk(&mut self, value: bool)
        ensures
            final(self).0 == with_flag(old(self).0, 12, value),
    {
        self.0 = put_flag(self.0, 12, value);
    }
}

/// The instruction breakpoint status register.
#[derive(Debug, Clone, Copy, PartialEq, Eq, Structural)]
pub struct IBS(pub u32);

#[allow(non_snake_case)]
impl IBS {
    /// Bit 30.
    pub fn asid_up(&self) -> (r: bool)
        ensures
            r == flag(self.0, 30),
    {
        get_flag(self.0, 30)
    }

    /// Bits 27..=24.
    pub fn bcn(&self) -> (r: u32)
        ensures
            r == field(self.0, 27, 24),
    {
        get_field(self.0, 27, 24)
    }

    /// Bit 3.
    pub fn bp3(&self) -> (r: bool)
        ensures
            r == flag(self.0, 3),
    {
        get_flag(self.0, 3)
    }

    /// Bit 2.
    pub fn bp2(&self) -> (r: bool)
        ensures
            r == flag(self.0, 2),
    {
        get_flag(self.0, 2)
    }

    /// Bit 1.
    pub fn bp1(&self) -> (r: bool)
        ensures
            r == flag(self.0, 1),
    {
        get_flag(self.0, 1)
    }

    /// Bit 0.
    pub fn bp0(&self) -> (r: bool)
        ensures
            r == flag(self.0, 0),
    {
        get_flag(self.0, 0)
    }

    /// Writes bit 3.
    pub fn set_bp3(&mut self, value: bool)
        ensures
            final(self).0 == with_flag(old(self).0, 3, value),
    {
        self.0 = put_flag(self.0, 3, value);
    }

    /// Writes bit 2.
    pub fn set_bp2(&mut self, value: bool)
        ensures
            final(self).0 == with_flag(old(self).0, 2, value),
    {
        self.0 = put_flag(self.0, 2, value);
    }

    /// Writes bit 1.
    pub fn set_bp1(&mut self, value: bool)
        ensures
            final(self).0 == with_flag(old(self).0, 1, value),
    {
        self.0 = put_flag(self.0, 1, value);
    }

    /// Writes bit 0.
    pub fn set_bp0(&mut self, value: bool)
        ensures
            final(self).0 == with_flag(old(self).0, 0, value),
    {
        self.0 = put_flag(self.0, 0, value);
    }
}

/// An instruction breakpoint address register.
#[derive(Debug, Clone, Copy, PartialEq, Eq, Structural)]
pub struct IBA(pub u32);

#[allow(non_snake_case)]
impl IBA {
    /// Bits 31..=1.
    pub fn iba(&self) -> (r: u32)
        ensures
            r == field(self.0, 31, 1),
    {
        get_field(self.0, 31, 1)
    }

    /// Bit 0.
    pub fn isa(&self) -> (r: bool)
        ensures
            r == flag(self.0, 0),
    {
        get_flag(self.0, 0)
    }

    /// Writes bits 31..=1 with the low bits of `value`.
    pub fn set_iba(&mut self, value: u32)
        ensures
            final(self).0 == with_field(old(self).0, 31, 1, value),
    {
        self.0 = put_field(self.0, 31, 1, value);
    }

    /// Writes bit 0.
    pub fn set_isa(&mut self, value: bool)
        ensures
            final(self).0 == with_flag(old(self).0, 0, value),
    {
        self.0 = put_flag(self.0, 0, value);
    }
}

/// An instruction breakpoint address mask register.
#[derive(Debug, Clone, Copy, PartialEq, Eq, Structural)]
pub struct IBM(pub u32);

#[allow(non_snake_case)]
impl IBM {
    /// Bits 31..=1.
    pub fn ibm(&self) -> (r: u32)
        ensures
            r == field(self.0, 31, 1),
    {
        get_field(self.0, 31, 1)
    }

    /// Bit 0.
    pub fn isam(&self) -> (r: bool)
        ensures
            r == flag(self.0, 0),
    {
        get_flag(self.0, 0)
    }

    /// Writes bits 31..=1 with the low bits of `value`.
    pub fn set_ibm(&mut self, value: u32)
        ensures
            final(self).0 == with_field(old(self).0, 31, 1, value),
    {
        self.0 = put_field(self.0, 31, 1, value);
    }

    /// Writes bit 0.
    pub fn set_isam(&mut self, value: bool)
        ensures
            final(self).0 == with_flag(old(self).0, 0, value),
    {
        self.0 = put_flag(self.0, 0, value);
    }
}

/// An instruction breakpoint ASID register.
#[derive(Debug, Clone, Copy, PartialEq, Eq, Structural)]
pub struct IBASID(pub u32);

#[allow(non_snake_case)]
impl IBASID {
    /// Bits 7..=0.
    pub fn asid(&self) -> (r: u32)
        ensures
            r == field(self.0, 7, 0),
    {
        get_field(self.0, 7, 0)
    }

    /// Writes bits 7..=0 with the low bits of `value`.
    pub fn set_asid(&mut self, value: u32)
        ensures
            final(self).0 == with_field(old(self).0, 7, 0, value),
    {
        self.0 = put_field(self.0, 7, 0, value);
    }
}

/// An instruction breakpoint control register.
#[derive(Debug, Clone, Copy, PartialEq, Eq, Structural)]
pub struct IBC(pub u32);

#[allow(non_snake_case)]
impl IBC {
    /// Bits 31..=24.
    pub fn tc(&self) -> (r: u32)
        ensures
            r == field(self.0, 31, 24),
    {
        get_field(self.0, 31, 24)
    }

    /// Bit 23.
    pub fn asid_use(&self) -> (r: bool)
        ensures
            r == flag(self.0, 23),
    {
        get_flag(self.0, 23)
    }

    /// Bit 22.
    pub fn tc_use(&self) -> (r: bool)
        ensures
            r == flag(self.0, 22),
    {
        get_flag(self.0, 22)
    }

    /// Bit 2.
    pub fn te(&self) -> (r: bool)
        ensures
            r == flag(self.0, 2),
    {
        get_flag(self.0, 2)
    }

    /// Bit 0.
    pub fn be(&self) -> (r: bool)
        ensures
            r == flag(self.0, 0),
    {
        get_flag(self.0, 0)
    }

    /// Writes bits 31..=24 with the low bits of `value`.
    pub fn set_tc(&mut self, value: u32)
        ensures
            final(self).0 == with_field(old(self).0, 31, 24, value),
    {
        self.0 = put_field(self.0, 31, 24, value);
    }

    /// Writes bit 23.
    pub fn set_asid_use(&mut self, value: bool)
        ensures
            final(self).0 == with_flag(old(self).0, 23, value),
    {
        self.0 = put_flag(self.0, 23, value);
    }

    /// Writes bit 2.
    pub fn set_te(&mut self, value: bool)
        ensures
            final(self).0 == with_flag(old(self).0, 2, value),
    {
        self.0 = put_flag(self.0, 2, value);
    }

    /// Writes bit 0.
    pub fn set_be(&mut self, value: bool)
        ensures
            final(self).0 == with_flag(old(self).0, 0, value),
    {
        self.0 = put_flag(self.0, 0, value);
    }
}

/// The data breakpoint status register.
#[derive(Debug, Clone, Copy, PartialEq, Eq, Structural)]
pub struct DBS(pub u32);

#[allow(non_snake_case)]
impl DBS {
    /// Bit 30.
    pub fn asid(&self) -> (r: bool)
        ensures
            r == flag(self.0, 30),
    {
        get_flag(self.0, 30)
    }

    /// Bits 27..=24.
    pub fn bcn(&self) -> (r: u32)
        ensures
            r == field(self.0, 27, 24),
    {
        get_field(self.0, 27, 24)
    }

    /// Bit 1.
    pub fn bp1(&self) -> (r: bool)
        ensures
            r == flag(self.0, 1),
    {
        get_flag(self.0, 1)
    }

    /// Bit 0.
    pub fn bp0(&self) -> (r: bool)
        ensures
            r == flag(self.0, 0),
    {
        get_flag(self.0, 0)
    }

    /// Writes bit 1.
    pub fn set_bp1(&mut self, value: bool)
        ensures
            final(self).0 == with_flag(old(self).0, 1, value),
    {
        self.0 = put_flag(self.0, 1, value);
    }

    /// Writes bit 0.
    pub fn set_bp0(&mut self, value: bool)
        ensures
            final(self).0 == with_flag(old(self).0, 0, value),
    {
        self.0 = put_flag(self.0, 0, value);
    }
}

/// A data breakpoint address register.
#[derive(Debug, Clone, Copy, PartialEq, Eq, Structural)]
pub struct DBA(pub u32);

#[allow(non_snake_case)]
impl DBA {
    /// Bits 31..=0.
    pub fn iba(&self) -> (r: u32)
        ensures
            r == field(self.0, 31, 0),
    {
        get_field(self.0, 31, 0)
    }

    /// Writes bits 31..=0 with the low bits of `value`.
    pub fn set_iba(&mut self, value: u32)
        ensures
            final(self).0 == with_field(old(self).0, 31, 0, value),
    {
        self.0 = put_field(self.0, 31, 0, value);
    }
}

/// A data breakpoint address mask register.
#[derive(Debug, Clone, Copy, PartialEq, Eq, Structural)]
pub struct DBM(pub u32);

#[allow(non_snake_case)]
impl DBM {
    /// Bits 31..=0.
    pub fn ibm(&self) -> (r: u32)
        ensures
            r == field(self.0, 31, 0),
    {
        get_field(self.0, 31, 0)
    }

    /// Writes bits 31..=0 with the low bits of `value`.
    pub fn set_ibm(&mut self, value: u32)
        ensures
            final(self).0 == with_field(old(self).0, 31, 0, value),
    {
        self.0 = put_field(self.0, 31, 0, value);
    }
}

/// A data breakpoint ASID register.
#[derive(Debug, Clone, Copy, PartialEq, Eq, Structural)]
pub struct DBASID(pub u32);

#[allow(non_snake_case)]
impl DBASID {
    /// Bits 7..=0.
    pub fn asid(&self) -> (r: u32)
        ensures
            r == field(self.0, 7, 0),
    {
        get_field(self.0, 7, 0)
    }

    /// Writes bits 7..=0 with the low bits of `value`.
    pub fn set_asid(&mut self, value: u32)
        ensures
            final(self).0 == with_field(old(self).0, 7, 0, value),
    {
        self.0 = put_field(self.0, 7, 0, value);
    }
}

/// A data breakpoint control register.
#[derive(Debug, Clone, Copy, PartialEq, Eq, Structural)]
pub struct DBC(pub u32);

#[allow(non_snake_case)]
impl DBC {
    /// Bits 31..=24.
    pub fn tc(&self) -> (r: u32)
        ensures
            r == field(self.0, 31, 24),
    {
        get_field(self.0, 31, 24)
    }

    /// Bit 23.
    pub fn asid_use(&self) -> (r: bool)
        ensures
            r == flag(self.0, 23),
    {
        get_flag(self.0, 23)
    }

    /// Bit 22.
    pub fn tc_use(&self) -> (r: bool)
        ensures
            r == flag(self.0, 22),
    {
        get_flag(self.0, 22)
    }

    /// Bits 21..=14.
    pub fn bai(&self) -> (r: u32)
        ensures
            r == field(self.0, 21, 14),
    {
        get_field(self.0, 21, 14)
    }

    /// Bit 13.
    pub fn nsb(&self) -> (r: bool)
        ensures
            r == flag(self.0, 13),
    {
        get_flag(self.0, 13)
    }

    /// Bit 12.
    pub fn nlb(&self) -> (r: bool)
        ensures
            r == flag(self.0, 12),
    {
        get_flag(self.0, 12)
    }

    /// Bits 11..=4.
    pub fn blm(&self) -> (r: u32)
        ensures
            r == field(self.0, 11, 4),
    {
        get_field(self.0, 11, 4)
    }

    /// Bit 2.
    pub fn te(&self) -> (r: bool)
        ensures
            r == flag(self.0, 2),
    {
        get_flag(self.0, 2)
    }

    /// Bit 0.
    pub fn be(&self) -> (r: bool)
        ensures
            r == flag(self.0, 0),
    {
        get_flag(self.0, 0)
    }

    /// Writes bits 31..=24 with the low bits of `value`.
    pub fn set_tc(&mut self, value: u32)
        ensures
            final(self).0 == with_field(old(self).0, 31, 24, value),
    {
        self.0 = put_field(self.0, 31, 24, value);
    }

    /// Writes bit 23.
    pub fn set_asid_use(&mut self, value: bool)
        ensures
            final(self).0 == with_flag(old(self).0, 23, value),
    {
        self.0 = put_flag(self.0, 23, value);
    }

    /// Writes bits 21..=14 with the low bits of `value`.
    pub fn set_bai(&mut self, value: u32)
        ensures
            final(self).0 == with_field(old(self).0, 21, 14, value),
    {
        self.0 = put_field(self.0, 21, 14, value);
    }

    /// Writes bit 13.
    pub fn set_nsb(&mut self, value: bool)
        ensures
            final(self).0 == with_flag(old(self).0, 13, value),
    {
        self.0 = put_flag(self.0, 13, value);
    }

    /// Writes bit 12.
    pub fn set_nlb(&mut self, value: bool)
        ensures
            final(self).0 == with_flag(old(self).0, 12, value),
    {
        self.0 = put_flag(self.0, 12, value);
    }

    /// Writes bits 11..=4 with the low bits of `value`.
    pub fn set_blm(&mut self, value: u32)
        ensures
            final(self).0 == with_field(old(self).0, 11, 4, value),
    {
        self.0 = put_field(self.0, 11, 4, value);
    }

    /// Writes bit 2.
    pub fn set_te(&mut self, value: bool)
        ensures
            final(self).0 == with_flag(old(self).0, 2, value),
    {
        self.0 = put_flag(self.0, 2, value);
    }

    /// Writes bit 0.
    pub fn set_be(&mut self, value: bool)
        ensures
            final(self).0 == with_flag(old(self).0, 0, value),
    {
        self.0 = put_flag(self.0, 0, value);
    }
}

/// A data breakpoint value register.
#[derive(Debug, Clone, Copy, PartialEq, Eq, Structural)]
pub struct DBV(pub u32);

#[allow(non_snake_case)]
impl DBV {
    /// Bits 31..=0.
    pub fn dbv(&self) -> (r: u32)
        ensures
            r == field(self.0, 31, 0),
    {
        get_field(self.0, 31, 0)
    }

    /// Writes bits 31..=0 with the low bits of `value`.
    pub fn set_dbv(&mut self, value: u32)
        ensures
            final(self).0 == with_field(old(self).0, 31, 0, value),
    {
        self.0 = put_field(self.0, 31, 0, value);
    }
}

/// The high half of a data breakpoint value register.
#[derive(Debug, Clone, Copy, PartialEq, Eq, Structural)]
pub struct DBVH(pub u32);

#[allow(non_snake_case)]
impl DBVH {
    /// Bits 31..=0.
    pub fn dbvh(&self) -> (r: u32)
        ensures
            r == field(self.0, 31, 0),
    {
        get_field(self.0, 31, 0)
    }

    /// Writes bits 31..=0 with the low bits of `value`.
    pub fn set_dbvh(&mut self, value: u32)
        ensures
            final(self).0 == with_field(old(self).0, 31, 0, value),
    {
        self.0 = put_field(self.0, 31, 0, value);
    }
}

} // verus!
