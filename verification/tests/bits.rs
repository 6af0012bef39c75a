use mips_ejtag::bits::get_field;
use mips_ejtag::bits::get_flag;
use mips_ejtag::bits::put_field;
use mips_ejtag::bits::put_flag;
use mips_ejtag::bits::word_from_le_bytes;
use mips_ejtag::bits::word_to_le_bytes;
use mips_ejtag::debug_regs::Config1;
use mips_ejtag::debug_regs::DBC;
use mips_ejtag::debug_regs::DebugCtrl;
use mips_ejtag::debug_regs::EjtagCtrl;
use mips_ejtag::debug_regs::IDCode;
use mips_ejtag::debug_regs::ImpCode;
use mips_ejtag::debug_regs::IBA;
use mips_ejtag::debug_regs::IBS;

#[test]
fn field_is_moved_down_to_bit_zero() {
    assert_eq!(get_field(0x0400_0000, 27, 24), 4);
    assert_eq!(get_field(0xF4FF_FFFF, 27, 24), 4);
    assert_eq!(get_field(0xDEAD_BEEF, 31, 0), 0xDEAD_BEEF);
    assert_eq!(get_field(0xDEAD_BEEF, 31, 16), 0xDEAD);
    assert_eq!(get_field(0xDEAD_BEEF, 15, 0), 0xBEEF);
    assert_eq!(get_field(0x8000_0000, 31, 31), 1);
    assert_eq!(get_field(0x0000_0001, 0, 0), 1);
}

#[test]
fn flag_reads_one_bit() {
    assert!(get_flag(0x0004_0000, 18));
    assert!(!get_flag(!0x0004_0000, 18));
    assert!(get_flag(0x8000_0000, 31));
    assert!(get_flag(1, 0));
    assert!(!get_flag(2, 0));
    for bit in 0..32u32 {
        assert!(get_flag(1 << bit, bit));
        assert!(!get_flag(!(1u32 << bit), bit));
    }
}

#[test]
fn words_and_bytes() {
    assert_eq!(word_to_le_bytes(0x1234_5678), [0x78, 0x56, 0x34, 0x12]);
    assert_eq!(word_from_le_bytes(&[0x78, 0x56, 0x34, 0x12]), 0x1234_5678);
    assert_eq!(word_from_le_bytes(&[0x78, 0x56, 0x34, 0x12, 0xff]), 0x1234_5678);
    for word in [0u32, 1, 0xFFFF_FFFF, 0x8000_0001, 0xFF20_0200] {
        assert_eq!(word_from_le_bytes(&word_to_le_bytes(word)), word);
    }
}

#[test]
fn fields_of_the_control_register() {
    let ctrl = EjtagCtrl(0x0004_0000);
    assert!(ctrl.pracc());
    assert!(!ctrl.rocc());
    assert!(!ctrl.prob_en());
    assert_eq!(ctrl.psz(), 0);
    let ctrl = EjtagCtrl(0xE000_C008);
    assert!(ctrl.rocc());
    assert_eq!(ctrl.psz(), 3);
    assert!(ctrl.prob_en());
    assert!(ctrl.prob_trap());
    assert!(ctrl.dbg_mode());
    assert!(!ctrl.pracc());
}

#[test]
fn fields_of_the_identification_registers() {
    let id = IDCode(0x1234_5679);
    assert_eq!(id.version(), 1);
    assert_eq!(id.part_no(), 0x2345);
    assert_eq!(id.manuf_id(), 0x33c);
    let imp = ImpCode(0x6041_4001);
    assert_eq!(imp.ejtag_ver(), 3);
    assert!(imp.mips16());
    assert!(imp.no_dma());
    assert!(imp.isa());
    assert_eq!(imp.asid_size(), 2);
}

#[test]
fn fields_of_the_breakpoint_and_config_registers() {
    let ibs = IBS(0x4600_0005);
    assert!(ibs.asid_up());
    assert_eq!(ibs.bcn(), 6);
    assert!(ibs.bp0());
    assert!(!ibs.bp1());
    assert!(ibs.bp2());
    assert!(!ibs.bp3());
    let iba = IBA(0x8000_1001);
    assert_eq!(iba.iba(), 0x4000_0800);
    assert!(iba.isa());
    assert!(Config1(1).FP());
    assert!(!Config1(0xFFFF_FFFE).FP());
    assert_eq!(Config1(0x7E00_0000).MMUSize(), 63);
    assert!(DebugCtrl(0x0001_0000).inst_brk());
    assert!(DebugCtrl(0x0002_0000).data_brk());
    assert_eq!(DebugCtrl(0x0000_01C0).pcr(), 7);
}

#[test]
fn a_field_is_written_in_its_place() {
    assert_eq!(put_field(0, 27, 24, 4), 0x0400_0000);
    assert_eq!(put_field(0xFFFF_FFFF, 27, 24, 4), 0xF4FF_FFFF);
    assert_eq!(put_field(0xFFFF_FFFF, 27, 24, 0x14), 0xF4FF_FFFF);
    assert_eq!(put_field(0x1234_5678, 31, 0, 0xDEAD_BEEF), 0xDEAD_BEEF);
    assert_eq!(put_field(0x1234_5678, 15, 8, 0), 0x1234_0078);
    assert_eq!(put_field(0, 31, 31, 1), 0x8000_0000);
    for (msb, lsb) in [(31u32, 0u32), (27, 24), (8, 6), (0, 0), (31, 31), (21, 14)] {
        for value in [0u32, 1, 0x55, 0xFFFF_FFFF] {
            let word = put_field(0xA5A5_5A5A, msb, lsb, value);
            let width = msb - lsb + 1;
            let low = if width == 32 { u32::MAX } else { (1 << width) - 1 };
            assert_eq!(get_field(word, msb, lsb), value & low);
            assert_eq!(word & !(low << lsb), 0xA5A5_5A5A & !(low << lsb));
        }
    }
}

#[test]
fn a_bit_is_set_and_cleared() {
    assert_eq!(put_flag(0, 18, true), 0x0004_0000);
    assert_eq!(put_flag(0xFFFF_FFFF, 18, false), 0xFFFB_FFFF);
    assert_eq!(put_flag(0x0004_0000, 18, true), 0x0004_0000);
    for bit in 0..32u32 {
        assert_eq!(put_flag(0, bit, true), 1 << bit);
        assert_eq!(put_flag(u32::MAX, bit, false), !(1u32 << bit));
        assert!(get_flag(put_flag(0x1234_5678, bit, true), bit));
        assert!(!get_flag(put_flag(0x1234_5678, bit, false), bit));
    }
}

#[test]
fn fields_of_registers_are_written() {
    let mut ctrl = EjtagCtrl(0x0000_8000);
    ctrl.set_pracc(true);
    ctrl.set_brk(true);
    assert_eq!(ctrl, EjtagCtrl(0x0004_9000));
    ctrl.set_pracc(false);
    ctrl.set_prob_en(false);
    ctrl.set_rocc(true);
    assert_eq!(ctrl, EjtagCtrl(0x8000_1000));
    let mut dcr = DebugCtrl(0);
    dcr.set_pcr(5);
    dcr.set_int(true);
    assert_eq!(dcr, DebugCtrl(0x0000_0150));
    assert_eq!(dcr.pcr(), 5);
    let mut iba = IBA(1);
    iba.set_iba(0x4000_0800);
    assert_eq!(iba, IBA(0x8000_1001));
    iba.set_isa(false);
    assert_eq!(iba, IBA(0x8000_1000));
    let mut dbc = DBC(0);
    dbc.set_bai(0xF0);
    dbc.set_blm(0x0F);
    dbc.set_tc(0xAB);
    dbc.set_be(true);
    assert_eq!(dbc, DBC(0xAB3C_00F1));
    assert_eq!(dbc.bai(), 0xF0);
    assert_eq!(dbc.blm(), 0x0F);
    let mut ibs = IBS(0x0400_0000);
    ibs.set_bp0(true);
    ibs.set_bp3(true);
    assert_eq!(ibs, IBS(0x0400_0009));
}
