use mips_ejtag::assembly::encode_i_type;
use mips_ejtag::assembly::encode_j_type;
use mips_ejtag::assembly::encode_r_type;
use mips_ejtag::assembly::funct_of;
use mips_ejtag::assembly::imm_of;
use mips_ejtag::assembly::mips32_addiu;
use mips_ejtag::assembly::mips32_isa_addiu;
use mips_ejtag::assembly::mips32_isa_j;
use mips_ejtag::assembly::mips32_j;
use mips_ejtag::assembly::mips_addiu;
use mips_ejtag::assembly::mips_beq;
use mips_ejtag::assembly::mips_cache;
use mips_ejtag::assembly::mips_jr;
use mips_ejtag::assembly::mips_lui;
use mips_ejtag::assembly::mips_lw;
use mips_ejtag::assembly::mips_mfc0;
use mips_ejtag::assembly::mips_mfhi;
use mips_ejtag::assembly::mips_mtc0;
use mips_ejtag::assembly::mips_ori;
use mips_ejtag::assembly::mips_rdhwr;
use mips_ejtag::assembly::mips_sllv;
use mips_ejtag::assembly::mips_srl;
use mips_ejtag::assembly::mips_sw;
use mips_ejtag::assembly::mips_swc1;
use mips_ejtag::assembly::mips_xori;
use mips_ejtag::assembly::mmips32_addiu;
use mips_ejtag::assembly::mmips32_j;
use mips_ejtag::assembly::opcode_of;
use mips_ejtag::assembly::rd_of;
use mips_ejtag::assembly::rs_of;
use mips_ejtag::assembly::rt_of;
use mips_ejtag::assembly::shift_of;
use mips_ejtag::assembly::target_of;
use mips_ejtag::assembly::Isa;
use mips_ejtag::assembly::Mips32Instruction;
use mips_ejtag::assembly::A0;
use mips_ejtag::assembly::MIPS_EHB;
use mips_ejtag::assembly::MIPS_NOP;
use mips_ejtag::assembly::MIPS_SDBBP;
use mips_ejtag::assembly::MIPS_SYNC;
use mips_ejtag::assembly::RA;
use mips_ejtag::assembly::SP;
use mips_ejtag::assembly::T0;
use mips_ejtag::assembly::T1;
use mips_ejtag::assembly::ZERO;

#[test]
fn addiu_of_t0_zero_and_100() {
    assert_eq!(mips32_isa_addiu(T0, ZERO, 100), 0x24080064);
    assert_eq!(
        mips32_isa_addiu(T0, ZERO, 100),
        (0x09 << 26) | (0 << 21) | (8 << 16) | 100
    );
}

#[test]
fn addiu_fields_read_back() {
    let word = mips32_isa_addiu(T0, ZERO, 100);
    assert_eq!(opcode_of(word), 0x09);
    assert_eq!(rs_of(word), ZERO);
    assert_eq!(rt_of(word), T0);
    assert_eq!(imm_of(word), 100);
}

#[test]
fn addiu_of_the_builder_names_the_source_first() {
    assert_eq!(mips_addiu(ZERO, T0, 100), mips32_isa_addiu(T0, ZERO, 100));
    assert_eq!(mips_addiu(T0, ZERO, 100), 0x2500_0064);
}

#[test]
fn micromips_addiu_swaps_the_register_fields() {
    let word = mmips32_addiu(T0, A0, 0x1234);
    assert_eq!(word, (0x0C << 26) | (8 << 21) | (4 << 16) | 0x1234);
    assert_eq!(rs_of(word), T0);
    assert_eq!(rt_of(word), A0);
    let mips = mips32_isa_addiu(T0, A0, 0x1234);
    assert_eq!(rs_of(mips), A0);
    assert_eq!(rt_of(mips), T0);
}

#[test]
fn the_mode_flag_selects_the_encoding() {
    assert_eq!(
        mips32_addiu(Isa::Mips32, T0, ZERO, 100),
        mips32_isa_addiu(T0, ZERO, 100)
    );
    assert_eq!(
        mips32_addiu(Isa::MicroMips, T0, ZERO, 100),
        mmips32_addiu(T0, ZERO, 100)
    );
    assert_eq!(mips32_j(Isa::Mips32, 0x8000_1000), mips32_isa_j(0x8000_1000));
    assert_eq!(mips32_j(Isa::MicroMips, 0x8000_1000), mmips32_j(0x8000_1000));
}

#[test]
fn jump_keeps_the_word_index_inside_the_region() {
    let word = mips32_isa_j(0x8000_1000);
    assert_eq!(word, (0x02 << 26) | ((0x8000_1000u32 & 0x0FFF_FFFF) >> 2));
    assert_eq!(word, 0x0800_0400);
    assert_eq!(opcode_of(word), 0x02);
    assert_eq!(target_of(word) << 2, 0x8000_1000 & 0x0FFF_FFFC);
}

#[test]
fn micromips_jump_keeps_the_half_word_index() {
    let word = mmips32_j(0x8000_1000);
    assert_eq!(word, (0x35 << 26) | 0x800);
    assert_eq!(target_of(word) << 1, 0x8000_1000 & 0x07FF_FFFE);
}

#[test]
fn immediate_is_cut_to_16_bits() {
    assert_eq!(encode_i_type(0x09, 1, 2, 0x1_2345), encode_i_type(0x09, 1, 2, 0x2345));
    assert_eq!(imm_of(encode_i_type(0x09, 1, 2, 0xFFFF)), 0xFFFF);
}

#[test]
fn i_type_round_trips_over_all_registers() {
    for rs in 0..32u32 {
        for rt in 0..32u32 {
            for imm in [0u32, 1, 0x7FFF, 0x8000, 0xFFFF] {
                let word = encode_i_type(0x23, rs, rt, imm);
                assert_eq!(opcode_of(word), 0x23);
                assert_eq!(rs_of(word), rs);
                assert_eq!(rt_of(word), rt);
                assert_eq!(imm_of(word), imm);
            }
        }
    }
}

#[test]
fn r_type_round_trips() {
    for rs in [0u32, 1, 17, 31] {
        for rt in [0u32, 2, 30, 31] {
            for rd in [0u32, 5, 31] {
                for shift in [0u32, 13, 31] {
                    for funct in [0u32, 0x21, 0x3f] {
                        let word = encode_r_type(0, rs, rt, rd, shift, funct);
                        assert_eq!(opcode_of(word), 0);
                        assert_eq!(rs_of(word), rs);
                        assert_eq!(rt_of(word), rt);
                        assert_eq!(rd_of(word), rd);
                        assert_eq!(shift_of(word), shift);
                        assert_eq!(funct_of(word), funct);
                    }
                }
            }
        }
    }
    assert_eq!(encode_r_type(0, 9, 10, 8, 0, 0x21), 0x012A_4021);
}

#[test]
fn j_type_round_trips() {
    for target in [0u32, 1, 0x400, 0x03FF_FFFF] {
        let word = encode_j_type(0x03, target);
        assert_eq!(opcode_of(word), 0x03);
        assert_eq!(target_of(word), target);
    }
    assert_eq!(encode_j_type(0x02, 0x0400_0001), encode_j_type(0x02, 1));
}

#[test]
fn words_of_the_instruction_table() {
    assert_eq!(MIPS_NOP, 0);
    assert_eq!(MIPS_EHB, 0x0000_00c0);
    assert_eq!(MIPS_SYNC, 0x0000_000f);
    assert_eq!(MIPS_SDBBP, 0x7000_003f);
    assert_eq!(mips_ori(T0, T0, 0x100), 0x3508_0100);
    assert_eq!(mips_xori(T0, T0, 0x100), 0x3908_0100);
    assert_eq!(mips_lui(T0, 0xFF20), 0x3c08_ff20);
    assert_eq!(mips_lw(SP, T1, 4), 0x8fa9_0004);
    assert_eq!(mips_sw(SP, T1, 4), 0xafa9_0004);
    assert_eq!(mips_mfc0(T0, 23, 0), 0x4008_b800);
    assert_eq!(mips_mtc0(T0, 23, 0), 0x4088_b800);
    assert_eq!(mips_mtc0(T0, 31, 0), 0x4088_f800);
    assert_eq!(mips_jr(RA), 0x03e0_0008);
    assert_eq!(mips_beq(ZERO, ZERO, 0xFFFF), 0x1000_ffff);
    assert_eq!(mips_mfhi(T0), 0x0000_4010);
    assert_eq!(mips_srl(T0, T1, 16), 0x0009_4402);
    assert_eq!(mips_sllv(T0, T1, A0), 0x0124_4004);
    assert_eq!(mips_rdhwr(29, T0), 0x7c08_e83b);
    assert_eq!(mips_cache(T0, 0x15, 0), 0xbd15_0000);
    assert_eq!(mips_swc1(SP, 2, 8), 0xe7a2_0008);
}

#[test]
fn new_sequence_holds_the_leading_nop() {
    let queue = Mips32Instruction::new();
    assert_eq!(queue.get_count(), 1);
    assert_eq!(queue.get_raw(), vec![0u32]);
    assert_eq!(Mips32Instruction::default().get_raw(), vec![0u32]);
}

#[test]
fn chained_calls_append_in_order() {
    let queue = Mips32Instruction::new()
        .mfc0(T0, 23, 0)
        .ori(T0, T0, 0x100)
        .nop()
        .jr(RA);
    assert_eq!(queue.get_count(), 5);
    assert_eq!(
        queue.get_raw(),
        vec![0, 0x4008_b800, 0x3508_0100, 0, 0x03e0_0008]
    );
    assert_eq!(queue.clone().get_raw(), queue.get_raw());
    assert_eq!(queue.get_last(), 0x03e0_0008);
}

#[test]
fn last_word_of_a_new_sequence_is_the_nop() {
    assert_eq!(Mips32Instruction::new().get_last(), 0);
}

#[test]
fn bytes_are_little_endian() {
    let queue = Mips32Instruction::new().lui(T0, 0xFF20).sdbbp();
    assert_eq!(
        queue.into_bytes(),
        vec![0, 0, 0, 0, 0x20, 0xff, 0x08, 0x3c, 0x3f, 0x00, 0x00, 0x70]
    );
}

#[test]
fn b_is_beq_of_zero_with_zero() {
    let last = Mips32Instruction::new().b(0x10).get_last();
    assert_eq!(last, mips_beq(ZERO, ZERO, 0x10));
    assert_eq!(last, 0x1000_0010);
}

#[test]
fn branch_to_start_has_minus_four_times_the_count() {
    let mut queue = Mips32Instruction::new();
    for n in 1..40u32 {
        let branch = queue.clone().b_start().get_last();
        assert_eq!(opcode_of(branch), 0x04);
        assert_eq!(imm_of(branch), 0u32.wrapping_sub(n * 4) & 0xFFFF);
        queue = queue.nop();
    }
    let six = Mips32Instruction::new().nop().nop().nop().nop().nop();
    assert_eq!(six.get_count(), 6);
    assert_eq!(imm_of(six.b_start().get_last()), 0xFFE8);
}
