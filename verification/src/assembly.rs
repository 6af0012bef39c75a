//! Encoding of MIPS32 and microMIPS instructions, and the builder of the
//! instruction sequences that are fed to a core in debug mode.
use crate::bits::le_bytes;
use crate::bits::word_to_le_bytes;
use vstd::prelude::*;

verus! {

// Numbers of the general purpose registers
pub const ZERO: u32 = 0x0;
pub const AT: u32 = 0x01;
pub const V0: u32 = 0x02;
pub const V1: u32 = 0x03;
pub const A0: u32 = 0x04;
pub const A1: u32 = 0x05;
pub const A2: u32 = 0x06;
pub const A3: u32 = 0x07;
pub const T0: u32 = 0x08;
pub const T1: u32 = 0x09;
pub const T2: u32 = 0x0A;
pub const T3: u32 = 0x0B;
pub const T4: u32 = 0x0C;
pub const T5: u32 = 0x0D;
pub const T6: u32 = 0x0E;
pub const T7: u32 = 0x0F;
pub const T8: u32 = 0x18;
pub const T9: u32 = 0x19;
pub const S0: u32 = 0x10;
pub const S1: u32 = 0x11;
pub const S2: u32 = 0x12;
pub const S3: u32 = 0x13;
pub const S4: u32 = 0x14;
pub const S5: u32 = 0x15;
pub const S6: u32 = 0x16;
pub const S7: u32 = 0x17;
pub const S8: u32 = 0x1E;
pub const K0: u32 = 0x1A;
pub const K1: u32 = 0x1B;
pub const GP: u32 = 0x1C;
pub const SP: u32 = 0x1D;
pub const RA: u32 = 0x1F;

/// Major opcode of ADDIU in the MIPS32 encoding.
pub const MIPS32_OP_ADDIU: u32 = 0x09;
/// Major opcode of J in the MIPS32 encoding.
pub const MIPS32_OP_J: u32 = 0x02;
/// Major opcode of ADDIU in the microMIPS encoding.
pub const MMIPS32_OP_ADDIU: u32 = 0x0C;
/// Major opcode of J in the microMIPS encoding.
pub const MMIPS32_OP_J: u32 = 0x35;

/// The two encodings of the instruction set. One injected sequence is
/// encoded in one of them throughout.
#[derive(Debug, Clone, Copy, PartialEq, Eq, Structural)]
pub enum Isa {
    Mips32,
    MicroMips,
}

/// An I-type word: opcode, two registers and a 16-bit immediate.
pub open spec fn spec_encode_i_type(opcode: u32, rs: u32, rt: u32, imm: u32) -> u32 {
    opcode << 26u32 | rs << 21u32 | rt << 16u32 | (imm & 0xFFFF)
}

/// A J-type word: opcode and a 26-bit target field.
pub open spec fn spec_encode_j_type(opcode: u32, target: u32) -> u32 {
    opcode << 26u32 | (target & 0x03FF_FFFF)
}

/// An R-type word: opcode, three registers, a shift amount and a function code.
pub open spec fn spec_encode_r_type(
    opcode: u32,
    rs: u32,
    rt: u32,
    rd: u32,
    shift: u32,
    funct: u32,
) -> u32 {
    opcode << 26u32 | rs << 21u32 | rt << 16u32 | rd << 11u32 | shift << 6u32 | funct
}

/// The opcode field of a word, bits 31..=26.
pub open spec fn spec_opcode_of(word: u32) -> u32 {
    word >> 26u32
}

/// The `rs` field of a word, bits 25..=21.
pub open spec fn spec_rs_of(word: u32) -> u32 {
    (word >> 21u32) & 0x1f
}

/// The `rt` field of a word, bits 20..=16.
pub open spec fn spec_rt_of(word: u32) -> u32 {
    (word >> 16u32) & 0x1f
}

/// The `rd` field of a word, bits 15..=11.
pub open spec fn spec_rd_of(word: u32) -> u32 {
    (word >> 11u32) & 0x1f
}

/// The shift amount field of a word, bits 10..=6.
pub open spec fn spec_shift_of(word: u32) -> u32 {
    (word >> 6u32) & 0x1f
}

/// The function code field of a word, bits 5..=0.
pub open spec fn spec_funct_of(word: u32) -> u32 {
    word & 0x3f
}

/// The immediate field of a word, bits 15..=0.
pub open spec fn spec_imm_of(word: u32) -> u32 {
    word & 0xFFFF
}

/// The target field of a word, bits 25..=0.
pub open spec fn spec_target_of(word: u32) -> u32 {
    word & 0x03FF_FFFF
}

/// Encodes an I-type instruction. The immediate is cut to its low 16 bits.
#[verifier::when_used_as_spec(spec_encode_i_type)]
pub fn encode_i_type(opcode: u32, rs: u32, rt: u32, imm: u32) -> (word: u32)
    requires
        rs < 32,
        rt < 32,
    ensures
        word == spec_encode_i_type(opcode, rs, rt, imm),
{
    opcode << 26u32 | rs << 21u32 | rt << 16u32 | (imm & 0xFFFF)
}

/// Encodes a J-type instruction from the target field, which is the
/// address already shifted as the encoding asks. The field is cut to 26 bits.
#[verifier::when_used_as_spec(spec_encode_j_type)]
pub fn encode_j_type(opcode: u32, target: u32) -> (word: u32)
    ensures
        word == spec_encode_j_type(opcode, target),
{
    opcode << 26u32 | (target & 0x03FF_FFFF)
}

/// Encodes an R-type instruction.
#[verifier::when_used_as_spec(spec_encode_r_type)]
pub fn encode_r_type(opcode: u32, rs: u32, rt: u32, rd: u32, shift: u32, funct: u32) -> (word: u32)
    requires
        rs < 32,
        rt < 32,
        rd < 32,
    ensures
        word == spec_encode_r_type(opcode, rs, rt, rd, shift, funct),
{
    opcode << 26u32 | rs << 21u32 | rt << 16u32 | rd << 11u32 | shift << 6u32 | funct
}

/// Reads the opcode field of a word.
#[verifier::when_used_as_spec(spec_opcode_of)]
pub fn opcode_of(word: u32) -> (r: u32)
    ensures
        r == spec_opcode_of(word),
{
    word >> 26u32
}

/// Reads the `rs` field of a word.
#[verifier::when_used_as_spec(spec_rs_of)]
pub fn rs_of(word: u32) -> (r: u32)
    ensures
        r == spec_rs_of(word),
{
    (word >> 21u32) & 0x1f
}

/// Reads the `rt` field of a word.
#[verifier::when_used_as_spec(spec_rt_of)]
pub fn rt_of(word: u32) -> (r: u32)
    ensures
        r == spec_rt_of(word),
{
    (word >> 16u32) & 0x1f
}

/// Reads the `rd` field of a word.
#[verifier::when_used_as_spec(spec_rd_of)]
pub fn rd_of(word: u32) -> (r: u32)
    ensures
        r == spec_rd_of(word),
{
    (word >> 11u32) & 0x1f
}

/// Reads the shift amount field of a word.
#[verifier::when_used_as_spec(spec_shift_of)]
pub fn shift_of(word: u32) -> (r: u32)
    ensures
        r == spec_shift_of(word),
{
    (word >> 6u32) & 0x1f
}

/// Reads the function code field of a word.
#[verifier::when_used_as_spec(spec_funct_of)]
pub fn funct_of(word: u32) -> (r: u32)
    ensures
        r == spec_funct_of(word),
{
    word & 0x3f
}

/// Reads the immediate field of a word.
#[verifier::when_used_as_spec(spec_imm_of)]
pub fn imm_of(word: u32) -> (r: u32)
    ensures
        r == spec_imm_of(word),
{
    word & 0xFFFF
}

/// Reads the target field of a word.
#[verifier::when_used_as_spec(spec_target_of)]
pub fn target_of(word: u32) -> (r: u32)
    ensures
        r == spec_target_of(word),
{
    word & 0x03FF_FFFF
}

/// Reading the fields of an I-type word gives back the operands it was
/// encoded from, the immediate in its low 16 bits.
pub proof fn lemma_i_type_round_trip(opcode: u32, rs: u32, rt: u32, imm: u32)
    requires
        opcode < 64,
        rs < 32,
        rt < 32,
    ensures
        opcode_of(encode_i_type(opcode, rs, rt, imm)) == opcode,
        rs_of(encode_i_type(opcode, rs, rt, imm)) == rs,
        rt_of(encode_i_type(opcode, rs, rt, imm)) == rt,
        imm_of(encode_i_type(opcode, rs, rt, imm)) == imm & 0xFFFF,
        imm <= 0xFFFF ==> imm_of(encode_i_type(opcode, rs, rt, imm)) == imm,
{
    let w = opcode << 26u32 | rs << 21u32 | rt << 16u32 | (imm & 0xFFFF);
    assert(w >> 26u32 == opcode && (w >> 21u32) & 0x1f == rs && (w >> 16u32) & 0x1f == rt && w
        & 0xFFFF == imm & 0xFFFF && (imm <= 0xFFFF ==> imm & 0xFFFF == imm)) by (bit_vector)
        requires
            opcode < 64,
            rs < 32,
            rt < 32,
            w == opcode << 26u32 | rs << 21u32 | rt << 16u32 | (imm & 0xFFFF),
    ;
}

/// Reading the fields of a J-type word gives back the opcode and the
/// target field it was encoded from.
pub proof fn lemma_j_type_round_trip(opcode: u32, target: u32)
    requires
        opcode < 64,
    ensures
        opcode_of(encode_j_type(opcode, target)) == opcode,
        target_of(encode_j_type(opcode, target)) == target & 0x03FF_FFFF,
        target <= 0x03FF_FFFF ==> target_of(encode_j_type(opcode, target)) == target,
{
    let w = opcode << 26u32 | (target & 0x03FF_FFFF);
    assert(w >> 26u32 == opcode && w & 0x03FF_FFFF == target & 0x03FF_FFFF && (target
        <= 0x03FF_FFFF ==> target & 0x03FF_FFFF == target)) by (bit_vector)
        requires
            opcode < 64,
            w == opcode << 26u32 | (target & 0x03FF_FFFF),
    ;
}

/// Reading the fields of an R-type word gives back the operands it was
/// encoded from.
pub proof fn lemma_r_type_round_trip(
    opcode: u32,
    rs: u32,
    rt: u32,
    rd: u32,
    shift: u32,
    funct: u32,
)
    requires
        opcode < 64,
        rs < 32,
        rt < 32,
        rd < 32,
        shift < 32,
        funct < 64,
    ensures
        opcode_of(encode_r_type(opcode, rs, rt, rd, shift, funct)) == opcode,
        rs_of(encode_r_type(opcode, rs, rt, rd, shift, funct)) == rs,
        rt_of(encode_r_type(opcode, rs, rt, rd, shift, funct)) == rt,
        rd_of(encode_r_type(opcode, rs, rt, rd, shift, funct)) == rd,
        shift_of(encode_r_type(opcode, rs, rt, rd, shift, funct)) == shift,
        funct_of(encode_r_type(opcode, rs, rt, rd, shift, funct)) == funct,
{
    let w = opcode << 26u32 | rs << 21u32 | rt << 16u32 | rd << 11u32 | shift << 6u32 | funct;
    assert(w >> 26u32 == opcode && (w >> 21u32) & 0x1f == rs && (w >> 16u32) & 0x1f == rt && (w
        >> 11u32) & 0x1f == rd && (w >> 6u32) & 0x1f == shift && w & 0x3f == funct)
        by (bit_vector)
        requires
            opcode < 64,
            rs < 32,
            rt < 32,
            rd < 32,
            shift < 32,
            funct < 64,
            w == opcode << 26u32 | rs << 21u32 | rt << 16u32 | rd << 11u32 | shift << 6u32
                | funct,
    ;
}

/// The target field of a MIPS32 jump to `addr`: the word index of the
/// address inside its 256 MiB region.
pub open spec fn mips32_jump_field(addr: u32) -> u32 {
    (addr & 0x0FFF_FFFF) >> 2u32
}

/// The target field of a microMIPS jump to `addr`: the half word index
/// of the address inside its 128 MiB region.
pub open spec fn mmips32_jump_field(addr: u32) -> u32 {
    (addr & 0x07FF_FFFF) >> 1u32
}

/// The word of ADDIU in the MIPS32 encoding.
pub open spec fn spec_mips32_isa_addiu(tgt: u32, src: u32, imm: u32) -> u32 {
    encode_i_type(MIPS32_OP_ADDIU, src, tgt, imm)
}

/// The word of ADDIU in the microMIPS encoding, where the two register
/// fields change places.
pub open spec fn spec_mmips32_addiu(tgt: u32, src: u32, imm: u32) -> u32 {
    encode_i_type(MMIPS32_OP_ADDIU, tgt, src, imm)
}

/// The word of ADDIU in either encoding.
pub open spec fn spec_mips32_addiu(isa: Isa, tgt: u32, src: u32, imm: u32) -> u32 {
    match isa {
        Isa::Mips32 => spec_mips32_isa_addiu(tgt, src, imm),
        Isa::MicroMips => spec_mmips32_addiu(tgt, src, imm),
    }
}

/// The word of J in the MIPS32 encoding.
pub open spec fn spec_mips32_isa_j(addr: u32) -> u32 {
    encode_j_type(MIPS32_OP_J, mips32_jump_field(addr))
}

/// The word of J in the microMIPS encoding.
pub open spec fn spec_mmips32_j(addr: u32) -> u32 {
    encode_j_type(MMIPS32_OP_J, mmips32_jump_field(addr))
}

/// The word of J in either encoding.
pub open spec fn spec_mips32_j(isa: Isa, addr: u32) -> u32 {
    match isa {
        Isa::Mips32 => spec_mips32_isa_j(addr),
        Isa::MicroMips => spec_mmips32_j(addr),
    }
}

/// ADDIU in the MIPS32 encoding: `tgt = src + imm`.
#[verifier::when_used_as_spec(spec_mips32_isa_addiu)]
pub fn mips32_isa_addiu(tgt: u32, src: u32, imm: u32) -> (word: u32)
    requires
        tgt < 32,
        src < 32,
    ensures
        word == spec_mips32_isa_addiu(tgt, src, imm),
{
    encode_i_type(MIPS32_OP_ADDIU, src, tgt, imm)
}

/// ADDIU in the microMIPS encoding: `tgt = src + imm`.
#[verifier::when_used_as_spec(spec_mmips32_addiu)]
pub fn mmips32_addiu(tgt: u32, src: u32, imm: u32) -> (word: u32)
    requires
        tgt < 32,
        src < 32,
    ensures
        word == spec_mmips32_addiu(tgt, src, imm),
{
    encode_i_type(MMIPS32_OP_ADDIU, tgt, src, imm)
}

/// ADDIU in the encoding that `isa` selects.
#[verifier::when_used_as_spec(spec_mips32_addiu)]
pub fn mips32_addiu(isa: Isa, tgt: u32, src: u32, imm: u32) -> (word: u32)
    requires
        tgt < 32,
        src < 32,
    ensures
        word == spec_mips32_addiu(isa, tgt, src, imm),
{
    match isa {
        Isa::Mips32 => mips32_isa_addiu(tgt, src, imm),
        Isa::MicroMips => mmips32_addiu(tgt, src, imm),
    }
}

/// J in the MIPS32 encoding: jumps to `addr` inside the current 256 MiB region.
#[verifier::when_used_as_spec(spec_mips32_isa_j)]
pub fn mips32_isa_j(addr: u32) -> (word: u32)
    ensures
        word == spec_mips32_isa_j(addr),
{
    encode_j_type(MIPS32_OP_J, (addr & 0x0FFF_FFFF) >> 2u32)
}

/// J in the microMIPS encoding: jumps to `addr` inside the current 128 MiB region.
#[verifier::when_used_as_spec(spec_mmips32_j)]
pub fn mmips32_j(addr: u32) -> (word: u32)
    ensures
        word == spec_mmips32_j(addr),
{
    encode_j_type(MMIPS32_OP_J, (addr & 0x07FF_FFFF) >> 1u32)
}

/// J in the encoding that `isa` selects.
#[verifier::when_used_as_spec(spec_mips32_j)]
pub fn mips32_j(isa: Isa, addr: u32) -> (word: u32)
    ensures
        word == spec_mips32_j(isa, addr),
{
    match isa {
        Isa::Mips32 => mips32_isa_j(addr),
        Isa::MicroMips => mmips32_j(addr),
    }
}

/// The target field of a jump holds the address bits that the encoding
/// keeps: shifted back, it is the address without its region bits and
/// without the bits below the instruction size.
pub proof fn lemma_jump_target(addr: u32)
    ensures
        opcode_of(mips32_isa_j(addr)) == MIPS32_OP_J,
        target_of(mips32_isa_j(addr)) << 2u32 == addr & 0x0FFF_FFFC,
        opcode_of(mmips32_j(addr)) == MMIPS32_OP_J,
        target_of(mmips32_j(addr)) << 1u32 == addr & 0x07FF_FFFE,
{
    let w = 0x02u32 << 26u32 | (((addr & 0x0FFF_FFFF) >> 2u32) & 0x03FF_FFFF);
    let m = 0x35u32 << 26u32 | (((addr & 0x07FF_FFFF) >> 1u32) & 0x03FF_FFFF);
    assert(w >> 26u32 == 0x02 && (w & 0x03FF_FFFF) << 2u32 == addr & 0x0FFF_FFFC && m >> 26u32
        == 0x35 && (m & 0x03FF_FFFF) << 1u32 == addr & 0x07FF_FFFE) by (bit_vector)
        requires
            w == 0x02u32 << 26u32 | (((addr & 0x0FFF_FFFF) >> 2u32) & 0x03FF_FFFF),
            m == 0x35u32 << 26u32 | (((addr & 0x07FF_FFFF) >> 1u32) & 0x03FF_FFFF),
    ;
}

/// NOP.
pub const MIPS_NOP: u32 = 0x00000000;

/// EHB: clears execution hazards.
pub const MIPS_EHB: u32 = 0x000000c0;

/// SYNC: orders loads and stores.
pub const MIPS_SYNC: u32 = 0x0000000f;

/// SDBBP: software debug breakpoint.
pub const MIPS_SDBBP: u32 = 0x7000003f;

/// The word of WRPGPR.
pub open spec fn spec_mips_wrpgpr(hwr: u32, reg: u32) -> u32 {
    0x41c00000u32 | (hwr & 0x1f) << 11u32 | (reg & 0x1f) << 16u32
}

/// WRPGPR: writes general register `reg` of the previous shadow set.
#[verifier::when_used_as_spec(spec_mips_wrpgpr)]
pub fn mips_wrpgpr(hwr: u32, reg: u32) -> (word: u32)
    requires
        hwr < 32,
        reg < 32,
    ensures
        word == spec_mips_wrpgpr(hwr, reg),
{
    0x41c00000u32 | (hwr & 0x1f) << 11u32 | (reg & 0x1f) << 16u32
}

/// The word of RDHWR.
pub open spec fn spec_mips_rdhwr(hwr: u32, tgt: u32) -> u32 {
    0x7c00003bu32 | (hwr & 0x1f) << 11u32 | (tgt & 0x1f) << 16u32
}

/// RDHWR: reads hardware register `hwr` into `tgt`.
#[verifier::when_used_as_spec(spec_mips_rdhwr)]
pub fn mips_rdhwr(hwr: u32, tgt: u32) -> (word: u32)
    requires
        hwr < 32,
        tgt < 32,
    ensures
        word == spec_mips_rdhwr(hwr, tgt),
{
    0x7c00003bu32 | (hwr & 0x1f) << 11u32 | (tgt & 0x1f) << 16u32
}

/// The word of CACHE.
pub open spec fn spec_mips_cache(base: u32, op: u32, off: u32) -> u32 {
    0xbc000000u32 | (base & 0x1f) << 21u32 | (op & 0x1f) << 16u32 | (off & 0xffff) << 0u32
}

/// CACHE: cache operation `op` on the line at `off(base)`.
#[verifier::when_used_as_spec(spec_mips_cache)]
pub fn mips_cache(base: u32, op: u32, off: u32) -> (word: u32)
    requires
        base < 32,
        op < 32,
    ensures
        word == spec_mips_cache(base, op, off),
{
    0xbc000000u32 | (base & 0x1f) << 21u32 | (op & 0x1f) << 16u32 | (off & 0xffff) << 0u32
}

/// The word of SRL.
pub open spec fn spec_mips_srl(dst: u32, src: u32, shift: u32) -> u32 {
    0x00000002u32 | (dst & 0x1f) << 11u32 | (src & 0x1f) << 16u32 | (shift & 0x1f) << 6u32
}

/// SRL: `dst = src >> shift`.
#[verifier::when_used_as_spec(spec_mips_srl)]
pub fn mips_srl(dst: u32, src: u32, shift: u32) -> (word: u32)
    requires
        dst < 32,
        src < 32,
        shift < 32,
    ensures
        word == spec_mips_srl(dst, src, shift),
{
    0x00000002u32 | (dst & 0x1f) << 11u32 | (src & 0x1f) << 16u32 | (shift & 0x1f) << 6u32
}

/// The word of SLLV.
pub open spec fn spec_mips_sllv(dst: u32, reg: u32, src: u32) -> u32 {
    0x00000004u32 | (dst & 0x1f) << 11u32 | (reg & 0x1f) << 21u32 | (src & 0x1f) << 16u32
}

/// SLLV: `dst = src << reg`.
#[verifier::when_used_as_spec(spec_mips_sllv)]
pub fn mips_sllv(dst: u32, reg: u32, src: u32) -> (word: u32)
    requires
        dst < 32,
        reg < 32,
        src < 32,
    ensures
        word == spec_mips_sllv(dst, reg, src),
{
    0x00000004u32 | (dst & 0x1f) << 11u32 | (reg & 0x1f) << 21u32 | (src & 0x1f) << 16u32
}

/// The word of MFHI.
pub open spec fn spec_mips_mfhi(reg: u32) -> u32 {
    0x00000010u32 | (reg & 0x1f) << 11u32
}

/// MFHI: moves HI into `reg`.
#[verifier::when_used_as_spec(spec_mips_mfhi)]
pub fn mips_mfhi(reg: u32) -> (word: u32)
    requires
        reg < 32,
    ensures
        word == spec_mips_mfhi(reg),
{
    0x00000010u32 | (reg & 0x1f) << 11u32
}

/// The word of MFLO.
pub open spec fn spec_mips_mflo(reg: u32) -> u32 {
    0x00000012u32 | (reg & 0x1f) << 11u32
}

/// MFLO: moves LO into `reg`.
#[verifier::when_used_as_spec(spec_mips_mflo)]
pub fn mips_mflo(reg: u32) -> (word: u32)
    requires
        reg < 32,
    ensures
        word == spec_mips_mflo(reg),
{
    0x00000012u32 | (reg & 0x1f) << 11u32
}

/// The word of ADDIU.
pub open spec fn spec_mips_addiu(src: u32, tgt: u32, imm: u32) -> u32 {
    0x24000000u32 | (src & 0x1f) << 21u32 | (tgt & 0x1f) << 16u32 | (imm & 0xffff) << 0u32
}

/// ADDIU: `tgt = src + imm`.
#[verifier::when_used_as_spec(spec_mips_addiu)]
pub fn mips_addiu(src: u32, tgt: u32, imm: u32) -> (word: u32)
    requires
        src < 32,
        tgt < 32,
    ensures
        word == spec_mips_addiu(src, tgt, imm),
{
    0x24000000u32 | (src & 0x1f) << 21u32 | (tgt & 0x1f) << 16u32 | (imm & 0xffff) << 0u32
}

/// The word of ORI.
pub open spec fn spec_mips_ori(src: u32, tgt: u32, imm: u32) -> u32 {
    0x34000000u32 | (src & 0x1f) << 21u32 | (tgt & 0x1f) << 16u32 | (imm & 0xffff) << 0u32
}

/// ORI: `tgt = src | imm`.
#[verifier::when_used_as_spec(spec_mips_ori)]
pub fn mips_ori(src: u32, tgt: u32, imm: u32) -> (word: u32)
    requires
        src < 32,
        tgt < 32,
    ensures
        word == spec_mips_ori(src, tgt, imm),
{
    0x34000000u32 | (src & 0x1f) << 21u32 | (tgt & 0x1f) << 16u32 | (imm & 0xffff) << 0u32
}

/// The word of XORI.
pub open spec fn spec_mips_xori(src: u32, tgt: u32, imm: u32) -> u32 {
    0x38000000u32 | (src & 0x1f) << 21u32 | (tgt & 0x1f) << 16u32 | (imm & 0xffff) << 0u32
}

/// XORI: `tgt = src ^ imm`.
#[verifier::when_used_as_spec(spec_mips_xori)]
pub fn mips_xori(src: u32, tgt: u32, imm: u32) -> (word: u32)
    requires
        src < 32,
        tgt < 32,
    ensures
        word == spec_mips_xori(src, tgt, imm),
{
    0x38000000u32 | (src & 0x1f) << 21u32 | (tgt & 0x1f) << 16u32 | (imm & 0xffff) << 0u32
}

/// The word of LUI.
pub open spec fn spec_mips_lui(tgt: u32, imm: u32) -> u32 {
    0x3c000000u32 | (tgt & 0x1f) << 16u32 | (imm & 0xffff) << 0u32
}

/// LUI: `tgt = imm << 16`.
#[verifier::when_used_as_spec(spec_mips_lui)]
pub fn mips_lui(tgt: u32, imm: u32) -> (word: u32)
    requires
        tgt < 32,
    ensures
        word == spec_mips_lui(tgt, imm),
{
    0x3c000000u32 | (tgt & 0x1f) << 16u32 | (imm & 0xffff) << 0u32
}

/// The word of LW.
pub open spec fn spec_mips_lw(base: u32, reg: u32, off: u32) -> u32 {
    0x8c000000u32 | (base & 0x1f) << 21u32 | (reg & 0x1f) << 16u32 | (off & 0xffff) << 0u32
}

/// LW: loads the word at `off(base)` into `reg`.
#[verifier::when_used_as_spec(spec_mips_lw)]
pub fn mips_lw(base: u32, reg: u32, off: u32) -> (word: u32)
    requires
        base < 32,
        reg < 32,
    ensures
        word == spec_mips_lw(base, reg, off),
{
    0x8c000000u32 | (base & 0x1f) << 21u32 | (reg & 0x1f) << 16u32 | (off & 0xffff) << 0u32
}

/// The word of LBU.
pub open spec fn spec_mips_lbu(base: u32, reg: u32, off: u32) -> u32 {
    0x90000000u32 | (base & 0x1f) << 21u32 | (reg & 0x1f) << 16u32 | (off & 0xffff) << 0u32
}

/// LBU: loads the byte at `off(base)` into `reg`, zero extended.
#[verifier::when_used_as_spec(spec_mips_lbu)]
pub fn mips_lbu(base: u32, reg: u32, off: u32) -> (word: u32)
    requires
        base < 32,
        reg < 32,
    ensures
        word == spec_mips_lbu(base, reg, off),
{
    0x90000000u32 | (base & 0x1f) << 21u32 | (reg & 0x1f) << 16u32 | (off & 0xffff) << 0u32
}

/// The word of SW.
pub open spec fn spec_mips_sw(base: u32, reg: u32, off: u32) -> u32 {
    0xac000000u32 | (base & 0x1f) << 21u32 | (reg & 0x1f) << 16u32 | (off & 0xffff) << 0u32
}

/// SW: stores the word in `reg` at `off(base)`.
#[verifier::when_used_as_spec(spec_mips_sw)]
pub fn mips_sw(base: u32, reg: u32, off: u32) -> (word: u32)
    requires
        base < 32,
        reg < 32,
    ensures
        word == spec_mips_sw(base, reg, off),
{
    0xac000000u32 | (base & 0x1f) << 21u32 | (reg & 0x1f) << 16u32 | (off & 0xffff) << 0u32
}

/// The word of SB.
pub open spec fn spec_mips_sb(base: u32, reg: u32, off: u32) -> u32 {
    0xa0000000u32 | (base & 0x1f) << 21u32 | (reg & 0x1f) << 16u32 | (off & 0xffff) << 0u32
}

/// SB: stores the low byte of `reg` at `off(base)`.
#[verifier::when_used_as_spec(spec_mips_sb)]
pub fn mips_sb(base: u32, reg: u32, off: u32) -> (word: u32)
    requires
        base < 32,
        reg < 32,
    ensures
        word == spec_mips_sb(base, reg, off),
{
    0xa0000000u32 | (base & 0x1f) << 21u32 | (reg & 0x1f) << 16u32 | (off & 0xffff) << 0u32
}

/// The word of SH.
pub open spec fn spec_mips_sh(base: u32, reg: u32, off: u32) -> u32 {
    0xa4000000u32 | (base & 0x1f) << 21u32 | (reg & 0x1f) << 16u32 | (off & 0xffff) << 0u32
}

/// SH: stores the low half word of `reg` at `off(base)`.
#[verifier::when_used_as_spec(spec_mips_sh)]
pub fn mips_sh(base: u32, reg: u32, off: u32) -> (word: u32)
    requires
        base < 32,
        reg < 32,
    ensures
        word == spec_mips_sh(base, reg, off),
{
    0xa4000000u32 | (base & 0x1f) << 21u32 | (reg & 0x1f) << 16u32 | (off & 0xffff) << 0u32
}

/// The word of BEQ.
pub open spec fn spec_mips_beq(src: u32, tgt: u32, off: u32) -> u32 {
    0x10000000u32 | (src & 0x1f) << 21u32 | (tgt & 0x1f) << 16u32 | (off & 0xffff) << 0u32
}

/// BEQ: branches by `off` words if `src == tgt`.
#[verifier::when_used_as_spec(spec_mips_beq)]
pub fn mips_beq(src: u32, tgt: u32, off: u32) -> (word: u32)
    requires
        src < 32,
        tgt < 32,
    ensures
        word == spec_mips_beq(src, tgt, off),
{
    0x10000000u32 | (src & 0x1f) << 21u32 | (tgt & 0x1f) << 16u32 | (off & 0xffff) << 0u32
}

/// The word of BNE.
pub open spec fn spec_mips_bne(src: u32, tgt: u32, off: u32) -> u32 {
    0x14000000u32 | (src & 0x1f) << 21u32 | (tgt & 0x1f) << 16u32 | (off & 0xffff) << 0u32
}

/// BNE: branches by `off` words if `src != tgt`.
#[verifier::when_used_as_spec(spec_mips_bne)]
pub fn mips_bne(src: u32, tgt: u32, off: u32) -> (word: u32)
    requires
        src < 32,
        tgt < 32,
    ensures
        word == spec_mips_bne(src, tgt, off),
{
    0x14000000u32 | (src & 0x1f) << 21u32 | (tgt & 0x1f) << 16u32 | (off & 0xffff) << 0u32
}

/// The word of JR.
pub open spec fn spec_mips_jr(reg: u32) -> u32 {
    0x00000008u32 | (reg & 0x1f) << 21u32
}

/// JR: jumps to the address in `reg`.
#[verifier::when_used_as_spec(spec_mips_jr)]
pub fn mips_jr(reg: u32) -> (word: u32)
    requires
        reg < 32,
    ensures
        word == spec_mips_jr(reg),
{
    0x00000008u32 | (reg & 0x1f) << 21u32
}

/// The word of JR.HB.
pub open spec fn spec_mips_jr_hb(reg: u32) -> u32 {
    0x00000408u32 | (reg & 0x1f) << 21u32
}

/// JR.HB: jumps to the address in `reg` and clears hazards.
#[verifier::when_used_as_spec(spec_mips_jr_hb)]
pub fn mips_jr_hb(reg: u32) -> (word: u32)
    requires
        reg < 32,
    ensures
        word == spec_mips_jr_hb(reg),
{
    0x00000408u32 | (reg & 0x1f) << 21u32
}

/// The word of MFC0.
pub open spec fn spec_mips_mfc0(dst: u32, cpr: u32, sel: u32) -> u32 {
    0x40000000u32 | (dst & 0x1f) << 16u32 | (cpr & 0x1f) << 11u32 | (sel & 0x1f) << 0u32
}

/// MFC0: moves coprocessor 0 register `cpr`, select `sel`, into `dst`.
#[verifier::when_used_as_spec(spec_mips_mfc0)]
pub fn mips_mfc0(dst: u32, cpr: u32, sel: u32) -> (word: u32)
    requires
        dst < 32,
        cpr < 32,
        sel < 32,
    ensures
        word == spec_mips_mfc0(dst, cpr, sel),
{
    0x40000000u32 | (dst & 0x1f) << 16u32 | (cpr & 0x1f) << 11u32 | (sel & 0x1f) << 0u32
}

/// The word of MTC0.
pub open spec fn spec_mips_mtc0(src: u32, cpr: u32, sel: u32) -> u32 {
    0x40800000u32 | (src & 0x1f) << 16u32 | (cpr & 0x1f) << 11u32 | (sel & 0x1f) << 0u32
}

/// MTC0: moves `src` into coprocessor 0 register `cpr`, select `sel`.
#[verifier::when_used_as_spec(spec_mips_mtc0)]
pub fn mips_mtc0(src: u32, cpr: u32, sel: u32) -> (word: u32)
    requires
        src < 32,
        cpr < 32,
        sel < 32,
    ensures
        word == spec_mips_mtc0(src, cpr, sel),
{
    0x40800000u32 | (src & 0x1f) << 16u32 | (cpr & 0x1f) << 11u32 | (sel & 0x1f) << 0u32
}

/// The word of MFC1.
pub open spec fn spec_mips_mfc1(fpr: u32, dst: u32) -> u32 {
    0x44000000u32 | (fpr & 0x1f) << 11u32 | (dst & 0x1f) << 16u32
}

/// MFC1: moves floating point register `fpr` into `dst`.
#[verifier::when_used_as_spec(spec_mips_mfc1)]
pub fn mips_mfc1(fpr: u32, dst: u32) -> (word: u32)
    requires
        fpr < 32,
        dst < 32,
    ensures
        word == spec_mips_mfc1(fpr, dst),
{
    0x44000000u32 | (fpr & 0x1f) << 11u32 | (dst & 0x1f) << 16u32
}

/// The word of CFC1.
pub open spec fn spec_mips_cfc1(fpr: u32, dst: u32) -> u32 {
    0x44400000u32 | (fpr & 0x1f) << 11u32 | (dst & 0x1f) << 16u32
}

/// CFC1: moves floating point control register `fpr` into `dst`.
#[verifier::when_used_as_spec(spec_mips_cfc1)]
pub fn mips_cfc1(fpr: u32, dst: u32) -> (word: u32)
    requires
        fpr < 32,
        dst < 32,
    ensures
        word == spec_mips_cfc1(fpr, dst),
{
    0x44400000u32 | (fpr & 0x1f) << 11u32 | (dst & 0x1f) << 16u32
}

/// The word of MFHC1.
pub open spec fn spec_mips_mfhc1(fpr: u32, dst: u32) -> u32 {
    0x44600000u32 | (fpr & 0x1f) << 11u32 | (dst & 0x1f) << 16u32
}

/// MFHC1: moves the high half of floating point register `fpr` into `dst`.
#[verifier::when_used_as_spec(spec_mips_mfhc1)]
pub fn mips_mfhc1(fpr: u32, dst: u32) -> (word: u32)
    requires
        fpr < 32,
        dst < 32,
    ensures
        word == spec_mips_mfhc1(fpr, dst),
{
    0x44600000u32 | (fpr & 0x1f) << 11u32 | (dst & 0x1f) << 16u32
}

/// The word of MTC1.
pub open spec fn spec_mips_mtc1(fpr: u32, src: u32) -> u32 {
    0x44800000u32 | (fpr & 0x1f) << 11u32 | (src & 0x1f) << 16u32
}

/// MTC1: moves `src` into floating point register `fpr`.
#[verifier::when_used_as_spec(spec_mips_mtc1)]
pub fn mips_mtc1(fpr: u32, src: u32) -> (word: u32)
    requires
        fpr < 32,
        src < 32,
    ensures
        word == spec_mips_mtc1(fpr, src),
{
    0x44800000u32 | (fpr & 0x1f) << 11u32 | (src & 0x1f) << 16u32
}

/// The word of MTHC1.
pub open spec fn spec_mips_mthc1(fpr: u32, src: u32) -> u32 {
    0x44e00000u32 | (fpr & 0x1f) << 11u32 | (src & 0x1f) << 16u32
}

/// MTHC1: moves `src` into the high half of floating point register `fpr`.
#[verifier::when_used_as_spec(spec_mips_mthc1)]
pub fn mips_mthc1(fpr: u32, src: u32) -> (word: u32)
    requires
        fpr < 32,
        src < 32,
    ensures
        word == spec_mips_mthc1(fpr, src),
{
    0x44e00000u32 | (fpr & 0x1f) << 11u32 | (src & 0x1f) << 16u32
}

/// The word of SWC1.
pub open spec fn spec_mips_swc1(base: u32, ft: u32, off: u32) -> u32 {
    0xe4000000u32 | (base & 0x1f) << 21u32 | (ft & 0x1f) << 16u32 | (off & 0xffff) << 0u32
}

/// SWC1: stores floating point register `ft` at `off(base)`.
#[verifier::when_used_as_spec(spec_mips_swc1)]
pub fn mips_swc1(base: u32, ft: u32, off: u32) -> (word: u32)
    requires
        base < 32,
        ft < 32,
    ensures
        word == spec_mips_swc1(base, ft, off),
{
    0xe4000000u32 | (base & 0x1f) << 21u32 | (ft & 0x1f) << 16u32 | (off & 0xffff) << 0u32
}


/// The builder's ADDIU is the MIPS32 ADDIU with the two registers named
/// in the other order.
pub proof fn lemma_addiu_orders(src: u32, tgt: u32, imm: u32)
    requires
        src < 32,
        tgt < 32,
    ensures
        mips_addiu(src, tgt, imm) == mips32_isa_addiu(tgt, src, imm),
{
    assert(0x24000000u32 | (src & 0x1f) << 21u32 | (tgt & 0x1f) << 16u32 | (imm & 0xffff) << 0u32
        == 0x09u32 << 26u32 | src << 21u32 | tgt << 16u32 | (imm & 0xFFFF)) by (bit_vector)
        requires
            src < 32,
            tgt < 32,
    ;
}

/// The unconditional branch is a BEQ word whose immediate field holds
/// the offset.
pub proof fn lemma_branch_immediate(offset: u32)
    requires
        offset <= 0xFFFF,
    ensures
        opcode_of(mips_beq(ZERO, ZERO, offset)) == 0x04,
        rs_of(mips_beq(ZERO, ZERO, offset)) == ZERO,
        rt_of(mips_beq(ZERO, ZERO, offset)) == ZERO,
        imm_of(mips_beq(ZERO, ZERO, offset)) == offset,
{
    let w = 0x10000000u32 | (0u32 & 0x1f) << 21u32 | (0u32 & 0x1f) << 16u32 | (offset & 0xffff)
        << 0u32;
    assert(w >> 26u32 == 0x04 && (w >> 21u32) & 0x1f == 0 && (w >> 16u32) & 0x1f == 0 && w
        & 0xFFFF == offset) by (bit_vector)
        requires
            offset <= 0xFFFF,
            w == 0x10000000u32 | (0u32 & 0x1f) << 21u32 | (0u32 & 0x1f) << 16u32 | (offset
                & 0xffff) << 0u32,
    ;
}

/// The bytes of a sequence of words, each word least significant byte first.
pub open spec fn words_le_bytes(words: Seq<u32>) -> Seq<u8> {
    Seq::new(4 * words.len(), |i: int| le_bytes(words[i / 4])[i % 4])
}

/// The immediate of a branch that stands behind `count` words and goes
/// back to the first of them: minus four times `count`, in 16 bits.
pub open spec fn start_displacement(count: nat) -> u32 {
    ((-(4 * count as int)) % 0x1_0000) as u32
}

/// The displacement of a branch to the start fits 16 bits, and it is the
/// distance back to the start counted in bytes, taken modulo the 16 bits.
pub proof fn lemma_start_displacement_bounds(count: nat)
    ensures
        start_displacement(count) <= 0xFFFF,
        (start_displacement(count) + 4 * count) % 0x1_0000 == 0,
{
}

/// The displacement computed from the low bits of the count is the
/// displacement of the count itself.
proof fn lemma_start_displacement(len: nat, count: u32, offset: u32)
    requires
        count == len % 0x1_0000_0000,
        offset == if count % 0x4000 == 0 {
            0
        } else {
            0x1_0000 - 4 * (count % 0x4000)
        },
    ensures
        offset == start_displacement(len),
        offset <= 0xFFFF,
{
    let high = len as int / 0x1_0000_0000;
    let mid = count as int / 0x4000;
    let low = count as int % 0x4000;
    assert(len == 0x1_0000_0000 * high + count);
    assert(count == 0x4000 * mid + low);
    let whole = -(0x4_0000 * high) - mid;
    assert(-(4 * len as int) == 0x1_0000 * whole - 4 * low);
    if low == 0 {
        assert((0x1_0000 * whole) % 0x1_0000 == 0);
    } else {
        assert(-(4 * len as int) == 0x1_0000 * (whole - 1) + (0x1_0000 - 4 * low));
        assert((0x1_0000 * (whole - 1) + (0x1_0000 - 4 * low)) % 0x1_0000 == 0x1_0000 - 4 * low);
    }
}

/// A sequence of MIPS instructions that is built by chained calls and
/// handed on as words or as bytes. It starts with a NOP and only grows.
#[derive(Debug)]
pub struct Mips32Instruction {
    insts: Vec<u32>,
}

impl View for Mips32Instruction {
    type V = Seq<u32>;

    closed spec fn view(&self) -> Seq<u32> {
        self.insts@
    }
}

impl Clone for Mips32Instruction {
    fn clone(&self) -> (r: Self)
        ensures
            r@ == self@,
    {
        proof {
            use_type_invariant(self);
        }
        Self { insts: self.get_raw() }
    }
}

impl Default for Mips32Instruction {
    fn default() -> (r: Self)
        ensures
            r@ == seq![MIPS_NOP],
    {
        Self::new()
    }
}

impl Mips32Instruction {
    #[verifier::type_invariant]
    spec fn starts_with_nop(&self) -> bool {
        self.insts@.len() > 0 && self.insts@[0] == MIPS_NOP
    }

    /// A sequence that holds the leading NOP and nothing else.
    pub fn new() -> (r: Self)
        ensures
            r@ == seq![MIPS_NOP],
    {
        let mut insts: Vec<u32> = Vec::new();
        insts.push(MIPS_NOP);
        assert(insts@ =~= seq![MIPS_NOP]);
        Self { insts }
    }

    /// The sequence as bytes, each word least significant byte first.
    pub fn into_bytes(self) -> (bytes: Vec<u8>)
        ensures
            bytes@ == words_le_bytes(self@),
    {
        let mut bytes: Vec<u8> = Vec::new();
        let n = self.insts.len();
        let mut i: usize = 0;
        while i < n
            invariant
                n == self.insts@.len(),
                i <= n,
                bytes@ == words_le_bytes(self.insts@.take(i as int)),
            decreases n - i,
        {
            let word = word_to_le_bytes(self.insts[i]);
            let ghost before = bytes@;
            bytes.push(word[0]);
            bytes.push(word[1]);
            bytes.push(word[2]);
            bytes.push(word[3]);
            proof {
                let old_words = self.insts@.take(i as int);
                let new_words = self.insts@.take(i + 1);
                assert forall|k: int| 0 <= k < 4 * (i + 1) implies bytes@[k] == words_le_bytes(
                    new_words,
                )[k] by {
                    if k < 4 * i {
                        assert(before[k] == words_le_bytes(old_words)[k]);
                        assert(old_words[k / 4] == new_words[k / 4]);
                    } else {
                        assert(k / 4 == i as int);
                        assert(new_words[k / 4] == self.insts@[i as int]);
                    }
                }
                assert(bytes@ =~= words_le_bytes(new_words));
            }
            i += 1;
        }
        assert(self.insts@.take(n as int) =~= self.insts@);
        bytes
    }

    /// The words of the sequence, of which the first is the NOP that
    /// every sequence starts with.
    pub fn get_raw(&self) -> (words: Vec<u32>)
        ensures
            words@ == self@,
            words@.len() > 0,
            words@[0] == MIPS_NOP,
    {
        proof {
            use_type_invariant(self);
        }
        let mut words: Vec<u32> = Vec::new();
        let n = self.insts.len();
        let mut i: usize = 0;
        while i < n
            invariant
                n == self.insts@.len(),
                i <= n,
                words@ == self.insts@.take(i as int),
            decreases n - i,
        {
            words.push(self.insts[i]);
            assert(words@ =~= self.insts@.take(i + 1));
            i += 1;
        }
        assert(self.insts@.take(n as int) =~= self.insts@);
        words
    }

    /// The word that was appended last.
    pub fn get_last(self) -> (word: u32)
        ensures
            self@.len() > 0,
            word == self@.last(),
    {
        proof {
            use_type_invariant(&self);
        }
        self.insts[self.insts.len() - 1]
    }

    /// The number of words, the leading NOP included. A count that does
    /// not fit 32 bits is cut to its low 32 bits.
    pub fn get_count(&self) -> (count: u32)
        ensures
            count == self@.len() % 0x1_0000_0000,
    {
        let n = self.insts.len();
        assert(n as u32 == (n as u64) % 0x1_0000_0000u64) by (bit_vector);
        #[verifier::truncate]
        (n as u32)
    }

    /// Appends one word.
    fn append(self, word: u32) -> (r: Self)
        ensures
            r@ == self@.push(word),
    {
        proof {
            use_type_invariant(&self);
        }
        let mut insts = self.insts;
        insts.push(word);
        Self { insts }
    }

    /// Appends B: an unconditional branch by `offset` words, written as
    /// a BEQ of register zero with itself.
    pub fn b(self, offset: u32) -> (r: Self)
        ensures
            r@ == self@.push(mips_beq(ZERO, ZERO, offset)),
    {
        self.beq(ZERO, ZERO, offset)
    }

    /// Appends a branch back to the first word of the sequence. With
    /// `count` words before the branch, its immediate is minus four times
    /// `count` in 16 bits.
    pub fn b_start(self) -> (r: Self)
        ensures
            r@ == self@.push(mips_beq(ZERO, ZERO, start_displacement(self@.len()))),
            imm_of(r@.last()) == start_displacement(self@.len()),
    {
        let count = self.get_count();
        let low = count % 0x4000;
        let offset = if low == 0 {
            0
        } else {
            0x1_0000 - 4 * low
        };
        proof {
            lemma_start_displacement(self@.len(), count, offset);
            lemma_branch_immediate(offset);
        }
        self.b(offset)
    }

    /// Appends NOP.
    pub fn nop(self) -> (r: Self)
        ensures
            r@ == self@.push(MIPS_NOP),
    {
        self.append(MIPS_NOP)
    }

    /// Appends EHB.
    pub fn ehb(self) -> (r: Self)
        ensures
            r@ == self@.push(MIPS_EHB),
    {
        self.append(MIPS_EHB)
    }

    /// Appends SYNC.
    pub fn sync(self) -> (r: Self)
        ensures
            r@ == self@.push(MIPS_SYNC),
    {
        self.append(MIPS_SYNC)
    }

    /// Appends SDBBP.
    pub fn sdbbp(self) -> (r: Self)
        ensures
            r@ == self@.push(MIPS_SDBBP),
    {
        self.append(MIPS_SDBBP)
    }

    /// Appends WRPGPR.
    pub fn wrpgpr(self, hwr: u32, reg: u32) -> (r: Self)
        requires
            hwr < 32,
            reg < 32,
        ensures
            r@ == self@.push(mips_wrpgpr(hwr, reg)),
    {
        self.append(mips_wrpgpr(hwr, reg))
    }

    /// Appends RDHWR.
    pub fn rdhwr(self, hwr: u32, tgt: u32) -> (r: Self)
        requires
            hwr < 32,
            tgt < 32,
        ensures
            r@ == self@.push(mips_rdhwr(hwr, tgt)),
    {
        self.append(mips_rdhwr(hwr, tgt))
    }

    /// Appends CACHE.
    pub fn cache(self, base: u32, op: u32, off: u32) -> (r: Self)
        requires
            base < 32,
            op < 32,
        ensures
            r@ == self@.push(mips_cache(base, op, off)),
    {
        self.append(mips_cache(base, op, off))
    }

    /// Appends SRL.
    pub fn srl(self, dst: u32, src: u32, shift: u32) -> (r: Self)
        requires
            dst < 32,
            src < 32,
            shift < 32,
        ensures
            r@ == self@.push(mips_srl(dst, src, shift)),
    {
        self.append(mips_srl(dst, src, shift))
    }

    /// Appends SLLV.
    pub fn sllv(self, dst: u32, reg: u32, src: u32) -> (r: Self)
        requires
            dst < 32,
            reg < 32,
            src < 32,
        ensures
            r@ == self@.push(mips_sllv(dst, reg, src)),
    {
        self.append(mips_sllv(dst, reg, src))
    }

    /// Appends MFHI.
    pub fn mfhi(self, reg: u32) -> (r: Self)
        requires
            reg < 32,
        ensures
            r@ == self@.push(mips_mfhi(reg)),
    {
        self.append(mips_mfhi(reg))
    }

    /// Appends MFLO.
    pub fn mflo(self, reg: u32) -> (r: Self)
        requires
            reg < 32,
        ensures
            r@ == self@.push(mips_mflo(reg)),
    {
        self.append(mips_mflo(reg))
    }

    /// Appends ADDIU.
    pub fn addiu(self, src: u32, tgt: u32, imm: u32) -> (r: Self)
        requires
            src < 32,
            tgt < 32,
        ensures
            r@ == self@.push(mips_addiu(src, tgt, imm)),
    {
        self.append(mips_addiu(src, tgt, imm))
    }

    /// Appends ORI.
    pub fn ori(self, src: u32, tgt: u32, imm: u32) -> (r: Self)
        requires
            src < 32,
            tgt < 32,
        ensures
            r@ == self@.push(mips_ori(src, tgt, imm)),
    {
        self.append(mips_ori(src, tgt, imm))
    }

    /// Appends XORI.
    pub fn xori(self, src: u32, tgt: u32, imm: u32) -> (r: Self)
        requires
            src < 32,
            tgt < 32,
        ensures
            r@ == self@.push(mips_xori(src, tgt, imm)),
    {
        self.append(mips_xori(src, tgt, imm))
    }

    /// Appends LUI.
    pub fn lui(self, tgt: u32, imm: u32) -> (r: Self)
        requires
            tgt < 32,
        ensures
            r@ == self@.push(mips_lui(tgt, imm)),
    {
        self.append(mips_lui(tgt, imm))
    }

    /// Appends LW.
    pub fn lw(self, base: u32, reg: u32, off: u32) -> (r: Self)
        requires
            base < 32,
            reg < 32,
        ensures
            r@ == self@.push(mips_lw(base, reg, off)),
    {
        self.append(mips_lw(base, reg, off))
    }

    /// Appends LBU.
    pub fn lbu(self, base: u32, reg: u32, off: u32) -> (r: Self)
        requires
            base < 32,
            reg < 32,
        ensures
            r@ == self@.push(mips_lbu(base, reg, off)),
    {
        self.append(mips_lbu(base, reg, off))
    }

    /// Appends SW.
    pub fn sw(self, base: u32, reg: u32, off: u32) -> (r: Self)
        requires
            base < 32,
            reg < 32,
        ensures
            r@ == self@.push(mips_sw(base, reg, off)),
    {
        self.append(mips_sw(base, reg, off))
    }

    /// Appends SB.
    pub fn sb(self, base: u32, reg: u32, off: u32) -> (r: Self)
        requires
            base < 32,
            reg < 32,
        ensures
            r@ == self@.push(mips_sb(base, reg, off)),
    {
        self.append(mips_sb(base, reg, off))
    }

    /// Appends SH.
    pub fn sh(self, base: u32, reg: u32, off: u32) -> (r: Self)
        requires
            base < 32,
            reg < 32,
        ensures
            r@ == self@.push(mips_sh(base, reg, off)),
    {
        self.append(mips_sh(base, reg, off))
    }

    /// Appends BEQ.
    pub fn beq(self, src: u32, tgt: u32, off: u32) -> (r: Self)
        requires
            src < 32,
            tgt < 32,
        ensures
            r@ == self@.push(mips_beq(src, tgt, off)),
    {
        self.append(mips_beq(src, tgt, off))
    }

    /// Appends BNE.
    pub fn bne(self, src: u32, tgt: u32, off: u32) -> (r: Self)
        requires
            src < 32,
            tgt < 32,
        ensures
            r@ == self@.push(mips_bne(src, tgt, off)),
    {
        self.append(mips_bne(src, tgt, off))
    }

    /// Appends JR.
    pub fn jr(self, reg: u32) -> (r: Self)
        requires
            reg < 32,
        ensures
            r@ == self@.push(mips_jr(reg)),
    {
        self.append(mips_jr(reg))
    }

    /// Appends JR.HB.
    pub fn jr_hb(self, reg: u32) -> (r: Self)
        requires
            reg < 32,
        ensures
            r@ == self@.push(mips_jr_hb(reg)),
    {
        self.append(mips_jr_hb(reg))
    }

    /// Appends MFC0.
    pub fn mfc0(self, dst: u32, cpr: u32, sel: u32) -> (r: Self)
        requires
            dst < 32,
            cpr < 32,
            sel < 32,
        ensures
            r@ == self@.push(mips_mfc0(dst, cpr, sel)),
    {
        self.append(mips_mfc0(dst, cpr, sel))
    }

    /// Appends MTC0.
    pub fn mtc0(self, src: u32, cpr: u32, sel: u32) -> (r: Self)
        requires
            src < 32,
            cpr < 32,
            sel < 32,
        ensures
            r@ == self@.push(mips_mtc0(src, cpr, sel)),
    {
        self.append(mips_mtc0(src, cpr, sel))
    }

    /// Appends MFC1.
    pub fn mfc1(self, fpr: u32, dst: u32) -> (r: Self)
        requires
            fpr < 32,
            dst < 32,
        ensures
            r@ == self@.push(mips_mfc1(fpr, dst)),
    {
        self.append(mips_mfc1(fpr, dst))
    }

    /// Appends CFC1.
    pub fn cfc1(self, fpr: u32, dst: u32) -> (r: Self)
        requires
            fpr < 32,
            dst < 32,
        ensures
            r@ == self@.push(mips_cfc1(fpr, dst)),
    {
        self.append(mips_cfc1(fpr, dst))
    }

    /// Appends MFHC1.
    pub fn mfhc1(self, fpr: u32, dst: u32) -> (r: Self)
        requires
            fpr < 32,
            dst < 32,
        ensures
            r@ == self@.push(mips_mfhc1(fpr, dst)),
    {
        self.append(mips_mfhc1(fpr, dst))
    }

    /// Appends MTC1.
    pub fn mtc1(self, fpr: u32, src: u32) -> (r: Self)
        requires
            fpr < 32,
            src < 32,
        ensures
            r@ == self@.push(mips_mtc1(fpr, src)),
    {
        self.append(mips_mtc1(fpr, src))
    }

    /// Appends MTHC1.
    pub fn mthc1(self, fpr: u32, src: u32) -> (r: Self)
        requires
            fpr < 32,
            src < 32,
        ensures
            r@ == self@.push(mips_mthc1(fpr, src)),
    {
        self.append(mips_mthc1(fpr, src))
    }

    /// Appends SWC1.
    pub fn swc1(self, base: u32, ft: u32, off: u32) -> (r: Self)
        requires
            base < 32,
            ft < 32,
        ensures
            r@ == self@.push(mips_swc1(base, ft, off)),
    {
        self.append(mips_swc1(base, ft, off))
    }

}

} // verus!
