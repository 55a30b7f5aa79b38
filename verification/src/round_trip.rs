//! Decoding undoes encoding.
//!
//! For each function that builds an instruction word there is a law here:
//! on registers below 32 and on an offset or immediate that the format can
//! hold, decoding the word gives back the kind, the registers and the
//! offset that went in.

use crate::decoder::immediate_11_0;
use crate::decoder::immediate_11_5_4_0;
use crate::decoder::immediate_12_1;
use crate::decoder::immediate_20_1;
use crate::decoder::immediate_31_12;
use crate::decoder::rd_of;
use crate::decoder::rs1_of;
use crate::decoder::rs2_of;
use crate::decoder::sign_extended;
use crate::decoder::spec_decode;
use crate::decoder::Instruction;
use crate::instructions::branch::branch;
use crate::instructions::branch::BranchType;
use crate::instructions::branch::BRANCH_MASK;
use crate::instructions::load::load;
use crate::instructions::load::LoadType;
use crate::instructions::load::LOAD_MASK;
use crate::instructions::math::math;
use crate::instructions::math::MathType;
use crate::instructions::math::MATH_MASK;
use crate::instructions::mathi::mathi;
use crate::instructions::mathi::MathiType;
use crate::instructions::mathi::MATHI_MASK;
use crate::instructions::mathi::MATHI_SHIFT_MASK;
use crate::instructions::store::store;
use crate::instructions::store::StoreType;
use crate::instructions::store::STORE_MASK;
use crate::instructions::auipc;
use crate::instructions::jal;
use crate::instructions::jalr;
use crate::instructions::lui;
use crate::instructions::GROUP_MASK;
use vstd::prelude::*;

verus! {

/// The field that holds `value` in two's complement, `sign_bit` being the
/// top bit of the field.
pub open spec fn twos_complement(value: int, sign_bit: u32) -> u32 {
    (value % (2 * sign_bit)) as u32
}

/// Whether a field with the top bit `sign_bit` can hold `value`.
pub open spec fn fits(value: int, sign_bit: u32) -> bool {
    -sign_bit <= value < sign_bit
}

/// A number that fits a field of 12, 13 or 21 bits is read back from its
/// two's complement unchanged.
pub proof fn lemma_twos_complement_round_trip(value: int, sign_bit: u32)
    requires
        sign_bit == 0x800 || sign_bit == 0x1000 || sign_bit == 0x10_0000,
        fits(value, sign_bit),
    ensures
        twos_complement(value, sign_bit) < 2 * sign_bit,
        sign_extended(twos_complement(value, sign_bit), sign_bit) == value,
        value % 2 == 0 ==> twos_complement(value, sign_bit) % 2 == 0,
{
}

/// A field of 12, 13 or 21 bits is the two's complement of the number that
/// it is read as: every field stands for a number that fits.
pub proof fn lemma_sign_extended_round_trip(field: u32, sign_bit: u32)
    requires
        sign_bit == 0x800 || sign_bit == 0x1000 || sign_bit == 0x10_0000,
        field < 2 * sign_bit,
    ensures
        fits(sign_extended(field, sign_bit), sign_bit),
        twos_complement(sign_extended(field, sign_bit), sign_bit) == field,
{
    let value = sign_extended(field, sign_bit);
    if sign_bit == 0x800 {
        assert(value % 0x1000 == field);
    } else if sign_bit == 0x1000 {
        assert(value % 0x2000 == field);
    } else {
        assert(value % 0x20_0000 == field);
    }
}

proof fn lemma_upper_fields(rd: u8, value: u32, opcode: u32, word: u32)
    by (bit_vector)
    requires
        rd < 32,
        value % 0x1000 == 0,
        opcode < 0x80,
        word == (value & 0xFFFFF000) | ((rd as u32) << 7) | opcode,
    ensures
        word & GROUP_MASK == opcode,
        rd_of(word) == rd,
        immediate_31_12(word) == value,
{
}

proof fn lemma_jal_fields(rd: u8, value: u32, word: u32)
    by (bit_vector)
    requires
        rd < 32,
        value < 0x20_0000,
        value % 2 == 0,
        word == (((value >> 1) & 0b1111111111) << 21) | (((value >> 11) & 0b1) << 20) | (((value
            >> 12) & 0b11111111) << 12) | (((value >> 20) & 0b1) << 31) | ((rd as u32) << 7)
            | 0b1101111,
    ensures
        word & GROUP_MASK == 0b1101111,
        rd_of(word) == rd,
        immediate_20_1(word) == value,
{
}

proof fn lemma_jalr_fields(rd: u8, rs1: u8, value: u16, word: u32)
    by (bit_vector)
    requires
        rd < 32,
        rs1 < 32,
        value < 0x1000,
        word == (((value as u32) & 0b111111111111) << 20) | ((rs1 as u32) << 15) | ((rd as u32)
            << 7) | 0b1100111,
    ensures
        word & GROUP_MASK == 0b1100111,
        rd_of(word) == rd,
        rs1_of(word) == rs1,
        immediate_11_0(word) == value,
{
}

proof fn lemma_immediate_fields(pattern: u32, rd: u8, rs1: u8, value: u16, word: u32)
    by (bit_vector)
    requires
        pattern & 0b111000001111111 == pattern,
        rd < 32,
        rs1 < 32,
        value < 0x1000,
        word == pattern | ((rd as u32) << 7) | ((rs1 as u32) << 15) | (((value as u32)
            & 0b111111111111) << 20),
    ensures
        word & GROUP_MASK == pattern & GROUP_MASK,
        word & 0b111000001111111 == pattern,
        rd_of(word) == rd,
        rs1_of(word) == rs1,
        immediate_11_0(word) == value,
{
}

proof fn lemma_branch_fields(pattern: u32, rs1: u8, rs2: u8, offset: u16, word: u32)
    by (bit_vector)
    requires
        pattern & BRANCH_MASK == pattern,
        rs1 < 32,
        rs2 < 32,
        offset < 0x2000,
        offset % 2 == 0,
        word == pattern | ((rs1 as u32) << 15) | ((rs2 as u32) << 20) | ((((offset >> 1)
            & 0b1111) as u32) << 8) | ((((offset >> 5) & 0b111111) as u32) << 25) | ((((offset
            >> 11) & 0b1) as u32) << 7) | ((((offset >> 12) & 0b1) as u32) << 31),
    ensures
        word & GROUP_MASK == pattern & GROUP_MASK,
        word & BRANCH_MASK == pattern,
        rs1_of(word) == rs1,
        rs2_of(word) == rs2,
        immediate_12_1(word) == offset,
{
}

proof fn lemma_store_fields(pattern: u32, rs1: u8, rs2: u8, value: u16, word: u32)
    by (bit_vector)
    requires
        pattern & STORE_MASK == pattern,
        rs1 < 32,
        rs2 < 32,
        value < 0x1000,
        word == pattern | ((rs1 as u32) << 15) | ((rs2 as u32) << 20) | (((value as u32)
            & 0b11111) << 7) | ((((value as u32) >> 5) & 0b1111111) << 25),
    ensures
        word & GROUP_MASK == pattern & GROUP_MASK,
        word & STORE_MASK == pattern,
        rs1_of(word) == rs1,
        rs2_of(word) == rs2,
        immediate_11_5_4_0(word) == value,
{
}

proof fn lemma_shift_fields(pattern: u32, rd: u8, rs1: u8, value: u16, word: u32)
    by (bit_vector)
    requires
        pattern & MATHI_SHIFT_MASK == pattern,
        rd < 32,
        rs1 < 32,
        value < 32,
        word == pattern | ((rd as u32) << 7) | ((rs1 as u32) << 15) | (((value as u32)
            & 0b000000011111) << 20),
    ensures
        word & GROUP_MASK == pattern & GROUP_MASK,
        word & MATHI_MASK == pattern & MATHI_MASK,
        word & MATHI_SHIFT_MASK == pattern,
        rd_of(word) == rd,
        rs1_of(word) == rs1,
        rs2_of(word) == value,
{
}

proof fn lemma_math_fields(pattern: u32, rd: u8, rs1: u8, rs2: u8, word: u32)
    by (bit_vector)
    requires
        pattern & MATH_MASK == pattern,
        rd < 32,
        rs1 < 32,
        rs2 < 32,
        word == pattern | ((rd as u32) << 7) | ((rs1 as u32) << 15) | ((rs2 as u32) << 20),
    ensures
        word & GROUP_MASK == pattern & GROUP_MASK,
        word & MATH_MASK == pattern,
        rd_of(word) == rd,
        rs1_of(word) == rs1,
        rs2_of(word) == rs2,
{
}

proof fn lemma_branch_patterns(pattern: u32)
    by (bit_vector)
    requires
        pattern == 0b000000001100011 || pattern == 0b001000001100011 || pattern
            == 0b100000001100011 || pattern == 0b101000001100011 || pattern == 0b110000001100011
            || pattern == 0b111000001100011,
    ensures
        pattern & BRANCH_MASK == pattern,
        pattern & GROUP_MASK == 0b1100011,
{
}

proof fn lemma_load_patterns(pattern: u32)
    by (bit_vector)
    requires
        pattern == 0b000000000000011 || pattern == 0b001000000000011 || pattern
            == 0b010000000000011 || pattern == 0b100000000000011 || pattern == 0b101000000000011,
    ensures
        pattern & LOAD_MASK == pattern,
        pattern & GROUP_MASK == 0b0000011,
{
}

proof fn lemma_store_patterns(pattern: u32)
    by (bit_vector)
    requires
        pattern == 0b000000000100011 || pattern == 0b001000000100011 || pattern
            == 0b010000000100011,
    ensures
        pattern & STORE_MASK == pattern,
        pattern & GROUP_MASK == 0b0100011,
{
}

proof fn lemma_mathi_patterns(pattern: u32)
    by (bit_vector)
    requires
        pattern == 0b000000000010011 || pattern == 0b010000000010011 || pattern
            == 0b011000000010011 || pattern == 0b100000000010011 || pattern == 0b110000000010011
            || pattern == 0b111000000010011 || pattern == 0b001000000010011 || pattern
            == 0b101000000010011 || pattern == 0b01000000000000000101000000010011,
    ensures
        pattern & MATHI_SHIFT_MASK == pattern,
        pattern & GROUP_MASK == 0b0010011,
        pattern != 0b01000000000000000101000000010011 ==> pattern & MATHI_MASK == pattern,
        pattern == 0b01000000000000000101000000010011 ==> pattern & MATHI_MASK
            == 0b101000000010011,
{
}

proof fn lemma_math_pattern_bits(pattern: u32)
    by (bit_vector)
    requires
        pattern == 0b00000000000000000000000000110011 || pattern
            == 0b01000000000000000000000000110011 || pattern == 0b00000000000000000001000000110011
            || pattern == 0b00000000000000000010000000110011 || pattern
            == 0b00000000000000000011000000110011 || pattern == 0b00000000000000000100000000110011
            || pattern == 0b00000000000000000101000000110011 || pattern
            == 0b01000000000000000101000000110011 || pattern == 0b00000000000000000110000000110011
            || pattern == 0b00000000000000000111000000110011,
    ensures
        pattern & MATH_MASK == pattern,
        pattern & GROUP_MASK == 0b0110011,
{
}

/// A load upper immediate is decoded to what it was built from.
pub proof fn lemma_lui_round_trip(rd: u8, upper: u32)
    requires
        rd < 32,
        upper % 0x1000 == 0,
    ensures
        spec_decode(lui(rd, upper)) == Some(Instruction::Lui { rd, upper }),
{
    lemma_upper_fields(rd, upper, 0b0110111, lui(rd, upper));
}

/// An add upper immediate to the program counter is decoded to what it was
/// built from.
pub proof fn lemma_auipc_round_trip(rd: u8, upper: u32)
    requires
        rd < 32,
        upper % 0x1000 == 0,
    ensures
        spec_decode(auipc(rd, upper)) == Some(Instruction::Auipc { rd, upper }),
{
    lemma_upper_fields(rd, upper, 0b0010111, auipc(rd, upper));
}

/// A jump and link is decoded to what it was built from.
pub proof fn lemma_jal_round_trip(rd: u8, offset: i32)
    requires
        rd < 32,
        fits(offset as int, 0x10_0000),
        offset % 2 == 0,
    ensures
        spec_decode(jal(rd, twos_complement(offset as int, 0x10_0000))) == Some(
            Instruction::Jal { rd, offset },
        ),
{
    let value = twos_complement(offset as int, 0x10_0000);
    lemma_twos_complement_round_trip(offset as int, 0x10_0000);
    lemma_jal_fields(rd, value, jal(rd, value));
}

/// A jump and link through a register is decoded to what it was built from.
pub proof fn lemma_jalr_round_trip(rd: u8, rs1: u8, offset: i32)
    requires
        rd < 32,
        rs1 < 32,
        fits(offset as int, 0x800),
    ensures
        spec_decode(jalr(rd, rs1, twos_complement(offset as int, 0x800) as u16)) == Some(
            Instruction::Jalr { rd, rs1, offset },
        ),
{
    let value = twos_complement(offset as int, 0x800) as u16;
    lemma_twos_complement_round_trip(offset as int, 0x800);
    lemma_jalr_fields(rd, rs1, value, jalr(rd, rs1, value));
}

/// A branch is decoded to what it was built from.
pub proof fn lemma_branch_round_trip(branch_type: BranchType, rs1: u8, rs2: u8, offset: i32)
    requires
        rs1 < 32,
        rs2 < 32,
        fits(offset as int, 0x1000),
        offset % 2 == 0,
    ensures
        spec_decode(branch(branch_type, rs1, rs2, twos_complement(offset as int, 0x1000) as u16))
            == Some(Instruction::Branch { branch_type, rs1, rs2, offset }),
{
    let value = twos_complement(offset as int, 0x1000) as u16;
    lemma_twos_complement_round_trip(offset as int, 0x1000);
    lemma_branch_patterns(branch_type.pattern());
    lemma_branch_fields(
        branch_type.pattern(),
        rs1,
        rs2,
        value,
        branch(branch_type, rs1, rs2, value),
    );
}

/// A load is decoded to what it was built from.
pub proof fn lemma_load_round_trip(load_type: LoadType, rd: u8, rs1: u8, offset: i32)
    requires
        rd < 32,
        rs1 < 32,
        fits(offset as int, 0x800),
    ensures
        spec_decode(load(load_type, rd, rs1, twos_complement(offset as int, 0x800) as u16))
            == Some(Instruction::Load { load_type, rd, rs1, offset }),
{
    let value = twos_complement(offset as int, 0x800) as u16;
    lemma_twos_complement_round_trip(offset as int, 0x800);
    lemma_load_patterns(load_type.pattern());
    lemma_immediate_fields(load_type.pattern(), rd, rs1, value, load(load_type, rd, rs1, value));
}

/// A store is decoded to what it was built from.
pub proof fn lemma_store_round_trip(store_type: StoreType, rs1: u8, rs2: u8, offset: i32)
    requires
        rs1 < 32,
        rs2 < 32,
        fits(offset as int, 0x800),
    ensures
        spec_decode(store(store_type, rs1, rs2, twos_complement(offset as int, 0x800) as u16))
            == Some(Instruction::Store { store_type, rs1, rs2, offset }),
{
    let value = twos_complement(offset as int, 0x800) as u16;
    lemma_twos_complement_round_trip(offset as int, 0x800);
    lemma_store_patterns(store_type.pattern());
    lemma_store_fields(store_type.pattern(), rs1, rs2, value, store(store_type, rs1, rs2, value));
}

/// A register-immediate operation that is no shift is decoded to what it
/// was built from.
pub proof fn lemma_mathi_round_trip(mathi_type: MathiType, rd: u8, rs1: u8, immediate: i32)
    requires
        !mathi_type.is_shift(),
        rd < 32,
        rs1 < 32,
        fits(immediate as int, 0x800),
    ensures
        spec_decode(mathi(mathi_type, rd, rs1, twos_complement(immediate as int, 0x800) as u16))
            == Some(Instruction::Mathi { mathi_type, rd, rs1, immediate }),
{
    let value = twos_complement(immediate as int, 0x800) as u16;
    lemma_twos_complement_round_trip(immediate as int, 0x800);
    lemma_mathi_patterns(mathi_type.pattern());
    lemma_immediate_fields(
        mathi_type.pattern(),
        rd,
        rs1,
        value,
        mathi(mathi_type, rd, rs1, value),
    );
}

/// A shift by an immediate is decoded to what it was built from.
pub proof fn lemma_shift_round_trip(mathi_type: MathiType, rd: u8, rs1: u8, amount: u8)
    requires
        mathi_type.is_shift(),
        rd < 32,
        rs1 < 32,
        amount < 32,
    ensures
        spec_decode(mathi(mathi_type, rd, rs1, amount as u16)) == Some(
            Instruction::Mathi { mathi_type, rd, rs1, immediate: amount as i32 },
        ),
{
    lemma_mathi_patterns(mathi_type.pattern());
    lemma_shift_fields(
        mathi_type.pattern(),
        rd,
        rs1,
        amount as u16,
        mathi(mathi_type, rd, rs1, amount as u16),
    );
}

/// A register-register operation is decoded to what it was built from.
pub proof fn lemma_math_round_trip(math_type: MathType, rd: u8, rs1: u8, rs2: u8)
    requires
        rd < 32,
        rs1 < 32,
        rs2 < 32,
    ensures
        spec_decode(math(math_type, rd, rs1, rs2)) == Some(
            Instruction::Math { math_type, rd, rs1, rs2 },
        ),
{
    assert(math_type.pattern() & MATH_MASK == math_type.pattern() && math_type.pattern()
        & GROUP_MASK == 0b0110011) by {
        lemma_math_pattern_bits(math_type.pattern());
    }
    lemma_math_fields(math_type.pattern(), rd, rs1, rs2, math(math_type, rd, rs1, rs2));
}

} // verus!
