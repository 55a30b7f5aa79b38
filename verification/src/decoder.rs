//! From an instruction word to its fields.
//!
//! Each format keeps its immediate in its own bits of the word. The
//! functions here take the fields out, give an immediate its sign, and put
//! the result together as an [`Instruction`].

use crate::fault::Fault;
use crate::instructions::branch::BranchType;
use crate::instructions::load::LoadType;
use crate::instructions::math::MathType;
use crate::instructions::mathi::MathiType;
use crate::instructions::store::StoreType;
use crate::instructions::InstructionGroup;
use vstd::prelude::*;

verus! {

/// The destination register: bits 11 to 7 of the word.
pub open spec fn rd_of(instruction: u32) -> u8 {
    ((instruction >> 7) & 0b11111) as u8
}

/// The first source register: bits 19 to 15 of the word.
pub open spec fn rs1_of(instruction: u32) -> u8 {
    ((instruction >> 15) & 0b11111) as u8
}

/// The second source register: bits 24 to 20 of the word.
pub open spec fn rs2_of(instruction: u32) -> u8 {
    ((instruction >> 20) & 0b11111) as u8
}

/// The immediate of the U format: bits 31 to 12 of the word, where they
/// stand.
pub open spec fn immediate_31_12(instruction: u32) -> u32 {
    instruction & 0xFFFFF000
}

/// The immediate of the J format, bit 0 being zero: bit 31 of the word is
/// bit 20 of it, bits 19 to 12 are bits 19 to 12, bit 20 is bit 11, and
/// bits 30 to 21 are bits 10 to 1.
pub open spec fn immediate_20_1(instruction: u32) -> u32 {
    (((instruction >> 31) & 0b1) << 20) | (((instruction >> 12) & 0b11111111) << 12) | (((
    instruction >> 20) & 0b1) << 11) | (((instruction >> 21) & 0b1111111111) << 1)
}

/// The immediate of the B format, bit 0 being zero: bit 31 of the word is
/// bit 12 of it, bit 7 is bit 11, bits 30 to 25 are bits 10 to 5, and bits
/// 11 to 8 are bits 4 to 1.
pub open spec fn immediate_12_1(instruction: u32) -> u32 {
    (((instruction >> 31) & 0b1) << 12) | (((instruction >> 7) & 0b1) << 11) | (((instruction
        >> 25) & 0b111111) << 5) | (((instruction >> 8) & 0b1111) << 1)
}

/// The immediate of the I format: bits 31 to 20 of the word.
pub open spec fn immediate_11_0(instruction: u32) -> u32 {
    (instruction >> 20) & 0b111111111111
}

/// The immediate of the S format: bits 31 to 25 of the word are bits 11 to
/// 5 of it, and bits 11 to 7 are bits 4 to 0.
pub open spec fn immediate_11_5_4_0(instruction: u32) -> u32 {
    (((instruction >> 25) & 0b1111111) << 5) | ((instruction >> 7) & 0b11111)
}

/// The top bit of a field of 8, 12, 13, 16 or 21 bits: the widths that the
/// machine extends the sign of.
pub open spec fn is_sign_bit(sign_bit: u32) -> bool {
    sign_bit == 0x80 || sign_bit == 0x800 || sign_bit == 0x1000 || sign_bit == 0x8000 || sign_bit
        == 0x10_0000
}

/// The number that `field` stands for in two's complement, `sign_bit` being
/// its top bit.
pub open spec fn sign_extended(field: u32, sign_bit: u32) -> int {
    if field >= sign_bit {
        field - 2 * sign_bit
    } else {
        field as int
    }
}

proof fn lemma_registers_fit(instruction: u32)
    by (bit_vector)
    ensures
        (instruction >> 7) & 0b11111 < 32,
        (instruction >> 15) & 0b11111 < 32,
        (instruction >> 20) & 0b11111 < 32,
{
}

proof fn lemma_immediates(instruction: u32)
    by (bit_vector)
    ensures
        immediate_20_1(instruction) < 0x20_0000,
        immediate_12_1(instruction) < 0x2000,
        immediate_11_0(instruction) < 0x1000,
        immediate_11_5_4_0(instruction) < 0x1000,
        ((instruction >> 20) & 0b000000000011111111110) | ((instruction >> 9)
            & 0b000000000100000000000) | ((instruction >> 0) & 0b011111111000000000000) | ((
        instruction >> 11) & 0b100000000000000000000) == immediate_20_1(instruction),
        ((instruction >> 7) & 0b0000000011110) | ((instruction >> 20) & 0b0011111100000) | ((
        instruction << 4) & 0b0100000000000) | ((instruction >> 19) & 0b1000000000000)
            == immediate_12_1(instruction),
        ((instruction >> 7) & 0b000000011111) | ((instruction >> 20) & 0b111111100000)
            == immediate_11_5_4_0(instruction),
{
}

proof fn lemma_sign_and_amount(field: u32, sign_bit: u32)
    by (bit_vector)
    requires
        sign_bit == 0x80 || sign_bit == 0x800 || sign_bit == 0x1000 || sign_bit == 0x8000
            || sign_bit == 0x10_0000,
        field < 2 * sign_bit,
    ensures
        field & sign_bit == 0 ==> field < sign_bit && field & (sign_bit - 1) as u32 == field,
        field & sign_bit != 0 ==> field >= sign_bit && ((field & (sign_bit - 1) as u32) ^ (sign_bit
            - 1) as u32) + 1 == 2 * sign_bit - field,
{
}

/// The destination register of `instruction`.
pub fn extract_rd_register(instruction: u32) -> (rd: u8)
    ensures
        rd == rd_of(instruction),
        rd < 32,
{
    proof {
        lemma_registers_fit(instruction);
    }
    ((instruction >> 7) & 0b11111) as u8
}

/// The first source register of `instruction`.
pub fn extract_rs1_register(instruction: u32) -> (rs1: u8)
    ensures
        rs1 == rs1_of(instruction),
        rs1 < 32,
{
    proof {
        lemma_registers_fit(instruction);
    }
    ((instruction >> 15) & 0b11111) as u8
}

/// The second source register of `instruction`.
pub fn extract_rs2_register(instruction: u32) -> (rs2: u8)
    ensures
        rs2 == rs2_of(instruction),
        rs2 < 32,
{
    proof {
        lemma_registers_fit(instruction);
    }
    ((instruction >> 20) & 0b11111) as u8
}

/// The immediate of `instruction` read in the U format.
pub fn extract_immediate_31_12(instruction: u32) -> (immediate: u32)
    ensures
        immediate == immediate_31_12(instruction),
{
    instruction & 0xFFFFF000
}

/// The immediate of `instruction` read in the J format, not yet given its
/// sign.
pub fn extract_immediate_20_1(instruction: u32) -> (immediate: u32)
    ensures
        immediate == immediate_20_1(instruction),
        immediate < 0x20_0000,
{
    let imm_10_1: u32 = (instruction >> 20) & 0b000000000011111111110;
    let imm_11: u32 = (instruction >> 9) & 0b000000000100000000000;
    let imm_19_12: u32 = (instruction >> 0) & 0b011111111000000000000;
    let imm_20: u32 = (instruction >> 11) & 0b100000000000000000000;

    proof {
        lemma_immediates(instruction);
    }
    imm_10_1 | imm_11 | imm_19_12 | imm_20
}

/// The immediate of `instruction` read in the B format, not yet given its
/// sign.
pub fn extract_immediate_12_1(instruction: u32) -> (immediate: u32)
    ensures
        immediate == immediate_12_1(instruction),
        immediate < 0x2000,
{
    let imm_4_1: u32 = (instruction >> 7) & 0b0000000011110;
    let imm_10_5: u32 = (instruction >> 20) & 0b0011111100000;
    let imm_11: u32 = (instruction << 4) & 0b0100000000000;
    let imm_12: u32 = (instruction >> 19) & 0b1000000000000;

    proof {
        lemma_immediates(instruction);
    }
    imm_4_1 | imm_10_5 | imm_11 | imm_12
}

/// The immediate of `instruction` read in the I format, not yet given its
/// sign.
pub fn extract_immediate_11_0(instruction: u32) -> (immediate: u32)
    ensures
        immediate == immediate_11_0(instruction),
        immediate < 0x1000,
{
    proof {
        lemma_immediates(instruction);
    }
    (instruction >> 20) & 0b111111111111
}

/// The immediate of `instruction` read in the S format, not yet given its
/// sign.
pub fn extract_immediate_11_5_4_0(instruction: u32) -> (immediate: u32)
    ensures
        immediate == immediate_11_5_4_0(instruction),
        immediate < 0x1000,
{
    let imm_4_0: u32 = (instruction >> 7) & 0b000000011111;
    let imm_11_5: u32 = (instruction >> 20) & 0b111111100000;

    proof {
        lemma_immediates(instruction);
    }
    imm_4_0 | imm_11_5
}

/// Gives `field` its sign: where its top bit `sign_bit` is set, the result
/// is the negated two's complement of the bits below it.
pub fn sign_extend(field: u32, sign_bit: u32) -> (value: i32)
    requires
        is_sign_bit(sign_bit),
        field < 2 * sign_bit,
    ensures
        value == sign_extended(field, sign_bit),
{
    let sign: u32 = field & sign_bit;
    let amount: u32 = field & (sign_bit - 1);

    proof {
        lemma_sign_and_amount(field, sign_bit);
    }
    if sign == 0 {
        amount as i32
    } else {
        let neg: u32 = (amount ^ (sign_bit - 1)) + 1;
        -(neg as i32)
    }
}

/// An instruction with its fields taken apart. Registers are numbers below
/// 32; offsets and immediates carry their sign.
#[derive(Clone, Copy, Debug, PartialEq, Eq, Structural)]
pub enum Instruction {
    /// Load `upper`, whose low 12 bits are zero, into `rd`.
    Lui { rd: u8, upper: u32 },
    /// Add `upper`, whose low 12 bits are zero, to the program counter.
    Auipc { rd: u8, upper: u32 },
    /// Jump by `offset` and leave the address of the next instruction in
    /// `rd`.
    Jal { rd: u8, offset: i32 },
    /// Jump to `rs1` plus `offset` and leave the address of the next
    /// instruction in `rd`.
    Jalr { rd: u8, rs1: u8, offset: i32 },
    /// Jump by `offset` if `rs1` and `rs2` stand as `branch_type` asks.
    Branch { branch_type: BranchType, rs1: u8, rs2: u8, offset: i32 },
    /// Load into `rd` from the address `rs1` plus `offset`.
    Load { load_type: LoadType, rd: u8, rs1: u8, offset: i32 },
    /// Store `rs2` to the address `rs1` plus `offset`.
    Store { store_type: StoreType, rs1: u8, rs2: u8, offset: i32 },
    /// Put into `rd` the result of `mathi_type` on `rs1` and `immediate`, which
    /// for a shift is the amount, from 0 to 31.
    Mathi { mathi_type: MathiType, rd: u8, rs1: u8, immediate: i32 },
    /// Put into `rd` the result of `math_type` on `rs1` and `rs2`.
    Math { math_type: MathType, rd: u8, rs1: u8, rs2: u8 },
}

impl Instruction {
    /// Whether every register of the instruction is one of the 32.
    pub open spec fn well_formed(self) -> bool {
        match self {
            Instruction::Lui { rd, .. } => rd < 32,
            Instruction::Auipc { rd, .. } => rd < 32,
            Instruction::Jal { rd, .. } => rd < 32,
            Instruction::Jalr { rd, rs1, .. } => rd < 32 && rs1 < 32,
            Instruction::Branch { rs1, rs2, .. } => rs1 < 32 && rs2 < 32,
            Instruction::Load { rd, rs1, .. } => rd < 32 && rs1 < 32,
            Instruction::Store { rs1, rs2, .. } => rs1 < 32 && rs2 < 32,
            Instruction::Mathi { mathi_type, rd, rs1, immediate } => rd < 32 && rs1 < 32 && (
            mathi_type.is_shift() ==> 0 <= immediate < 32),
            Instruction::Math { rd, rs1, rs2, .. } => rd < 32 && rs1 < 32 && rs2 < 32,
        }
    }

    /// The group that the instruction belongs to.
    pub open spec fn spec_group(self) -> InstructionGroup {
        match self {
            Instruction::Lui { .. } => InstructionGroup::LUI,
            Instruction::Auipc { .. } => InstructionGroup::AUIPC,
            Instruction::Jal { .. } => InstructionGroup::JAL,
            Instruction::Jalr { .. } => InstructionGroup::JALR,
            Instruction::Branch { .. } => InstructionGroup::BRANCH,
            Instruction::Load { .. } => InstructionGroup::LOAD,
            Instruction::Store { .. } => InstructionGroup::STORE,
            Instruction::Mathi { .. } => InstructionGroup::MATHI,
            Instruction::Math { .. } => InstructionGroup::MATH,
        }
    }

    /// The group that the instruction belongs to.
    #[verifier::when_used_as_spec(spec_group)]
    pub fn group(self) -> (group: InstructionGroup)
        ensures
            group == self.spec_group(),
    {
        match self {
            Instruction::Lui { .. } => InstructionGroup::LUI,
            Instruction::Auipc { .. } => InstructionGroup::AUIPC,
            Instruction::Jal { .. } => InstructionGroup::JAL,
            Instruction::Jalr { .. } => InstructionGroup::JALR,
            Instruction::Branch { .. } => InstructionGroup::BRANCH,
            Instruction::Load { .. } => InstructionGroup::LOAD,
            Instruction::Store { .. } => InstructionGroup::STORE,
            Instruction::Mathi { .. } => InstructionGroup::MATHI,
            Instruction::Math { .. } => InstructionGroup::MATH,
        }
    }
}

/// The immediate of a register-immediate operation `mathi_type`: the shift
/// amount in bits 24 to 20 for a shift, the signed I-format immediate for
/// the others.
pub open spec fn mathi_immediate(mathi_type: MathiType, instruction: u32) -> int {
    if mathi_type.is_shift() {
        rs2_of(instruction) as int
    } else {
        sign_extended(immediate_11_0(instruction), 0x800)
    }
}

/// The instruction that the word `instruction` encodes, or `None` where it
/// encodes none: its opcode is of no group, its further bits are of no kind
/// of its group, or it is a fence or a system instruction.
pub open spec fn spec_decode(instruction: u32) -> Option<Instruction> {
    let rd = rd_of(instruction);
    let rs1 = rs1_of(instruction);
    let rs2 = rs2_of(instruction);
    match InstructionGroup::spec_decode(instruction) {
        Some(InstructionGroup::LUI) => Some(
            Instruction::Lui { rd, upper: immediate_31_12(instruction) },
        ),
        Some(InstructionGroup::AUIPC) => Some(
            Instruction::Auipc { rd, upper: immediate_31_12(instruction) },
        ),
        Some(InstructionGroup::JAL) => Some(
            Instruction::Jal {
                rd,
                offset: sign_extended(immediate_20_1(instruction), 0x10_0000) as i32,
            },
        ),
        Some(InstructionGroup::JALR) => Some(
            Instruction::Jalr {
                rd,
                rs1,
                offset: sign_extended(immediate_11_0(instruction), 0x800) as i32,
            },
        ),
        Some(InstructionGroup::BRANCH) => match BranchType::spec_decode(instruction) {
            Some(branch_type) => Some(
                Instruction::Branch {
                    branch_type,
                    rs1,
                    rs2,
                    offset: sign_extended(immediate_12_1(instruction), 0x1000) as i32,
                },
            ),
            None => None,
        },
        Some(InstructionGroup::LOAD) => match LoadType::spec_decode(instruction) {
            Some(load_type) => Some(
                Instruction::Load {
                    load_type,
                    rd,
                    rs1,
                    offset: sign_extended(immediate_11_0(instruction), 0x800) as i32,
                },
            ),
            None => None,
        },
        Some(InstructionGroup::STORE) => match StoreType::spec_decode(instruction) {
            Some(store_type) => Some(
                Instruction::Store {
                    store_type,
                    rs1,
                    rs2,
                    offset: sign_extended(immediate_11_5_4_0(instruction), 0x800) as i32,
                },
            ),
            None => None,
        },
        Some(InstructionGroup::MATHI) => match MathiType::spec_decode(instruction) {
            Some(mathi_type) => Some(
                Instruction::Mathi {
                    mathi_type,
                    rd,
                    rs1,
                    immediate: mathi_immediate(mathi_type, instruction) as i32,
                },
            ),
            None => None,
        },
        Some(InstructionGroup::MATH) => match MathType::spec_decode(instruction) {
            Some(math_type) => Some(Instruction::Math { math_type, rd, rs1, rs2 }),
            None => None,
        },
        Some(InstructionGroup::FENCE) => None,
        Some(InstructionGroup::CSR) => None,
        None => None,
    }
}

/// Whatever a word is decoded to has its registers among the 32, and where
/// it is a shift by an immediate, its amount below 32.
pub proof fn lemma_decoded_is_well_formed(instruction: u32)
    ensures
        spec_decode(instruction) matches Some(decoded) ==> decoded.well_formed(),
{
    lemma_registers_fit(instruction);
}

/// Takes the word `instruction` apart. A word that encodes no instruction
/// is an illegal instruction.
pub fn decode(instruction: u32) -> (outcome: Result<Instruction, Fault>)
    ensures
        outcome == (match spec_decode(instruction) {
            Some(decoded) => Ok::<Instruction, Fault>(decoded),
            None => Err::<Instruction, Fault>(Fault::IllegalInstruction),
        }),
        outcome matches Ok(decoded) ==> decoded.well_formed(),
{
    let rd: u8 = extract_rd_register(instruction);
    let rs1: u8 = extract_rs1_register(instruction);
    let rs2: u8 = extract_rs2_register(instruction);
    match InstructionGroup::decode(instruction) {
        Some(InstructionGroup::LUI) => Ok(
            Instruction::Lui { rd, upper: extract_immediate_31_12(instruction) },
        ),
        Some(InstructionGroup::AUIPC) => Ok(
            Instruction::Auipc { rd, upper: extract_immediate_31_12(instruction) },
        ),
        Some(InstructionGroup::JAL) => Ok(
            Instruction::Jal {
                rd,
                offset: sign_extend(extract_immediate_20_1(instruction), 0x10_0000),
            },
        ),
        Some(InstructionGroup::JALR) => Ok(
            Instruction::Jalr {
                rd,
                rs1,
                offset: sign_extend(extract_immediate_11_0(instruction), 0x800),
            },
        ),
        Some(InstructionGroup::BRANCH) => match BranchType::decode(instruction) {
            Some(branch_type) => Ok(
                Instruction::Branch {
                    branch_type,
                    rs1,
                    rs2,
                    offset: sign_extend(extract_immediate_12_1(instruction), 0x1000),
                },
            ),
            None => Err(Fault::IllegalInstruction),
        },
        Some(InstructionGroup::LOAD) => match LoadType::decode(instruction) {
            Some(load_type) => Ok(
                Instruction::Load {
                    load_type,
                    rd,
                    rs1,
                    offset: sign_extend(extract_immediate_11_0(instruction), 0x800),
                },
            ),
            None => Err(Fault::IllegalInstruction),
        },
        Some(InstructionGroup::STORE) => match StoreType::decode(instruction) {
            Some(store_type) => Ok(
                Instruction::Store {
                    store_type,
                    rs1,
                    rs2,
                    offset: sign_extend(extract_immediate_11_5_4_0(instruction), 0x800),
                },
            ),
            None => Err(Fault::IllegalInstruction),
        },
        Some(InstructionGroup::MATHI) => match MathiType::decode(instruction) {
            Some(mathi_type) => {
                let immediate: i32 = if mathi_type.is_shift() {
                    rs2 as i32
                } else {
                    sign_extend(extract_immediate_11_0(instruction), 0x800)
                };
                Ok(Instruction::Mathi { mathi_type, rd, rs1, immediate })
            },
            None => Err(Fault::IllegalInstruction),
        },
        Some(InstructionGroup::MATH) => match MathType::decode(instruction) {
            Some(math_type) => Ok(Instruction::Math { math_type, rd, rs1, rs2 }),
            None => Err(Fault::IllegalInstruction),
        },
        Some(InstructionGroup::FENCE) => Err(Fault::IllegalInstruction),
        Some(InstructionGroup::CSR) => Err(Fault::IllegalInstruction),
        None => Err(Fault::IllegalInstruction),
    }
}

} // verus!
