//! The instruction words: their groups, their kinds, and the functions that
//! build them.

use vstd::prelude::*;

pub mod branch;
pub mod load;
pub mod math;
pub mod mathi;
pub mod store;

pub use self::branch::branch;
pub use self::branch::BranchType;
pub use self::load::load;
pub use self::load::LoadType;
pub use self::math::math;
pub use self::math::MathType;
pub use self::mathi::mathi;
pub use self::mathi::MathiType;
pub use self::store::store;
pub use self::store::StoreType;

verus! {

/// The instruction bits that hold the opcode.
pub const GROUP_MASK: u32 = 0b1111111;

/// The groups of instructions, one for each opcode.
#[derive(Clone, Copy, Debug, PartialEq, Eq, Structural)]
pub enum InstructionGroup {
    /// Load upper immediate.
    LUI,
    /// Add upper immediate to the program counter.
    AUIPC,
    /// Jump and link.
    JAL,
    /// Jump and link through a register.
    JALR,
    /// The conditional branches.
    BRANCH,
    /// The loads from memory.
    LOAD,
    /// The stores to memory.
    STORE,
    /// The operations on a register and an immediate.
    MATHI,
    /// The operations on two registers.
    MATH,
    /// The memory fences.
    FENCE,
    /// The system and control-register instructions.
    CSR,
}

impl InstructionGroup {
    /// The opcode of this group.
    pub open spec fn spec_opcode(self) -> u32 {
        match self {
            InstructionGroup::LUI => 0b0110111,
            InstructionGroup::AUIPC => 0b0010111,
            InstructionGroup::JAL => 0b1101111,
            InstructionGroup::JALR => 0b1100111,
            InstructionGroup::BRANCH => 0b1100011,
            InstructionGroup::LOAD => 0b0000011,
            InstructionGroup::STORE => 0b0100011,
            InstructionGroup::MATHI => 0b0010011,
            InstructionGroup::MATH => 0b0110011,
            InstructionGroup::FENCE => 0b0001111,
            InstructionGroup::CSR => 0b1110011,
        }
    }

    /// The opcode of this group.
    #[verifier::when_used_as_spec(spec_opcode)]
    pub fn opcode(self) -> (bits: u32)
        ensures
            bits == self.spec_opcode(),
    {
        match self {
            InstructionGroup::LUI => 0b0110111,
            InstructionGroup::AUIPC => 0b0010111,
            InstructionGroup::JAL => 0b1101111,
            InstructionGroup::JALR => 0b1100111,
            InstructionGroup::BRANCH => 0b1100011,
            InstructionGroup::LOAD => 0b0000011,
            InstructionGroup::STORE => 0b0100011,
            InstructionGroup::MATHI => 0b0010011,
            InstructionGroup::MATH => 0b0110011,
            InstructionGroup::FENCE => 0b0001111,
            InstructionGroup::CSR => 0b1110011,
        }
    }

    /// Whether `instruction` belongs to this group.
    pub open spec fn matches(self, instruction: u32) -> bool {
        instruction & GROUP_MASK == self.opcode()
    }

    /// The group that `instruction` belongs to, the groups tried in the
    /// order of their declaration.
    pub open spec fn spec_decode(instruction: u32) -> Option<InstructionGroup> {
        if InstructionGroup::LUI.matches(instruction) {
            Some(InstructionGroup::LUI)
        } else if InstructionGroup::AUIPC.matches(instruction) {
            Some(InstructionGroup::AUIPC)
        } else if InstructionGroup::JAL.matches(instruction) {
            Some(InstructionGroup::JAL)
        } else if InstructionGroup::JALR.matches(instruction) {
            Some(InstructionGroup::JALR)
        } else if InstructionGroup::BRANCH.matches(instruction) {
            Some(InstructionGroup::BRANCH)
        } else if InstructionGroup::LOAD.matches(instruction) {
            Some(InstructionGroup::LOAD)
        } else if InstructionGroup::STORE.matches(instruction) {
            Some(InstructionGroup::STORE)
        } else if InstructionGroup::MATHI.matches(instruction) {
            Some(InstructionGroup::MATHI)
        } else if InstructionGroup::MATH.matches(instruction) {
            Some(InstructionGroup::MATH)
        } else if InstructionGroup::FENCE.matches(instruction) {
            Some(InstructionGroup::FENCE)
        } else if InstructionGroup::CSR.matches(instruction) {
            Some(InstructionGroup::CSR)
        } else {
            None
        }
    }

    /// Whether `instruction` belongs to `group`.
    pub fn check(instruction: u32, group: InstructionGroup) -> (same: bool)
        ensures
            same == group.matches(instruction),
    {
        let masked: u32 = instruction & GROUP_MASK;
        let opcode: u32 = group.opcode();
        proof {
            lemma_xor_zero(masked, opcode);
        }
        (masked ^ opcode) == 0
    }

    /// The group that `instruction` belongs to, if it belongs to any.
    #[verifier::when_used_as_spec(spec_decode)]
    pub fn decode(instruction: u32) -> (group: Option<InstructionGroup>)
        ensures
            group == InstructionGroup::spec_decode(instruction),
    {
        if InstructionGroup::check(instruction, InstructionGroup::LUI) {
            Some(InstructionGroup::LUI)
        } else if InstructionGroup::check(instruction, InstructionGroup::AUIPC) {
            Some(InstructionGroup::AUIPC)
        } else if InstructionGroup::check(instruction, InstructionGroup::JAL) {
            Some(InstructionGroup::JAL)
        } else if InstructionGroup::check(instruction, InstructionGroup::JALR) {
            Some(InstructionGroup::JALR)
        } else if InstructionGroup::check(instruction, InstructionGroup::BRANCH) {
            Some(InstructionGroup::BRANCH)
        } else if InstructionGroup::check(instruction, InstructionGroup::LOAD) {
            Some(InstructionGroup::LOAD)
        } else if InstructionGroup::check(instruction, InstructionGroup::STORE) {
            Some(InstructionGroup::STORE)
        } else if InstructionGroup::check(instruction, InstructionGroup::MATHI) {
            Some(InstructionGroup::MATHI)
        } else if InstructionGroup::check(instruction, InstructionGroup::MATH) {
            Some(InstructionGroup::MATH)
        } else if InstructionGroup::check(instruction, InstructionGroup::FENCE) {
            Some(InstructionGroup::FENCE)
        } else if InstructionGroup::check(instruction, InstructionGroup::CSR) {
            Some(InstructionGroup::CSR)
        } else {
            None
        }
    }

    /// Decoding finds a group exactly when the instruction belongs to it: no
    /// instruction belongs to two groups.
    pub proof fn lemma_decode_matches(instruction: u32, group: InstructionGroup)
        ensures
            InstructionGroup::spec_decode(instruction) == Some(group) <==> group.matches(
                instruction,
            ),
    {
    }
}

/// Two words whose exclusive or is zero are the same word.
pub(crate) proof fn lemma_xor_zero(a: u32, b: u32)
    by (bit_vector)
    ensures
        (a ^ b) == 0 <==> a == b,
{
}

/// The word of a load upper immediate: the opcode, the destination register,
/// and bits 31 to 12 of `value` where they stand.
pub open spec fn spec_lui(rd: u8, value: u32) -> u32 {
    (value & 0xFFFFF000) | ((rd as u32) << 7) | InstructionGroup::LUI.opcode()
}

/// Builds the instruction that loads bits 31 to 12 of `value` into `rd`.
#[verifier::when_used_as_spec(spec_lui)]
pub fn lui(rd: u8, value: u32) -> (word: u32)
    ensures
        word == spec_lui(rd, value),
{
    let truncated_value: u32 = value & 0xFFFFF000;
    let shifted_rd: u32 = (rd as u32) << 7;

    truncated_value | shifted_rd | InstructionGroup::LUI.opcode()
}

/// The word of an add upper immediate to the program counter: the opcode,
/// the destination register, and bits 31 to 12 of `value` where they stand.
pub open spec fn spec_auipc(rd: u8, value: u32) -> u32 {
    (value & 0xFFFFF000) | ((rd as u32) << 7) | InstructionGroup::AUIPC.opcode()
}

/// Builds the instruction that adds bits 31 to 12 of `value` to the program
/// counter, with `rd` as its destination.
#[verifier::when_used_as_spec(spec_auipc)]
pub fn auipc(rd: u8, value: u32) -> (word: u32)
    ensures
        word == spec_auipc(rd, value),
{
    let truncated_value: u32 = value & 0xFFFFF000;
    let shifted_rd: u32 = (rd as u32) << 7;

    truncated_value | shifted_rd | InstructionGroup::AUIPC.opcode()
}

/// The word of a jump and link: the opcode, the destination register, and
/// bits 20 to 1 of `value`, of which bit 20 is bit 31 of the word, bits 10 to
/// 1 are bits 30 to 21, bit 11 is bit 20, and bits 19 to 12 are bits 19 to
/// 12.
pub open spec fn spec_jal(rd: u8, value: u32) -> u32 {
    (((value >> 1) & 0b1111111111) << 21) | (((value >> 11) & 0b1) << 20) | (((value >> 12)
        & 0b11111111) << 12) | (((value >> 20) & 0b1) << 31) | ((rd as u32) << 7)
        | InstructionGroup::JAL.opcode()
}

/// Builds the jump by `value`, a 21-bit two's complement number of bytes,
/// that leaves the address of the next instruction in `rd`.
#[verifier::when_used_as_spec(spec_jal)]
pub fn jal(rd: u8, value: u32) -> (word: u32)
    ensures
        word == spec_jal(rd, value),
{
    let shifted_rd: u32 = (rd as u32) << 7;
    let imm_10_1: u32 = (value & 0b000000000011111111110) << 20;
    let imm_11: u32 = (value & 0b000000000100000000000) << 9;
    let imm_19_12: u32 = (value & 0b011111111000000000000) << 0;
    let imm_20: u32 = (value & 0b100000000000000000000) << 11;

    assert({
        &&& (value & 0b000000000011111111110) << 20 == ((value >> 1) & 0b1111111111) << 21
        &&& (value & 0b000000000100000000000) << 9 == ((value >> 11) & 0b1) << 20
        &&& (value & 0b011111111000000000000) << 0 == ((value >> 12) & 0b11111111) << 12
        &&& (value & 0b100000000000000000000) << 11 == ((value >> 20) & 0b1) << 31
    }) by (bit_vector);
    imm_10_1 | imm_11 | imm_19_12 | imm_20 | shifted_rd | InstructionGroup::JAL.opcode()
}

/// The word of a jump and link through a register: the opcode, the
/// destination and base registers, and the low 12 bits of `value` in bits 31
/// to 20.
pub open spec fn spec_jalr(rd: u8, rs1: u8, value: u16) -> u32 {
    (((value as u32) & 0b111111111111) << 20) | ((rs1 as u32) << 15) | ((rd as u32) << 7)
        | InstructionGroup::JALR.opcode()
}

/// Builds the jump to the address in `rs1` plus `value`, a 12-bit two's
/// complement number of bytes, that leaves the address of the next
/// instruction in `rd`.
#[verifier::when_used_as_spec(spec_jalr)]
pub fn jalr(rd: u8, rs1: u8, value: u16) -> (word: u32)
    ensures
        word == spec_jalr(rd, rs1, value),
{
    let shifted_rd: u32 = (rd as u32) << 7;
    let shifted_rs1: u32 = (rs1 as u32) << 15;
    let imm_11_0: u32 = ((value as u32) & 0b111111111111) << 20;

    imm_11_0 | shifted_rs1 | shifted_rd | InstructionGroup::JALR.opcode()
}

} // verus!
