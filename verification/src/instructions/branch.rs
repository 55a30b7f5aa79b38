//! The conditional branches.

use crate::instructions::lemma_xor_zero;
use vstd::prelude::*;

verus! {

/// The instruction bits that tell one branch from another: the opcode and
/// funct3.
pub const BRANCH_MASK: u32 = 0b111000001111111;

/// The conditional branches.
#[derive(Clone, Copy, Debug, PartialEq, Eq, Structural)]
pub enum BranchType {
    /// Branch if equal.
    BEQ,
    /// Branch if not equal.
    BNE,
    /// Branch if less than, signed.
    BLT,
    /// Branch if greater than or equal, signed.
    BGE,
    /// Branch if less than, unsigned.
    BLTU,
    /// Branch if greater than or equal, unsigned.
    BGEU,
}

impl BranchType {
    /// The opcode and funct3 bits of this branch.
    pub open spec fn spec_pattern(self) -> u32 {
        match self {
            BranchType::BEQ => 0b000000001100011,
            BranchType::BNE => 0b001000001100011,
            BranchType::BLT => 0b100000001100011,
            BranchType::BGE => 0b101000001100011,
            BranchType::BLTU => 0b110000001100011,
            BranchType::BGEU => 0b111000001100011,
        }
    }

    /// The opcode and funct3 bits of this branch.
    #[verifier::when_used_as_spec(spec_pattern)]
    pub fn pattern(self) -> (bits: u32)
        ensures
            bits == self.spec_pattern(),
    {
        match self {
            BranchType::BEQ => 0b000000001100011,
            BranchType::BNE => 0b001000001100011,
            BranchType::BLT => 0b100000001100011,
            BranchType::BGE => 0b101000001100011,
            BranchType::BLTU => 0b110000001100011,
            BranchType::BGEU => 0b111000001100011,
        }
    }

    /// Whether `instruction` is this branch.
    pub open spec fn matches(self, instruction: u32) -> bool {
        instruction & BRANCH_MASK == self.pattern()
    }

    /// The branch that `instruction` is, the kinds tried in the order of
    /// their declaration.
    pub open spec fn spec_decode(instruction: u32) -> Option<BranchType> {
        if BranchType::BEQ.matches(instruction) {
            Some(BranchType::BEQ)
        } else if BranchType::BNE.matches(instruction) {
            Some(BranchType::BNE)
        } else if BranchType::BLT.matches(instruction) {
            Some(BranchType::BLT)
        } else if BranchType::BGE.matches(instruction) {
            Some(BranchType::BGE)
        } else if BranchType::BLTU.matches(instruction) {
            Some(BranchType::BLTU)
        } else if BranchType::BGEU.matches(instruction) {
            Some(BranchType::BGEU)
        } else {
            None
        }
    }

    /// Whether `instruction` is the branch `branch_type`.
    pub fn check(instruction: u32, branch_type: BranchType) -> (same: bool)
        ensures
            same == branch_type.matches(instruction),
    {
        let masked: u32 = instruction & BRANCH_MASK;
        let pattern: u32 = branch_type.pattern();
        proof {
            lemma_xor_zero(masked, pattern);
        }
        (masked ^ pattern) == 0
    }

    /// The branch that `instruction` is, if it is one.
    #[verifier::when_used_as_spec(spec_decode)]
    pub fn decode(instruction: u32) -> (kind: Option<BranchType>)
        ensures
            kind == BranchType::spec_decode(instruction),
    {
        if BranchType::check(instruction, BranchType::BEQ) {
            Some(BranchType::BEQ)
        } else if BranchType::check(instruction, BranchType::BNE) {
            Some(BranchType::BNE)
        } else if BranchType::check(instruction, BranchType::BLT) {
            Some(BranchType::BLT)
        } else if BranchType::check(instruction, BranchType::BGE) {
            Some(BranchType::BGE)
        } else if BranchType::check(instruction, BranchType::BLTU) {
            Some(BranchType::BLTU)
        } else if BranchType::check(instruction, BranchType::BGEU) {
            Some(BranchType::BGEU)
        } else {
            None
        }
    }

    /// Decoding finds a kind exactly when the instruction matches it, and no
    /// instruction matches two kinds.
    pub proof fn lemma_decode_matches(instruction: u32, kind: BranchType)
        ensures
            BranchType::spec_decode(instruction) == Some(kind) <==> kind.matches(instruction),
    {
    }
}

/// The word of a branch: opcode and funct3 from `branch_type`, the two source
/// registers, and bits 12 to 1 of `offset`, of which bit 12 is bit 31 of the
/// word, bits 10 to 5 are bits 30 to 25, bits 4 to 1 are bits 11 to 8, and
/// bit 11 is bit 7.
pub open spec fn spec_branch(branch_type: BranchType, rs1: u8, rs2: u8, offset: u16) -> u32 {
    branch_type.pattern() | ((rs1 as u32) << 15) | ((rs2 as u32) << 20) | ((((offset >> 1)
        & 0b1111) as u32) << 8) | ((((offset >> 5) & 0b111111) as u32) << 25) | ((((offset >> 11)
        & 0b1) as u32) << 7) | ((((offset >> 12) & 0b1) as u32) << 31)
}

/// Builds a branch of kind `branch_type` that tests `rs1` against `rs2` and
/// jumps by `offset`, a 13-bit two's complement number of bytes.
#[verifier::when_used_as_spec(spec_branch)]
pub fn branch(branch_type: BranchType, rs1: u8, rs2: u8, offset: u16) -> (word: u32)
    ensures
        word == spec_branch(branch_type, rs1, rs2, offset),
{
    let shifted_rs1: u32 = (rs1 as u32) << 15;
    let shifted_rs2: u32 = (rs2 as u32) << 20;

    let imm_4_1: u32 = ((offset & 0b0000000011110) as u32) << 7;
    let imm_10_5: u32 = ((offset & 0b0011111100000) as u32) << 20;
    let imm_11: u32 = ((offset & 0b0100000000000) as u32) >> 4;
    let imm_12: u32 = ((offset & 0b1000000000000) as u32) << 19;

    assert({
        &&& ((offset & 0b0000000011110) as u32) << 7 == (((offset >> 1) & 0b1111) as u32) << 8
        &&& ((offset & 0b0011111100000) as u32) << 20 == (((offset >> 5) & 0b111111) as u32) << 25
        &&& ((offset & 0b0100000000000) as u32) >> 4 == (((offset >> 11) & 0b1) as u32) << 7
        &&& ((offset & 0b1000000000000) as u32) << 19 == (((offset >> 12) & 0b1) as u32) << 31
    }) by (bit_vector);
    branch_type.pattern() | shifted_rs1 | shifted_rs2 | imm_4_1 | imm_10_5 | imm_11 | imm_12
}

} // verus!
