//! The operations on two registers.

use crate::instructions::lemma_xor_zero;
use vstd::prelude::*;

verus! {

/// The instruction bits that tell one register-register operation from
/// another: the opcode, funct3 and funct7.
pub const MATH_MASK: u32 = 0b11111110000000000111000001111111;

/// The operations on two registers.
#[derive(Clone, Copy, Debug, PartialEq, Eq, Structural)]
pub enum MathType {
    /// Add.
    ADD,
    /// Subtract.
    SUB,
    /// Shift left.
    SLL,
    /// Set if less than, signed.
    SLT,
    /// Set if less than, unsigned.
    SLTU,
    /// Exclusive or.
    XOR,
    /// Shift right, filling up with zeros.
    SRL,
    /// Shift right, filling up with the sign.
    SRA,
    /// Or.
    OR,
    /// And.
    AND,
}

impl MathType {
    /// The bits that mark this kind: the opcode and what further tells it
    /// from the others.
    pub open spec fn spec_pattern(self) -> u32 {
        match self {
            MathType::ADD => 0b00000000000000000000000000110011,
            MathType::SUB => 0b01000000000000000000000000110011,
            MathType::SLL => 0b00000000000000000001000000110011,
            MathType::SLT => 0b00000000000000000010000000110011,
            MathType::SLTU => 0b00000000000000000011000000110011,
            MathType::XOR => 0b00000000000000000100000000110011,
            MathType::SRL => 0b00000000000000000101000000110011,
            MathType::SRA => 0b01000000000000000101000000110011,
            MathType::OR => 0b00000000000000000110000000110011,
            MathType::AND => 0b00000000000000000111000000110011,
        }
    }

    /// The bits that mark this kind: the opcode and what further tells it
    /// from the others.
    #[verifier::when_used_as_spec(spec_pattern)]
    pub fn pattern(self) -> (bits: u32)
        ensures
            bits == self.spec_pattern(),
    {
        match self {
            MathType::ADD => 0b00000000000000000000000000110011,
            MathType::SUB => 0b01000000000000000000000000110011,
            MathType::SLL => 0b00000000000000000001000000110011,
            MathType::SLT => 0b00000000000000000010000000110011,
            MathType::SLTU => 0b00000000000000000011000000110011,
            MathType::XOR => 0b00000000000000000100000000110011,
            MathType::SRL => 0b00000000000000000101000000110011,
            MathType::SRA => 0b01000000000000000101000000110011,
            MathType::OR => 0b00000000000000000110000000110011,
            MathType::AND => 0b00000000000000000111000000110011,
        }
    }

    /// Whether `instruction` is of this kind.
    pub open spec fn matches(self, instruction: u32) -> bool {
        instruction & MATH_MASK == self.pattern()
    }

    /// The kind that `instruction` is of, the kinds tried in the order of
    /// their declaration.
    pub open spec fn spec_decode(instruction: u32) -> Option<MathType> {
        if MathType::ADD.matches(instruction) {
            Some(MathType::ADD)
        } else if MathType::SUB.matches(instruction) {
            Some(MathType::SUB)
        } else if MathType::SLL.matches(instruction) {
            Some(MathType::SLL)
        } else if MathType::SLT.matches(instruction) {
            Some(MathType::SLT)
        } else if MathType::SLTU.matches(instruction) {
            Some(MathType::SLTU)
        } else if MathType::XOR.matches(instruction) {
            Some(MathType::XOR)
        } else if MathType::SRL.matches(instruction) {
            Some(MathType::SRL)
        } else if MathType::SRA.matches(instruction) {
            Some(MathType::SRA)
        } else if MathType::OR.matches(instruction) {
            Some(MathType::OR)
        } else if MathType::AND.matches(instruction) {
            Some(MathType::AND)
        } else {
            None
        }
    }

    /// Whether `instruction` is of the kind `math_type`.
    pub fn check(instruction: u32, math_type: MathType) -> (same: bool)
        ensures
            same == math_type.matches(instruction),
    {
        let masked: u32 = instruction & MATH_MASK;
        let pattern: u32 = math_type.pattern();
        proof {
            lemma_xor_zero(masked, pattern);
        }
        (masked ^ pattern) == 0
    }

    /// The kind that `instruction` is of, if it is of any.
    #[verifier::when_used_as_spec(spec_decode)]
    pub fn decode(instruction: u32) -> (kind: Option<MathType>)
        ensures
            kind == MathType::spec_decode(instruction),
    {
        if MathType::check(instruction, MathType::ADD) {
            Some(MathType::ADD)
        } else if MathType::check(instruction, MathType::SUB) {
            Some(MathType::SUB)
        } else if MathType::check(instruction, MathType::SLL) {
            Some(MathType::SLL)
        } else if MathType::check(instruction, MathType::SLT) {
            Some(MathType::SLT)
        } else if MathType::check(instruction, MathType::SLTU) {
            Some(MathType::SLTU)
        } else if MathType::check(instruction, MathType::XOR) {
            Some(MathType::XOR)
        } else if MathType::check(instruction, MathType::SRL) {
            Some(MathType::SRL)
        } else if MathType::check(instruction, MathType::SRA) {
            Some(MathType::SRA)
        } else if MathType::check(instruction, MathType::OR) {
            Some(MathType::OR)
        } else if MathType::check(instruction, MathType::AND) {
            Some(MathType::AND)
        } else {
            None
        }
    }

    /// Decoding finds a kind exactly when the instruction matches it: no
    /// instruction matches two kinds.
    pub proof fn lemma_decode_matches(instruction: u32, kind: MathType)
        ensures
            MathType::spec_decode(instruction) == Some(kind) <==> kind.matches(instruction),
    {
    }
}

/// The word of a register-register operation: opcode, funct3 and funct7 from
/// `math_type`, and the destination and the two source registers.
pub open spec fn spec_math(math_type: MathType, rd: u8, rs1: u8, rs2: u8) -> u32 {
    math_type.pattern() | ((rd as u32) << 7) | ((rs1 as u32) << 15) | ((rs2 as u32) << 20)
}

/// Builds the operation `math_type` on `rs1` and `rs2` with its result in
/// `rd`.
#[verifier::when_used_as_spec(spec_math)]
pub fn math(math_type: MathType, rd: u8, rs1: u8, rs2: u8) -> (word: u32)
    ensures
        word == spec_math(math_type, rd, rs1, rs2),
{
    let shifted_rd: u32 = (rd as u32) << 7;
    let shifted_rs1: u32 = (rs1 as u32) << 15;
    let shifted_rs2: u32 = (rs2 as u32) << 20;

    math_type.pattern() | shifted_rd | shifted_rs1 | shifted_rs2
}

} // verus!
