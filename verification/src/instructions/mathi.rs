//! The operations on a register and an immediate.

use crate::instructions::lemma_xor_zero;
use vstd::prelude::*;

verus! {

/// The instruction bits that tell one register-immediate operation from
/// another where the whole immediate is an operand: the opcode and funct3.
pub const MATHI_MASK: u32 = 0b111000001111111;

/// The instruction bits that tell one shift by an immediate from another:
/// the opcode, funct3, and the seven bits above the shift amount.
pub const MATHI_SHIFT_MASK: u32 = 0b11111110000000000111000001111111;

/// The operations on a register and an immediate.
#[derive(Clone, Copy, Debug, PartialEq, Eq, Structural)]
pub enum MathiType {
    /// Add.
    ADDI,
    /// Set if less than, signed.
    SLTI,
    /// Set if less than, unsigned.
    SLTIU,
    /// Exclusive or.
    XORI,
    /// Or.
    ORI,
    /// And.
    ANDI,
    /// Shift left.
    SLLI,
    /// Shift right, filling up with zeros.
    SRLI,
    /// Shift right, filling up with the sign.
    SRAI,
}

impl MathiType {
    /// Whether this kind is a shift, whose immediate is a shift amount of
    /// five bits.
    pub open spec fn spec_is_shift(self) -> bool {
        self == MathiType::SLLI || self == MathiType::SRLI || self == MathiType::SRAI
    }

    /// Whether this kind is a shift, whose immediate is a shift amount of
    /// five bits.
    #[verifier::when_used_as_spec(spec_is_shift)]
    pub fn is_shift(self) -> (shift: bool)
        ensures
            shift == self.spec_is_shift(),
    {
        match self {
            MathiType::SLLI | MathiType::SRLI | MathiType::SRAI => true,
            _ => false,
        }
    }

    /// The instruction bits that decide whether a word is of this kind.
    pub open spec fn spec_mask(self) -> u32 {
        if self.is_shift() {
            MATHI_SHIFT_MASK
        } else {
            MATHI_MASK
        }
    }

    /// The instruction bits that decide whether a word is of this kind.
    #[verifier::when_used_as_spec(spec_mask)]
    pub fn mask(self) -> (bits: u32)
        ensures
            bits == self.spec_mask(),
    {
        if self.is_shift() {
            MATHI_SHIFT_MASK
        } else {
            MATHI_MASK
        }
    }

    /// The bits of the immediate that are an operand of this kind: five for a
    /// shift, all twelve for the others.
    pub open spec fn spec_operand_mask(self) -> u32 {
        if self.is_shift() {
            0b000000011111
        } else {
            0b111111111111
        }
    }

    /// The bits of the immediate that are an operand of this kind: five for a
    /// shift, all twelve for the others.
    #[verifier::when_used_as_spec(spec_operand_mask)]
    pub fn operand_mask(self) -> (bits: u32)
        ensures
            bits == self.spec_operand_mask(),
    {
        if self.is_shift() {
            0b000000011111
        } else {
            0b111111111111
        }
    }

    /// The bits that mark this kind: the opcode and what further tells it
    /// from the others.
    pub open spec fn spec_pattern(self) -> u32 {
        match self {
            MathiType::ADDI => 0b00000000000000000000000000010011,
            MathiType::SLTI => 0b00000000000000000010000000010011,
            MathiType::SLTIU => 0b00000000000000000011000000010011,
            MathiType::XORI => 0b00000000000000000100000000010011,
            MathiType::ORI => 0b00000000000000000110000000010011,
            MathiType::ANDI => 0b00000000000000000111000000010011,
            MathiType::SLLI => 0b00000000000000000001000000010011,
            MathiType::SRLI => 0b00000000000000000101000000010011,
            MathiType::SRAI => 0b01000000000000000101000000010011,
        }
    }

    /// The bits that mark this kind: the opcode and what further tells it
    /// from the others.
    #[verifier::when_used_as_spec(spec_pattern)]
    pub fn pattern(self) -> (bits: u32)
        ensures
            bits == self.spec_pattern(),
    {
        match self {
            MathiType::ADDI => 0b00000000000000000000000000010011,
            MathiType::SLTI => 0b00000000000000000010000000010011,
            MathiType::SLTIU => 0b00000000000000000011000000010011,
            MathiType::XORI => 0b00000000000000000100000000010011,
            MathiType::ORI => 0b00000000000000000110000000010011,
            MathiType::ANDI => 0b00000000000000000111000000010011,
            MathiType::SLLI => 0b00000000000000000001000000010011,
            MathiType::SRLI => 0b00000000000000000101000000010011,
            MathiType::SRAI => 0b01000000000000000101000000010011,
        }
    }

    /// Whether `instruction` is of this kind.
    pub open spec fn matches(self, instruction: u32) -> bool {
        instruction & self.mask() == self.pattern()
    }

    /// The kind that `instruction` is of, the kinds tried in the order of
    /// their declaration.
    pub open spec fn spec_decode(instruction: u32) -> Option<MathiType> {
        if MathiType::ADDI.matches(instruction) {
            Some(MathiType::ADDI)
        } else if MathiType::SLTI.matches(instruction) {
            Some(MathiType::SLTI)
        } else if MathiType::SLTIU.matches(instruction) {
            Some(MathiType::SLTIU)
        } else if MathiType::XORI.matches(instruction) {
            Some(MathiType::XORI)
        } else if MathiType::ORI.matches(instruction) {
            Some(MathiType::ORI)
        } else if MathiType::ANDI.matches(instruction) {
            Some(MathiType::ANDI)
        } else if MathiType::SLLI.matches(instruction) {
            Some(MathiType::SLLI)
        } else if MathiType::SRLI.matches(instruction) {
            Some(MathiType::SRLI)
        } else if MathiType::SRAI.matches(instruction) {
            Some(MathiType::SRAI)
        } else {
            None
        }
    }

    /// Whether `instruction` is of the kind `mathi_type`.
    pub fn check(instruction: u32, mathi_type: MathiType) -> (same: bool)
        ensures
            same == mathi_type.matches(instruction),
    {
        let masked: u32 = instruction & mathi_type.mask();
        let pattern: u32 = mathi_type.pattern();
        proof {
            lemma_xor_zero(masked, pattern);
        }
        (masked ^ pattern) == 0
    }

    /// The kind that `instruction` is of, if it is of any.
    #[verifier::when_used_as_spec(spec_decode)]
    pub fn decode(instruction: u32) -> (kind: Option<MathiType>)
        ensures
            kind == MathiType::spec_decode(instruction),
    {
        if MathiType::check(instruction, MathiType::ADDI) {
            Some(MathiType::ADDI)
        } else if MathiType::check(instruction, MathiType::SLTI) {
            Some(MathiType::SLTI)
        } else if MathiType::check(instruction, MathiType::SLTIU) {
            Some(MathiType::SLTIU)
        } else if MathiType::check(instruction, MathiType::XORI) {
            Some(MathiType::XORI)
        } else if MathiType::check(instruction, MathiType::ORI) {
            Some(MathiType::ORI)
        } else if MathiType::check(instruction, MathiType::ANDI) {
            Some(MathiType::ANDI)
        } else if MathiType::check(instruction, MathiType::SLLI) {
            Some(MathiType::SLLI)
        } else if MathiType::check(instruction, MathiType::SRLI) {
            Some(MathiType::SRLI)
        } else if MathiType::check(instruction, MathiType::SRAI) {
            Some(MathiType::SRAI)
        } else {
            None
        }
    }

    /// Decoding finds a kind exactly when the instruction matches it: no
    /// instruction matches two kinds.
    pub proof fn lemma_decode_matches(instruction: u32, kind: MathiType)
        ensures
            MathiType::spec_decode(instruction) == Some(kind) <==> kind.matches(instruction),
    {
        assert({
            &&& (instruction & MATHI_SHIFT_MASK) & MATHI_MASK == instruction & MATHI_MASK
            &&& MathiType::SLLI.pattern() & MATHI_MASK == 0b001000000010011
            &&& MathiType::SRLI.pattern() & MATHI_MASK == 0b101000000010011
            &&& MathiType::SRAI.pattern() & MATHI_MASK == 0b101000000010011
        }) by (bit_vector);
    }
}

/// The word of a register-immediate operation: what marks `mathi_type`, the
/// destination and source registers, and in bits 31 to 20 the bits of
/// `value` that are an operand of that kind.
pub open spec fn spec_mathi(mathi_type: MathiType, rd: u8, rs1: u8, value: u16) -> u32 {
    mathi_type.pattern() | ((rd as u32) << 7) | ((rs1 as u32) << 15) | (((value as u32)
        & mathi_type.operand_mask()) << 20)
}

/// Builds the operation `mathi_type` on `rs1` and `value` with its result in
/// `rd`. `value` is a 12-bit two's complement number, or for a shift an
/// amount of five bits.
#[verifier::when_used_as_spec(spec_mathi)]
pub fn mathi(mathi_type: MathiType, rd: u8, rs1: u8, value: u16) -> (word: u32)
    ensures
        word == spec_mathi(mathi_type, rd, rs1, value),
{
    let shifted_rd: u32 = (rd as u32) << 7;
    let shifted_rs1: u32 = (rs1 as u32) << 15;
    let operand: u32 = ((value as u32) & mathi_type.operand_mask()) << 20;

    mathi_type.pattern() | shifted_rd | shifted_rs1 | operand
}

} // verus!
