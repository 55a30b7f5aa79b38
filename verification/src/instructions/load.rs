//! The loads from memory.

use crate::instructions::lemma_xor_zero;
use vstd::prelude::*;

verus! {

/// The instruction bits that tell one load from another: the opcode and
/// funct3.
pub const LOAD_MASK: u32 = 0b111000001111111;

/// The loads from memory.
#[derive(Clone, Copy, Debug, PartialEq, Eq, Structural)]
pub enum LoadType {
    /// Load a byte and extend its sign.
    LB,
    /// Load a half-word and extend its sign.
    LH,
    /// Load a word.
    LW,
    /// Load a byte and fill up with zeros.
    LBU,
    /// Load a half-word and fill up with zeros.
    LHU,
}

impl LoadType {
    /// The bits that mark this kind: the opcode and what further tells it
    /// from the others.
    pub open spec fn spec_pattern(self) -> u32 {
        match self {
            LoadType::LB => 0b000000000000011,
            LoadType::LH => 0b001000000000011,
            LoadType::LW => 0b010000000000011,
            LoadType::LBU => 0b100000000000011,
            LoadType::LHU => 0b101000000000011,
        }
    }

    /// The bits that mark this kind: the opcode and what further tells it
    /// from the others.
    #[verifier::when_used_as_spec(spec_pattern)]
    pub fn pattern(self) -> (bits: u32)
        ensures
            bits == self.spec_pattern(),
    {
        match self {
            LoadType::LB => 0b000000000000011,
            LoadType::LH => 0b001000000000011,
            LoadType::LW => 0b010000000000011,
            LoadType::LBU => 0b100000000000011,
            LoadType::LHU => 0b101000000000011,
        }
    }

    /// Whether `instruction` is of this kind.
    pub open spec fn matches(self, instruction: u32) -> bool {
        instruction & LOAD_MASK == self.pattern()
    }

    /// The kind that `instruction` is of, the kinds tried in the order of
    /// their declaration.
    pub open spec fn spec_decode(instruction: u32) -> Option<LoadType> {
        if LoadType::LB.matches(instruction) {
            Some(LoadType::LB)
        } else if LoadType::LH.matches(instruction) {
            Some(LoadType::LH)
        } else if LoadType::LW.matches(instruction) {
            Some(LoadType::LW)
        } else if LoadType::LBU.matches(instruction) {
            Some(LoadType::LBU)
        } else if LoadType::LHU.matches(instruction) {
            Some(LoadType::LHU)
        } else {
            None
        }
    }

    /// Whether `instruction` is of the kind `load_type`.
    pub fn check(instruction: u32, load_type: LoadType) -> (same: bool)
        ensures
            same == load_type.matches(instruction),
    {
        let masked: u32 = instruction & LOAD_MASK;
        let pattern: u32 = load_type.pattern();
        proof {
            lemma_xor_zero(masked, pattern);
        }
        (masked ^ pattern) == 0
    }

    /// The kind that `instruction` is of, if it is of any.
    #[verifier::when_used_as_spec(spec_decode)]
    pub fn decode(instruction: u32) -> (kind: Option<LoadType>)
        ensures
            kind == LoadType::spec_decode(instruction),
    {
        if LoadType::check(instruction, LoadType::LB) {
            Some(LoadType::LB)
        } else if LoadType::check(instruction, LoadType::LH) {
            Some(LoadType::LH)
        } else if LoadType::check(instruction, LoadType::LW) {
            Some(LoadType::LW)
        } else if LoadType::check(instruction, LoadType::LBU) {
            Some(LoadType::LBU)
        } else if LoadType::check(instruction, LoadType::LHU) {
            Some(LoadType::LHU)
        } else {
            None
        }
    }

    /// Decoding finds a kind exactly when the instruction matches it: no
    /// instruction matches two kinds.
    pub proof fn lemma_decode_matches(instruction: u32, kind: LoadType)
        ensures
            LoadType::spec_decode(instruction) == Some(kind) <==> kind.matches(instruction),
    {
    }
}

/// The word of a load: opcode and funct3 from `load_type`, the destination
/// and base registers, and the low 12 bits of `value` in bits 31 to 20.
pub open spec fn spec_load(load_type: LoadType, rd: u8, rs1: u8, value: u16) -> u32 {
    load_type.pattern() | ((rd as u32) << 7) | ((rs1 as u32) << 15) | (((value as u32)
        & 0b111111111111) << 20)
}

/// Builds a load of kind `load_type` into `rd` from the address in `rs1`
/// plus `value`, a 12-bit two's complement number of bytes.
#[verifier::when_used_as_spec(spec_load)]
pub fn load(load_type: LoadType, rd: u8, rs1: u8, value: u16) -> (word: u32)
    ensures
        word == spec_load(load_type, rd, rs1, value),
{
    let shifted_rd: u32 = (rd as u32) << 7;
    let shifted_rs1: u32 = (rs1 as u32) << 15;
    let imm_11_0: u32 = ((value as u32) & 0b111111111111) << 20;

    load_type.pattern() | shifted_rd | shifted_rs1 | imm_11_0
}

} // verus!
