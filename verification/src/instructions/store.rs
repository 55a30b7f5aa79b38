//! The stores to memory.

use crate::instructions::lemma_xor_zero;
use vstd::prelude::*;

verus! {

/// The instruction bits that tell one store from another: the opcode and
/// funct3.
pub const STORE_MASK: u32 = 0b111000001111111;

/// The stores to memory.
#[derive(Clone, Copy, Debug, PartialEq, Eq, Structural)]
pub enum StoreType {
    /// Store the low byte.
    SB,
    /// Store the low half-word.
    SH,
    /// Store the word.
    SW,
}

impl StoreType {
    /// The bits that mark this kind: the opcode and what further tells it
    /// from the others.
    pub open spec fn spec_pattern(self) -> u32 {
        match self {
            StoreType::SB => 0b000000000100011,
            StoreType::SH => 0b001000000100011,
            StoreType::SW => 0b010000000100011,
        }
    }

    /// The bits that mark this kind: the opcode and what further tells it
    /// from the others.
    #[verifier::when_used_as_spec(spec_pattern)]
    pub fn pattern(self) -> (bits: u32)
        ensures
            bits == self.spec_pattern(),
    {
        match self {
            StoreType::SB => 0b000000000100011,
            StoreType::SH => 0b001000000100011,
            StoreType::SW => 0b010000000100011,
        }
    }

    /// Whether `instruction` is of this kind.
    pub open spec fn matches(self, instruction: u32) -> bool {
        instruction & STORE_MASK == self.pattern()
    }

    /// The kind that `instruction` is of, the kinds tried in the order of
    /// their declaration.
    pub open spec fn spec_decode(instruction: u32) -> Option<StoreType> {
        if StoreType::SB.matches(instruction) {
            Some(StoreType::SB)
        } else if StoreType::SH.matches(instruction) {
            Some(StoreType::SH)
        } else if StoreType::SW.matches(instruction) {
            Some(StoreType::SW)
        } else {
            None
        }
    }

    /// Whether `instruction` is of the kind `store_type`.
    pub fn check(instruction: u32, store_type: StoreType) -> (same: bool)
        ensures
            same == store_type.matches(instruction),
    {
        let masked: u32 = instruction & STORE_MASK;
        let pattern: u32 = store_type.pattern();
        proof {
            lemma_xor_zero(masked, pattern);
        }
        (masked ^ pattern) == 0
    }

    /// The kind that `instruction` is of, if it is of any.
    #[verifier::when_used_as_spec(spec_decode)]
    pub fn decode(instruction: u32) -> (kind: Option<StoreType>)
        ensures
            kind == StoreType::spec_decode(instruction),
    {
        if StoreType::check(instruction, StoreType::SB) {
            Some(StoreType::SB)
        } else if StoreType::check(instruction, StoreType::SH) {
            Some(StoreType::SH)
        } else if StoreType::check(instruction, StoreType::SW) {
            Some(StoreType::SW)
        } else {
            None
        }
    }

    /// Decoding finds a kind exactly when the instruction matches it: no
    /// instruction matches two kinds.
    pub proof fn lemma_decode_matches(instruction: u32, kind: StoreType)
        ensures
            StoreType::spec_decode(instruction) == Some(kind) <==> kind.matches(instruction),
    {
    }
}

/// The word of a store: opcode and funct3 from `store_type`, the base and
/// source registers, and the low 12 bits of `value`, of which bits 11 to 5
/// are bits 31 to 25 of the word and bits 4 to 0 are bits 11 to 7.
pub open spec fn spec_store(store_type: StoreType, rs1: u8, rs2: u8, value: u16) -> u32 {
    store_type.pattern() | ((rs1 as u32) << 15) | ((rs2 as u32) << 20) | (((value as u32)
        & 0b11111) << 7) | ((((value as u32) >> 5) & 0b1111111) << 25)
}

/// Builds a store of kind `store_type` of `rs2` to the address in `rs1` plus
/// `value`, a 12-bit two's complement number of bytes.
#[verifier::when_used_as_spec(spec_store)]
pub fn store(store_type: StoreType, rs1: u8, rs2: u8, value: u16) -> (word: u32)
    ensures
        word == spec_store(store_type, rs1, rs2, value),
{
    let shifted_rs1: u32 = (rs1 as u32) << 15;
    let shifted_rs2: u32 = (rs2 as u32) << 20;
    let imm_4_0: u32 = ((value as u32) & 0b000000011111) << 7;
    let imm_11_5: u32 = ((value as u32) & 0b111111100000) << 20;

    assert(((value as u32) & 0b111111100000) << 20 == (((value as u32) >> 5) & 0b1111111) << 25)
        by (bit_vector);
    store_type.pattern() | shifted_rs1 | shifted_rs2 | imm_4_0 | imm_11_5
}

} // verus!
