//! Arithmetic on 32-bit words.
//!
//! All of it is modular over 32 bits. An offset carries its sign and is
//! applied to an unsigned base by adding its magnitude or subtracting it.

use crate::instructions::math::MathType;
use crate::instructions::mathi::MathiType;
use vstd::prelude::*;

verus! {

/// `value` brought into 32 bits.
pub open spec fn wrapped(value: int) -> u32 {
    (value % 0x1_0000_0000) as u32
}

/// The number that `value` stands for in two's complement.
pub open spec fn signed(value: u32) -> int {
    if value >= 0x8000_0000 {
        value - 0x1_0000_0000
    } else {
        value as int
    }
}

/// `value` shifted right by `amount` bits as the two's complement number
/// that it stands for: its sign fills up from the left.
pub open spec fn spec_signed_shift_right(value: u32, amount: u32) -> u32 {
    ((value as i32) >> amount) as u32
}

/// The result of the register-immediate operation `kind` on the register
/// value `a` and `immediate`.
pub open spec fn spec_mathi_result(kind: MathiType, a: u32, immediate: i32) -> u32 {
    match kind {
        MathiType::ADDI => wrapped(a + immediate),
        MathiType::SLTI => if signed(a) < immediate {
            1
        } else {
            0
        },
        MathiType::SLTIU => if a < wrapped(immediate as int) {
            1
        } else {
            0
        },
        MathiType::XORI => a ^ wrapped(immediate as int),
        MathiType::ORI => a | wrapped(immediate as int),
        MathiType::ANDI => a & wrapped(immediate as int),
        MathiType::SLLI => a << (immediate as u32),
        MathiType::SRLI => a >> (immediate as u32),
        MathiType::SRAI => spec_signed_shift_right(a, immediate as u32),
    }
}

/// The result of the register-register operation `kind` on the register
/// values `a` and `b`. A shift goes by the low five bits of `b`.
pub open spec fn spec_math_result(kind: MathType, a: u32, b: u32) -> u32 {
    match kind {
        MathType::ADD => wrapped(a + b),
        MathType::SUB => wrapped(a - b),
        MathType::SLL => a << (b % 32),
        MathType::SLT => if signed(a) < signed(b) {
            1
        } else {
            0
        },
        MathType::SLTU => if a < b {
            1
        } else {
            0
        },
        MathType::XOR => a ^ b,
        MathType::SRL => a >> (b % 32),
        MathType::SRA => spec_signed_shift_right(a, b % 32),
        MathType::OR => a | b,
        MathType::AND => a & b,
    }
}

/// An arithmetic shift to the right in terms of the word itself: a word
/// without its top bit is shifted as it is, a word with it is shifted
/// inverted and inverted back, so that ones come in from the left.
pub proof fn lemma_signed_shift_right(value: u32, amount: u32)
    by (bit_vector)
    requires
        amount < 32,
    ensures
        value < 0x8000_0000u32 ==> spec_signed_shift_right(value, amount) == value >> amount,
        value >= 0x8000_0000u32 ==> spec_signed_shift_right(value, amount) == !((!value)
            >> amount),
{
}

proof fn lemma_signed_cast(value: u32)
    by (bit_vector)
    ensures
        value < 0x8000_0000u32 ==> (value as i32) as int == value as int,
        value >= 0x8000_0000u32 ==> (value as i32) as int == value as int - 0x1_0000_0000,
{
}

/// `base` moved by `offset`, around the ends of the 32-bit range: the
/// magnitude of a negative offset is subtracted.
pub fn offset_address(base: u32, offset: i32) -> (address: u32)
    ensures
        address == wrapped(base + offset),
{
    if offset >= 0 {
        base.wrapping_add(offset as u32)
    } else {
        let magnitude: u32 = (0 - offset as i64) as u32;
        base.wrapping_sub(magnitude)
    }
}

/// Whether `a` is less than `b`, both read in two's complement.
pub fn signed_less(a: u32, b: u32) -> (less: bool)
    ensures
        less == (signed(a) < signed(b)),
{
    proof {
        lemma_signed_cast(a);
        lemma_signed_cast(b);
    }
    (#[verifier::truncate] (a as i32)) < (#[verifier::truncate] (b as i32))
}

/// `value` shifted right by `amount` bits, its sign filling up from the
/// left.
#[verifier::when_used_as_spec(spec_signed_shift_right)]
pub fn signed_shift_right(value: u32, amount: u32) -> (shifted: u32)
    requires
        amount < 32,
    ensures
        shifted == spec_signed_shift_right(value, amount),
{
    let number: i32 = #[verifier::truncate] (value as i32);
    #[verifier::truncate] ((number >> amount) as u32)
}

/// The result of the register-immediate operation `kind` on `a` and
/// `immediate`.
#[verifier::when_used_as_spec(spec_mathi_result)]
pub fn mathi_result(kind: MathiType, a: u32, immediate: i32) -> (value: u32)
    requires
        kind.is_shift() ==> 0 <= immediate < 32,
    ensures
        value == spec_mathi_result(kind, a, immediate),
{
    let operand: u32 = offset_address(0, immediate);
    match kind {
        MathiType::ADDI => offset_address(a, immediate),
        MathiType::SLTI => {
            proof {
                lemma_signed_cast(a);
            }
            if (#[verifier::truncate] (a as i32)) < immediate {
                1
            } else {
                0
            }
        },
        MathiType::SLTIU => if a < operand {
            1
        } else {
            0
        },
        MathiType::XORI => a ^ operand,
        MathiType::ORI => a | operand,
        MathiType::ANDI => a & operand,
        MathiType::SLLI => a << (immediate as u32),
        MathiType::SRLI => a >> (immediate as u32),
        MathiType::SRAI => signed_shift_right(a, immediate as u32),
    }
}

/// The result of the register-register operation `kind` on `a` and `b`.
#[verifier::when_used_as_spec(spec_math_result)]
pub fn math_result(kind: MathType, a: u32, b: u32) -> (value: u32)
    ensures
        value == spec_math_result(kind, a, b),
{
    let amount: u32 = b % 32;
    match kind {
        MathType::ADD => a.wrapping_add(b),
        MathType::SUB => a.wrapping_sub(b),
        MathType::SLL => a << amount,
        MathType::SLT => if signed_less(a, b) {
            1
        } else {
            0
        },
        MathType::SLTU => if a < b {
            1
        } else {
            0
        },
        MathType::XOR => a ^ b,
        MathType::SRL => a >> amount,
        MathType::SRA => signed_shift_right(a, amount),
        MathType::OR => a | b,
        MathType::AND => a & b,
    }
}

} // verus!
