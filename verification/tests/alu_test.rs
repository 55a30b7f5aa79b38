use rust_risc_v::alu::math_result;
use rust_risc_v::alu::mathi_result;
use rust_risc_v::alu::offset_address;
use rust_risc_v::alu::signed_less;
use rust_risc_v::instructions::math::MathType;
use rust_risc_v::instructions::mathi::MathiType;

#[test]
fn offsets_wrap_around() {
    assert_eq!(offset_address(0, 0), 0);
    assert_eq!(offset_address(100, 28), 128);
    assert_eq!(offset_address(100, -28), 72);
    assert_eq!(offset_address(0, -1), 0xFFFFFFFF);
    assert_eq!(offset_address(0xFFFFFFFF, 1), 0);
    assert_eq!(offset_address(0xFFFFFFFC, 8), 4);
    assert_eq!(offset_address(4, -8), 0xFFFFFFFC);
    assert_eq!(offset_address(0, i32::MIN), 0x80000000);
    assert_eq!(offset_address(0x80000000, i32::MIN), 0);
    assert_eq!(offset_address(0x80000000, i32::MAX), 0xFFFFFFFF);
    assert_eq!(offset_address(0, -127), 0xFFFFFF81);
}

#[test]
fn signed_comparison() {
    assert!(signed_less(0, 1));
    assert!(!signed_less(1, 0));
    assert!(!signed_less(5, 5));
    assert!(signed_less(0xFFFFFFFF, 0));
    assert!(!signed_less(0, 0xFFFFFFFF));
    assert!(signed_less(0x80000000, 0x7FFFFFFF));
    assert!(signed_less(0x80000000, 0x80000001));
    assert!(signed_less((-255i32) as u32, 1));
}

#[test]
fn operations_with_an_immediate() {
    assert_eq!(mathi_result(MathiType::ADDI, 5, 7), 12);
    assert_eq!(mathi_result(MathiType::ADDI, 5, -7), 0xFFFFFFFE);
    assert_eq!(mathi_result(MathiType::ADDI, 0xFFFFFFFF, 1), 0);
    assert_eq!(mathi_result(MathiType::ADDI, 0x7FFFFFFF, 2047), 0x800007FE);
    assert_eq!(mathi_result(MathiType::SLTI, 5, 7), 1);
    assert_eq!(mathi_result(MathiType::SLTI, 7, 5), 0);
    assert_eq!(mathi_result(MathiType::SLTI, 0xFFFFFFFF, 0), 1);
    assert_eq!(mathi_result(MathiType::SLTI, 0, -1), 0);
    assert_eq!(mathi_result(MathiType::SLTI, 0x80000000, -2048), 1);
    assert_eq!(mathi_result(MathiType::SLTIU, 5, 7), 1);
    assert_eq!(mathi_result(MathiType::SLTIU, 0xFFFFFFFF, 0), 0);
    // the immediate is given its sign first and then read without it
    assert_eq!(mathi_result(MathiType::SLTIU, 0, -1), 1);
    assert_eq!(mathi_result(MathiType::SLTIU, 0xFFFFFFFF, -1), 0);
    assert_eq!(mathi_result(MathiType::XORI, 0b1100, 0b1010), 0b0110);
    assert_eq!(mathi_result(MathiType::XORI, 0x12345678, -1), 0xEDCBA987);
    assert_eq!(mathi_result(MathiType::ORI, 0b1100, 0b1010), 0b1110);
    assert_eq!(mathi_result(MathiType::ORI, 0, -2048), 0xFFFFF800);
    assert_eq!(mathi_result(MathiType::ANDI, 0b1100, 0b1010), 0b1000);
    assert_eq!(mathi_result(MathiType::ANDI, 0x12345678, -16), 0x12345670);
    assert_eq!(mathi_result(MathiType::SLLI, 1, 31), 0x80000000);
    assert_eq!(mathi_result(MathiType::SLLI, 0xFFFFFFFF, 4), 0xFFFFFFF0);
    assert_eq!(mathi_result(MathiType::SLLI, 0x12345678, 0), 0x12345678);
    assert_eq!(mathi_result(MathiType::SRLI, 0x80000000, 31), 1);
    assert_eq!(mathi_result(MathiType::SRLI, 0xFFFFFFFF, 4), 0x0FFFFFFF);
    assert_eq!(mathi_result(MathiType::SRAI, 0x80000000, 31), 0xFFFFFFFF);
    assert_eq!(mathi_result(MathiType::SRAI, 0x80000000, 4), 0xF8000000);
    assert_eq!(mathi_result(MathiType::SRAI, 0x70000000, 4), 0x07000000);
    assert_eq!(mathi_result(MathiType::SRAI, 0xFFFFFFFF, 0), 0xFFFFFFFF);
}

#[test]
fn operations_on_two_registers() {
    assert_eq!(math_result(MathType::ADD, 5, 7), 12);
    assert_eq!(math_result(MathType::ADD, 0xFFFFFFFF, 2), 1);
    assert_eq!(math_result(MathType::SUB, 7, 5), 2);
    assert_eq!(math_result(MathType::SUB, 5, 7), 0xFFFFFFFE);
    assert_eq!(math_result(MathType::SUB, 0, 0x80000000), 0x80000000);
    assert_eq!(math_result(MathType::SLL, 1, 31), 0x80000000);
    // a shift goes by the low five bits
    assert_eq!(math_result(MathType::SLL, 1, 32), 1);
    assert_eq!(math_result(MathType::SLL, 1, 33), 2);
    assert_eq!(math_result(MathType::SLL, 3, 0xFFFFFFFF), 0x80000000);
    assert_eq!(math_result(MathType::SLT, 0xFFFFFFFF, 0), 1);
    assert_eq!(math_result(MathType::SLT, 0, 0xFFFFFFFF), 0);
    assert_eq!(math_result(MathType::SLT, 3, 3), 0);
    assert_eq!(math_result(MathType::SLTU, 0xFFFFFFFF, 0), 0);
    assert_eq!(math_result(MathType::SLTU, 0, 0xFFFFFFFF), 1);
    assert_eq!(math_result(MathType::XOR, 0b1100, 0b1010), 0b0110);
    assert_eq!(math_result(MathType::SRL, 0x80000000, 31), 1);
    assert_eq!(math_result(MathType::SRL, 0x80000000, 63), 1);
    assert_eq!(math_result(MathType::SRL, 0x80000000, 32), 0x80000000);
    assert_eq!(math_result(MathType::SRA, 0x80000000, 31), 0xFFFFFFFF);
    assert_eq!(math_result(MathType::SRA, 0x80000000, 36), 0xF8000000);
    assert_eq!(math_result(MathType::SRA, 0x40000000, 30), 1);
    assert_eq!(math_result(MathType::OR, 0b1100, 0b1010), 0b1110);
    assert_eq!(math_result(MathType::AND, 0b1100, 0b1010), 0b1000);
}
