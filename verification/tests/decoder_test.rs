use rust_risc_v::decoder::decode;
use rust_risc_v::decoder::extract_immediate_11_0;
use rust_risc_v::decoder::extract_immediate_11_5_4_0;
use rust_risc_v::decoder::extract_immediate_12_1;
use rust_risc_v::decoder::extract_immediate_20_1;
use rust_risc_v::decoder::extract_immediate_31_12;
use rust_risc_v::decoder::extract_rd_register;
use rust_risc_v::decoder::extract_rs1_register;
use rust_risc_v::decoder::extract_rs2_register;
use rust_risc_v::decoder::sign_extend;
use rust_risc_v::decoder::Instruction;
use rust_risc_v::instructions::auipc;
use rust_risc_v::instructions::branch::branch;
use rust_risc_v::instructions::branch::BranchType;
use rust_risc_v::instructions::jal;
use rust_risc_v::instructions::jalr;
use rust_risc_v::instructions::load::load;
use rust_risc_v::instructions::load::LoadType;
use rust_risc_v::instructions::lui;
use rust_risc_v::instructions::math::math;
use rust_risc_v::instructions::math::MathType;
use rust_risc_v::instructions::mathi::mathi;
use rust_risc_v::instructions::mathi::MathiType;
use rust_risc_v::instructions::store::store;
use rust_risc_v::instructions::store::StoreType;
use rust_risc_v::instructions::InstructionGroup;
use rust_risc_v::Fault;

const REGISTERS: [u8; 5] = [0, 1, 2, 16, 31];

#[test]
fn registers_are_taken_from_their_bits() {
    let word: u32 = 0b0000000_10101_01010_000_11011_0000000;
    assert_eq!(extract_rd_register(word), 0b11011);
    assert_eq!(extract_rs1_register(word), 0b01010);
    assert_eq!(extract_rs2_register(word), 0b10101);
    assert_eq!(extract_rd_register(0xFFFFFFFF), 31);
    assert_eq!(extract_rs1_register(0xFFFFFFFF), 31);
    assert_eq!(extract_rs2_register(0xFFFFFFFF), 31);
    assert_eq!(extract_rd_register(0), 0);
}

#[test]
fn immediates_are_taken_from_their_bits() {
    assert_eq!(extract_immediate_31_12(0xABCDE123), 0xABCDE000);
    assert_eq!(extract_immediate_11_0(0xABC00000), 0xABC);
    assert_eq!(extract_immediate_11_5_4_0(0xFE000F80), 0xFFF);
    assert_eq!(extract_immediate_11_5_4_0(0x02000080), 0x021);
    // bit 31 gives bit 12, bit 7 bit 11, bits 30 to 25 bits 10 to 5, bits 11 to 8 bits 4 to 1
    assert_eq!(extract_immediate_12_1(0x80000000), 0x1000);
    assert_eq!(extract_immediate_12_1(0x00000080), 0x0800);
    assert_eq!(extract_immediate_12_1(0x7E000000), 0x07E0);
    assert_eq!(extract_immediate_12_1(0x00000F00), 0x001E);
    // bit 31 gives bit 20, bits 19 to 12 stay, bit 20 gives bit 11, bits 30 to 21 bits 10 to 1
    assert_eq!(extract_immediate_20_1(0x80000000), 0x100000);
    assert_eq!(extract_immediate_20_1(0x000FF000), 0x0FF000);
    assert_eq!(extract_immediate_20_1(0x00100000), 0x000800);
    assert_eq!(extract_immediate_20_1(0x7FE00000), 0x0007FE);
    assert_eq!(extract_immediate_20_1(0xFFFFFFFF), 0x1FFFFE);
    assert_eq!(extract_immediate_12_1(0xFFFFFFFF), 0x1FFE);
}

#[test]
fn sign_extension() {
    assert_eq!(sign_extend(0, 0x800), 0);
    assert_eq!(sign_extend(0x7FF, 0x800), 2047);
    assert_eq!(sign_extend(0x800, 0x800), -2048);
    assert_eq!(sign_extend(0xFFF, 0x800), -1);
    assert_eq!(sign_extend(0b111111100000, 0x800), -32);
    assert_eq!(sign_extend(0b1111111100100, 0x1000), -28);
    assert_eq!(sign_extend(0x0FFE, 0x1000), 4094);
    assert_eq!(sign_extend(0x1000, 0x1000), -4096);
    assert_eq!(sign_extend(0b111111111111101100000, 0x100000), -160);
    assert_eq!(sign_extend(0b100000000000000000100, 0x100000), -1048572);
    assert_eq!(sign_extend(0x0FFFFE, 0x100000), 1048574);
    assert_eq!(sign_extend(0x81, 0x80), -127);
    assert_eq!(sign_extend(0x7F, 0x80), 127);
    assert_eq!(sign_extend(0xFFFF, 0x8000), -1);
    assert_eq!(sign_extend(0x8000, 0x8000), -32768);
}

#[test]
fn groups_are_told_by_the_opcode() {
    assert_eq!(InstructionGroup::decode(0xFFFFF0B7), Some(InstructionGroup::LUI));
    assert_eq!(InstructionGroup::decode(0x00001117), Some(InstructionGroup::AUIPC));
    assert_eq!(InstructionGroup::decode(0x080000EF), Some(InstructionGroup::JAL));
    assert_eq!(InstructionGroup::decode(0xFE010267), Some(InstructionGroup::JALR));
    assert_eq!(InstructionGroup::decode(0x00100863), Some(InstructionGroup::BRANCH));
    assert_eq!(InstructionGroup::decode(0x00108183), Some(InstructionGroup::LOAD));
    assert_eq!(InstructionGroup::decode(0x0020A423), Some(InstructionGroup::STORE));
    assert_eq!(InstructionGroup::decode(0x00500093), Some(InstructionGroup::MATHI));
    assert_eq!(InstructionGroup::decode(0x002081B3), Some(InstructionGroup::MATH));
    assert_eq!(InstructionGroup::decode(0x0FF0000F), Some(InstructionGroup::FENCE));
    assert_eq!(InstructionGroup::decode(0x00000073), Some(InstructionGroup::CSR));
    assert_eq!(InstructionGroup::decode(0x00000000), None);
    assert_eq!(InstructionGroup::decode(0xFFFFFFFF), None);
    assert!(InstructionGroup::check(0xFFFFF0B7, InstructionGroup::LUI));
    assert!(!InstructionGroup::check(0xFFFFF0B7, InstructionGroup::AUIPC));
    // all seven bits count: 0b0110111 is not 0b0010111 with a bit more
    assert!(!InstructionGroup::check(0x00000037, InstructionGroup::AUIPC));
    assert!(!InstructionGroup::check(0x00000017, InstructionGroup::LUI));
}

#[test]
fn kinds_are_told_by_mask_and_pattern() {
    assert!(BranchType::check(0x00100863, BranchType::BEQ));
    assert!(!BranchType::check(0x00100863, BranchType::BNE));
    assert_eq!(BranchType::decode(0xFE41F2E3), Some(BranchType::BGEU));
    assert_eq!(BranchType::decode(0x00002063), None);
    assert_eq!(BranchType::decode(0x00003063), None);
    // a load with the funct3 of a branch is no branch
    assert_eq!(BranchType::decode(0x00000003), None);
    assert!(LoadType::check(0x00108183, LoadType::LB));
    assert_eq!(LoadType::decode(0xFFFF5F83), Some(LoadType::LHU));
    assert_eq!(LoadType::decode(0x00003003), None);
    assert_eq!(LoadType::decode(0x00006003), None);
    assert_eq!(LoadType::decode(0x00007003), None);
    assert!(StoreType::check(0x0020A423, StoreType::SW));
    assert_eq!(StoreType::decode(0xFE628E23), Some(StoreType::SB));
    assert_eq!(StoreType::decode(0x00003023), None);
    assert!(MathiType::check(0x00500093, MathiType::ADDI));
    assert_eq!(MathiType::decode(0x40725193), Some(MathiType::SRAI));
    assert_eq!(MathiType::decode(0x00725193), Some(MathiType::SRLI));
    assert_eq!(MathiType::decode(0x00701193), Some(MathiType::SLLI));
    // a shift with other bits above its amount is no instruction
    assert_eq!(MathiType::decode(0x80725193), None);
    assert_eq!(MathiType::decode(0x20725193), None);
    assert_eq!(MathiType::decode(0x40701193), None);
    assert!(MathType::check(0x402081B3, MathType::SUB));
    assert!(!MathType::check(0x402081B3, MathType::ADD));
    assert_eq!(MathType::decode(0x409453B3), Some(MathType::SRA));
    assert_eq!(MathType::decode(0x022081B3), None);
    assert_eq!(MathType::decode(0x402091B3), None);
}

#[test]
fn upper_immediates_round_trip() {
    for rd in REGISTERS {
        for upper in [0u32, 0x1000, 0x053AC000, 0x80000000, 0xFFFFF000] {
            assert_eq!(decode(lui(rd, upper)), Ok(Instruction::Lui { rd, upper }));
            assert_eq!(decode(auipc(rd, upper)), Ok(Instruction::Auipc { rd, upper }));
        }
    }
}

#[test]
fn jumps_round_trip() {
    for rd in REGISTERS {
        for offset in [0i32, 2, 32, 128, -2, -160, 1048574, -1048576, -1048572] {
            let value = (offset as u32) & 0x1FFFFF;
            assert_eq!(decode(jal(rd, value)), Ok(Instruction::Jal { rd, offset }));
        }
        for rs1 in REGISTERS {
            for offset in [0i32, 1, 4, 2047, -1, -32, -2048] {
                let value = ((offset as u32) & 0xFFF) as u16;
                assert_eq!(decode(jalr(rd, rs1, value)), Ok(Instruction::Jalr { rd, rs1, offset }));
            }
        }
    }
}

#[test]
fn branches_round_trip() {
    let kinds = [
        BranchType::BEQ,
        BranchType::BNE,
        BranchType::BLT,
        BranchType::BGE,
        BranchType::BLTU,
        BranchType::BGEU,
    ];
    for branch_type in kinds {
        for rs1 in REGISTERS {
            for rs2 in REGISTERS {
                for offset in [0i32, 2, 8, 16, 4094, -2, -28, -4096] {
                    let value = ((offset as u32) & 0x1FFF) as u16;
                    assert_eq!(
                        decode(branch(branch_type, rs1, rs2, value)),
                        Ok(Instruction::Branch { branch_type, rs1, rs2, offset })
                    );
                }
            }
        }
    }
}

#[test]
fn loads_and_stores_round_trip() {
    let loads = [LoadType::LB, LoadType::LH, LoadType::LW, LoadType::LBU, LoadType::LHU];
    let stores = [StoreType::SB, StoreType::SH, StoreType::SW];
    for a in REGISTERS {
        for b in REGISTERS {
            for offset in [0i32, 1, 31, 32, 2047, -1, -33, -2048] {
                let value = ((offset as u32) & 0xFFF) as u16;
                for load_type in loads {
                    assert_eq!(
                        decode(load(load_type, a, b, value)),
                        Ok(Instruction::Load { load_type, rd: a, rs1: b, offset })
                    );
                }
                for store_type in stores {
                    assert_eq!(
                        decode(store(store_type, a, b, value)),
                        Ok(Instruction::Store { store_type, rs1: a, rs2: b, offset })
                    );
                }
            }
        }
    }
}

#[test]
fn operations_round_trip() {
    let with_immediate = [
        MathiType::ADDI,
        MathiType::SLTI,
        MathiType::SLTIU,
        MathiType::XORI,
        MathiType::ORI,
        MathiType::ANDI,
    ];
    let shifts = [MathiType::SLLI, MathiType::SRLI, MathiType::SRAI];
    let on_registers = [
        MathType::ADD,
        MathType::SUB,
        MathType::SLL,
        MathType::SLT,
        MathType::SLTU,
        MathType::XOR,
        MathType::SRL,
        MathType::SRA,
        MathType::OR,
        MathType::AND,
    ];
    for rd in REGISTERS {
        for rs1 in REGISTERS {
            for mathi_type in with_immediate {
                for immediate in [0i32, 1, 1024, 2047, -1, -1024, -2048] {
                    let value = ((immediate as u32) & 0xFFF) as u16;
                    assert_eq!(
                        decode(mathi(mathi_type, rd, rs1, value)),
                        Ok(Instruction::Mathi { mathi_type, rd, rs1, immediate })
                    );
                }
            }
            for mathi_type in shifts {
                for amount in [0u16, 1, 16, 31] {
                    assert_eq!(
                        decode(mathi(mathi_type, rd, rs1, amount)),
                        Ok(Instruction::Mathi { mathi_type, rd, rs1, immediate: amount as i32 })
                    );
                }
            }
            for math_type in on_registers {
                for rs2 in REGISTERS {
                    assert_eq!(
                        decode(math(math_type, rd, rs1, rs2)),
                        Ok(Instruction::Math { math_type, rd, rs1, rs2 })
                    );
                }
            }
        }
    }
}

#[test]
fn decoded_instruction_knows_its_group() {
    assert_eq!(decode(lui(1, 0)).map(|i| i.group()), Ok(InstructionGroup::LUI));
    assert_eq!(decode(auipc(1, 0)).map(|i| i.group()), Ok(InstructionGroup::AUIPC));
    assert_eq!(decode(jal(1, 0)).map(|i| i.group()), Ok(InstructionGroup::JAL));
    assert_eq!(decode(jalr(1, 1, 0)).map(|i| i.group()), Ok(InstructionGroup::JALR));
    assert_eq!(
        decode(branch(BranchType::BNE, 1, 1, 0)).map(|i| i.group()),
        Ok(InstructionGroup::BRANCH)
    );
    assert_eq!(decode(load(LoadType::LW, 1, 1, 0)).map(|i| i.group()), Ok(InstructionGroup::LOAD));
    assert_eq!(
        decode(store(StoreType::SW, 1, 1, 0)).map(|i| i.group()),
        Ok(InstructionGroup::STORE)
    );
    assert_eq!(
        decode(mathi(MathiType::ORI, 1, 1, 0)).map(|i| i.group()),
        Ok(InstructionGroup::MATHI)
    );
    assert_eq!(decode(math(MathType::OR, 1, 1, 1)).map(|i| i.group()), Ok(InstructionGroup::MATH));
}

#[test]
fn words_that_encode_nothing_are_illegal() {
    // no group has this opcode
    assert_eq!(decode(0x00000000), Err(Fault::IllegalInstruction));
    assert_eq!(decode(0xFFFFFFFF), Err(Fault::IllegalInstruction));
    assert_eq!(decode(0x0000007F), Err(Fault::IllegalInstruction));
    // fences and system instructions are not carried out
    assert_eq!(decode(0x0FF0000F), Err(Fault::IllegalInstruction));
    assert_eq!(decode(0x0000100F), Err(Fault::IllegalInstruction));
    assert_eq!(decode(0x00000073), Err(Fault::IllegalInstruction));
    assert_eq!(decode(0x00100073), Err(Fault::IllegalInstruction));
    assert_eq!(decode(0x30200073), Err(Fault::IllegalInstruction));
    // the group is known, the kind is not
    assert_eq!(decode(0x00002063), Err(Fault::IllegalInstruction));
    assert_eq!(decode(0x00003003), Err(Fault::IllegalInstruction));
    assert_eq!(decode(0x00003023), Err(Fault::IllegalInstruction));
    assert_eq!(decode(0x80725193), Err(Fault::IllegalInstruction));
    assert_eq!(decode(0x022081B3), Err(Fault::IllegalInstruction));
}
