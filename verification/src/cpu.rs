//! The machine: registers, program counter and memory, and the cycle of
//! fetch, decode and execute that drives them.

use crate::alu::math_result;
use crate::alu::mathi_result;
use crate::alu::offset_address;
use crate::alu::signed_less;
use crate::decoder::decode;
use crate::decoder::sign_extend;
use crate::decoder::Instruction;
use crate::fault::Fault;
use crate::instructions::branch::BranchType;
use crate::instructions::load::LoadType;
use crate::instructions::math::MathType;
use crate::instructions::mathi::MathiType;
use crate::instructions::store::StoreType;
use crate::memory::RAM;
use crate::registers::cleared;
use crate::registers::zero_wired;
use crate::registers::Registers;
use crate::semantics::executed;
use crate::semantics::outcome_of;
use crate::semantics::stepped;
use crate::semantics::AuipcMode;
use crate::semantics::CpuState;
use vstd::prelude::*;

verus! {

/// A machine with one hart.
pub struct CPU {
    registers: Registers,
    pc: u32,
    ram: RAM,
    fault: Option<Fault>,
    auipc_mode: AuipcMode,
}

impl View for CPU {
    type V = CpuState;

    closed spec fn view(&self) -> CpuState {
        CpuState {
            registers: self.registers@,
            pc: self.pc,
            memory: self.ram@,
            fault: self.fault,
            auipc_mode: self.auipc_mode,
        }
    }
}

impl CPU {
    /// A running machine with a memory of `ram_size` words, everything in it
    /// zero, whose add upper immediate is `AuipcMode::Advancing`.
    pub fn new(ram_size: u32) -> (cpu: Self)
        requires
            4 * ram_size <= usize::MAX,
        ensures
            cpu@ == (CpuState {
                registers: cleared(),
                pc: 0,
                memory: Seq::new((4 * ram_size) as nat, |i: int| 0u8),
                fault: None,
                auipc_mode: AuipcMode::Advancing,
            }),
    {
        CPU::with_auipc_mode(ram_size, AuipcMode::Advancing)
    }

    /// A running machine with a memory of `ram_size` words, everything in it
    /// zero, whose add upper immediate is `auipc_mode`.
    pub fn with_auipc_mode(ram_size: u32, auipc_mode: AuipcMode) -> (cpu: Self)
        requires
            4 * ram_size <= usize::MAX,
        ensures
            cpu@ == (CpuState {
                registers: cleared(),
                pc: 0,
                memory: Seq::new((4 * ram_size) as nat, |i: int| 0u8),
                fault: None,
                auipc_mode,
            }),
    {
        CPU { registers: Registers::new(), pc: 0, ram: RAM::new(ram_size), fault: None, auipc_mode }
    }

    /// One cycle: fetches the word at the program counter, decodes it and
    /// carries it out. Reports the fault that the machine is halted on: one
    /// that this cycle met, or the one that it was halted on before.
    pub fn tick(&mut self) -> (outcome: Result<(), Fault>)
        ensures
            final(self)@ == stepped(old(self)@),
            outcome == outcome_of(final(self)@),
            zero_wired(old(self)@.registers),
            zero_wired(final(self)@.registers),
    {
        proof {
            use_type_invariant(&self.registers);
        }
        if let Some(fault) = self.fault {
            return Err(fault);
        }
        // fetch instruction
        let instruction: u32 = match self.ram.read_word(self.pc) {
            Ok(word) => word,
            Err(fault) => {
                return self.halt(fault);
            },
        };
        // decode it, then dispatch on its group
        match decode(instruction) {
            Ok(decoded) => self.execute(decoded),
            Err(fault) => self.halt(fault),
        }
    }

    /// Carries out `instruction` on a running machine; a halted machine
    /// stays as it is. Reports the fault that the machine is halted on.
    pub fn execute(&mut self, instruction: Instruction) -> (outcome: Result<(), Fault>)
        requires
            instruction.well_formed(),
        ensures
            final(self)@ == executed(old(self)@, instruction),
            outcome == outcome_of(final(self)@),
    {
        if let Some(fault) = self.fault {
            return Err(fault);
        }
        match instruction {
            Instruction::Lui { rd, upper } => {
                self.lui(rd, upper);
                Ok(())
            },
            Instruction::Auipc { rd, upper } => {
                self.auipc(rd, upper);
                Ok(())
            },
            Instruction::Jal { rd, offset } => {
                self.jal(rd, offset);
                Ok(())
            },
            Instruction::Jalr { rd, rs1, offset } => {
                self.jalr(rd, rs1, offset);
                Ok(())
            },
            Instruction::Branch { branch_type, rs1, rs2, offset } => {
                self.branch(branch_type, rs1, rs2, offset);
                Ok(())
            },
            Instruction::Load { load_type, rd, rs1, offset } => self.load(
                load_type,
                rd,
                rs1,
                offset,
            ),
            Instruction::Store { store_type, rs1, rs2, offset } => self.store(
                store_type,
                rs1,
                rs2,
                offset,
            ),
            Instruction::Mathi { mathi_type, rd, rs1, immediate } => {
                self.mathi(mathi_type, rd, rs1, immediate);
                Ok(())
            },
            Instruction::Math { math_type, rd, rs1, rs2 } => {
                self.math(math_type, rd, rs1, rs2);
                Ok(())
            },
        }
    }

    /// The register file.
    pub fn registers(&mut self) -> (registers: &mut Registers)
        ensures
            registers@ == old(self)@.registers,
            final(self)@ == (CpuState { registers: final(registers)@, ..old(self)@ }),
    {
        &mut self.registers
    }

    /// The program counter.
    pub fn pc(&mut self) -> (pc: &mut u32)
        ensures
            *pc == old(self)@.pc,
            final(self)@ == (CpuState { pc: *final(pc), ..old(self)@ }),
    {
        &mut self.pc
    }

    /// The memory.
    pub fn ram(&mut self) -> (ram: &mut RAM)
        ensures
            ram@ == old(self)@.memory,
            final(self)@ == (CpuState { memory: final(ram)@, ..old(self)@ }),
    {
        &mut self.ram
    }

    /// The fault that the machine is halted on, or `None` while it runs.
    pub fn fault(&self) -> (fault: Option<Fault>)
        ensures
            fault == self@.fault,
    {
        self.fault
    }

    /// The way the machine carries out an add upper immediate.
    pub fn auipc_mode(&self) -> (auipc_mode: AuipcMode)
        ensures
            auipc_mode == self@.auipc_mode,
    {
        self.auipc_mode
    }

    /// Brings a machine back to running: clears the fault and the registers
    /// and puts the program counter at 0. The memory stays.
    pub fn reset(&mut self)
        ensures
            final(self)@ == (CpuState {
                registers: cleared(),
                pc: 0,
                fault: None,
                ..old(self)@
            }),
    {
        self.registers = Registers::new();
        self.pc = 0;
        self.fault = None;
    }

    /// Halts the machine on `fault` and reports it.
    fn halt(&mut self, fault: Fault) -> (outcome: Result<(), Fault>)
        ensures
            final(self)@ == (CpuState { fault: Some(fault), ..old(self)@ }),
            outcome == Err::<(), Fault>(fault),
    {
        self.fault = Some(fault);
        Err(fault)
    }

    /// Load upper immediate.
    fn lui(&mut self, rd: u8, upper: u32)
        requires
            rd < 32,
            old(self)@.fault is None,
        ensures
            final(self)@ == executed(old(self)@, Instruction::Lui { rd, upper }),
    {
        // store upper value in destination register
        self.registers.write(rd, upper);
        // increment program counter
        self.pc = self.pc.wrapping_add(4);
    }

    /// Add upper immediate to the program counter, in the machine's mode.
    fn auipc(&mut self, rd: u8, upper: u32)
        requires
            rd < 32,
            old(self)@.fault is None,
        ensures
            final(self)@ == executed(old(self)@, Instruction::Auipc { rd, upper }),
    {
        match self.auipc_mode {
            AuipcMode::Canonical => {
                // write program counter plus upper to target register
                self.registers.write(rd, self.pc.wrapping_add(upper));
                self.pc = self.pc.wrapping_add(4);
            },
            AuipcMode::Advancing => {
                // add upper value to program counter
                if upper == 0 {
                    self.pc = self.pc.wrapping_add(4);
                } else {
                    self.pc = self.pc.wrapping_add(upper);
                }
                // write program counter to target register
                self.registers.write(rd, self.pc);
            },
        }
    }

    /// Jump and link: the link is written before the program counter moves.
    fn jal(&mut self, rd: u8, offset: i32)
        requires
            rd < 32,
            old(self)@.fault is None,
        ensures
            final(self)@ == executed(old(self)@, Instruction::Jal { rd, offset }),
    {
        self.registers.write(rd, self.pc.wrapping_add(4));
        self.pc = offset_address(self.pc, offset);
    }

    /// Jump and link through a register: the target is taken from `rs1`
    /// before the link is written, so that `rd` may be `rs1`.
    fn jalr(&mut self, rd: u8, rs1: u8, offset: i32)
        requires
            rd < 32,
            rs1 < 32,
            old(self)@.fault is None,
        ensures
            final(self)@ == executed(old(self)@, Instruction::Jalr { rd, rs1, offset }),
    {
        let mut total_address: u32 = offset_address(self.registers.read(rs1), offset);

        self.registers.write(rd, self.pc.wrapping_add(4));

        total_address = total_address & 0xFFFFFFFE;

        self.pc = total_address;
    }

    /// Conditional branch.
    fn branch(&mut self, branch_type: BranchType, rs1: u8, rs2: u8, offset: i32)
        requires
            rs1 < 32,
            rs2 < 32,
            old(self)@.fault is None,
        ensures
            final(self)@ == executed(
                old(self)@,
                Instruction::Branch { branch_type, rs1, rs2, offset },
            ),
    {
        let rs1: u32 = self.registers.read(rs1);
        let rs2: u32 = self.registers.read(rs2);

        let branch: bool = match branch_type {
            BranchType::BEQ => rs1 == rs2,
            BranchType::BNE => rs1 != rs2,
            BranchType::BLT => signed_less(rs1, rs2),
            BranchType::BGE => !signed_less(rs1, rs2),
            BranchType::BLTU => rs1 < rs2,
            BranchType::BGEU => rs1 >= rs2,
        };

        if branch {
            self.pc = offset_address(self.pc, offset);
        } else {
            self.pc = self.pc.wrapping_add(4);
        }
    }

    /// Load from memory; an address outside the memory halts the machine.
    fn load(
        &mut self,
        load_type: LoadType,
        rd: u8,
        rs1: u8,
        offset: i32,
    ) -> (outcome: Result<(), Fault>)
        requires
            rd < 32,
            rs1 < 32,
            old(self)@.fault is None,
        ensures
            final(self)@ == executed(old(self)@, Instruction::Load { load_type, rd, rs1, offset }),
            outcome == outcome_of(final(self)@),
    {
        let total_address: u32 = offset_address(self.registers.read(rs1), offset);

        let loaded: Result<u32, Fault> = match load_type {
            LoadType::LB => match self.ram.read_byte(total_address) {
                Ok(byte) => Ok(offset_address(0, sign_extend(byte as u32, 0x80))),
                Err(fault) => Err(fault),
            },
            LoadType::LH => match self.ram.read_half(total_address) {
                Ok(half) => Ok(offset_address(0, sign_extend(half as u32, 0x8000))),
                Err(fault) => Err(fault),
            },
            LoadType::LW => self.ram.read_word(total_address),
            LoadType::LBU => match self.ram.read_byte(total_address) {
                Ok(byte) => Ok(byte as u32),
                Err(fault) => Err(fault),
            },
            LoadType::LHU => match self.ram.read_half(total_address) {
                Ok(half) => Ok(half as u32),
                Err(fault) => Err(fault),
            },
        };

        match loaded {
            Ok(value) => {
                self.registers.write(rd, value);
                self.pc = self.pc.wrapping_add(4);
                Ok(())
            },
            Err(fault) => self.halt(fault),
        }
    }

    /// Store to memory; an address outside the memory halts the machine.
    fn store(
        &mut self,
        store_type: StoreType,
        rs1: u8,
        rs2: u8,
        offset: i32,
    ) -> (outcome: Result<(), Fault>)
        requires
            rs1 < 32,
            rs2 < 32,
            old(self)@.fault is None,
        ensures
            final(self)@ == executed(
                old(self)@,
                Instruction::Store { store_type, rs1, rs2, offset },
            ),
            outcome == outcome_of(final(self)@),
    {
        let total_address: u32 = offset_address(self.registers.read(rs1), offset);
        let value: u32 = self.registers.read(rs2);

        let stored: Result<(), Fault> = match store_type {
            StoreType::SB => self.ram.write(total_address, (value % 0x100) as u8),
            StoreType::SH => self.ram.write_half(total_address, (value % 0x1_0000) as u16),
            StoreType::SW => self.ram.write_word(total_address, value),
        };

        match stored {
            Ok(()) => {
                self.pc = self.pc.wrapping_add(4);
                Ok(())
            },
            Err(fault) => self.halt(fault),
        }
    }

    /// Operation on a register and an immediate.
    fn mathi(&mut self, mathi_type: MathiType, rd: u8, rs1: u8, immediate: i32)
        requires
            rd < 32,
            rs1 < 32,
            mathi_type.is_shift() ==> 0 <= immediate < 32,
            old(self)@.fault is None,
        ensures
            final(self)@ == executed(
                old(self)@,
                Instruction::Mathi { mathi_type, rd, rs1, immediate },
            ),
    {
        let value: u32 = mathi_result(mathi_type, self.registers.read(rs1), immediate);
        self.registers.write(rd, value);
        self.pc = self.pc.wrapping_add(4);
    }

    /// Operation on two registers.
    fn math(&mut self, math_type: MathType, rd: u8, rs1: u8, rs2: u8)
        requires
            rd < 32,
            rs1 < 32,
            rs2 < 32,
            old(self)@.fault is None,
        ensures
            final(self)@ == executed(old(self)@, Instruction::Math { math_type, rd, rs1, rs2 }),
    {
        let value: u32 = math_result(math_type, self.registers.read(rs1), self.registers.read(rs2));
        self.registers.write(rd, value);
        self.pc = self.pc.wrapping_add(4);
    }
}

} // verus!
