//! What the instructions do, stated on a model of the machine.

use crate::alu::signed;
use crate::alu::spec_math_result;
use crate::alu::spec_mathi_result;
use crate::alu::wrapped;
use crate::decoder::lemma_decoded_is_well_formed;
use crate::decoder::sign_extended;
use crate::decoder::spec_decode;
use crate::decoder::Instruction;
use crate::fault::Fault;
use crate::instructions::branch::BranchType;
use crate::instructions::load::LoadType;
use crate::instructions::store::StoreType;
use crate::memory::half_at;
use crate::memory::in_range;
use crate::memory::with_half;
use crate::memory::with_word;
use crate::memory::word_at;
use crate::registers::with_register;
use crate::registers::zero_wired;
use vstd::prelude::*;

verus! {

/// How the machine carries out an add upper immediate to the program
/// counter.
#[derive(Clone, Copy, Debug, PartialEq, Eq, Structural)]
pub enum AuipcMode {
    /// The destination receives the program counter plus the immediate, and
    /// the program counter then moves on by 4.
    Canonical,
    /// The program counter moves on by the immediate, or by 4 where the
    /// immediate is zero, and the destination receives where it then stands.
    Advancing,
}

/// The machine as a value: its registers, program counter and memory, the
/// fault that halted it if one did, and its way with add upper immediate.
pub struct CpuState {
    /// The 32 registers, register 0 first.
    pub registers: Seq<u32>,
    /// The address of the instruction that the next cycle fetches.
    pub pc: u32,
    /// The bytes of the memory.
    pub memory: Seq<u8>,
    /// The fault that the machine is halted on, `None` while it runs.
    pub fault: Option<Fault>,
    /// The way the machine carries out an add upper immediate.
    pub auipc_mode: AuipcMode,
}

/// Whether a branch of kind `kind` is taken on the register values `a` and
/// `b`.
pub open spec fn branch_taken(kind: BranchType, a: u32, b: u32) -> bool {
    match kind {
        BranchType::BEQ => a == b,
        BranchType::BNE => a != b,
        BranchType::BLT => signed(a) < signed(b),
        BranchType::BGE => signed(a) >= signed(b),
        BranchType::BLTU => a < b,
        BranchType::BGEU => a >= b,
    }
}

/// The number of bytes that a load of kind `kind` reads.
pub open spec fn load_width(kind: LoadType) -> int {
    match kind {
        LoadType::LB => 1,
        LoadType::LBU => 1,
        LoadType::LH => 2,
        LoadType::LHU => 2,
        LoadType::LW => 4,
    }
}

/// What a load of kind `kind` at `address`, which lies inside `memory`,
/// puts into its destination.
pub open spec fn loaded_value(kind: LoadType, memory: Seq<u8>, address: int) -> u32 {
    match kind {
        LoadType::LB => wrapped(sign_extended(memory[address] as u32, 0x80)),
        LoadType::LBU => memory[address] as u32,
        LoadType::LH => wrapped(sign_extended(half_at(memory, address) as u32, 0x8000)),
        LoadType::LHU => half_at(memory, address) as u32,
        LoadType::LW => word_at(memory, address),
    }
}

/// The number of bytes that a store of kind `kind` writes.
pub open spec fn store_width(kind: StoreType) -> int {
    match kind {
        StoreType::SB => 1,
        StoreType::SH => 2,
        StoreType::SW => 4,
    }
}

/// The memory after a store of kind `kind` of the low bits of `value` at
/// `address`, which lies inside `memory`.
pub open spec fn stored_memory(
    kind: StoreType,
    memory: Seq<u8>,
    address: int,
    value: u32,
) -> Seq<u8> {
    match kind {
        StoreType::SB => memory.update(address, (value % 0x100) as u8),
        StoreType::SH => with_half(memory, address, (value % 0x1_0000) as u16),
        StoreType::SW => with_word(memory, address, value),
    }
}

/// `state` halted on `fault`, with nothing else changed.
pub open spec fn halted(state: CpuState, fault: Fault) -> CpuState {
    CpuState { fault: Some(fault), ..state }
}

/// `state` with `value` written to the register `rd` and the program
/// counter at `pc`.
pub open spec fn advanced(state: CpuState, rd: u8, value: u32, pc: u32) -> CpuState {
    CpuState { registers: with_register(state.registers, rd, value), pc, ..state }
}

/// The machine after it has carried out `instruction`. A halted machine
/// stays as it is. A load or store that reaches outside the memory halts the
/// machine on `OutOfRange` and changes nothing else.
pub open spec fn executed(state: CpuState, instruction: Instruction) -> CpuState {
    let next = wrapped(state.pc + 4);
    if state.fault is Some {
        state
    } else {
        match instruction {
            Instruction::Lui { rd, upper } => advanced(state, rd, upper, next),
            Instruction::Auipc { rd, upper } => match state.auipc_mode {
                AuipcMode::Canonical => advanced(state, rd, wrapped(state.pc + upper), next),
                AuipcMode::Advancing => {
                    let target = wrapped(
                        state.pc + (if upper == 0 {
                            4
                        } else {
                            upper
                        }),
                    );
                    advanced(state, rd, target, target)
                },
            },
            Instruction::Jal { rd, offset } => advanced(
                state,
                rd,
                next,
                wrapped(state.pc + offset),
            ),
            Instruction::Jalr { rd, rs1, offset } => advanced(
                state,
                rd,
                next,
                wrapped(state.registers[rs1 as int] + offset) & 0xFFFF_FFFE,
            ),
            Instruction::Branch { branch_type, rs1, rs2, offset } => CpuState {
                pc: if branch_taken(
                    branch_type,
                    state.registers[rs1 as int],
                    state.registers[rs2 as int],
                ) {
                    wrapped(state.pc + offset)
                } else {
                    next
                },
                ..state
            },
            Instruction::Load { load_type, rd, rs1, offset } => {
                let address = wrapped(state.registers[rs1 as int] + offset);
                if in_range(state.memory.len(), address as int, load_width(load_type)) {
                    advanced(state, rd, loaded_value(load_type, state.memory, address as int), next)
                } else {
                    halted(state, Fault::OutOfRange)
                }
            },
            Instruction::Store { store_type, rs1, rs2, offset } => {
                let address = wrapped(state.registers[rs1 as int] + offset);
                if in_range(state.memory.len(), address as int, store_width(store_type)) {
                    CpuState {
                        memory: stored_memory(
                            store_type,
                            state.memory,
                            address as int,
                            state.registers[rs2 as int],
                        ),
                        pc: next,
                        ..state
                    }
                } else {
                    halted(state, Fault::OutOfRange)
                }
            },
            Instruction::Mathi { mathi_type, rd, rs1, immediate } => advanced(
                state,
                rd,
                spec_mathi_result(mathi_type, state.registers[rs1 as int], immediate),
                next,
            ),
            Instruction::Math { math_type, rd, rs1, rs2 } => advanced(
                state,
                rd,
                spec_math_result(
                    math_type,
                    state.registers[rs1 as int],
                    state.registers[rs2 as int],
                ),
                next,
            ),
        }
    }
}

/// The machine after one cycle of fetch, decode and execute. A halted
/// machine stays as it is. A program counter whose word reaches outside the
/// memory halts the machine on `OutOfRange`, a word that encodes no
/// instruction on `IllegalInstruction`; neither changes anything else.
pub open spec fn stepped(state: CpuState) -> CpuState {
    if state.fault is Some {
        state
    } else if !in_range(state.memory.len(), state.pc as int, 4) {
        halted(state, Fault::OutOfRange)
    } else {
        match spec_decode(word_at(state.memory, state.pc as int)) {
            Some(instruction) => executed(state, instruction),
            None => halted(state, Fault::IllegalInstruction),
        }
    }
}

/// The machine after `count` cycles.
pub open spec fn stepped_times(state: CpuState, count: nat) -> CpuState
    decreases count,
{
    if count == 0 {
        state
    } else {
        stepped_times(stepped(state), (count - 1) as nat)
    }
}

/// What a cycle reports: the fault that the machine is halted on, if it is.
pub open spec fn outcome_of(state: CpuState) -> Result<(), Fault> {
    match state.fault {
        Some(fault) => Err(fault),
        None => Ok(()),
    }
}

/// Carrying out an instruction keeps register 0 at zero, the memory at its
/// size, and the machine's way with add upper immediate.
pub proof fn lemma_executed_keeps_shape(state: CpuState, instruction: Instruction)
    requires
        zero_wired(state.registers),
        instruction.well_formed(),
    ensures
        zero_wired(executed(state, instruction).registers),
        executed(state, instruction).memory.len() == state.memory.len(),
        executed(state, instruction).auipc_mode == state.auipc_mode,
{
}

/// Any number of cycles keeps register 0 at zero and the memory at its
/// size, whatever the memory holds.
pub proof fn lemma_stepped_keeps_shape(state: CpuState, count: nat)
    requires
        zero_wired(state.registers),
    ensures
        zero_wired(stepped_times(state, count).registers),
        stepped_times(state, count).memory.len() == state.memory.len(),
        stepped_times(state, count).auipc_mode == state.auipc_mode,
    decreases count,
{
    if count > 0 {
        if state.fault is None && in_range(state.memory.len(), state.pc as int, 4) {
            let word = word_at(state.memory, state.pc as int);
            lemma_decoded_is_well_formed(word);
            if let Some(instruction) = spec_decode(word) {
                lemma_executed_keeps_shape(state, instruction);
            }
        }
        lemma_stepped_keeps_shape(stepped(state), (count - 1) as nat);
    }
}

/// A halted machine stays as it is, however many cycles follow.
pub proof fn lemma_halted_stays(state: CpuState, count: nat)
    requires
        state.fault is Some,
    ensures
        stepped_times(state, count) == state,
    decreases count,
{
    if count > 0 {
        lemma_halted_stays(state, (count - 1) as nat);
    }
}

/// Where the word at the program counter encodes no instruction, the next
/// cycle halts the machine on `IllegalInstruction` with nothing else
/// changed, and so it stays: the program counter is never stepped over the
/// word, and the word is never taken up again.
pub proof fn lemma_illegal_instruction_halts(state: CpuState, count: nat)
    requires
        state.fault is None,
        in_range(state.memory.len(), state.pc as int, 4),
        spec_decode(word_at(state.memory, state.pc as int)) is None,
        count >= 1,
    ensures
        stepped(state) == halted(state, Fault::IllegalInstruction),
        outcome_of(stepped(state)) == Err::<(), Fault>(Fault::IllegalInstruction),
        stepped_times(state, count) == halted(state, Fault::IllegalInstruction),
{
    lemma_halted_stays(stepped(state), (count - 1) as nat);
}

/// Where the word at the program counter reaches outside the memory, the
/// next cycle halts the machine on `OutOfRange` with nothing else changed,
/// and so it stays.
pub proof fn lemma_fetch_out_of_range_halts(state: CpuState, count: nat)
    requires
        state.fault is None,
        !in_range(state.memory.len(), state.pc as int, 4),
        count >= 1,
    ensures
        stepped(state) == halted(state, Fault::OutOfRange),
        stepped_times(state, count) == halted(state, Fault::OutOfRange),
{
    lemma_halted_stays(stepped(state), (count - 1) as nat);
}

} // verus!
