//! The register file: 32 registers of 32 bits, the first of them hardwired
//! to zero.

use vstd::prelude::*;

verus! {

/// A register file in which nothing but zero has been written yet.
pub open spec fn cleared() -> Seq<u32> {
    Seq::new(32, |i: int| 0u32)
}

/// What a register file must look like: 32 registers, register 0 holding 0.
pub open spec fn zero_wired(registers: Seq<u32>) -> bool {
    registers.len() == 32 && registers[0] == 0
}

/// The register file after `value` has been written to `register`. A write
/// to register 0 leaves the file as it was.
pub open spec fn with_register(registers: Seq<u32>, register: u8, value: u32) -> Seq<u32> {
    if register == 0 {
        registers
    } else {
        registers.update(register as int, value)
    }
}

/// The register file after the `writes`, pairs of a register and a value,
/// have been carried out from the first to the last.
pub open spec fn with_registers(registers: Seq<u32>, writes: Seq<(u8, u32)>) -> Seq<u32>
    decreases writes.len(),
{
    if writes.len() == 0 {
        registers
    } else {
        with_register(
            with_registers(registers, writes.drop_last()),
            writes.last().0,
            writes.last().1,
        )
    }
}

proof fn lemma_zero_after_writes(registers: Seq<u32>, writes: Seq<(u8, u32)>)
    requires
        zero_wired(registers),
        forall|i: int| 0 <= i < writes.len() ==> (#[trigger] writes[i]).0 < 32,
    ensures
        zero_wired(with_registers(registers, writes)),
    decreases writes.len(),
{
    if writes.len() > 0 {
        lemma_zero_after_writes(registers, writes.drop_last());
    }
}

/// Register 0 holds 0 at every point of any sequence of writes: after each
/// of them, whatever they target and whatever values they carry.
pub proof fn lemma_zero_survives_writes(registers: Seq<u32>, writes: Seq<(u8, u32)>)
    requires
        zero_wired(registers),
        forall|i: int| 0 <= i < writes.len() ==> (#[trigger] writes[i]).0 < 32,
    ensures
        forall|done: int|
            0 <= done <= writes.len() ==> zero_wired(
                #[trigger] with_registers(registers, writes.subrange(0, done)),
            ),
{
    assert forall|done: int| 0 <= done <= writes.len() implies zero_wired(
        #[trigger] with_registers(registers, writes.subrange(0, done)),
    ) by {
        lemma_zero_after_writes(registers, writes.subrange(0, done));
    }
}

/// The 32 general-purpose registers.
pub struct Registers {
    registers: [u32; 32],
}

impl View for Registers {
    type V = Seq<u32>;

    closed spec fn view(&self) -> Seq<u32> {
        self.registers@
    }
}

impl Registers {
    /// What holds of every register file: register 0 is zero.
    #[verifier::type_invariant]
    pub open spec fn zero_is_hardwired(self) -> bool {
        zero_wired(self@)
    }

    /// A register file with every register at zero.
    pub fn new() -> (registers: Self)
        ensures
            registers@ == cleared(),
    {
        let registers = Registers { registers: [0; 32] };
        assert(registers.registers@ =~= cleared());
        registers
    }

    /// Writes `value` to `register`; a write to register 0 is discarded.
    pub fn write(&mut self, register: u8, value: u32)
        requires
            register < 32,
        ensures
            final(self)@ == with_register(old(self)@, register, value),
            zero_wired(final(self)@),
    {
        proof {
            use_type_invariant(&*self);
        }
        if register != 0 {
            self.registers[register as usize] = value;
        }
    }

    /// The value of `register`; register 0 always reads 0.
    pub fn read(&self, register: u8) -> (value: u32)
        requires
            register < 32,
        ensures
            value == self@[register as int],
            register == 0 ==> value == 0,
            zero_wired(self@),
    {
        proof {
            use_type_invariant(self);
        }
        self.registers[register as usize]
    }

    /// All 32 registers, register 0 first.
    pub fn inspect(&self) -> (all: &[u32])
        ensures
            all@ == self@,
            zero_wired(self@),
    {
        proof {
            use_type_invariant(self);
        }
        self.registers.as_slice()
    }
}

} // verus!
