//! The byte-addressable memory of the machine.
//!
//! Values wider than a byte are stored with their most significant byte at
//! the lowest address. The instruction fetch and the loads and stores of the
//! machine all go through this one convention.

use crate::fault::Fault;
use vstd::prelude::*;

verus! {

/// Whether the `width` bytes that start at `address` all lie inside a memory
/// of `size` bytes.
pub open spec fn in_range(size: nat, address: int, width: int) -> bool {
    0 <= address && address + width <= size
}

/// The half-word whose two bytes start at `address`, most significant first.
pub open spec fn half_at(memory: Seq<u8>, address: int) -> u16 {
    (memory[address] as int * 0x100 + memory[address + 1] as int) as u16
}

/// The word whose four bytes start at `address`, most significant first.
pub open spec fn word_at(memory: Seq<u8>, address: int) -> u32 {
    (memory[address] as int * 0x100_0000 + memory[address + 1] as int * 0x1_0000 + memory[address
        + 2] as int * 0x100 + memory[address + 3] as int) as u32
}

/// The memory after `value` has been stored at `address`, most significant
/// byte first.
pub open spec fn with_half(memory: Seq<u8>, address: int, value: u16) -> Seq<u8> {
    memory.update(address, (value / 0x100) as u8).update(address + 1, (value % 0x100) as u8)
}

/// The memory after `value` has been stored at `address`, most significant
/// byte first.
pub open spec fn with_word(memory: Seq<u8>, address: int, value: u32) -> Seq<u8> {
    memory.update(address, (value / 0x100_0000) as u8).update(
        address + 1,
        (value / 0x1_0000 % 0x100) as u8,
    ).update(address + 2, (value / 0x100 % 0x100) as u8).update(
        address + 3,
        (value % 0x100) as u8,
    )
}

/// The `count` words that lie back to back from `start` on.
pub open spec fn words_at(memory: Seq<u8>, start: int, count: nat) -> Seq<u32> {
    Seq::new(count, |i: int| word_at(memory, start + 4 * i))
}

proof fn lemma_pack_half(b0: u8, b1: u8)
    by (bit_vector)
    ensures
        ((b0 as u16) << 8) | (b1 as u16) == b0 as u16 * 0x100 + b1 as u16,
{
}

proof fn lemma_pack_word(b0: u8, b1: u8, b2: u8, b3: u8)
    by (bit_vector)
    ensures
        ((b0 as u32) << 24) | ((b1 as u32) << 16) | ((b2 as u32) << 8) | (b3 as u32) == b0 as u32
            * 0x100_0000 + b1 as u32 * 0x1_0000 + b2 as u32 * 0x100 + b3 as u32,
{
}

proof fn lemma_split_half(value: u16)
    by (bit_vector)
    ensures
        (value >> 8) as u8 == value / 0x100,
        value as u8 == value % 0x100,
{
}

proof fn lemma_split_word(value: u32)
    by (bit_vector)
    ensures
        (value >> 24) as u8 == value / 0x100_0000,
        (value >> 16) as u8 == value / 0x1_0000 % 0x100,
        (value >> 8) as u8 == value / 0x100 % 0x100,
        value as u8 == value % 0x100,
{
}

/// A half-word that was stored is read back unchanged.
pub proof fn lemma_half_round_trip(memory: Seq<u8>, address: int, value: u16)
    requires
        in_range(memory.len(), address, 2),
    ensures
        half_at(with_half(memory, address, value), address) == value,
        with_half(memory, address, value).len() == memory.len(),
{
}

/// A word that was stored is read back unchanged.
pub proof fn lemma_word_round_trip(memory: Seq<u8>, address: int, value: u32)
    requires
        in_range(memory.len(), address, 4),
    ensures
        word_at(with_word(memory, address, value), address) == value,
        with_word(memory, address, value).len() == memory.len(),
{
}

/// A byte that was stored is read back unchanged.
pub proof fn lemma_byte_round_trip(memory: Seq<u8>, address: int, value: u8)
    requires
        in_range(memory.len(), address, 1),
    ensures
        memory.update(address, value)[address] == value,
        memory.update(address, value).len() == memory.len(),
{
}

/// A flat memory of fixed size.
pub struct RAM {
    data: Vec<u8>,
}

impl View for RAM {
    type V = Seq<u8>;

    closed spec fn view(&self) -> Seq<u8> {
        self.data@
    }
}

impl RAM {
    /// A memory of `size` words, four bytes each, all zero.
    pub fn new(size: u32) -> (ram: Self)
        requires
            4 * size <= usize::MAX,
        ensures
            ram@ == Seq::new((4 * size) as nat, |i: int| 0u8),
    {
        let length: usize = (size as usize) * 4;
        let ram = RAM { data: vec![0u8; length] };
        assert(ram.data@ =~= Seq::new((4 * size) as nat, |i: int| 0u8));
        ram
    }

    /// The number of bytes that the memory holds.
    pub fn len(&self) -> (length: usize)
        ensures
            length == self@.len(),
    {
        self.data.len()
    }

    /// Whether the `width` bytes from `address` on lie inside the memory.
    fn holds(&self, address: u32, width: u64) -> (inside: bool)
        requires
            width <= 0x4_0000_0000,
        ensures
            inside == in_range(self@.len(), address as int, width as int),
            self@.len() <= usize::MAX,
    {
        address as u64 + width <= self.data.len() as u64
    }

    /// The byte at `address`.
    pub fn read_byte(&self, address: u32) -> (outcome: Result<u8, Fault>)
        ensures
            outcome == (if in_range(self@.len(), address as int, 1) {
                Ok(self@[address as int])
            } else {
                Err(Fault::OutOfRange)
            }),
    {
        if !self.holds(address, 1) {
            return Err(Fault::OutOfRange);
        }
        Ok(self.data[address as usize])
    }

    /// The half-word at `address`.
    pub fn read_half(&self, address: u32) -> (outcome: Result<u16, Fault>)
        ensures
            outcome == (if in_range(self@.len(), address as int, 2) {
                Ok(half_at(self@, address as int))
            } else {
                Err(Fault::OutOfRange)
            }),
    {
        if !self.holds(address, 2) {
            return Err(Fault::OutOfRange);
        }
        let at: usize = address as usize;
        let b0: u8 = self.data[at];
        let b1: u8 = self.data[at + 1];
        proof {
            lemma_pack_half(b0, b1);
        }
        Ok(((b0 as u16) << 8) | (b1 as u16))
    }

    /// The word at `address`.
    pub fn read_word(&self, address: u32) -> (outcome: Result<u32, Fault>)
        ensures
            outcome == (if in_range(self@.len(), address as int, 4) {
                Ok(word_at(self@, address as int))
            } else {
                Err(Fault::OutOfRange)
            }),
    {
        if !self.holds(address, 4) {
            return Err(Fault::OutOfRange);
        }
        Ok(self.word(address as usize))
    }

    /// The word at `at`, which lies inside the memory.
    fn word(&self, at: usize) -> (value: u32)
        requires
            in_range(self@.len(), at as int, 4),
            self@.len() <= usize::MAX,
        ensures
            value == word_at(self@, at as int),
    {
        let b0: u8 = self.data[at];
        let b1: u8 = self.data[at + 1];
        let b2: u8 = self.data[at + 2];
        let b3: u8 = self.data[at + 3];
        proof {
            lemma_pack_word(b0, b1, b2, b3);
        }
        ((b0 as u32) << 24) | ((b1 as u32) << 16) | ((b2 as u32) << 8) | (b3 as u32)
    }

    /// Stores the byte `value` at `address`.
    pub fn write(&mut self, address: u32, value: u8) -> (outcome: Result<(), Fault>)
        ensures
            in_range(old(self)@.len(), address as int, 1) ==> outcome == Ok::<(), Fault>(())
                && final(self)@ == old(self)@.update(address as int, value),
            !in_range(old(self)@.len(), address as int, 1) ==> outcome == Err::<(), Fault>(
                Fault::OutOfRange,
            ) && final(self)@ == old(self)@,
    {
        if !self.holds(address, 1) {
            return Err(Fault::OutOfRange);
        }
        self.data[address as usize] = value;
        Ok(())
    }

    /// Stores the half-word `value` at `address`.
    pub fn write_half(&mut self, address: u32, value: u16) -> (outcome: Result<(), Fault>)
        ensures
            in_range(old(self)@.len(), address as int, 2) ==> outcome == Ok::<(), Fault>(())
                && final(self)@ == with_half(old(self)@, address as int, value),
            !in_range(old(self)@.len(), address as int, 2) ==> outcome == Err::<(), Fault>(
                Fault::OutOfRange,
            ) && final(self)@ == old(self)@,
    {
        if !self.holds(address, 2) {
            return Err(Fault::OutOfRange);
        }
        let at: usize = address as usize;
        proof {
            lemma_split_half(value);
        }
        self.data[at] = #[verifier::truncate] ((value >> 8) as u8);
        self.data[at + 1] = #[verifier::truncate] (value as u8);
        Ok(())
    }

    /// Stores the word `value` at `address`.
    pub fn write_word(&mut self, address: u32, value: u32) -> (outcome: Result<(), Fault>)
        ensures
            in_range(old(self)@.len(), address as int, 4) ==> outcome == Ok::<(), Fault>(())
                && final(self)@ == with_word(old(self)@, address as int, value),
            !in_range(old(self)@.len(), address as int, 4) ==> outcome == Err::<(), Fault>(
                Fault::OutOfRange,
            ) && final(self)@ == old(self)@,
    {
        if !self.holds(address, 4) {
            return Err(Fault::OutOfRange);
        }
        let at: usize = address as usize;
        proof {
            lemma_split_word(value);
        }
        self.data[at] = #[verifier::truncate] ((value >> 24) as u8);
        self.data[at + 1] = #[verifier::truncate] ((value >> 16) as u8);
        self.data[at + 2] = #[verifier::truncate] ((value >> 8) as u8);
        self.data[at + 3] = #[verifier::truncate] (value as u8);
        Ok(())
    }

    /// The `length` bytes from `start` on.
    pub fn inspect(&self, start: u32, length: u32) -> (outcome: Result<&[u8], Fault>)
        ensures
            match outcome {
                Ok(window) => in_range(self@.len(), start as int, length as int) && window@
                    == self@.subrange(start as int, start + length),
                Err(fault) => !in_range(self@.len(), start as int, length as int) && fault
                    == Fault::OutOfRange,
            },
    {
        if !self.holds(start, length as u64) {
            return Err(Fault::OutOfRange);
        }
        let from: usize = start as usize;
        let to: usize = from + length as usize;
        Ok(vstd::slice::slice_subrange(self.data.as_slice(), from, to))
    }

    /// The `length` words that lie back to back from `start` on.
    pub fn inspect_word(&self, start: u32, length: u32) -> (outcome: Result<Vec<u32>, Fault>)
        ensures
            match outcome {
                Ok(words) => in_range(self@.len(), start as int, 4 * length) && words@ == words_at(
                    self@,
                    start as int,
                    length as nat,
                ),
                Err(fault) => !in_range(self@.len(), start as int, 4 * length) && fault
                    == Fault::OutOfRange,
            },
    {
        if !self.holds(start, 4 * (length as u64)) {
            return Err(Fault::OutOfRange);
        }
        let mut words: Vec<u32> = Vec::new();
        let mut done: u32 = 0;
        while done < length
            invariant
                done <= length,
                in_range(self@.len(), start as int, 4 * length),
                self@.len() <= usize::MAX,
                words@ == words_at(self@, start as int, done as nat),
            decreases length - done,
        {
            let at: usize = start as usize + 4 * (done as usize);
            words.push(self.word(at));
            done = done + 1;
            assert(words@ =~= words_at(self@, start as int, done as nat));
        }
        Ok(words)
    }
}

} // verus!
