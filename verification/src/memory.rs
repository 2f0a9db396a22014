//! A memory device: a program laid over read-write bytes.
use vstd::prelude::*;
use crate::addressing_mode::{memory_written, DataSize};
use crate::fault::Fault;
use crate::mapped_hardware::{
    high_byte, high_word, long_of, long_read, long_written, low_byte_of, low_word_of, word_of,
    MappedHardware,
};
use crate::value::Value;

verus! {

/// The number of bytes of read-write memory behind a program: the 16 MiB that
/// the processor's 24 address lines reach.
pub const RAM_SIZE: usize = 0x100_0000;

/// The bytes that a memory of `ram_size` bytes holds once the program `prg`
/// is laid over its start: the program, then zeros.
pub open spec fn loaded(prg: Seq<u8>, ram_size: int) -> Seq<u8> {
    Seq::new(
        if prg.len() > ram_size {
            prg.len()
        } else {
            ram_size as nat
        },
        |i: int|
            if i < prg.len() {
                prg[i]
            } else {
                0u8
            },
    )
}

/// A memory: a program laid over the start of a block of read-write bytes.
///
/// Its view is the sequence of its bytes by address.
pub struct Memory {
    prg: Vec<u8>,
    memory: Vec<u8>,
}

impl View for Memory {
    type V = Seq<u8>;

    closed spec fn view(&self) -> Seq<u8> {
        Seq::new(
            if self.prg@.len() > self.memory@.len() {
                self.prg@.len()
            } else {
                self.memory@.len()
            },
            |i: int|
                if i < self.prg@.len() {
                    self.prg@[i]
                } else {
                    self.memory@[i]
                },
        )
    }
}

impl Memory {
    /// A memory of `RAM_SIZE` bytes, all zero, with `prg` laid over its start.
    pub fn new(prg: Vec<u8>) -> (r: Memory)
        ensures
            r@ == loaded(prg@, RAM_SIZE as int),
    {
        Memory::with_size(prg, RAM_SIZE)
    }

    /// A memory of `ram_size` bytes, all zero, with `prg` laid over its start.
    pub fn with_size(prg: Vec<u8>, ram_size: usize) -> (r: Memory)
        ensures
            r@ == loaded(prg@, ram_size as int),
    {
        let r = Memory { prg, memory: vec![0u8; ram_size] };
        assert(r@ =~= loaded(prg@, ram_size as int));
        r
    }

    /// The number of bytes of the memory.
    pub fn len(&self) -> (r: usize)
        ensures
            r == self@.len(),
    {
        if self.prg.len() > self.memory.len() {
            self.prg.len()
        } else {
            self.memory.len()
        }
    }

    /// The byte at `index`, if the memory reaches that far.
    fn byte_at(&self, index: usize) -> (r: Option<u8>)
        ensures
            r == if index < self@.len() {
                Some(self@[index as int])
            } else {
                None
            },
    {
        if index < self.prg.len() {
            Some(self.prg[index])
        } else if index < self.memory.len() {
            Some(self.memory[index])
        } else {
            None
        }
    }

    /// Stores `value` at `index`, which the memory must reach.
    fn set_byte(&mut self, index: usize, value: u8)
        requires
            index < old(self)@.len(),
        ensures
            final(self)@ == old(self)@.update(index as int, value),
    {
        if index < self.prg.len() {
            self.prg[index] = value;
        } else {
            self.memory[index] = value;
        }
        assert(final(self)@ =~= old(self)@.update(index as int, value));
    }
}

impl MappedHardware for Memory {
    /// Time does nothing to a memory.
    open spec fn ticked(state: Seq<u8>, cycles: usize) -> Seq<u8> {
        state
    }

    /// A word is there when both its bytes are; reading changes nothing.
    open spec fn word_read(state: Seq<u8>, address: u32) -> (Seq<u8>, Option<u16>) {
        (
            state,
            if address + 1 < state.len() {
                Some(word_of(state[address as int], state[address + 1]))
            } else {
                None
            },
        )
    }

    /// A word is taken when both its bytes are there: the high byte goes to
    /// `address`, the low byte behind it.
    open spec fn word_written(state: Seq<u8>, address: u32, value: u16) -> (
        Seq<u8>,
        Option<u16>,
    ) {
        if address + 1 < state.len() {
            (
                state.update(address as int, high_byte(value)).update(
                    address + 1,
                    low_byte_of(value),
                ),
                Some(value),
            )
        } else {
            (state, None)
        }
    }

    fn tick(&mut self, cycles: usize) {
    }

    fn read_word(&mut self, address: u32) -> (r: Option<u16>) {
        let index: usize = address as usize;
        if index >= self.len() || index + 1 >= self.len() {
            return None;
        }
        match (self.byte_at(index), self.byte_at(index + 1)) {
            (Some(high), Some(low)) => Some((high as u16) * 256 + (low as u16)),
            _ => None,
        }
    }

    fn write_word(&mut self, address: u32, value: u16) -> (r: Option<u16>) {
        let index: usize = address as usize;
        if index >= self.len() || index + 1 >= self.len() {
            return None;
        }
        self.set_byte(index, (value / 256) as u8);
        self.set_byte(index + 1, (value % 256) as u8);
        Some(value)
    }
}

/// A word written where the memory reaches is taken, and is what a read at
/// that address then finds; the write changes the two bytes of the word and no
/// other, and neither changes the size of the memory.
pub proof fn lemma_word_written_then_read(state: Seq<u8>, address: u32, value: u16)
    requires
        address + 1 < state.len(),
    ensures
        ({
            let (written, taken) = Memory::word_written(state, address, value);
            &&& taken == Some(value)
            &&& written.len() == state.len()
            &&& Memory::word_read(written, address) == (written, Some(value))
            &&& forall|i: int|
                0 <= i < state.len() && i != address && i != address + 1 ==> written[i]
                    == state[i]
        }),
{
    assert(word_of(high_byte(value), low_byte_of(value)) == value);
}

/// A long word written where the memory reaches, short of the end of the
/// address space, is taken, and is what a read at that address then finds; the
/// write changes the four bytes of the long word and no other.
pub proof fn lemma_long_written_then_read(state: Seq<u8>, address: u32, value: u32)
    requires
        address + 3 < state.len(),
        address + 3 <= u32::MAX,
    ensures
        ({
            let (written, taken) = long_written::<Memory>(state, address, value);
            &&& taken == Some(value)
            &&& written.len() == state.len()
            &&& long_read::<Memory>(written, address) == (written, Some(value))
            &&& forall|i: int|
                0 <= i < state.len() && !(address <= i <= address + 3) ==> written[i] == state[i]
        }),
{
    let next = address.wrapping_add(2);
    assert(next == address + 2);
    let (first, _) = Memory::word_written(state, address, high_word(value));
    lemma_word_written_then_read(state, address, high_word(value));
    lemma_word_written_then_read(first, next, low_word_of(value));
    assert(long_of(high_word(value), low_word_of(value)) == value);
}

/// A word or a long word written where the memory reaches, short of the end
/// of the address space, is taken, and the memory keeps its size.
pub proof fn lemma_operand_written(state: Seq<u8>, size: DataSize, address: u32, value: Value)
    requires
        size != DataSize::Byte,
        address + size.bytes() <= state.len(),
        address + size.bytes() <= u32::MAX,
    ensures
        memory_written::<Memory>(state, size, address, value).1 == Ok::<(), Fault>(()),
        memory_written::<Memory>(state, size, address, value).0.len() == state.len(),
{
    reveal(memory_written);
    let raw = value.coerced(size).unsigned();
    match size {
        DataSize::Word => {
            lemma_word_written_then_read(state, address, raw as u16);
        },
        _ => {
            lemma_long_written_then_read(state, address, raw as u32);
        },
    }
}

} // verus!
