//! The core of a Motorola 68000 emulator: instruction decoder,
//! effective-address resolver and execution engine over a memory-mapped bus.
use vstd::prelude::*;

pub mod addressing_mode;
pub mod arithmetic;
pub mod bits;
pub mod bus;
pub mod control;
pub mod cpu;
pub mod decoder;
pub mod fault;
pub mod instruction_set;
pub mod mapped_hardware;
pub mod memory;
pub mod movement;
pub mod registers;
pub mod shifts;
pub mod value;
pub mod vm;

verus! {

/// Whether bit number `bit` of `val` is set.
pub open spec fn bit_is_set(val: u32, bit: u32) -> bool {
    (val >> bit) & 1 == 1
}

/// `val` with bit number `bit` set and every other bit unchanged.
pub open spec fn with_bit_set(val: u32, bit: u32) -> u32 {
    val | (1u32 << bit)
}

/// Setting a bit sets that bit and leaves every other bit as it was.
pub proof fn lemma_with_bit_set(val: u32, bit: u32, other: u32)
    requires
        bit < 32,
        other < 32,
    ensures
        bit_is_set(with_bit_set(val, bit), other) == (other == bit || bit_is_set(val, other)),
{
    assert((((val | (1u32 << bit)) >> other) & 1 == 1) == (other == bit || (val >> other) & 1 == 1))
        by (bit_vector)
        requires
            bit < 32,
            other < 32,
    ;
}

/// Tests bit number `bit` of `val`.
pub fn test_bit(val: u32, bit: u32) -> (r: bool)
    requires
        bit < 32,
    ensures
        r == bit_is_set(val, bit),
{
    let mask: u32 = 1u32 << bit;
    assert((val & (1u32 << bit) == (1u32 << bit)) == ((val >> bit) & 1 == 1)) by (bit_vector)
        requires
            bit < 32,
    ;
    val & mask == mask
}

/// Sets bit number `bit` of `val`.
pub fn set_bit(val: u32, bit: u32) -> (r: u32)
    requires
        bit < 32,
    ensures
        r == with_bit_set(val, bit),
        bit_is_set(r, bit),
{
    let mask: u32 = 1u32 << bit;
    assert(((val | (1u32 << bit)) >> bit) & 1 == 1) by (bit_vector)
        requires
            bit < 32,
    ;
    val | mask
}

} // verus!
