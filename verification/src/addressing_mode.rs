//! Operand sizes, addressing modes and conditions, and the resolver that
//! reads and writes an operand through its addressing mode.
use vstd::prelude::*;
use crate::cpu::{immediate_read, long_fetched, on_registers, word_fetched, Cpu, Outcome};
use crate::fault::Fault;
use crate::mapped_hardware::{byte_read, byte_written, long_read, long_written, MappedHardware};
use crate::registers::{sign_extended, ConditionCode, RegisterState};
use crate::value::Value;

verus! {

/// The width of an operand.
#[derive(Debug, PartialEq, Eq, Structural, Copy, Clone)]
pub enum DataSize {
    Byte,
    Word,
    LongWord,
}

impl DataSize {
    /// The number of bits of an operand of this size.
    pub open spec fn bits(self) -> int {
        match self {
            DataSize::Byte => 8,
            DataSize::Word => 16,
            DataSize::LongWord => 32,
        }
    }

    /// Two to the power `bits()`: one more than the largest unsigned operand.
    pub open spec fn modulus(self) -> int {
        match self {
            DataSize::Byte => 0x100,
            DataSize::Word => 0x1_0000,
            DataSize::LongWord => 0x1_0000_0000,
        }
    }

    /// The smallest unsigned operand whose sign bit is set: half the modulus.
    pub open spec fn sign_bit(self) -> int {
        match self {
            DataSize::Byte => 0x80,
            DataSize::Word => 0x8000,
            DataSize::LongWord => 0x8000_0000,
        }
    }

    /// The number that the lowest `bits()` bits of `n` hold: `n` modulo
    /// `modulus()`.
    pub open spec fn low(self, n: int) -> int {
        match self {
            DataSize::Byte => n % 0x100,
            DataSize::Word => n % 0x1_0000,
            DataSize::LongWord => n % 0x1_0000_0000,
        }
    }

    /// The number that the bits of `n` above the lowest `bits()` hold: `n`
    /// divided by `modulus()`.
    pub open spec fn high(self, n: int) -> int {
        match self {
            DataSize::Byte => n / 0x100,
            DataSize::Word => n / 0x1_0000,
            DataSize::LongWord => n / 0x1_0000_0000,
        }
    }

    /// A number is made of its high and its low part, and the low part is an
    /// unsigned operand of this size.
    pub proof fn lemma_low_and_high(self, n: int)
        ensures
            self.low(n) == n % self.modulus(),
            self.high(n) == n / self.modulus(),
            n == self.high(n) * self.modulus() + self.low(n),
            0 <= self.low(n) < self.modulus(),
            2 * self.sign_bit() == self.modulus(),
    {
    }

    /// The number of bytes an operand of this size takes in memory.
    pub open spec fn bytes(self) -> int {
        self.bits() / 8
    }

    /// The number of bytes an operand of this size takes in memory.
    pub fn byte_count(self) -> (r: u32)
        ensures
            r == self.bytes(),
    {
        match self {
            DataSize::Byte => 1,
            DataSize::Word => 2,
            DataSize::LongWord => 4,
        }
    }
}

/// A size field of an opcode, one or two bits wide.
#[derive(Debug, PartialEq, Eq, Structural, Copy, Clone)]
pub enum DataSizeIdentifier {
    OneBit(usize),
    TwoBit(usize),
}

/// What a size field stands for; `None` for the one pattern that is no size.
///
/// Only the lowest bit, or the two lowest bits, of the field count.
pub open spec fn data_size_of(bits: DataSizeIdentifier) -> Option<DataSize> {
    match bits {
        DataSizeIdentifier::OneBit(b) => if b % 2 == 0 {
            Some(DataSize::Word)
        } else {
            Some(DataSize::LongWord)
        },
        DataSizeIdentifier::TwoBit(b) => if b % 4 == 0 {
            Some(DataSize::Byte)
        } else if b % 4 == 1 {
            Some(DataSize::Word)
        } else if b % 4 == 2 {
            Some(DataSize::LongWord)
        } else {
            None
        },
    }
}

/// Decodes a size field. The two-bit pattern `11` is reserved.
pub fn decode_data_size(bits: DataSizeIdentifier) -> (r: Result<DataSize, Fault>)
    ensures
        match data_size_of(bits) {
            Some(size) => r == Ok::<DataSize, Fault>(size),
            None => r == Err::<DataSize, Fault>(Fault::DecodeFailure),
        },
{
    match bits {
        DataSizeIdentifier::OneBit(b) => {
            if b % 2 == 0 {
                Ok(DataSize::Word)
            } else {
                Ok(DataSize::LongWord)
            }
        },
        DataSizeIdentifier::TwoBit(b) => {
            let low: usize = b % 4;
            if low == 0 {
                Ok(DataSize::Byte)
            } else if low == 1 {
                Ok(DataSize::Word)
            } else if low == 2 {
                Ok(DataSize::LongWord)
            } else {
                Err(Fault::DecodeFailure)
            }
        },
    }
}

/// The number of a data or address register, 0 to 7.
pub type RegNr = usize;

/// The operand of an instruction: where it is, or what it is.
#[derive(Debug, PartialEq, Eq, Structural, Copy, Clone)]
pub enum AddressingMode {
    DataDirect(RegNr),
    AddressDirect(RegNr),
    AddressIndirect(RegNr),
    AddressIndirectPostIncrement(RegNr),
    AddressIndirectPreDecrement(RegNr),
    AddressIndirectDisplacement(RegNr),
    AddressIndirectIndexedAndDisplacement(RegNr),
    AbsoluteAddress(DataSize),
    PCIndirectDisplacementMode,
    PCIndirectIndexed,
    Immediate,
    Value(u32),
    Vector(u32),
    SR,
    CCR,
    USP,
}

impl AddressingMode {
    /// The register number that the mode carries, if it carries one.
    pub open spec fn register(self) -> Option<RegNr> {
        match self {
            AddressingMode::DataDirect(n) => Some(n),
            AddressingMode::AddressDirect(n) => Some(n),
            AddressingMode::AddressIndirect(n) => Some(n),
            AddressingMode::AddressIndirectPostIncrement(n) => Some(n),
            AddressingMode::AddressIndirectPreDecrement(n) => Some(n),
            AddressingMode::AddressIndirectDisplacement(n) => Some(n),
            AddressingMode::AddressIndirectIndexedAndDisplacement(n) => Some(n),
            _ => None,
        }
    }

    /// A mode is well formed when its register, if any, exists, and an
    /// absolute address is a word or a long word.
    pub open spec fn wf(self) -> bool {
        &&& self.register() matches Some(n) ==> n < 8
        &&& self matches AddressingMode::AbsoluteAddress(size) ==> size != DataSize::Byte
    }
}

/// What the six-bit mode field `bits` stands for: the high three bits are the
/// mode, the low three the register; mode 7 uses the register bits to tell its
/// special forms apart. `None` where the pattern is reserved.
pub open spec fn addressing_mode_of(bits: int) -> Option<AddressingMode> {
    let mode = bits / 8;
    let reg = (bits % 8) as usize;
    if mode == 0 {
        Some(AddressingMode::DataDirect(reg))
    } else if mode == 1 {
        Some(AddressingMode::AddressDirect(reg))
    } else if mode == 2 {
        Some(AddressingMode::AddressIndirect(reg))
    } else if mode == 3 {
        Some(AddressingMode::AddressIndirectPostIncrement(reg))
    } else if mode == 4 {
        Some(AddressingMode::AddressIndirectPreDecrement(reg))
    } else if mode == 5 {
        Some(AddressingMode::AddressIndirectDisplacement(reg))
    } else if mode == 6 {
        Some(AddressingMode::AddressIndirectIndexedAndDisplacement(reg))
    } else if mode == 7 && reg == 0 {
        Some(AddressingMode::AbsoluteAddress(DataSize::Word))
    } else if mode == 7 && reg == 1 {
        Some(AddressingMode::AbsoluteAddress(DataSize::LongWord))
    } else if mode == 7 && reg == 2 {
        Some(AddressingMode::PCIndirectDisplacementMode)
    } else if mode == 7 && reg == 3 {
        Some(AddressingMode::PCIndirectIndexed)
    } else if mode == 7 && reg == 4 {
        Some(AddressingMode::Immediate)
    } else {
        None
    }
}

/// Decodes a six-bit mode field.
pub fn decode_addressing_mode(bits: usize) -> (r: Result<AddressingMode, Fault>)
    ensures
        match addressing_mode_of(bits as int) {
            Some(mode) => r == Ok::<AddressingMode, Fault>(mode) && mode.wf(),
            None => r == Err::<AddressingMode, Fault>(Fault::DecodeFailure),
        },
{
    let mode: usize = bits / 8;
    let reg: usize = bits % 8;
    if mode == 0 {
        Ok(AddressingMode::DataDirect(reg))
    } else if mode == 1 {
        Ok(AddressingMode::AddressDirect(reg))
    } else if mode == 2 {
        Ok(AddressingMode::AddressIndirect(reg))
    } else if mode == 3 {
        Ok(AddressingMode::AddressIndirectPostIncrement(reg))
    } else if mode == 4 {
        Ok(AddressingMode::AddressIndirectPreDecrement(reg))
    } else if mode == 5 {
        Ok(AddressingMode::AddressIndirectDisplacement(reg))
    } else if mode == 6 {
        Ok(AddressingMode::AddressIndirectIndexedAndDisplacement(reg))
    } else if mode == 7 && reg == 0 {
        Ok(AddressingMode::AbsoluteAddress(DataSize::Word))
    } else if mode == 7 && reg == 1 {
        Ok(AddressingMode::AbsoluteAddress(DataSize::LongWord))
    } else if mode == 7 && reg == 2 {
        Ok(AddressingMode::PCIndirectDisplacementMode)
    } else if mode == 7 && reg == 3 {
        Ok(AddressingMode::PCIndirectIndexed)
    } else if mode == 7 && reg == 4 {
        Ok(AddressingMode::Immediate)
    } else {
        Err(Fault::DecodeFailure)
    }
}

/// The sixteen conditions that a branch, a set or a loop instruction tests.
#[derive(Debug, PartialEq, Eq, Structural, Copy, Clone)]
pub enum Condition {
    CC,  // Carry Clear
    LS,  // Lower or Same
    CS,  // Carry Set
    LT,  // Less Than
    EQ,  // EQual
    MI,  // MInus
    F,  // False (never true)
    NE,  // Not Equal
    GE,  // Greater than or Equal
    PL,  // PLus
    GT,  // Greater Than
    T,  // True (always true)
    HI,  // HIgher
    VC,  // oVerflow Clear
    LE,  // Less than or Equal
    VS,  // oVerflow Set
}

/// The condition that the four-bit field `bits` names; only its four lowest
/// bits count.
pub open spec fn condition_of(bits: int) -> Condition {
    let code = bits % 16;
    if code == 0 {
        Condition::T
    } else if code == 1 {
        Condition::F
    } else if code == 2 {
        Condition::HI
    } else if code == 3 {
        Condition::LS
    } else if code == 4 {
        Condition::CC
    } else if code == 5 {
        Condition::CS
    } else if code == 6 {
        Condition::NE
    } else if code == 7 {
        Condition::EQ
    } else if code == 8 {
        Condition::VC
    } else if code == 9 {
        Condition::VS
    } else if code == 10 {
        Condition::PL
    } else if code == 11 {
        Condition::MI
    } else if code == 12 {
        Condition::GE
    } else if code == 13 {
        Condition::LT
    } else if code == 14 {
        Condition::GT
    } else {
        Condition::LE
    }
}

/// Decodes a four-bit condition field.
pub fn decode_condition(bits: usize) -> (r: Condition)
    ensures
        r == condition_of(bits as int),
{
    let code: usize = bits % 16;
    if code == 0 {
        Condition::T
    } else if code == 1 {
        Condition::F
    } else if code == 2 {
        Condition::HI
    } else if code == 3 {
        Condition::LS
    } else if code == 4 {
        Condition::CC
    } else if code == 5 {
        Condition::CS
    } else if code == 6 {
        Condition::NE
    } else if code == 7 {
        Condition::EQ
    } else if code == 8 {
        Condition::VC
    } else if code == 9 {
        Condition::VS
    } else if code == 10 {
        Condition::PL
    } else if code == 11 {
        Condition::MI
    } else if code == 12 {
        Condition::GE
    } else if code == 13 {
        Condition::LT
    } else if code == 14 {
        Condition::GT
    } else {
        Condition::LE
    }
}

/// Where an operand is, once its addressing mode has been worked out: the
/// extension words are read and the address register is stepped.
#[derive(Debug, PartialEq, Eq, Structural, Copy, Clone)]
pub enum Location {
    /// A data register.
    Data(RegNr),
    /// An address register.
    Address(RegNr),
    /// The memory at an address.
    Memory(u32),
    /// No place: the operand is this number.
    Constant(u32),
    /// The status register.
    StatusRegister,
    /// The condition codes.
    ConditionCodes,
    /// The user stack pointer.
    UserStackPointer,
}

impl Location {
    /// The register of a location exists.
    pub open spec fn wf(self) -> bool {
        match self {
            Location::Data(n) => n < 8,
            Location::Address(n) => n < 8,
            _ => true,
        }
    }
}

/// The number of bytes by which a post-increment or a pre-decrement moves
/// address register `reg` for an operand of width `size`: the operand's width,
/// but two for a byte on the stack pointer, which stays even.
pub open spec fn step_of(size: DataSize, reg: RegNr) -> u32 {
    if reg == 7 && size == DataSize::Byte {
        2
    } else {
        size.bytes() as u32
    }
}

/// Bit 15 of an extension word: the index register is an address register.
pub open spec fn index_is_address(ext: u16) -> bool {
    ext >= 0x8000
}

/// Bits 14 to 12 of an extension word: the number of the index register.
pub open spec fn index_register(ext: u16) -> RegNr {
    ((ext / 0x1000) % 8) as usize
}

/// Bit 11 of an extension word: the index is the whole register, not its low
/// word sign-extended.
pub open spec fn index_is_long(ext: u16) -> bool {
    (ext / 0x800) % 2 == 1
}

/// Bits 10 and 9 of an extension word: the factor 1, 2, 4 or 8.
pub open spec fn index_scale(ext: u16) -> u32 {
    let code = (ext / 0x200) % 4;
    if code == 0 {
        1
    } else if code == 1 {
        2
    } else if code == 2 {
        4
    } else {
        8
    }
}

/// Bit 8 of an extension word: the word is of the full format.
pub open spec fn is_full_format(ext: u16) -> bool {
    (ext / 0x100) % 2 == 1
}

/// Bits 7 to 0 of a brief extension word: the displacement, sign-extended.
pub open spec fn short_displacement(ext: u16) -> u32 {
    sign_extended(Value::Byte((ext % 0x100) as u8))
}

/// The index that an extension word asks for: the register it names, whole or
/// as its low word sign-extended.
pub open spec fn index_value(regs: RegisterState, ext: u16) -> u32 {
    let whole = if index_is_address(ext) {
        regs.a[index_register(ext) as int]
    } else {
        regs.d[index_register(ext) as int]
    };
    if index_is_long(ext) {
        whole
    } else {
        sign_extended(Value::Word((whole % 0x1_0000) as u16))
    }
}

/// The address of the indexed mode with a brief extension word: base plus
/// displacement plus scaled index, kept to 32 bits.
pub open spec fn indexed_address(regs: RegisterState, base: u32, ext: u16) -> u32 {
    base.wrapping_add(short_displacement(ext)).wrapping_add(
        index_value(regs, ext).wrapping_mul(index_scale(ext)),
    )
}

/// The address of the mode relative to the program counter: the address of
/// the extension word plus displacement plus index, kept to 32 bits.
pub open spec fn pc_relative_address(regs: RegisterState, base: u32, ext: u16) -> u32 {
    base.wrapping_add(short_displacement(ext)).wrapping_add(index_value(regs, ext))
}

/// The location of the operand of width `size` that `mode` names.
///
/// Extension words are taken from the instruction stream; post-increment and
/// pre-decrement step their register here. A full-format extension word is
/// reserved unless its three lowest bits are zero, and is not carried out
/// even then; the indexed mode relative to the program counter is not carried
/// out either.
#[verifier::opaque]
pub open spec fn resolved<B: MappedHardware>(
    regs: RegisterState,
    bus: B::V,
    size: DataSize,
    mode: AddressingMode,
) -> Outcome<B::V, Location> {
    match mode {
        AddressingMode::DataDirect(n) => (regs, bus, Ok(Location::Data(n))),
        AddressingMode::AddressDirect(n) => (regs, bus, Ok(Location::Address(n))),
        AddressingMode::AddressIndirect(n) => (regs, bus, Ok(Location::Memory(regs.a[n as int]))),
        AddressingMode::AddressIndirectPostIncrement(n) => (
            regs.with_address(n as int, regs.a[n as int].wrapping_add(step_of(size, n))),
            bus,
            Ok(Location::Memory(regs.a[n as int])),
        ),
        AddressingMode::AddressIndirectPreDecrement(n) => {
            let address = regs.a[n as int].wrapping_sub(step_of(size, n));
            (regs.with_address(n as int, address), bus, Ok(Location::Memory(address)))
        },
        AddressingMode::AddressIndirectDisplacement(n) => match word_fetched::<B>(regs, bus) {
            (r, b, Ok(word)) => (
                r,
                b,
                Ok(
                    Location::Memory(
                        regs.a[n as int].wrapping_add(sign_extended(Value::Word(word))),
                    ),
                ),
            ),
            (r, b, Err(fault)) => (r, b, Err(fault)),
        },
        AddressingMode::AddressIndirectIndexedAndDisplacement(n) => match word_fetched::<B>(
            regs,
            bus,
        ) {
            (r, b, Ok(ext)) => if !is_full_format(ext) {
                (r, b, Ok(Location::Memory(indexed_address(r, regs.a[n as int], ext))))
            } else if ext % 8 != 0 {
                (r, b, Err(Fault::DecodeFailure))
            } else {
                (r, b, Err(Fault::Unimplemented))
            },
            (r, b, Err(fault)) => (r, b, Err(fault)),
        },
        AddressingMode::AbsoluteAddress(DataSize::Byte) => (
            regs,
            bus,
            Err(Fault::IllegalStateUse),
        ),
        AddressingMode::AbsoluteAddress(DataSize::Word) => match word_fetched::<B>(regs, bus) {
            (r, b, Ok(word)) => (r, b, Ok(Location::Memory(word as u32))),
            (r, b, Err(fault)) => (r, b, Err(fault)),
        },
        AddressingMode::AbsoluteAddress(DataSize::LongWord) => match long_fetched::<B>(
            regs,
            bus,
        ) {
            (r, b, Ok(long)) => (r, b, Ok(Location::Memory(long))),
            (r, b, Err(fault)) => (r, b, Err(fault)),
        },
        AddressingMode::PCIndirectDisplacementMode => match word_fetched::<B>(regs, bus) {
            (r, b, Ok(ext)) => (
                r,
                b,
                Ok(Location::Memory(pc_relative_address(r, regs.pc, ext))),
            ),
            (r, b, Err(fault)) => (r, b, Err(fault)),
        },
        AddressingMode::PCIndirectIndexed => (regs, bus, Err(Fault::Unimplemented)),
        AddressingMode::Immediate => match immediate_read::<B>(regs, bus, size) {
            (r, b, Ok(value)) => (r, b, Ok(Location::Constant(value.unsigned() as u32))),
            (r, b, Err(fault)) => (r, b, Err(fault)),
        },
        AddressingMode::Value(v) => (regs, bus, Ok(Location::Constant(v))),
        AddressingMode::Vector(v) => (regs, bus, Ok(Location::Constant(v))),
        AddressingMode::SR => (regs, bus, Ok(Location::StatusRegister)),
        AddressingMode::CCR => (regs, bus, Ok(Location::ConditionCodes)),
        AddressingMode::USP => (regs, bus, Ok(Location::UserStackPointer)),
    }
}

/// A read of width `size` from memory at `address`.
#[verifier::opaque]
pub open spec fn memory_read<B: MappedHardware>(bus: B::V, size: DataSize, address: u32) -> (
    B::V,
    Result<Value, Fault>,
) {
    match size {
        DataSize::Byte => match byte_read::<B>(bus, address) {
            (b, Some(byte)) => (b, Ok(Value::Byte(byte))),
            (b, None) => (b, Err(Fault::BusAbsent)),
        },
        DataSize::Word => match B::word_read(bus, address) {
            (b, Some(word)) => (b, Ok(Value::Word(word))),
            (b, None) => (b, Err(Fault::BusAbsent)),
        },
        DataSize::LongWord => match long_read::<B>(bus, address) {
            (b, Some(long)) => (b, Ok(Value::LongWord(long))),
            (b, None) => (b, Err(Fault::BusAbsent)),
        },
    }
}

/// A write of `value`, brought to width `size`, to memory at `address`.
#[verifier::opaque]
pub open spec fn memory_written<B: MappedHardware>(
    bus: B::V,
    size: DataSize,
    address: u32,
    value: Value,
) -> (B::V, Result<(), Fault>) {
    let raw = value.coerced(size).unsigned();
    match size {
        DataSize::Byte => match byte_written::<B>(bus, address, raw as u8) {
            (b, Some(_)) => (b, Ok(())),
            (b, None) => (b, Err(Fault::BusAbsent)),
        },
        DataSize::Word => match B::word_written(bus, address, raw as u16) {
            (b, Some(_)) => (b, Ok(())),
            (b, None) => (b, Err(Fault::BusAbsent)),
        },
        DataSize::LongWord => match long_written::<B>(bus, address, raw as u32) {
            (b, Some(_)) => (b, Ok(())),
            (b, None) => (b, Err(Fault::BusAbsent)),
        },
    }
}

/// The operand of width `size` at `location`.
#[verifier::opaque]
pub open spec fn loaded<B: MappedHardware>(
    regs: RegisterState,
    bus: B::V,
    size: DataSize,
    location: Location,
) -> (B::V, Result<Value, Fault>) {
    match location {
        Location::Data(n) => (bus, Ok(Value::spec_from_raw(size, regs.d[n as int]))),
        Location::Address(n) => (bus, Ok(Value::spec_from_raw(size, regs.a[n as int]))),
        Location::Memory(address) => memory_read::<B>(bus, size, address),
        Location::Constant(v) => (bus, Ok(Value::spec_from_raw(size, v))),
        Location::StatusRegister => (bus, Ok(Value::spec_from_raw(size, regs.sr() as u32))),
        Location::ConditionCodes => (
            bus,
            Ok(Value::spec_from_raw(size, regs.ccr.spec_bits() as u32)),
        ),
        Location::UserStackPointer => (bus, Ok(Value::spec_from_raw(size, regs.usp))),
    }
}

/// The 32 bits of a register of which the lowest `size.bits()` are those of
/// `value` and the others those of `old`.
pub open spec fn low_replaced(old: u32, size: DataSize, value: Value) -> u32 {
    let low = value.coerced(size).unsigned();
    match size {
        DataSize::Byte => ((old / 0x100) * 0x100 + low) as u32,
        DataSize::Word => ((old / 0x1_0000) * 0x1_0000 + low) as u32,
        DataSize::LongWord => low as u32,
    }
}

/// A register whose low bits were replaced holds the operand in its low
/// bits, with the operand's sign, and its old bits above them.
pub proof fn lemma_low_replaced(old: u32, size: DataSize, value: Value)
    ensures
        Value::spec_from_raw(size, low_replaced(old, size, value)) == value.coerced(size),
        size.high(low_replaced(old, size, value) as int) == size.high(old as int),
        value.coerced(size).coerced(size) == value.coerced(size),
{
    let low = value.coerced(size).unsigned();
    match size {
        DataSize::Byte => {
            let kept = old as int / 0x100;
            assert(low == value.unsigned() % 0x100);
            assert(0 <= kept * 0x100 <= old);
            assert((kept * 0x100 + low) % 0x100 == low);
            assert((kept * 0x100 + low) / 0x100 == kept);
            assert(low % 0x100 == low);
        },
        DataSize::Word => {
            let kept = old as int / 0x1_0000;
            assert(low == value.unsigned() % 0x1_0000);
            assert(0 <= kept * 0x1_0000 <= old);
            assert((kept * 0x1_0000 + low) % 0x1_0000 == low);
            assert((kept * 0x1_0000 + low) / 0x1_0000 == kept);
            assert(low % 0x1_0000 == low);
        },
        DataSize::LongWord => {
            assert(low == value.unsigned() % 0x1_0000_0000);
            assert(old as int / 0x1_0000_0000 == 0);
            assert(low / 0x1_0000_0000 == 0);
            assert(low % 0x1_0000_0000 == low);
        },
    }
}

/// Replacing the low bits of a register is masking them out and putting the
/// operand in their place.
pub proof fn lemma_low_replaced_by_mask(old: u32, byte: u8, word: u16, long: u32)
    ensures
        low_replaced(old, DataSize::Byte, Value::Byte(byte)) == (old & 0xffff_ff00) | (byte as u32),
        low_replaced(old, DataSize::Word, Value::Word(word)) == (old & 0xffff_0000) | (word as u32),
        low_replaced(old, DataSize::LongWord, Value::LongWord(long)) == long,
{
    assert(((old / 0x100) * 0x100 + byte) as u32 == (old & 0xffff_ff00) | (byte as u32))
        by (bit_vector);
    assert(((old / 0x1_0000) * 0x1_0000 + word) as u32 == (old & 0xffff_0000) | (word as u32))
        by (bit_vector);
}

/// The state after `value`, brought to width `size`, is put at `location`.
///
/// A data register keeps the bits above the operand; an address register,
/// the user stack pointer and the status register take the operand with zeros
/// above it; the condition codes take its five lowest bits. Nothing can be
/// put at a constant.
#[verifier::opaque]
pub open spec fn stored<B: MappedHardware>(
    regs: RegisterState,
    bus: B::V,
    size: DataSize,
    location: Location,
    value: Value,
) -> Outcome<B::V, ()> {
    let raw = value.coerced(size).unsigned();
    match location {
        Location::Data(n) => (
            regs.with_data(n as int, low_replaced(regs.d[n as int], size, value)),
            bus,
            Ok(()),
        ),
        Location::Address(n) => (regs.with_address(n as int, raw as u32), bus, Ok(())),
        Location::Memory(address) => {
            let (b, r) = memory_written::<B>(bus, size, address, value);
            (regs, b, r)
        },
        Location::Constant(_) => (regs, bus, Err(Fault::IllegalStateUse)),
        Location::StatusRegister => (regs.with_sr((raw % 0x1_0000) as u16), bus, Ok(())),
        Location::ConditionCodes => (
            regs.with_ccr(ConditionCode::of_bits(raw % 0x100)),
            bus,
            Ok(()),
        ),
        Location::UserStackPointer => (regs.with_usp(raw as u32), bus, Ok(())),
    }
}

/// The operand of width `size` that `mode` names: its location is worked
/// out, then read.
#[verifier::opaque]
pub open spec fn operand_read<B: MappedHardware>(
    regs: RegisterState,
    bus: B::V,
    size: DataSize,
    mode: AddressingMode,
) -> Outcome<B::V, Value> {
    match resolved::<B>(regs, bus, size, mode) {
        (r, b, Ok(location)) => {
            let (after, value) = loaded::<B>(r, b, size, location);
            (r, after, value)
        },
        (r, b, Err(fault)) => (r, b, Err(fault)),
    }
}

/// The state after `value` is written to the operand that `mode` names: its
/// location is worked out, then written.
#[verifier::opaque]
pub open spec fn operand_written<B: MappedHardware>(
    regs: RegisterState,
    bus: B::V,
    size: DataSize,
    mode: AddressingMode,
    value: Value,
) -> Outcome<B::V, ()> {
    match resolved::<B>(regs, bus, size, mode) {
        (r, b, Ok(location)) => stored::<B>(r, b, size, location, value),
        (r, b, Err(fault)) => (r, b, Err(fault)),
    }
}

/// The effective address that `mode` names, with no access to memory at that
/// address. An immediate operand stands for the address it holds; the modes
/// that name no memory have no address.
#[verifier::opaque]
pub open spec fn effective_address<B: MappedHardware>(
    regs: RegisterState,
    bus: B::V,
    size: DataSize,
    mode: AddressingMode,
) -> Outcome<B::V, u32> {
    match resolved::<B>(regs, bus, size, mode) {
        (r, b, Ok(Location::Memory(address))) => (r, b, Ok(address)),
        (r, b, Ok(Location::Constant(v))) => if mode is Immediate {
            (r, b, Ok(v))
        } else {
            (r, b, Err(Fault::IllegalStateUse))
        },
        (r, b, Ok(_)) => (r, b, Err(Fault::IllegalStateUse)),
        (r, b, Err(fault)) => (r, b, Err(fault)),
    }
}

/// Working out an operand keeps A7 in step with the stack pointer in use.
pub proof fn lemma_resolved_keeps_wf<B: MappedHardware>(
    regs: RegisterState,
    bus: B::V,
    size: DataSize,
    mode: AddressingMode,
)
    requires
        regs.wf(),
        mode.wf(),
    ensures
        resolved::<B>(regs, bus, size, mode).0.wf(),
        effective_address::<B>(regs, bus, size, mode).0.wf(),
{
    crate::cpu::lemma_fetch_keeps_wf::<B>(regs, bus, size);
    assert(resolved::<B>(regs, bus, size, mode).0.wf()) by {
        reveal(resolved);
        match mode {
            AddressingMode::AddressIndirectPostIncrement(n) => {
                crate::registers::lemma_other_writes_keep_a7_in_step(
                    regs,
                    n as int,
                    regs.a[n as int].wrapping_add(step_of(size, n)),
                    regs.ccr,
                );
            },
            AddressingMode::AddressIndirectPreDecrement(n) => {
                crate::registers::lemma_other_writes_keep_a7_in_step(
                    regs,
                    n as int,
                    regs.a[n as int].wrapping_sub(step_of(size, n)),
                    regs.ccr,
                );
            },
            _ => {},
        }
    }
    assert(effective_address::<B>(regs, bus, size, mode).0 == resolved::<B>(
        regs,
        bus,
        size,
        mode,
    ).0) by {
        reveal(effective_address);
    }
}

/// The index that the extension word `ext` asks for.
fn read_index(cpu: &Cpu, ext: u16) -> (r: u32)
    ensures
        r == index_value(cpu@.regs, ext),
{
    let reg: usize = ((ext / 0x1000) % 8) as usize;
    let whole: u32 = if ext >= 0x8000 {
        cpu.registers.address(reg)
    } else {
        cpu.registers.data(reg)
    };
    if (ext / 0x800) % 2 == 1 {
        whole
    } else {
        Value::Word((whole % 0x1_0000) as u16).sign_extend()
    }
}

/// The factor that the extension word `ext` asks for.
fn read_scale(ext: u16) -> (r: u32)
    ensures
        r == index_scale(ext),
{
    let code: u16 = (ext / 0x200) % 4;
    if code == 0 {
        1
    } else if code == 1 {
        2
    } else if code == 2 {
        4
    } else {
        8
    }
}

/// Works out where the operand of width `size` that `mode` names is.
pub fn resolve<B: MappedHardware>(
    cpu: &mut Cpu,
    bus: &mut B,
    size: DataSize,
    mode: AddressingMode,
) -> (r: Result<Location, Fault>)
    requires
        mode.wf(),
    ensures
        (final(cpu)@, final(bus)@, r) == on_registers(
            old(cpu)@,
            resolved::<B>(old(cpu)@.regs, old(bus)@, size, mode),
        ),
        r matches Ok(location) ==> location.wf(),
        old(cpu)@.regs.wf() ==> final(cpu)@.regs.wf(),
{
    proof {
        reveal(resolved);
    }
    match mode {
        AddressingMode::DataDirect(n) => Ok(Location::Data(n)),
        AddressingMode::AddressDirect(n) => Ok(Location::Address(n)),
        AddressingMode::AddressIndirect(n) => Ok(Location::Memory(cpu.registers.address(n))),
        AddressingMode::AddressIndirectPostIncrement(n) => {
            let address: u32 = cpu.registers.address(n);
            let step: u32 = if n == 7 && size == DataSize::Byte {
                2
            } else {
                size.byte_count()
            };
            cpu.registers.set_address(n, address.wrapping_add(step));
            Ok(Location::Memory(address))
        },
        AddressingMode::AddressIndirectPreDecrement(n) => {
            let step: u32 = if n == 7 && size == DataSize::Byte {
                2
            } else {
                size.byte_count()
            };
            let address: u32 = cpu.registers.address(n).wrapping_sub(step);
            cpu.registers.set_address(n, address);
            Ok(Location::Memory(address))
        },
        AddressingMode::AddressIndirectDisplacement(n) => {
            let base: u32 = cpu.registers.address(n);
            let word: u16 = cpu.fetch_word(bus)?;
            Ok(Location::Memory(base.wrapping_add(Value::Word(word).sign_extend())))
        },
        AddressingMode::AddressIndirectIndexedAndDisplacement(n) => {
            let base: u32 = cpu.registers.address(n);
            let ext: u16 = cpu.fetch_word(bus)?;
            if (ext / 0x100) % 2 == 0 {
                let displacement: u32 = Value::Byte((ext % 0x100) as u8).sign_extend();
                let index: u32 = read_index(cpu, ext);
                Ok(
                    Location::Memory(
                        base.wrapping_add(displacement).wrapping_add(
                            index.wrapping_mul(read_scale(ext)),
                        ),
                    ),
                )
            } else if ext % 8 != 0 {
                Err(Fault::DecodeFailure)
            } else {
                Err(Fault::Unimplemented)
            }
        },
        AddressingMode::AbsoluteAddress(DataSize::Byte) => Err(Fault::IllegalStateUse),
        AddressingMode::AbsoluteAddress(DataSize::Word) => {
            let word: u16 = cpu.fetch_word(bus)?;
            Ok(Location::Memory(word as u32))
        },
        AddressingMode::AbsoluteAddress(DataSize::LongWord) => {
            let long: u32 = cpu.fetch_long(bus)?;
            Ok(Location::Memory(long))
        },
        AddressingMode::PCIndirectDisplacementMode => {
            let base: u32 = cpu.registers.pc();
            let ext: u16 = cpu.fetch_word(bus)?;
            let displacement: u32 = Value::Byte((ext % 0x100) as u8).sign_extend();
            let index: u32 = read_index(cpu, ext);
            Ok(Location::Memory(base.wrapping_add(displacement).wrapping_add(index)))
        },
        AddressingMode::PCIndirectIndexed => Err(Fault::Unimplemented),
        AddressingMode::Immediate => {
            let value: Value = cpu.read_immediate(bus, size)?;
            Ok(Location::Constant(value.to_u32()))
        },
        AddressingMode::Value(v) => Ok(Location::Constant(v)),
        AddressingMode::Vector(v) => Ok(Location::Constant(v)),
        AddressingMode::SR => Ok(Location::StatusRegister),
        AddressingMode::CCR => Ok(Location::ConditionCodes),
        AddressingMode::USP => Ok(Location::UserStackPointer),
    }
}

/// Reads an operand of width `size` from memory at `address`.
pub fn read_memory<B: MappedHardware>(bus: &mut B, size: DataSize, address: u32) -> (r: Result<
    Value,
    Fault,
>)
    ensures
        (final(bus)@, r) == memory_read::<B>(old(bus)@, size, address),
        r matches Ok(value) ==> value.size() == size,
{
    proof {
        reveal(memory_read);
    }
    match size {
        DataSize::Byte => match bus.read_byte(address) {
            Some(byte) => Ok(Value::Byte(byte)),
            None => Err(Fault::BusAbsent),
        },
        DataSize::Word => match bus.read_word(address) {
            Some(word) => Ok(Value::Word(word)),
            None => Err(Fault::BusAbsent),
        },
        DataSize::LongWord => match bus.read_long(address) {
            Some(long) => Ok(Value::LongWord(long)),
            None => Err(Fault::BusAbsent),
        },
    }
}

/// Writes `value`, brought to width `size`, to memory at `address`.
pub fn write_memory<B: MappedHardware>(bus: &mut B, size: DataSize, address: u32, value: Value) -> (r:
    Result<(), Fault>)
    ensures
        (final(bus)@, r) == memory_written::<B>(old(bus)@, size, address, value),
{
    proof {
        reveal(memory_written);
    }
    let sized: Value = value.coerce(size);
    let taken: bool = match size {
        DataSize::Byte => bus.write_byte(address, sized.to_u8()).is_some(),
        DataSize::Word => bus.write_word(address, sized.to_u16()).is_some(),
        DataSize::LongWord => bus.write_long(address, sized.to_u32()).is_some(),
    };
    if taken {
        Ok(())
    } else {
        Err(Fault::BusAbsent)
    }
}

/// Reads the operand of width `size` at `location`.
pub fn load<B: MappedHardware>(cpu: &Cpu, bus: &mut B, size: DataSize, location: Location) -> (r:
    Result<Value, Fault>)
    requires
        location.wf(),
    ensures
        (final(bus)@, r) == loaded::<B>(cpu@.regs, old(bus)@, size, location),
        r matches Ok(value) ==> value.size() == size,
{
    proof {
        reveal(loaded);
    }
    match location {
        Location::Data(n) => Ok(Value::from_raw(size, cpu.registers.data(n))),
        Location::Address(n) => Ok(Value::from_raw(size, cpu.registers.address(n))),
        Location::Memory(address) => read_memory(bus, size, address),
        Location::Constant(v) => Ok(Value::from_raw(size, v)),
        Location::StatusRegister => Ok(Value::from_raw(size, cpu.registers.sr() as u32)),
        Location::ConditionCodes => Ok(Value::from_raw(size, cpu.registers.ccr().bits() as u32)),
        Location::UserStackPointer => Ok(Value::from_raw(size, cpu.registers.usp())),
    }
}

/// The new value of a register whose lowest bits become those of `value`.
pub fn replace_low(old: u32, size: DataSize, value: Value) -> (r: u32)
    ensures
        r == low_replaced(old, size, value),
{
    let low: u32 = value.coerce(size).to_u32();
    match size {
        DataSize::Byte => (old / 0x100) * 0x100 + low,
        DataSize::Word => (old / 0x1_0000) * 0x1_0000 + low,
        DataSize::LongWord => low,
    }
}

/// Puts `value`, brought to width `size`, at `location`.
pub fn store<B: MappedHardware>(
    cpu: &mut Cpu,
    bus: &mut B,
    size: DataSize,
    location: Location,
    value: Value,
) -> (r: Result<(), Fault>)
    requires
        location.wf(),
    ensures
        (final(cpu)@, final(bus)@, r) == on_registers(
            old(cpu)@,
            stored::<B>(old(cpu)@.regs, old(bus)@, size, location, value),
        ),
        old(cpu)@.regs.wf() ==> final(cpu)@.regs.wf(),
{
    proof {
        reveal(stored);
    }
    let raw: u32 = value.coerce(size).to_u32();
    match location {
        Location::Data(n) => {
            let old: u32 = cpu.registers.data(n);
            cpu.registers.set_data(n, replace_low(old, size, value));
            Ok(())
        },
        Location::Address(n) => {
            cpu.registers.set_address(n, raw);
            Ok(())
        },
        Location::Memory(address) => write_memory(bus, size, address, value),
        Location::Constant(_) => Err(Fault::IllegalStateUse),
        Location::StatusRegister => {
            cpu.registers.set_sr((raw % 0x1_0000) as u16);
            Ok(())
        },
        Location::ConditionCodes => {
            cpu.registers.set_ccr((raw % 0x100) as u8);
            Ok(())
        },
        Location::UserStackPointer => {
            cpu.registers.set_usp(raw);
            Ok(())
        },
    }
}

/// Yields the effective address of the operand that `mode` names, without
/// the access to memory at that address.
pub fn read_addressing_mode_address<B: MappedHardware>(
    cpu: &mut Cpu,
    bus: &mut B,
    size: DataSize,
    addressing_mode: AddressingMode,
) -> (r: Result<u32, Fault>)
    requires
        addressing_mode.wf(),
    ensures
        (final(cpu)@, final(bus)@, r) == on_registers(
            old(cpu)@,
            effective_address::<B>(old(cpu)@.regs, old(bus)@, size, addressing_mode),
        ),
        old(cpu)@.regs.wf() ==> final(cpu)@.regs.wf(),
{
    proof {
        reveal(effective_address);
    }
    match resolve(cpu, bus, size, addressing_mode)? {
        Location::Memory(address) => Ok(address),
        Location::Constant(v) => match addressing_mode {
            AddressingMode::Immediate => Ok(v),
            _ => Err(Fault::IllegalStateUse),
        },
        _ => Err(Fault::IllegalStateUse),
    }
}

/// Reads the operand of width `size` that `mode` names.
pub fn read_addressing_mode<B: MappedHardware>(
    cpu: &mut Cpu,
    bus: &mut B,
    size: DataSize,
    addressing_mode: AddressingMode,
) -> (r: Result<Value, Fault>)
    requires
        addressing_mode.wf(),
    ensures
        (final(cpu)@, final(bus)@, r) == on_registers(
            old(cpu)@,
            operand_read::<B>(old(cpu)@.regs, old(bus)@, size, addressing_mode),
        ),
        r matches Ok(value) ==> value.size() == size,
        old(cpu)@.regs.wf() ==> final(cpu)@.regs.wf(),
{
    proof {
        reveal(operand_read);
    }
    let location: Location = resolve(cpu, bus, size, addressing_mode)?;
    load(cpu, bus, size, location)
}

/// Writes `value` to the operand of width `size` that `mode` names.
pub fn write_addressing_mode<B: MappedHardware>(
    cpu: &mut Cpu,
    bus: &mut B,
    size: DataSize,
    addressing_mode: AddressingMode,
    value: Value,
) -> (r: Result<(), Fault>)
    requires
        addressing_mode.wf(),
    ensures
        (final(cpu)@, final(bus)@, r) == on_registers(
            old(cpu)@,
            operand_written::<B>(old(cpu)@.regs, old(bus)@, size, addressing_mode, value),
        ),
        old(cpu)@.regs.wf() ==> final(cpu)@.regs.wf(),
{
    proof {
        reveal(operand_written);
    }
    let location: Location = resolve(cpu, bus, size, addressing_mode)?;
    store(cpu, bus, size, location, value)
}

} // verus!
