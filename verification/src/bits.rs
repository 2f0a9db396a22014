//! The instructions that test an operand or work on one bit of it: TST, CLR
//! and the four bit operations.
use vstd::prelude::*;
use crate::{bit_is_set, set_bit, test_bit, with_bit_set};
use crate::addressing_mode::{
    load, loaded, operand_read, operand_written, read_addressing_mode, resolve, resolved, store,
    stored, write_addressing_mode, AddressingMode, DataSize, Location,
};
use crate::arithmetic::keeping_x;
use crate::cpu::{on_registers, Cpu, Outcome};
use crate::fault::Fault;
use crate::mapped_hardware::MappedHardware;
use crate::registers::{ConditionCode, RegisterState};
use crate::value::{flags_of, logic_flags, Value};

verus! {

/// TST: the operand is read; N and Z describe it, V and C are clear, X is
/// kept.
#[verifier::opaque]
pub open spec fn tested<B: MappedHardware>(
    regs: RegisterState,
    bus: B::V,
    size: DataSize,
    mode: AddressingMode,
) -> Outcome<B::V, ()> {
    match operand_read::<B>(regs, bus, size, mode) {
        (r, b, Ok(value)) => (r.with_ccr(keeping_x(logic_flags(size, value), r.ccr)), b, Ok(())),
        (r, b, Err(fault)) => (r, b, Err(fault)),
    }
}

/// CLR: zero is written to the operand; Z is set, N, V and C are clear, X is
/// kept.
#[verifier::opaque]
pub open spec fn cleared<B: MappedHardware>(
    regs: RegisterState,
    bus: B::V,
    size: DataSize,
    mode: AddressingMode,
) -> Outcome<B::V, ()> {
    match operand_written::<B>(regs, bus, size, mode, Value::spec_from_raw(size, 0)) {
        (r, b, Ok(_)) => (
            r.with_ccr(ConditionCode { x: r.ccr.x, n: false, z: true, v: false, c: false }),
            b,
            Ok(()),
        ),
        (r, b, Err(fault)) => (r, b, Err(fault)),
    }
}

/// The four operations on a single bit.
#[derive(Debug, PartialEq, Eq, Structural, Copy, Clone)]
pub enum BitOperation {
    /// Test the bit.
    Btst,
    /// Test the bit and change it.
    Bchg,
    /// Test the bit and clear it.
    Bclr,
    /// Test the bit and set it.
    Bset,
}

/// The number of bits among which a bit number chooses: 32 in a long word, 8
/// in a byte. There are no bit operations on words.
pub open spec fn bit_modulus(size: DataSize) -> Option<u32> {
    match size {
        DataSize::Byte => Some(8),
        DataSize::Word => None,
        DataSize::LongWord => Some(32),
    }
}

/// The width at which the bit number is read: one extension word where it is
/// an immediate operand, else a whole register.
pub open spec fn bit_number_size(mode: AddressingMode) -> DataSize {
    if mode is Immediate {
        DataSize::Byte
    } else {
        DataSize::LongWord
    }
}

/// `value` after the operation on bit number `bit`.
pub open spec fn bit_changed(operation: BitOperation, value: u32, bit: u32) -> u32 {
    match operation {
        BitOperation::Btst => value,
        BitOperation::Bchg => value ^ (1u32 << bit),
        BitOperation::Bclr => value & !(1u32 << bit),
        BitOperation::Bset => with_bit_set(value, bit),
    }
}

/// Each bit operation does to its bit what its name says (BTST nothing) and
/// leaves every other bit as it was.
pub proof fn lemma_bit_changed(operation: BitOperation, value: u32, bit: u32, other: u32)
    requires
        bit < 32,
        other < 32,
    ensures
        bit_is_set(bit_changed(operation, value, bit), other) == if other != bit {
            bit_is_set(value, other)
        } else {
            match operation {
                BitOperation::Btst => bit_is_set(value, bit),
                BitOperation::Bchg => !bit_is_set(value, bit),
                BitOperation::Bclr => false,
                BitOperation::Bset => true,
            }
        },
{
    assert({
        &&& (((value | (1u32 << bit)) >> other) & 1 == 1) == (other == bit || (value >> other) & 1
            == 1)
        &&& (((value & !(1u32 << bit)) >> other) & 1 == 1) == (other != bit && (value >> other) & 1
            == 1)
        &&& (((value ^ (1u32 << bit)) >> other) & 1 == 1) == ((other == bit) != ((value >> other)
            & 1 == 1))
    }) by (bit_vector)
        requires
            bit < 32,
            other < 32,
    ;
}

/// BTST, BCHG, BCLR and BSET: the bit number is read and taken modulo the
/// operand's width; Z is set where that bit of the operand is zero, and the
/// other condition codes stay; but for BTST the operand is written back with
/// the bit changed.
#[verifier::opaque]
pub open spec fn bit_operated<B: MappedHardware>(
    regs: RegisterState,
    bus: B::V,
    operation: BitOperation,
    size: DataSize,
    number: AddressingMode,
    mode: AddressingMode,
) -> Outcome<B::V, ()> {
    match bit_modulus(size) {
        None => (regs, bus, Err(Fault::IllegalStateUse)),
        Some(modulus) => match operand_read::<B>(regs, bus, bit_number_size(number), number) {
            (r1, b1, Ok(read)) => match resolved::<B>(r1, b1, size, mode) {
                (r2, b2, Ok(location)) => match loaded::<B>(r2, b2, size, location) {
                    (b3, Ok(before)) => {
                        let bit = (read.unsigned() as u32) % modulus;
                        let old = before.unsigned() as u32;
                        let (r4, b4, written) = if operation == BitOperation::Btst {
                            (r2, b3, Ok(()))
                        } else {
                            stored::<B>(
                                r2,
                                b3,
                                size,
                                location,
                                Value::spec_from_raw(size, bit_changed(operation, old, bit)),
                            )
                        };
                        match written {
                            Ok(_) => (
                                r4.with_ccr(ConditionCode { z: !bit_is_set(old, bit), ..r4.ccr }),
                                b4,
                                Ok(()),
                            ),
                            Err(fault) => (r4, b4, Err(fault)),
                        }
                    },
                    (b3, Err(fault)) => (r2, b3, Err(fault)),
                },
                (r2, b2, Err(fault)) => (r2, b2, Err(fault)),
            },
            (r1, b1, Err(fault)) => (r1, b1, Err(fault)),
        },
    }
}

impl Cpu {
    /// TST.
    pub fn tst<B: MappedHardware>(&mut self, bus: &mut B, size: DataSize, ea: AddressingMode) -> (r:
        Result<(), Fault>)
        requires
            ea.wf(),
        ensures
            (final(self)@, final(bus)@, r) == on_registers(
                old(self)@,
                tested::<B>(old(self)@.regs, old(bus)@, size, ea),
            ),
            old(self)@.regs.wf() ==> final(self)@.regs.wf(),
    {
        proof {
            reveal(tested);
        }
        let value: Value = read_addressing_mode(self, bus, size, ea)?;
        let x: bool = self.registers.ccr().x;
        self.registers.set_flags(ConditionCode { x, ..flags_of(size, value) });
        Ok(())
    }

    /// CLR.
    pub fn clr<B: MappedHardware>(
        &mut self,
        bus: &mut B,
        size: DataSize,
        destination: AddressingMode,
    ) -> (r: Result<(), Fault>)
        requires
            destination.wf(),
        ensures
            (final(self)@, final(bus)@, r) == on_registers(
                old(self)@,
                cleared::<B>(old(self)@.regs, old(bus)@, size, destination),
            ),
            old(self)@.regs.wf() ==> final(self)@.regs.wf(),
    {
        proof {
            reveal(cleared);
        }
        write_addressing_mode(self, bus, size, destination, Value::from_raw(size, 0))?;
        let x: bool = self.registers.ccr().x;
        self.registers.set_flags(ConditionCode { x, n: false, z: true, v: false, c: false });
        Ok(())
    }

    /// Carries out an operation on a single bit.
    pub fn bit_operate<B: MappedHardware>(
        &mut self,
        bus: &mut B,
        operation: BitOperation,
        size: DataSize,
        bit: AddressingMode,
        ea: AddressingMode,
    ) -> (r: Result<(), Fault>)
        requires
            bit.wf(),
            ea.wf(),
        ensures
            (final(self)@, final(bus)@, r) == on_registers(
                old(self)@,
                bit_operated::<B>(old(self)@.regs, old(bus)@, operation, size, bit, ea),
            ),
            old(self)@.regs.wf() ==> final(self)@.regs.wf(),
    {
        proof {
            reveal(bit_operated);
        }
        let modulus: u32 = match size {
            DataSize::Byte => 8,
            DataSize::Word => {
                return Err(Fault::IllegalStateUse);
            },
            DataSize::LongWord => 32,
        };
        let number_size: DataSize = match bit {
            AddressingMode::Immediate => DataSize::Byte,
            _ => DataSize::LongWord,
        };
        let read: Value = read_addressing_mode(self, bus, number_size, bit)?;
        let location: Location = resolve(self, bus, size, ea)?;
        let before: Value = load(self, bus, size, location)?;
        let number: u32 = read.to_u32() % modulus;
        let old: u32 = before.to_u32();
        let zero: bool = !test_bit(old, number);
        match operation {
            BitOperation::Btst => {},
            BitOperation::Bchg => {
                store(self, bus, size, location, Value::from_raw(size, old ^ (1u32 << number)))?;
            },
            BitOperation::Bclr => {
                store(self, bus, size, location, Value::from_raw(size, old & !(1u32 << number)))?;
            },
            BitOperation::Bset => {
                store(self, bus, size, location, Value::from_raw(size, set_bit(old, number)))?;
            },
        }
        let ccr: ConditionCode = self.registers.ccr();
        self.registers.set_flags(ConditionCode { z: zero, ..ccr });
        Ok(())
    }

    /// BTST.
    pub fn btst<B: MappedHardware>(
        &mut self,
        bus: &mut B,
        size: DataSize,
        bit: AddressingMode,
        ea: AddressingMode,
    ) -> (r: Result<(), Fault>)
        requires
            bit.wf(),
            ea.wf(),
        ensures
            (final(self)@, final(bus)@, r) == on_registers(
                old(self)@,
                bit_operated::<B>(old(self)@.regs, old(bus)@, BitOperation::Btst, size, bit, ea),
            ),
            old(self)@.regs.wf() ==> final(self)@.regs.wf(),
    {
        self.bit_operate(bus, BitOperation::Btst, size, bit, ea)
    }

    /// BSET.
    pub fn bset<B: MappedHardware>(
        &mut self,
        bus: &mut B,
        size: DataSize,
        bit: AddressingMode,
        ea: AddressingMode,
    ) -> (r: Result<(), Fault>)
        requires
            bit.wf(),
            ea.wf(),
        ensures
            (final(self)@, final(bus)@, r) == on_registers(
                old(self)@,
                bit_operated::<B>(old(self)@.regs, old(bus)@, BitOperation::Bset, size, bit, ea),
            ),
            old(self)@.regs.wf() ==> final(self)@.regs.wf(),
    {
        self.bit_operate(bus, BitOperation::Bset, size, bit, ea)
    }
}

} // verus!
