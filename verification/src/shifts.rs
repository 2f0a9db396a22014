//! The logical shifts LSL and LSR.
use vstd::prelude::*;
use crate::addressing_mode::{
    load, loaded, operand_read, read_addressing_mode, resolve, resolved, store, stored,
    AddressingMode, DataSize, Location,
};
use crate::arithmetic::keeping_x;
use crate::cpu::{on_registers, Cpu, Outcome};
use crate::fault::Fault;
use crate::mapped_hardware::MappedHardware;
use crate::registers::{ConditionCode, RegisterState};
use crate::value::{shift_flags, shift_left, shift_right, shifted_left, shifted_right, Value};

verus! {

/// The number of positions of a shift: a data register gives it modulo 64;
/// any other operand gives it as it is, but that zero means eight.
#[verifier::opaque]
pub open spec fn shift_count<B: MappedHardware>(
    regs: RegisterState,
    bus: B::V,
    size: DataSize,
    count: AddressingMode,
) -> Outcome<B::V, u32> {
    match count {
        AddressingMode::DataDirect(_) => match operand_read::<B>(
            regs,
            bus,
            DataSize::LongWord,
            count,
        ) {
            (r, b, Ok(value)) => (r, b, Ok((value.unsigned() % 64) as u32)),
            (r, b, Err(fault)) => (r, b, Err(fault)),
        },
        _ => match operand_read::<B>(regs, bus, size, count) {
            (r, b, Ok(value)) => (
                r,
                b,
                Ok(
                    if value.unsigned() == 0 {
                        8u32
                    } else {
                        value.unsigned() as u32
                    },
                ),
            ),
            (r, b, Err(fault)) => (r, b, Err(fault)),
        },
    }
}

/// LSL (`left`) and LSR: the count is read, the operand is read and shifted,
/// the condition codes are set, and the result is written back. With a count
/// of zero X is kept.
#[verifier::opaque]
pub open spec fn shifted<B: MappedHardware>(
    regs: RegisterState,
    bus: B::V,
    left: bool,
    size: DataSize,
    count: AddressingMode,
    mode: AddressingMode,
) -> Outcome<B::V, ()> {
    match shift_count::<B>(regs, bus, size, count) {
        (r1, b1, Ok(positions)) => match resolved::<B>(r1, b1, size, mode) {
            (r2, b2, Ok(location)) => match loaded::<B>(r2, b2, size, location) {
                (b3, Ok(before)) => {
                    let (result, out) = if left {
                        shifted_left(size, positions, before)
                    } else {
                        shifted_right(size, positions, before)
                    };
                    let flags = shift_flags(size, result, out);
                    stored::<B>(
                        r2.with_ccr(
                            if positions == 0 {
                                keeping_x(flags, r2.ccr)
                            } else {
                                flags
                            },
                        ),
                        b3,
                        size,
                        location,
                        result,
                    )
                },
                (b3, Err(fault)) => (r2, b3, Err(fault)),
            },
            (r2, b2, Err(fault)) => (r2, b2, Err(fault)),
        },
        (r1, b1, Err(fault)) => (r1, b1, Err(fault)),
    }
}

impl Cpu {
    /// Reads the number of positions of a shift.
    pub fn read_shift_count<B: MappedHardware>(
        &mut self,
        bus: &mut B,
        size: DataSize,
        count: AddressingMode,
    ) -> (r: Result<u32, Fault>)
        requires
            count.wf(),
        ensures
            (final(self)@, final(bus)@, r) == on_registers(
                old(self)@,
                shift_count::<B>(old(self)@.regs, old(bus)@, size, count),
            ),
            old(self)@.regs.wf() ==> final(self)@.regs.wf(),
    {
        proof {
            reveal(shift_count);
        }
        match count {
            AddressingMode::DataDirect(_) => {
                let value: Value = read_addressing_mode(self, bus, DataSize::LongWord, count)?;
                Ok(value.to_u32() % 64)
            },
            _ => {
                let value: Value = read_addressing_mode(self, bus, size, count)?;
                let positions: u32 = value.to_u32();
                if positions == 0 {
                    Ok(8)
                } else {
                    Ok(positions)
                }
            },
        }
    }

    /// Carries out a logical shift, to the left or to the right.
    pub fn shift<B: MappedHardware>(
        &mut self,
        bus: &mut B,
        left: bool,
        size: DataSize,
        count: AddressingMode,
        destination: AddressingMode,
    ) -> (r: Result<(), Fault>)
        requires
            count.wf(),
            destination.wf(),
        ensures
            (final(self)@, final(bus)@, r) == on_registers(
                old(self)@,
                shifted::<B>(old(self)@.regs, old(bus)@, left, size, count, destination),
            ),
            old(self)@.regs.wf() ==> final(self)@.regs.wf(),
    {
        proof {
            reveal(shifted);
        }
        let positions: u32 = self.read_shift_count(bus, size, count)?;
        let location: Location = resolve(self, bus, size, destination)?;
        let before: Value = load(self, bus, size, location)?;
        let (result, flags): (Value, ConditionCode) = if left {
            shift_left(size, positions, before)
        } else {
            shift_right(size, positions, before)
        };
        let x: bool = if positions == 0 {
            self.registers.ccr().x
        } else {
            flags.x
        };
        self.registers.set_flags(ConditionCode { x, ..flags });
        store(self, bus, size, location, result)
    }

    /// LSL.
    pub fn lsl<B: MappedHardware>(
        &mut self,
        bus: &mut B,
        size: DataSize,
        count: AddressingMode,
        destination: AddressingMode,
    ) -> (r: Result<(), Fault>)
        requires
            count.wf(),
            destination.wf(),
        ensures
            (final(self)@, final(bus)@, r) == on_registers(
                old(self)@,
                shifted::<B>(old(self)@.regs, old(bus)@, true, size, count, destination),
            ),
            old(self)@.regs.wf() ==> final(self)@.regs.wf(),
    {
        self.shift(bus, true, size, count, destination)
    }

    /// LSR.
    pub fn lsr<B: MappedHardware>(
        &mut self,
        bus: &mut B,
        size: DataSize,
        count: AddressingMode,
        destination: AddressingMode,
    ) -> (r: Result<(), Fault>)
        requires
            count.wf(),
            destination.wf(),
        ensures
            (final(self)@, final(bus)@, r) == on_registers(
                old(self)@,
                shifted::<B>(old(self)@.regs, old(bus)@, false, size, count, destination),
            ),
            old(self)@.regs.wf() ==> final(self)@.regs.wf(),
    {
        self.shift(bus, false, size, count, destination)
    }
}

} // verus!
