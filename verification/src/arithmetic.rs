//! The two-operand instructions: additions, subtractions, the logical
//! operations and comparisons.
use vstd::prelude::*;
use crate::addressing_mode::{
    load, loaded, operand_read, read_addressing_mode, resolve, resolved, store, stored,
    AddressingMode, DataSize, Location,
};
use crate::cpu::{on_registers, Cpu, Outcome};
use crate::fault::Fault;
use crate::mapped_hardware::MappedHardware;
use crate::registers::{ConditionCode, RegisterState};
use crate::value::{
    and_at, difference_at, difference_flags, eor_at, logic_flags, or_at, sum_at, sum_flags, Value,
};

verus! {

/// The two-operand operations that the engine carries out.
#[derive(Debug, PartialEq, Eq, Structural, Copy, Clone)]
pub enum Operation {
    Add,
    Sub,
    And,
    Or,
    Eor,
    /// A subtraction of which only the condition codes are kept.
    Compare,
}

impl Operation {
    /// What the operation makes of the destination operand and the source
    /// operand at width `size`: the result and its condition codes.
    pub open spec fn applied(self, size: DataSize, destination: Value, source: Value) -> (
        Value,
        ConditionCode,
    ) {
        match self {
            Operation::Add => (
                sum_at(size, destination, source),
                sum_flags(size, destination, source),
            ),
            Operation::Sub => (
                difference_at(size, destination, source),
                difference_flags(size, destination, source),
            ),
            Operation::Compare => (
                difference_at(size, destination, source),
                difference_flags(size, destination, source),
            ),
            Operation::And => (
                and_at(size, destination, source),
                logic_flags(size, and_at(size, destination, source)),
            ),
            Operation::Or => (
                or_at(size, destination, source),
                logic_flags(size, or_at(size, destination, source)),
            ),
            Operation::Eor => (
                eor_at(size, destination, source),
                logic_flags(size, eor_at(size, destination, source)),
            ),
        }
    }

    /// Whether the result goes back to the destination.
    pub open spec fn writes_back(self) -> bool {
        self != Operation::Compare
    }

    /// Whether X comes from the operation; else the X at hand is kept.
    pub open spec fn sets_x(self) -> bool {
        self == Operation::Add || self == Operation::Sub
    }
}

/// The codes `flags` with X taken from `kept`.
pub open spec fn keeping_x(flags: ConditionCode, kept: ConditionCode) -> ConditionCode {
    ConditionCode { x: kept.x, ..flags }
}

/// A two-operand instruction: the source is read, the destination is worked
/// out and read, the operation is applied, the result is written to the
/// destination unless the operation is a comparison, and the condition codes
/// are set. An addition or a subtraction sets all five; the others keep X.
#[verifier::opaque]
pub open spec fn operated<B: MappedHardware>(
    regs: RegisterState,
    bus: B::V,
    operation: Operation,
    size: DataSize,
    source: AddressingMode,
    destination: AddressingMode,
) -> Outcome<B::V, ()> {
    match operand_read::<B>(regs, bus, size, source) {
        (r1, b1, Ok(value)) => match resolved::<B>(r1, b1, size, destination) {
            (r2, b2, Ok(location)) => match loaded::<B>(r2, b2, size, location) {
                (b3, Ok(before)) => {
                    let (result, flags) = operation.applied(size, before, value);
                    let (r4, b4, written) = if operation.writes_back() {
                        stored::<B>(r2, b3, size, location, result)
                    } else {
                        (r2, b3, Ok(()))
                    };
                    match written {
                        Ok(_) => (
                            r4.with_ccr(
                                if operation.sets_x() {
                                    flags
                                } else {
                                    keeping_x(flags, r4.ccr)
                                },
                            ),
                            b4,
                            Ok(()),
                        ),
                        Err(fault) => (r4, b4, Err(fault)),
                    }
                },
                (b3, Err(fault)) => (r2, b3, Err(fault)),
            },
            (r2, b2, Err(fault)) => (r2, b2, Err(fault)),
        },
        (r1, b1, Err(fault)) => (r1, b1, Err(fault)),
    }
}

/// The destination of an OR or an EOR: where the opcode names the immediate
/// mode as destination, the condition codes are meant.
pub open spec fn logical_destination(destination: AddressingMode) -> AddressingMode {
    match destination {
        AddressingMode::Immediate => AddressingMode::CCR,
        _ => destination,
    }
}

impl Cpu {
    /// Carries out a two-operand instruction.
    pub fn operate<B: MappedHardware>(
        &mut self,
        bus: &mut B,
        operation: Operation,
        size: DataSize,
        value: AddressingMode,
        destination: AddressingMode,
    ) -> (r: Result<(), Fault>)
        requires
            value.wf(),
            destination.wf(),
        ensures
            (final(self)@, final(bus)@, r) == on_registers(
                old(self)@,
                operated::<B>(old(self)@.regs, old(bus)@, operation, size, value, destination),
            ),
            old(self)@.regs.wf() ==> final(self)@.regs.wf(),
    {
        proof {
            reveal(operated);
        }
        let source: Value = read_addressing_mode(self, bus, size, value)?;
        let location: Location = resolve(self, bus, size, destination)?;
        let before: Value = load(self, bus, size, location)?;
        let (result, flags): (Value, ConditionCode) = match operation {
            Operation::Add => before.add_cc(size, source),
            Operation::Sub => before.sub_cc(size, source),
            Operation::Compare => before.sub_cc(size, source),
            Operation::And => before.and_cc(size, source),
            Operation::Or => before.or_cc(size, source),
            Operation::Eor => before.eor_cc(size, source),
        };
        match operation {
            Operation::Compare => {},
            _ => {
                store(self, bus, size, location, result)?;
            },
        }
        let x: bool = match operation {
            Operation::Add => flags.x,
            Operation::Sub => flags.x,
            _ => self.registers.ccr().x,
        };
        self.registers.set_flags(ConditionCode { x, ..flags });
        Ok(())
    }

    /// ADD, ADDI and ADDQ.
    pub fn add<B: MappedHardware>(
        &mut self,
        bus: &mut B,
        size: DataSize,
        value: AddressingMode,
        destination: AddressingMode,
    ) -> (r: Result<(), Fault>)
        requires
            value.wf(),
            destination.wf(),
        ensures
            (final(self)@, final(bus)@, r) == on_registers(
                old(self)@,
                operated::<B>(
                    old(self)@.regs,
                    old(bus)@,
                    Operation::Add,
                    size,
                    value,
                    destination,
                ),
            ),
            old(self)@.regs.wf() ==> final(self)@.regs.wf(),
    {
        self.operate(bus, Operation::Add, size, value, destination)
    }

    /// SUB, SUBI, SUBQ and SUBA.
    pub fn sub<B: MappedHardware>(
        &mut self,
        bus: &mut B,
        size: DataSize,
        value: AddressingMode,
        destination: AddressingMode,
    ) -> (r: Result<(), Fault>)
        requires
            value.wf(),
            destination.wf(),
        ensures
            (final(self)@, final(bus)@, r) == on_registers(
                old(self)@,
                operated::<B>(
                    old(self)@.regs,
                    old(bus)@,
                    Operation::Sub,
                    size,
                    value,
                    destination,
                ),
            ),
            old(self)@.regs.wf() ==> final(self)@.regs.wf(),
    {
        self.operate(bus, Operation::Sub, size, value, destination)
    }

    /// AND and ANDI.
    pub fn and<B: MappedHardware>(
        &mut self,
        bus: &mut B,
        size: DataSize,
        source: AddressingMode,
        dest: AddressingMode,
    ) -> (r: Result<(), Fault>)
        requires
            source.wf(),
            dest.wf(),
        ensures
            (final(self)@, final(bus)@, r) == on_registers(
                old(self)@,
                operated::<B>(old(self)@.regs, old(bus)@, Operation::And, size, source, dest),
            ),
            old(self)@.regs.wf() ==> final(self)@.regs.wf(),
    {
        self.operate(bus, Operation::And, size, source, dest)
    }

    /// OR and ORI; the immediate mode as destination means the condition
    /// codes.
    pub fn or<B: MappedHardware>(
        &mut self,
        bus: &mut B,
        size: DataSize,
        value: AddressingMode,
        destination: AddressingMode,
    ) -> (r: Result<(), Fault>)
        requires
            value.wf(),
            destination.wf(),
        ensures
            (final(self)@, final(bus)@, r) == on_registers(
                old(self)@,
                operated::<B>(
                    old(self)@.regs,
                    old(bus)@,
                    Operation::Or,
                    size,
                    value,
                    logical_destination(destination),
                ),
            ),
            old(self)@.regs.wf() ==> final(self)@.regs.wf(),
    {
        let destination: AddressingMode = match destination {
            AddressingMode::Immediate => AddressingMode::CCR,
            _ => destination,
        };
        self.operate(bus, Operation::Or, size, value, destination)
    }

    /// EOR and EORI; the immediate mode as destination means the condition
    /// codes.
    pub fn eor<B: MappedHardware>(
        &mut self,
        bus: &mut B,
        size: DataSize,
        value: AddressingMode,
        destination: AddressingMode,
    ) -> (r: Result<(), Fault>)
        requires
            value.wf(),
            destination.wf(),
        ensures
            (final(self)@, final(bus)@, r) == on_registers(
                old(self)@,
                operated::<B>(
                    old(self)@.regs,
                    old(bus)@,
                    Operation::Eor,
                    size,
                    value,
                    logical_destination(destination),
                ),
            ),
            old(self)@.regs.wf() ==> final(self)@.regs.wf(),
    {
        let destination: AddressingMode = match destination {
            AddressingMode::Immediate => AddressingMode::CCR,
            _ => destination,
        };
        self.operate(bus, Operation::Eor, size, value, destination)
    }

    /// CMP and CMPI.
    pub fn cmp<B: MappedHardware>(
        &mut self,
        bus: &mut B,
        size: DataSize,
        source: AddressingMode,
        dest: AddressingMode,
    ) -> (r: Result<(), Fault>)
        requires
            source.wf(),
            dest.wf(),
        ensures
            (final(self)@, final(bus)@, r) == on_registers(
                old(self)@,
                operated::<B>(old(self)@.regs, old(bus)@, Operation::Compare, size, source, dest),
            ),
            old(self)@.regs.wf() ==> final(self)@.regs.wf(),
    {
        self.operate(bus, Operation::Compare, size, source, dest)
    }
}

} // verus!
