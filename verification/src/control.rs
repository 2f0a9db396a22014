//! The instructions that change the flow of the program: branches, loops,
//! jumps, returns and STOP.
use vstd::prelude::*;
use crate::addressing_mode::{
    effective_address, lemma_resolved_keeps_wf, load, loaded, operand_read, read_addressing_mode,
    read_addressing_mode_address, resolve, resolved, store, stored, AddressingMode, Condition,
    DataSize, Location,
};
use crate::cpu::{
    lemma_push_then_pop, long_popped, on_registers, pushed, word_popped, Cpu, CpuOutcome,
    CpuState, Outcome,
};
use crate::fault::Fault;
use crate::mapped_hardware::{long_read, MappedHardware};
use crate::memory::{lemma_long_written_then_read, Memory};
use crate::registers::{sign_extended, ConditionCode, RegisterState};
use crate::value::Value;

verus! {

/// Whether `condition` holds under the condition codes `ccr`.
pub open spec fn condition_holds(ccr: ConditionCode, condition: Condition) -> bool {
    match condition {
        Condition::T => true,
        Condition::F => false,
        Condition::HI => !ccr.c && !ccr.z,
        Condition::LS => ccr.c || ccr.z,
        Condition::CC => !ccr.c,
        Condition::CS => ccr.c,
        Condition::NE => !ccr.z,
        Condition::EQ => ccr.z,
        Condition::VC => !ccr.v,
        Condition::VS => ccr.v,
        Condition::PL => !ccr.n,
        Condition::MI => ccr.n,
        Condition::GE => ccr.n == ccr.v,
        Condition::LT => ccr.n != ccr.v,
        Condition::GT => !ccr.z && ccr.n == ccr.v,
        Condition::LE => ccr.z || ccr.n != ccr.v,
    }
}

/// The displacement of a branch, sign-extended to 32 bits. A displacement
/// that the opcode holds is its low byte; any other operand is read at width
/// `size`, which for the immediate mode takes the word after the opcode. A
/// long word is no displacement of the program counter.
#[verifier::opaque]
pub open spec fn displacement_read<B: MappedHardware>(
    regs: RegisterState,
    bus: B::V,
    size: DataSize,
    mode: AddressingMode,
) -> Outcome<B::V, u32> {
    match mode {
        AddressingMode::Value(v) => (
            regs,
            bus,
            Ok(sign_extended(Value::spec_from_raw(DataSize::Byte, v))),
        ),
        _ => match operand_read::<B>(regs, bus, size, mode) {
            (r, b, Ok(value)) => if value is LongWord {
                (r, b, Err(Fault::IllegalStateUse))
            } else {
                (r, b, Ok(sign_extended(value)))
            },
            (r, b, Err(fault)) => (r, b, Err(fault)),
        },
    }
}

/// BRA: the program counter becomes the address after the opcode plus the
/// displacement.
#[verifier::opaque]
pub open spec fn branched<B: MappedHardware>(
    regs: RegisterState,
    bus: B::V,
    mode: AddressingMode,
) -> Outcome<B::V, ()> {
    match displacement_read::<B>(regs, bus, DataSize::Word, mode) {
        (r, b, Ok(displacement)) => (
            r.with_pc(regs.pc.wrapping_add(displacement)),
            b,
            Ok(()),
        ),
        (r, b, Err(fault)) => (r, b, Err(fault)),
    }
}

/// Bcc: a branch that is taken where `condition` holds; else the program
/// goes on behind the displacement.
#[verifier::opaque]
pub open spec fn branched_on<B: MappedHardware>(
    regs: RegisterState,
    bus: B::V,
    size: DataSize,
    condition: Condition,
    mode: AddressingMode,
) -> Outcome<B::V, ()> {
    match displacement_read::<B>(regs, bus, size, mode) {
        (r, b, Ok(displacement)) => if condition_holds(regs.ccr, condition) {
            (r.with_pc(regs.pc.wrapping_add(displacement)), b, Ok(()))
        } else {
            (r, b, Ok(()))
        },
        (r, b, Err(fault)) => (r, b, Err(fault)),
    }
}

/// BSR: the address after the opcode is pushed as a long word, then the
/// branch is taken.
#[verifier::opaque]
pub open spec fn branched_to_subroutine<B: MappedHardware>(
    regs: RegisterState,
    bus: B::V,
    mode: AddressingMode,
) -> Outcome<B::V, ()> {
    match displacement_read::<B>(regs, bus, DataSize::Word, mode) {
        (r, b, Ok(displacement)) => match pushed::<B>(
            r,
            b,
            DataSize::LongWord,
            Value::LongWord(regs.pc),
        ) {
            (r2, b2, Ok(_)) => (r2.with_pc(regs.pc.wrapping_add(displacement)), b2, Ok(())),
            (r2, b2, Err(fault)) => (r2, b2, Err(fault)),
        },
        (r, b, Err(fault)) => (r, b, Err(fault)),
    }
}

/// The low word of a counter after it is counted down by one, wrapping from
/// 0 to 0xFFFF, which is -1.
pub open spec fn counted_down(counter: Value) -> u16 {
    let low = counter.unsigned() % 0x1_0000;
    if low == 0 {
        0xffff
    } else {
        (low - 1) as u16
    }
}

/// DBcc: where `condition` holds nothing happens but that the displacement
/// word is passed. Else the low word of the counter is counted down by one,
/// and unless it has become -1 the program counter becomes the address of the
/// displacement word plus the displacement.
#[verifier::opaque]
pub open spec fn looped<B: MappedHardware>(
    regs: RegisterState,
    bus: B::V,
    condition: Condition,
    counter: AddressingMode,
    mode: AddressingMode,
) -> Outcome<B::V, ()> {
    match resolved::<B>(regs, bus, DataSize::Word, counter) {
        (r1, b1, Ok(location)) => match loaded::<B>(r1, b1, DataSize::Word, location) {
            (b2, Ok(count)) => match operand_read::<B>(r1, b2, DataSize::Word, mode) {
                (r3, b3, Ok(displacement)) => if condition_holds(regs.ccr, condition) {
                    (r3, b3, Ok(()))
                } else {
                    match stored::<B>(
                        r3,
                        b3,
                        DataSize::Word,
                        location,
                        Value::Word(counted_down(count)),
                    ) {
                        (r4, b4, Ok(_)) => if counted_down(count) != 0xffff {
                            (
                                r4.with_pc(r1.pc.wrapping_add(sign_extended(displacement))),
                                b4,
                                Ok(()),
                            )
                        } else {
                            (r4, b4, Ok(()))
                        },
                        (r4, b4, Err(fault)) => (r4, b4, Err(fault)),
                    }
                },
                (r3, b3, Err(fault)) => (r3, b3, Err(fault)),
            },
            (b2, Err(fault)) => (r1, b2, Err(fault)),
        },
        (r1, b1, Err(fault)) => (r1, b1, Err(fault)),
    }
}

/// JMP: the program counter becomes the effective address of the operand.
#[verifier::opaque]
pub open spec fn jumped<B: MappedHardware>(
    regs: RegisterState,
    bus: B::V,
    mode: AddressingMode,
) -> Outcome<B::V, ()> {
    match effective_address::<B>(regs, bus, DataSize::LongWord, mode) {
        (r, b, Ok(target)) => (r.with_pc(target), b, Ok(())),
        (r, b, Err(fault)) => (r, b, Err(fault)),
    }
}

/// JSR: the address behind the instruction is pushed as a long word, then
/// the jump is made.
#[verifier::opaque]
pub open spec fn jumped_to_subroutine<B: MappedHardware>(
    regs: RegisterState,
    bus: B::V,
    mode: AddressingMode,
) -> Outcome<B::V, ()> {
    match effective_address::<B>(regs, bus, DataSize::LongWord, mode) {
        (r, b, Ok(target)) => match pushed::<B>(r, b, DataSize::LongWord, Value::LongWord(r.pc)) {
            (r2, b2, Ok(_)) => (r2.with_pc(target), b2, Ok(())),
            (r2, b2, Err(fault)) => (r2, b2, Err(fault)),
        },
        (r, b, Err(fault)) => (r, b, Err(fault)),
    }
}

/// RTS: the program counter is popped as a long word.
#[verifier::opaque]
pub open spec fn returned<B: MappedHardware>(regs: RegisterState, bus: B::V) -> Outcome<B::V, ()> {
    match long_popped::<B>(regs, bus) {
        (r, b, Ok(target)) => (r.with_pc(target), b, Ok(())),
        (r, b, Err(fault)) => (r, b, Err(fault)),
    }
}

/// RTE: the status register is popped as a word and the program counter as a
/// long word, both from the stack in use at the start; then both are written.
#[verifier::opaque]
pub open spec fn returned_from_exception<B: MappedHardware>(
    regs: RegisterState,
    bus: B::V,
) -> Outcome<B::V, ()> {
    match word_popped::<B>(regs, bus) {
        (r1, b1, Ok(status)) => match long_popped::<B>(r1, b1) {
            (r2, b2, Ok(target)) => (r2.with_sr(status).with_pc(target), b2, Ok(())),
            (r2, b2, Err(fault)) => (r2, b2, Err(fault)),
        },
        (r1, b1, Err(fault)) => (r1, b1, Err(fault)),
    }
}

/// STOP: the operand is read as a word and, in supervisor state, written to
/// the status register; the processor is then stopped.
#[verifier::opaque]
pub open spec fn halted<B: MappedHardware>(
    cpu: CpuState,
    bus: B::V,
    mode: AddressingMode,
) -> CpuOutcome<B::V, ()> {
    match operand_read::<B>(cpu.regs, bus, DataSize::Word, mode) {
        (r, b, Ok(value)) => (
            CpuState {
                regs: if r.ssr.s {
                    r.with_sr((value.unsigned() % 0x1_0000) as u16)
                } else {
                    r
                },
                stopped: true,
                ..cpu
            },
            b,
            Ok(()),
        ),
        (r, b, Err(fault)) => (CpuState { regs: r, ..cpu }, b, Err(fault)),
    }
}

/// On a memory that reaches the four bytes below the stack pointer, a JSR
/// followed by an RTS comes back: the program counter is the address behind
/// the JSR, and the stack pointer is what it was when the JSR had worked out
/// its operand. The long word pushed in between is that return address.
pub proof fn lemma_subroutine_returns(regs: RegisterState, memory: Seq<u8>, mode: AddressingMode)
    requires
        regs.wf(),
        mode.wf(),
        effective_address::<Memory>(regs, memory, DataSize::LongWord, mode).2 is Ok,
        ({
            let (r, m, _) = effective_address::<Memory>(regs, memory, DataSize::LongWord, mode);
            &&& r.sp().wrapping_sub(4) + 3 < m.len()
            &&& r.sp().wrapping_sub(4) + 3 <= u32::MAX
        }),
    ensures
        ({
            let (r, m, target) = effective_address::<Memory>(
                regs,
                memory,
                DataSize::LongWord,
                mode,
            );
            let (called, m1, call) = jumped_to_subroutine::<Memory>(regs, memory, mode);
            let (back, m2, ret) = returned::<Memory>(called, m1);
            &&& call is Ok
            &&& called.pc == target->Ok_0
            &&& called.sp() == r.sp().wrapping_sub(4)
            &&& long_read::<Memory>(m1, called.sp()).1 == Some(r.pc)
            &&& ret is Ok
            &&& back.pc == r.pc
            &&& back.sp() == r.sp()
            &&& m2 == m1
        }),
{
    reveal(jumped_to_subroutine);
    reveal(returned);
    reveal(pushed);
    reveal(long_popped);
    let (r, m, target) = effective_address::<Memory>(regs, memory, DataSize::LongWord, mode);
    lemma_resolved_keeps_wf::<Memory>(regs, memory, DataSize::LongWord, mode);
    lemma_push_then_pop(r, m, r.pc);
    let lowered = r.sp().wrapping_sub(4);
    lemma_long_written_then_read(m, lowered, r.pc);
}

impl Cpu {
    /// Whether `condition` holds under the present condition codes.
    pub fn read_condition_code(&self, condition: Condition) -> (r: bool)
        ensures
            r == condition_holds(self@.regs.ccr, condition),
    {
        let ccr: ConditionCode = self.registers.ccr();
        match condition {
            Condition::T => true,
            Condition::F => false,
            Condition::HI => !ccr.c && !ccr.z,
            Condition::LS => ccr.c || ccr.z,
            Condition::CC => !ccr.c,
            Condition::CS => ccr.c,
            Condition::NE => !ccr.z,
            Condition::EQ => ccr.z,
            Condition::VC => !ccr.v,
            Condition::VS => ccr.v,
            Condition::PL => !ccr.n,
            Condition::MI => ccr.n,
            Condition::GE => ccr.n == ccr.v,
            Condition::LT => ccr.n != ccr.v,
            Condition::GT => !ccr.z && ccr.n == ccr.v,
            Condition::LE => ccr.z || ccr.n != ccr.v,
        }
    }

    /// Reads the displacement of a branch.
    pub fn read_displacement<B: MappedHardware>(
        &mut self,
        bus: &mut B,
        size: DataSize,
        mode: AddressingMode,
    ) -> (r: Result<u32, Fault>)
        requires
            mode.wf(),
        ensures
            (final(self)@, final(bus)@, r) == on_registers(
                old(self)@,
                displacement_read::<B>(old(self)@.regs, old(bus)@, size, mode),
            ),
            old(self)@.regs.wf() ==> final(self)@.regs.wf(),
    {
        proof {
            reveal(displacement_read);
        }
        match mode {
            AddressingMode::Value(v) => Ok(Value::from_raw(DataSize::Byte, v).sign_extend()),
            _ => {
                match read_addressing_mode(self, bus, size, mode)? {
                    Value::LongWord(_) => Err(Fault::IllegalStateUse),
                    value => Ok(value.sign_extend()),
                }
            },
        }
    }

    /// NOP: nothing happens.
    pub fn nop(&self) {
    }

    /// BRA.
    pub fn bra<B: MappedHardware>(&mut self, bus: &mut B, addressing_mode: AddressingMode) -> (r:
        Result<(), Fault>)
        requires
            addressing_mode.wf(),
        ensures
            (final(self)@, final(bus)@, r) == on_registers(
                old(self)@,
                branched::<B>(old(self)@.regs, old(bus)@, addressing_mode),
            ),
            old(self)@.regs.wf() ==> final(self)@.regs.wf(),
    {
        proof {
            reveal(branched);
        }
        let base: u32 = self.registers.pc();
        let displacement: u32 = self.read_displacement(bus, DataSize::Word, addressing_mode)?;
        self.registers.set_pc(base.wrapping_add(displacement));
        Ok(())
    }

    /// Bcc.
    pub fn bcc<B: MappedHardware>(
        &mut self,
        bus: &mut B,
        size: DataSize,
        condition: Condition,
        addressing_mode: AddressingMode,
    ) -> (r: Result<(), Fault>)
        requires
            addressing_mode.wf(),
        ensures
            (final(self)@, final(bus)@, r) == on_registers(
                old(self)@,
                branched_on::<B>(old(self)@.regs, old(bus)@, size, condition, addressing_mode),
            ),
            old(self)@.regs.wf() ==> final(self)@.regs.wf(),
    {
        proof {
            reveal(branched_on);
        }
        let base: u32 = self.registers.pc();
        let holds: bool = self.read_condition_code(condition);
        let displacement: u32 = self.read_displacement(bus, size, addressing_mode)?;
        if holds {
            self.registers.set_pc(base.wrapping_add(displacement));
        }
        Ok(())
    }

    /// BSR.
    pub fn bsr<B: MappedHardware>(&mut self, bus: &mut B, addressing_mode: AddressingMode) -> (r:
        Result<(), Fault>)
        requires
            addressing_mode.wf(),
        ensures
            (final(self)@, final(bus)@, r) == on_registers(
                old(self)@,
                branched_to_subroutine::<B>(old(self)@.regs, old(bus)@, addressing_mode),
            ),
            old(self)@.regs.wf() ==> final(self)@.regs.wf(),
    {
        proof {
            reveal(branched_to_subroutine);
        }
        let base: u32 = self.registers.pc();
        let displacement: u32 = self.read_displacement(bus, DataSize::Word, addressing_mode)?;
        self.push_stack(bus, DataSize::LongWord, Value::LongWord(base))?;
        self.registers.set_pc(base.wrapping_add(displacement));
        Ok(())
    }

    /// DBcc.
    pub fn db<B: MappedHardware>(
        &mut self,
        bus: &mut B,
        condition: Condition,
        data: AddressingMode,
        displacement: AddressingMode,
    ) -> (r: Result<(), Fault>)
        requires
            data.wf(),
            displacement.wf(),
        ensures
            (final(self)@, final(bus)@, r) == on_registers(
                old(self)@,
                looped::<B>(old(self)@.regs, old(bus)@, condition, data, displacement),
            ),
            old(self)@.regs.wf() ==> final(self)@.regs.wf(),
    {
        proof {
            reveal(looped);
        }
        let holds: bool = self.read_condition_code(condition);
        let location: Location = resolve(self, bus, DataSize::Word, data)?;
        let count: Value = load(self, bus, DataSize::Word, location)?;
        let base: u32 = self.registers.pc();
        let label: Value = read_addressing_mode(self, bus, DataSize::Word, displacement)?;
        if !holds {
            let low: u16 = count.to_u16();
            let next: u16 = if low == 0 {
                0xffff
            } else {
                low - 1
            };
            store(self, bus, DataSize::Word, location, Value::Word(next))?;
            if next != 0xffff {
                self.registers.set_pc(base.wrapping_add(label.sign_extend()));
            }
        }
        Ok(())
    }

    /// JMP.
    pub fn jmp<B: MappedHardware>(&mut self, bus: &mut B, label: AddressingMode) -> (r: Result<
        (),
        Fault,
    >)
        requires
            label.wf(),
        ensures
            (final(self)@, final(bus)@, r) == on_registers(
                old(self)@,
                jumped::<B>(old(self)@.regs, old(bus)@, label),
            ),
            old(self)@.regs.wf() ==> final(self)@.regs.wf(),
    {
        proof {
            reveal(jumped);
        }
        let target: u32 = read_addressing_mode_address(self, bus, DataSize::LongWord, label)?;
        self.registers.set_pc(target);
        Ok(())
    }

    /// JSR.
    pub fn jsr<B: MappedHardware>(&mut self, bus: &mut B, label: AddressingMode) -> (r: Result<
        (),
        Fault,
    >)
        requires
            label.wf(),
        ensures
            (final(self)@, final(bus)@, r) == on_registers(
                old(self)@,
                jumped_to_subroutine::<B>(old(self)@.regs, old(bus)@, label),
            ),
            old(self)@.regs.wf() ==> final(self)@.regs.wf(),
    {
        proof {
            reveal(jumped_to_subroutine);
        }
        let target: u32 = read_addressing_mode_address(self, bus, DataSize::LongWord, label)?;
        let next: u32 = self.registers.pc();
        self.push_stack(bus, DataSize::LongWord, Value::LongWord(next))?;
        self.registers.set_pc(target);
        Ok(())
    }

    /// RTS.
    pub fn rts<B: MappedHardware>(&mut self, bus: &mut B) -> (r: Result<(), Fault>)
        ensures
            (final(self)@, final(bus)@, r) == on_registers(
                old(self)@,
                returned::<B>(old(self)@.regs, old(bus)@),
            ),
            old(self)@.regs.wf() ==> final(self)@.regs.wf(),
    {
        proof {
            reveal(returned);
        }
        let target: u32 = self.pop_long(bus)?;
        self.registers.set_pc(target);
        Ok(())
    }

    /// RTE.
    pub fn rte<B: MappedHardware>(&mut self, bus: &mut B) -> (r: Result<(), Fault>)
        ensures
            (final(self)@, final(bus)@, r) == on_registers(
                old(self)@,
                returned_from_exception::<B>(old(self)@.regs, old(bus)@),
            ),
            old(self)@.regs.wf() ==> final(self)@.regs.wf(),
    {
        proof {
            reveal(returned_from_exception);
        }
        let status: u16 = self.pop_word(bus)?;
        let target: u32 = self.pop_long(bus)?;
        self.registers.set_sr(status);
        self.registers.set_pc(target);
        Ok(())
    }

    /// STOP.
    pub fn stop<B: MappedHardware>(&mut self, bus: &mut B, ccr: AddressingMode) -> (r: Result<
        (),
        Fault,
    >)
        requires
            ccr.wf(),
        ensures
            (final(self)@, final(bus)@, r) == halted::<B>(old(self)@, old(bus)@, ccr),
            old(self)@.regs.wf() ==> final(self)@.regs.wf(),
    {
        proof {
            reveal(halted);
        }
        let value: Value = read_addressing_mode(self, bus, DataSize::Word, ccr)?;
        if self.registers.ssr().s {
            self.registers.set_sr(value.to_u16());
        }
        self.stopped = true;
        Ok(())
    }
}

} // verus!
