//! The processor: its state, the instruction stream, the stack, interrupts,
//! the reset and the step.
use vstd::prelude::*;
use crate::addressing_mode::{
    operand_read, operand_written, read_addressing_mode, write_addressing_mode, AddressingMode,
    DataSize,
};
use crate::arithmetic::{logical_destination, operated, Operation};
use crate::bits::{bit_operated, cleared, tested, BitOperation};
use crate::control::{
    branched, branched_on, branched_to_subroutine, halted, jumped, jumped_to_subroutine, looped,
    returned, returned_from_exception,
};
use crate::decoder::{decode, instruction_of};
use crate::fault::Fault;
use crate::instruction_set::Instruction;
use crate::mapped_hardware::{long_read, long_written, low_byte_of, MappedHardware};
use crate::memory::{lemma_long_written_then_read, Memory};
use crate::movement::{address_loaded, address_pushed, linked, moved, multiple_moved};
use crate::registers::{sign_extended, RegisterState, Registers, SupervisorStatusRegister};
use crate::shifts::shifted;
use crate::value::Value;

verus! {

/// A request for an interrupt: its level and, unless the level's own vector
/// is to be used, the address of its handler.
#[derive(Debug, PartialEq, Eq, Structural, Copy, Clone)]
pub struct InterruptRequest {
    pub level: usize,
    pub vector: Option<usize>,
}

/// The processor as a mathematical value.
pub struct CpuState {
    pub regs: RegisterState,
    /// The interrupt requests not yet served, oldest first.
    pub pending: Seq<InterruptRequest>,
    /// Whether the processor waits for an interrupt.
    pub stopped: bool,
}

/// What an operation leaves behind: the registers, the bus, and its result.
pub type Outcome<S, T> = (RegisterState, S, Result<T, Fault>);

/// What an operation on the whole processor leaves behind.
pub type CpuOutcome<S, T> = (CpuState, S, Result<T, Fault>);

/// The outcome for the processor `cpu` of an operation that works on its
/// registers alone.
pub open spec fn on_registers<S, T>(cpu: CpuState, out: Outcome<S, T>) -> CpuOutcome<S, T> {
    (CpuState { regs: out.0, ..cpu }, out.1, out.2)
}

/// The next word of the instruction stream: the word at the program counter,
/// which then moves two bytes on. Where the bus is absent the program counter
/// stays.
#[verifier::opaque]
pub open spec fn word_fetched<B: MappedHardware>(regs: RegisterState, bus: B::V) -> Outcome<
    B::V,
    u16,
> {
    let (after, found) = B::word_read(bus, regs.pc);
    match found {
        Some(word) => (regs.with_pc(regs.pc.wrapping_add(2)), after, Ok(word)),
        None => (regs, after, Err(Fault::BusAbsent)),
    }
}

/// The next long word of the instruction stream; the program counter moves
/// four bytes on.
#[verifier::opaque]
pub open spec fn long_fetched<B: MappedHardware>(regs: RegisterState, bus: B::V) -> Outcome<
    B::V,
    u32,
> {
    let (after, found) = long_read::<B>(bus, regs.pc);
    match found {
        Some(long) => (regs.with_pc(regs.pc.wrapping_add(4)), after, Ok(long)),
        None => (regs, after, Err(Fault::BusAbsent)),
    }
}

/// The immediate operand of width `size` that follows in the instruction
/// stream. A byte takes a whole word, of which it is the low half; a long word
/// takes two words.
#[verifier::opaque]
pub open spec fn immediate_read<B: MappedHardware>(
    regs: RegisterState,
    bus: B::V,
    size: DataSize,
) -> Outcome<B::V, Value> {
    match size {
        DataSize::Byte => match word_fetched::<B>(regs, bus) {
            (r, b, Ok(word)) => (r, b, Ok(Value::Byte(low_byte_of(word)))),
            (r, b, Err(fault)) => (r, b, Err(fault)),
        },
        DataSize::Word => match word_fetched::<B>(regs, bus) {
            (r, b, Ok(word)) => (r, b, Ok(Value::Word(word))),
            (r, b, Err(fault)) => (r, b, Err(fault)),
        },
        DataSize::LongWord => match long_fetched::<B>(regs, bus) {
            (r, b, Ok(long)) => (r, b, Ok(Value::LongWord(long))),
            (r, b, Err(fault)) => (r, b, Err(fault)),
        },
    }
}

/// Reading from the instruction stream keeps A7 in step with the stack
/// pointer in use: it moves the program counter and nothing else.
pub proof fn lemma_fetch_keeps_wf<B: MappedHardware>(
    regs: RegisterState,
    bus: B::V,
    size: DataSize,
)
    requires
        regs.wf(),
    ensures
        word_fetched::<B>(regs, bus).0.wf(),
        long_fetched::<B>(regs, bus).0.wf(),
        immediate_read::<B>(regs, bus, size).0.wf(),
{
    reveal(word_fetched);
    reveal(long_fetched);
    reveal(immediate_read);
}

/// A push of `value` at width `size`: the stack pointer moves down by the
/// operand's width, then the operand is written where it points. A byte is
/// not pushed.
#[verifier::opaque]
pub open spec fn pushed<B: MappedHardware>(
    regs: RegisterState,
    bus: B::V,
    size: DataSize,
    value: Value,
) -> Outcome<B::V, ()> {
    match size {
        DataSize::Byte => (regs, bus, Err(Fault::IllegalStateUse)),
        DataSize::Word => {
            let lowered = regs.with_address(7, regs.sp().wrapping_sub(2));
            let (after, taken) = B::word_written(
                bus,
                lowered.sp(),
                (value.unsigned() % 0x1_0000) as u16,
            );
            (
                lowered,
                after,
                if taken is Some {
                    Ok(())
                } else {
                    Err(Fault::BusAbsent)
                },
            )
        },
        DataSize::LongWord => {
            let lowered = regs.with_address(7, regs.sp().wrapping_sub(4));
            let (after, taken) = long_written::<B>(bus, lowered.sp(), value.unsigned() as u32);
            (
                lowered,
                after,
                if taken is Some {
                    Ok(())
                } else {
                    Err(Fault::BusAbsent)
                },
            )
        },
    }
}

/// A pop of a word: the word where the stack pointer points, which then moves
/// two bytes up. Where the bus is absent the stack pointer stays.
#[verifier::opaque]
pub open spec fn word_popped<B: MappedHardware>(regs: RegisterState, bus: B::V) -> Outcome<
    B::V,
    u16,
> {
    let (after, found) = B::word_read(bus, regs.sp());
    match found {
        Some(word) => (regs.with_address(7, regs.sp().wrapping_add(2)), after, Ok(word)),
        None => (regs, after, Err(Fault::BusAbsent)),
    }
}

/// A pop of a long word; the stack pointer moves four bytes up.
#[verifier::opaque]
pub open spec fn long_popped<B: MappedHardware>(regs: RegisterState, bus: B::V) -> Outcome<
    B::V,
    u32,
> {
    let (after, found) = long_read::<B>(bus, regs.sp());
    match found {
        Some(long) => (regs.with_address(7, regs.sp().wrapping_add(4)), after, Ok(long)),
        None => (regs, after, Err(Fault::BusAbsent)),
    }
}

/// The address at which the vector of an interrupt of level 0 lies; the
/// vector of each further level lies four bytes higher.
pub const AUTOVECTOR_BASE: usize = 60;

/// The address of the handler of `request`: the one it names, or the long
/// word at the vector of its level. An address beyond 32 bits is no address.
#[verifier::opaque]
pub open spec fn handler_address<B: MappedHardware>(bus: B::V, request: InterruptRequest) -> (
    B::V,
    Result<u32, Fault>,
) {
    match request.vector {
        Some(address) => if address <= u32::MAX {
            (bus, Ok(address as u32))
        } else {
            (bus, Err(Fault::IllegalStateUse))
        },
        None => if 4 * request.level + AUTOVECTOR_BASE <= u32::MAX {
            match long_read::<B>(bus, (4 * request.level + AUTOVECTOR_BASE) as u32) {
                (b, Some(address)) => (b, Ok(address)),
                (b, None) => (b, Err(Fault::BusAbsent)),
            }
        } else {
            (bus, Err(Fault::IllegalStateUse))
        },
    }
}

/// An interrupt level as an interrupt mask: at most 7.
pub open spec fn clamped_level(level: usize) -> int {
    if level > 7 {
        7
    } else {
        level as int
    }
}

/// The service of the oldest interrupt request, if there is one: the address
/// of its handler is found; the program counter is pushed as a long word and
/// the status register as a word; the interrupt mask becomes the request's
/// level, at most 7; the request leaves the queue; the program counter becomes
/// the handler's address; and the processor is no longer stopped. A fault
/// leaves the request in the queue.
#[verifier::opaque]
pub open spec fn interrupt_served<B: MappedHardware>(cpu: CpuState, bus: B::V) -> CpuOutcome<
    B::V,
    (),
> {
    if cpu.pending.len() == 0 {
        (cpu, bus, Ok(()))
    } else {
        let request = cpu.pending[0];
        match handler_address::<B>(bus, request) {
            (b1, Ok(handler)) => match pushed::<B>(
                cpu.regs,
                b1,
                DataSize::LongWord,
                Value::LongWord(cpu.regs.pc),
            ) {
                (r2, b2, Ok(_)) => match pushed::<B>(
                    r2,
                    b2,
                    DataSize::Word,
                    Value::Word(r2.sr() as u16),
                ) {
                    (r3, b3, Ok(_)) => (
                        CpuState {
                            regs: r3.with_ssr(
                                r3.ssr.with_interrupt_mask(clamped_level(request.level)),
                            ).with_pc(handler),
                            pending: cpu.pending.remove(0),
                            stopped: false,
                        },
                        b3,
                        Ok(()),
                    ),
                    (r3, b3, Err(fault)) => (CpuState { regs: r3, ..cpu }, b3, Err(fault)),
                },
                (r2, b2, Err(fault)) => (CpuState { regs: r2, ..cpu }, b2, Err(fault)),
            },
            (b1, Err(fault)) => (cpu, b1, Err(fault)),
        }
    }
}

/// The reset: the program counter is set to zero; the long word there
/// becomes the stack pointer, and the long word behind it the program counter.
pub open spec fn reset_done<B: MappedHardware>(regs: RegisterState, bus: B::V) -> Outcome<
    B::V,
    (),
> {
    match long_fetched::<B>(regs.with_pc(0), bus) {
        (r1, b1, Ok(stack)) => match long_fetched::<B>(r1.with_address(7, stack), b1) {
            (r2, b2, Ok(start)) => (r2.with_pc(start), b2, Ok(())),
            (r2, b2, Err(fault)) => (r2, b2, Err(fault)),
        },
        (r1, b1, Err(fault)) => (r1, b1, Err(fault)),
    }
}

/// What the engine does for an arithmetic, logical or comparing
/// instruction; `None` for any other instruction.
pub open spec fn arithmetic_executed<B: MappedHardware>(
    regs: RegisterState,
    bus: B::V,
    instruction: Instruction,
) -> Option<Outcome<B::V, ()>> {
    match instruction {
        Instruction::ADD(size, source, destination) => Some(
            operated::<B>(regs, bus, Operation::Add, size, source, destination),
        ),
        Instruction::ADDI(size, source, destination) => Some(
            operated::<B>(regs, bus, Operation::Add, size, source, destination),
        ),
        Instruction::ADDQ(size, source, destination) => Some(
            operated::<B>(regs, bus, Operation::Add, size, source, destination),
        ),
        Instruction::SUB(size, source, destination) => Some(
            operated::<B>(regs, bus, Operation::Sub, size, source, destination),
        ),
        Instruction::SUBI(size, source, destination) => Some(
            operated::<B>(regs, bus, Operation::Sub, size, source, destination),
        ),
        Instruction::SUBQ(size, source, destination) => Some(
            operated::<B>(regs, bus, Operation::Sub, size, source, destination),
        ),
        Instruction::SUBA(size, source, destination) => Some(
            operated::<B>(regs, bus, Operation::Sub, size, source, destination),
        ),
        Instruction::AND(size, source, destination) => Some(
            operated::<B>(regs, bus, Operation::And, size, source, destination),
        ),
        Instruction::ANDI(size, source, destination) => Some(
            operated::<B>(regs, bus, Operation::And, size, source, destination),
        ),
        Instruction::OR(size, source, destination) => Some(
            operated::<B>(
                regs,
                bus,
                Operation::Or,
                size,
                source,
                logical_destination(destination),
            ),
        ),
        Instruction::ORI(size, source, destination) => Some(
            operated::<B>(
                regs,
                bus,
                Operation::Or,
                size,
                source,
                logical_destination(destination),
            ),
        ),
        Instruction::EOR(size, source, destination) => Some(
            operated::<B>(
                regs,
                bus,
                Operation::Eor,
                size,
                source,
                logical_destination(destination),
            ),
        ),
        Instruction::EORI(size, source, destination) => Some(
            operated::<B>(
                regs,
                bus,
                Operation::Eor,
                size,
                source,
                logical_destination(destination),
            ),
        ),
        Instruction::CMP(size, source, destination) => Some(
            operated::<B>(regs, bus, Operation::Compare, size, source, destination),
        ),
        Instruction::CMPI(size, destination) => Some(
            operated::<B>(
                regs,
                bus,
                Operation::Compare,
                size,
                AddressingMode::Immediate,
                destination,
            ),
        ),
        _ => None,
    }
}

/// What the engine does for an instruction that moves data, tests it, works
/// on one bit of it or shifts it; `None` for any other instruction.
pub open spec fn data_executed<B: MappedHardware>(
    regs: RegisterState,
    bus: B::V,
    instruction: Instruction,
) -> Option<Outcome<B::V, ()>> {
    match instruction {
        Instruction::MOVE(size, source, destination) => Some(
            moved::<B>(regs, bus, size, source, destination),
        ),
        Instruction::MOVEQ(size, source, destination) => Some(
            moved::<B>(regs, bus, size, source, destination),
        ),
        Instruction::MOVEM(size, mode, direction) => Some(
            multiple_moved::<B>(regs, bus, size, mode, direction),
        ),
        Instruction::LEA(mode, register) => Some(address_loaded::<B>(regs, bus, mode, register)),
        Instruction::PEA(mode) => Some(address_pushed::<B>(regs, bus, mode)),
        Instruction::LINK(register, displacement) => Some(
            linked::<B>(regs, bus, register, displacement),
        ),
        Instruction::TST(size, mode) => Some(tested::<B>(regs, bus, size, mode)),
        Instruction::CLR(size, mode) => Some(cleared::<B>(regs, bus, size, mode)),
        Instruction::BTST(size, number, mode) => Some(
            bit_operated::<B>(regs, bus, BitOperation::Btst, size, number, mode),
        ),
        Instruction::BCHG(size, number, mode) => Some(
            bit_operated::<B>(regs, bus, BitOperation::Bchg, size, number, mode),
        ),
        Instruction::BCLR(size, number, mode) => Some(
            bit_operated::<B>(regs, bus, BitOperation::Bclr, size, number, mode),
        ),
        Instruction::BSET(size, number, mode) => Some(
            bit_operated::<B>(regs, bus, BitOperation::Bset, size, number, mode),
        ),
        Instruction::LSLD(size, count, mode) => Some(
            shifted::<B>(regs, bus, true, size, count, mode),
        ),
        Instruction::LSRD(size, count, mode) => Some(
            shifted::<B>(regs, bus, false, size, count, mode),
        ),
        _ => None,
    }
}

/// What the engine does for an instruction that changes the flow of the
/// program; `None` for any other instruction.
pub open spec fn control_executed<B: MappedHardware>(
    cpu: CpuState,
    bus: B::V,
    instruction: Instruction,
) -> Option<CpuOutcome<B::V, ()>> {
    let regs = cpu.regs;
    match instruction {
        Instruction::NOP => Some((cpu, bus, Ok(()))),
        Instruction::BRA(mode) => Some(on_registers(cpu, branched::<B>(regs, bus, mode))),
        Instruction::BSR(mode) => Some(
            on_registers(cpu, branched_to_subroutine::<B>(regs, bus, mode)),
        ),
        Instruction::BCC(size, condition, mode) => Some(
            on_registers(cpu, branched_on::<B>(regs, bus, size, condition, mode)),
        ),
        Instruction::DB(condition, counter, mode) => Some(
            on_registers(cpu, looped::<B>(regs, bus, condition, counter, mode)),
        ),
        Instruction::JMP(mode) => Some(on_registers(cpu, jumped::<B>(regs, bus, mode))),
        Instruction::JSR(mode) => Some(
            on_registers(cpu, jumped_to_subroutine::<B>(regs, bus, mode)),
        ),
        Instruction::RTS => Some(on_registers(cpu, returned::<B>(regs, bus))),
        Instruction::RTE => Some(on_registers(cpu, returned_from_exception::<B>(regs, bus))),
        Instruction::STOP(mode) => Some(halted::<B>(cpu, bus, mode)),
        _ => None,
    }
}

/// What the engine does for `instruction`. The instructions that it does not
/// carry out are faults.
pub open spec fn executed<B: MappedHardware>(
    cpu: CpuState,
    bus: B::V,
    instruction: Instruction,
) -> CpuOutcome<B::V, ()> {
    match arithmetic_executed::<B>(cpu.regs, bus, instruction) {
        Some(out) => on_registers(cpu, out),
        None => match data_executed::<B>(cpu.regs, bus, instruction) {
            Some(out) => on_registers(cpu, out),
            None => match control_executed::<B>(cpu, bus, instruction) {
                Some(out) => out,
                None => (cpu, bus, Err(Fault::Unimplemented)),
            },
        },
    }
}

/// One step of the engine: at most one interrupt request is served; then,
/// unless the processor is stopped, the word at the program counter is read,
/// the program counter moves behind it, and the word is decoded and carried
/// out.
pub open spec fn stepped<B: MappedHardware>(cpu: CpuState, bus: B::V) -> CpuOutcome<B::V, ()> {
    match interrupt_served::<B>(cpu, bus) {
        (c1, b1, Ok(_)) => if c1.stopped {
            (c1, b1, Ok(()))
        } else {
            match word_fetched::<B>(c1.regs, b1) {
                (r2, b2, Ok(opcode)) => match instruction_of(opcode) {
                    Some(instruction) => executed::<B>(
                        CpuState { regs: r2, ..c1 },
                        b2,
                        instruction,
                    ),
                    None => (CpuState { regs: r2, ..c1 }, b2, Err(Fault::DecodeFailure)),
                },
                (r2, b2, Err(fault)) => (CpuState { regs: r2, ..c1 }, b2, Err(fault)),
            }
        },
        (c1, b1, Err(fault)) => (c1, b1, Err(fault)),
    }
}

/// On a memory, a long word that is pushed where the memory reaches, short
/// of the end of the address space, is what a pop then returns, and the pop
/// puts the stack pointer back where it was.
pub proof fn lemma_push_then_pop(regs: RegisterState, memory: Seq<u8>, value: u32)
    requires
        regs.d.len() == 8,
        regs.a.len() == 8,
        regs.sp().wrapping_sub(4) + 3 < memory.len(),
        regs.sp().wrapping_sub(4) + 3 <= u32::MAX,
    ensures
        ({
            let (r1, m1, pushed_result) = pushed::<Memory>(
                regs,
                memory,
                DataSize::LongWord,
                Value::LongWord(value),
            );
            let (r2, m2, popped) = long_popped::<Memory>(r1, m1);
            &&& pushed_result is Ok
            &&& r1.sp() == regs.sp().wrapping_sub(4)
            &&& popped == Ok::<u32, Fault>(value)
            &&& m2 == m1
            &&& r2.sp() == regs.sp()
            &&& r2 == regs.with_address(7, regs.sp())
        }),
{
    reveal(pushed);
    reveal(long_popped);
    let lowered = regs.sp().wrapping_sub(4);
    lemma_long_written_then_read(memory, lowered, value);
    assert(lowered.wrapping_add(4) == regs.sp());
    let r1 = regs.with_address(7, lowered);
    assert(r1.with_address(7, regs.sp()).a =~= regs.with_address(7, regs.sp()).a);
}

/// On a memory, a step at a NOP moves the program counter behind it and
/// changes nothing else.
pub proof fn lemma_step_at_nop(cpu: CpuState, memory: Seq<u8>)
    requires
        cpu.pending.len() == 0,
        !cpu.stopped,
        Memory::word_read(memory, cpu.regs.pc).1 == Some(0x4e71u16),
    ensures
        stepped::<Memory>(cpu, memory) == (
            CpuState { regs: cpu.regs.with_pc(cpu.regs.pc.wrapping_add(2)), ..cpu },
            memory,
            Ok::<(), Fault>(()),
        ),
{
    reveal(interrupt_served);
    reveal(word_fetched);
    assert(instruction_of(0x4e71u16) == Some(Instruction::NOP));
}

/// On a memory, a step at a BRA with the displacement -2 leaves the machine
/// as it was: the branch leads to itself, and the program loops there for
/// ever.
pub proof fn lemma_step_at_branch_to_self(cpu: CpuState, memory: Seq<u8>)
    requires
        cpu.pending.len() == 0,
        !cpu.stopped,
        Memory::word_read(memory, cpu.regs.pc).1 == Some(0x60feu16),
    ensures
        stepped::<Memory>(cpu, memory) == (cpu, memory, Ok::<(), Fault>(())),
{
    reveal(interrupt_served);
    reveal(word_fetched);
    reveal(branched);
    reveal(crate::control::displacement_read);
    assert(instruction_of(0x60feu16) == Some(
        Instruction::BRA(AddressingMode::Value(0xfe)),
    ));
    let fetched = cpu.regs.with_pc(cpu.regs.pc.wrapping_add(2));
    assert(sign_extended(Value::spec_from_raw(DataSize::Byte, 0xfe)) == 0xffff_fffeu32);
    assert(fetched.pc.wrapping_add(0xffff_fffeu32) == cpu.regs.pc);
    assert(fetched.with_pc(cpu.regs.pc) == cpu.regs);
}

/// The processor: its registers, the interrupt requests that wait, and
/// whether it is stopped.
pub struct Cpu {
    pub registers: Registers,
    pub interrupt_requests: Vec<InterruptRequest>,
    pub stopped: bool,
}

impl View for Cpu {
    type V = CpuState;

    open spec fn view(&self) -> CpuState {
        CpuState {
            regs: self.registers@,
            pending: self.interrupt_requests@,
            stopped: self.stopped,
        }
    }
}

impl Default for Cpu {
    /// A processor with all registers zero, no request waiting, not stopped.
    fn default() -> (r: Cpu)
        ensures
            r@.regs == RegisterState::zero(),
            r@.regs.wf(),
            r@.pending.len() == 0,
            !r@.stopped,
    {
        Cpu::new()
    }
}

impl Cpu {
    /// A processor with all registers zero, no request waiting, not stopped.
    pub fn new() -> (r: Cpu)
        ensures
            r@.regs == RegisterState::zero(),
            r@.regs.wf(),
            r@.pending.len() == 0,
            !r@.stopped,
    {
        Cpu { registers: Registers::new(), interrupt_requests: Vec::new(), stopped: false }
    }

    pub fn set_pc(&mut self, new_pc: u32)
        ensures
            final(self)@ == (CpuState { regs: old(self)@.regs.with_pc(new_pc), ..old(self)@ }),
            old(self)@.regs.wf() ==> final(self)@.regs.wf(),
    {
        self.registers.set_pc(new_pc);
    }

    /// Writes the stack pointer in use.
    pub fn set_sp(&mut self, new_sp: u32)
        ensures
            final(self)@ == (CpuState {
                regs: old(self)@.regs.with_address(7, new_sp),
                ..old(self)@
            }),
            final(self)@.regs.sp() == new_sp,
            final(self)@.regs.wf(),
    {
        self.registers.set_sp(new_sp);
    }

    /// Reads the next word of the instruction stream.
    pub fn fetch_word<B: MappedHardware>(&mut self, bus: &mut B) -> (r: Result<u16, Fault>)
        ensures
            (final(self)@, final(bus)@, r) == on_registers(
                old(self)@,
                word_fetched::<B>(old(self)@.regs, old(bus)@),
            ),
            old(self)@.regs.wf() ==> final(self)@.regs.wf(),
    {
        proof {
            reveal(word_fetched);
        }
        let pc: u32 = self.registers.pc();
        match bus.read_word(pc) {
            Some(word) => {
                self.registers.set_pc(pc.wrapping_add(2));
                Ok(word)
            },
            None => Err(Fault::BusAbsent),
        }
    }

    /// Reads the next long word of the instruction stream.
    pub fn fetch_long<B: MappedHardware>(&mut self, bus: &mut B) -> (r: Result<u32, Fault>)
        ensures
            (final(self)@, final(bus)@, r) == on_registers(
                old(self)@,
                long_fetched::<B>(old(self)@.regs, old(bus)@),
            ),
            old(self)@.regs.wf() ==> final(self)@.regs.wf(),
    {
        proof {
            reveal(long_fetched);
        }
        let pc: u32 = self.registers.pc();
        match bus.read_long(pc) {
            Some(long) => {
                self.registers.set_pc(pc.wrapping_add(4));
                Ok(long)
            },
            None => Err(Fault::BusAbsent),
        }
    }

    /// Reads the immediate operand of width `size` that follows in the
    /// instruction stream.
    pub fn read_immediate<B: MappedHardware>(&mut self, bus: &mut B, size: DataSize) -> (r: Result<
        Value,
        Fault,
    >)
        ensures
            (final(self)@, final(bus)@, r) == on_registers(
                old(self)@,
                immediate_read::<B>(old(self)@.regs, old(bus)@, size),
            ),
            r matches Ok(value) ==> value.size() == size,
            old(self)@.regs.wf() ==> final(self)@.regs.wf(),
    {
        proof {
            reveal(immediate_read);
        }
        match size {
            DataSize::Byte => {
                let word: u16 = self.fetch_word(bus)?;
                Ok(Value::Byte((word % 256) as u8))
            },
            DataSize::Word => {
                let word: u16 = self.fetch_word(bus)?;
                Ok(Value::Word(word))
            },
            DataSize::LongWord => {
                let long: u32 = self.fetch_long(bus)?;
                Ok(Value::LongWord(long))
            },
        }
    }

    /// Reads the operand of width `size` that `addressing_mode` names.
    pub fn read_addressing_mode<B: MappedHardware>(
        &mut self,
        bus: &mut B,
        size: DataSize,
        addressing_mode: AddressingMode,
    ) -> (r: Result<Value, Fault>)
        requires
            addressing_mode.wf(),
        ensures
            (final(self)@, final(bus)@, r) == on_registers(
                old(self)@,
                operand_read::<B>(old(self)@.regs, old(bus)@, size, addressing_mode),
            ),
            r matches Ok(value) ==> value.size() == size,
            old(self)@.regs.wf() ==> final(self)@.regs.wf(),
    {
        read_addressing_mode(self, bus, size, addressing_mode)
    }

    /// Writes `value` to the operand of width `size` that `addressing_mode`
    /// names.
    pub fn write_addressing_mode<B: MappedHardware>(
        &mut self,
        bus: &mut B,
        size: DataSize,
        addressing_mode: AddressingMode,
        value: Value,
    ) -> (r: Result<(), Fault>)
        requires
            addressing_mode.wf(),
        ensures
            (final(self)@, final(bus)@, r) == on_registers(
                old(self)@,
                operand_written::<B>(old(self)@.regs, old(bus)@, size, addressing_mode, value),
            ),
            old(self)@.regs.wf() ==> final(self)@.regs.wf(),
    {
        write_addressing_mode(self, bus, size, addressing_mode, value)
    }

    /// Pushes `value` at width `size` on the stack in use.
    pub fn push_stack<B: MappedHardware>(&mut self, bus: &mut B, size: DataSize, value: Value) -> (r:
        Result<(), Fault>)
        ensures
            (final(self)@, final(bus)@, r) == on_registers(
                old(self)@,
                pushed::<B>(old(self)@.regs, old(bus)@, size, value),
            ),
            old(self)@.regs.wf() ==> final(self)@.regs.wf(),
    {
        proof {
            reveal(pushed);
        }
        match size {
            DataSize::Byte => Err(Fault::IllegalStateUse),
            DataSize::Word => {
                let sp: u32 = self.registers.sp().wrapping_sub(2);
                self.registers.set_sp(sp);
                match bus.write_word(sp, value.to_u16()) {
                    Some(_) => Ok(()),
                    None => Err(Fault::BusAbsent),
                }
            },
            DataSize::LongWord => {
                let sp: u32 = self.registers.sp().wrapping_sub(4);
                self.registers.set_sp(sp);
                match bus.write_long(sp, value.to_u32()) {
                    Some(_) => Ok(()),
                    None => Err(Fault::BusAbsent),
                }
            },
        }
    }

    /// Pops a word from the stack in use.
    pub fn pop_word<B: MappedHardware>(&mut self, bus: &mut B) -> (r: Result<u16, Fault>)
        ensures
            (final(self)@, final(bus)@, r) == on_registers(
                old(self)@,
                word_popped::<B>(old(self)@.regs, old(bus)@),
            ),
            old(self)@.regs.wf() ==> final(self)@.regs.wf(),
    {
        proof {
            reveal(word_popped);
        }
        let sp: u32 = self.registers.sp();
        match bus.read_word(sp) {
            Some(word) => {
                self.registers.set_sp(sp.wrapping_add(2));
                Ok(word)
            },
            None => Err(Fault::BusAbsent),
        }
    }

    /// Pops a long word from the stack in use.
    pub fn pop_long<B: MappedHardware>(&mut self, bus: &mut B) -> (r: Result<u32, Fault>)
        ensures
            (final(self)@, final(bus)@, r) == on_registers(
                old(self)@,
                long_popped::<B>(old(self)@.regs, old(bus)@),
            ),
            old(self)@.regs.wf() ==> final(self)@.regs.wf(),
    {
        proof {
            reveal(long_popped);
        }
        let sp: u32 = self.registers.sp();
        match bus.read_long(sp) {
            Some(long) => {
                self.registers.set_sp(sp.wrapping_add(4));
                Ok(long)
            },
            None => Err(Fault::BusAbsent),
        }
    }

    /// Asks for an interrupt of level `interrupt` whose handler is found at
    /// the vector of that level.
    pub fn request_auto_interrupt(&mut self, interrupt: usize)
        ensures
            final(self)@ == (CpuState {
                pending: old(self)@.pending.push(
                    InterruptRequest { level: interrupt, vector: None },
                ),
                ..old(self)@
            }),
    {
        self.interrupt_requests.push(InterruptRequest { level: interrupt, vector: None });
    }

    /// Asks for an interrupt of level `interrupt` whose handler is at
    /// `address`.
    pub fn request_interrupt(&mut self, interrupt: usize, address: usize)
        ensures
            final(self)@ == (CpuState {
                pending: old(self)@.pending.push(
                    InterruptRequest { level: interrupt, vector: Some(address) },
                ),
                ..old(self)@
            }),
    {
        self.interrupt_requests.push(InterruptRequest { level: interrupt, vector: Some(address) });
    }

    /// Finds the address of the handler of `request`.
    pub fn read_handler_address<B: MappedHardware>(bus: &mut B, request: InterruptRequest) -> (r:
        Result<u32, Fault>)
        ensures
            (final(bus)@, r) == handler_address::<B>(old(bus)@, request),
    {
        proof {
            reveal(handler_address);
        }
        match request.vector {
            Some(address) => {
                if address <= u32::MAX as usize {
                    Ok(address as u32)
                } else {
                    Err(Fault::IllegalStateUse)
                }
            },
            None => {
                if request.level <= 0x3fff_fff0 {
                    match bus.read_long((4 * request.level + AUTOVECTOR_BASE) as u32) {
                        Some(address) => Ok(address),
                        None => Err(Fault::BusAbsent),
                    }
                } else {
                    Err(Fault::IllegalStateUse)
                }
            },
        }
    }

    /// Serves the oldest interrupt request, if there is one.
    pub fn run_interrupt<B: MappedHardware>(&mut self, bus: &mut B) -> (r: Result<(), Fault>)
        ensures
            (final(self)@, final(bus)@, r) == interrupt_served::<B>(old(self)@, old(bus)@),
            old(self)@.regs.wf() ==> final(self)@.regs.wf(),
    {
        proof {
            reveal(interrupt_served);
        }
        if self.interrupt_requests.len() == 0 {
            return Ok(());
        }
        let request: InterruptRequest = self.interrupt_requests[0];
        let handler: u32 = Cpu::read_handler_address(bus, request)?;
        let pc: u32 = self.registers.pc();
        self.push_stack(bus, DataSize::LongWord, Value::LongWord(pc))?;
        let sr: u16 = self.registers.sr();
        self.push_stack(bus, DataSize::Word, Value::Word(sr))?;
        let level: u8 = if request.level > 7 {
            7
        } else {
            request.level as u8
        };
        let ssr: SupervisorStatusRegister = self.registers.ssr().masked(level);
        self.registers.set_ssr(ssr);
        self.interrupt_requests.remove(0);
        self.registers.set_pc(handler);
        self.stopped = false;
        Ok(())
    }

    /// Resets the processor: the stack pointer is loaded from the long word
    /// at address 0 and the program counter from the long word at address 4.
    pub fn reset<B: MappedHardware>(&mut self, bus: &mut B) -> (r: Result<(), Fault>)
        ensures
            (final(self)@, final(bus)@, r) == on_registers(
                old(self)@,
                reset_done::<B>(old(self)@.regs, old(bus)@),
            ),
            ({
                let (after_first, first) = long_read::<B>(old(bus)@, 0);
                let (after_second, second) = long_read::<B>(after_first, 4);
                &&& r is Ok <==> first is Some && second is Some
                &&& r is Err ==> r == Err::<(), Fault>(Fault::BusAbsent)
                &&& r is Ok ==> {
                    &&& final(self)@.regs.sp() == first->0
                    &&& final(self)@.regs.pc == second->0
                    &&& final(bus)@ == after_second
                }
            }),
            r is Ok || old(self)@.regs.wf() ==> final(self)@.regs.wf(),
    {
        proof {
            reveal(long_fetched);
        }
        self.registers.set_pc(0);
        let stack: u32 = self.fetch_long(bus)?;
        self.registers.set_sp(stack);
        let start: u32 = self.fetch_long(bus)?;
        self.registers.set_pc(start);
        Ok(())
    }

    /// Lets the processor's own clock tick; the core counts no cycles of its
    /// own, so nothing changes.
    pub fn tick<B: MappedHardware>(&mut self, bus: &B)
        ensures
            final(self)@ == old(self)@,
    {
    }

    /// Carries out an arithmetic, logical or comparing instruction; returns
    /// `None`, with nothing done, for any other instruction.
    pub fn execute_arithmetic<B: MappedHardware>(
        &mut self,
        bus: &mut B,
        instruction: Instruction,
    ) -> (r: Option<Result<(), Fault>>)
        requires
            instruction.wf(),
        ensures
            match arithmetic_executed::<B>(old(self)@.regs, old(bus)@, instruction) {
                Some(out) => r is Some && (final(self)@, final(bus)@, r->0) == on_registers(
                    old(self)@,
                    out,
                ),
                None => r is None && final(self)@ == old(self)@ && final(bus)@ == old(bus)@,
            },
            old(self)@.regs.wf() ==> final(self)@.regs.wf(),
    {
        match instruction {
            Instruction::ADDQ(size, value, dest) => Some(self.add(bus, size, value, dest)),
            Instruction::ADD(size, value, dest) => Some(self.add(bus, size, value, dest)),
            Instruction::ADDI(size, value, dest) => Some(self.add(bus, size, value, dest)),
            Instruction::SUBI(size, value, dest) => Some(self.sub(bus, size, value, dest)),
            Instruction::SUBA(size, value, dest) => Some(self.sub(bus, size, value, dest)),
            Instruction::SUBQ(size, value, dest) => Some(self.sub(bus, size, value, dest)),
            Instruction::SUB(size, value, dest) => Some(self.sub(bus, size, value, dest)),
            Instruction::AND(size, source, dest) => Some(self.and(bus, size, source, dest)),
            Instruction::ANDI(size, source, dest) => Some(self.and(bus, size, source, dest)),
            Instruction::CMP(size, source, dest) => Some(self.cmp(bus, size, source, dest)),
            Instruction::CMPI(size, ea) => Some(
                self.cmp(bus, size, AddressingMode::Immediate, ea),
            ),
            Instruction::ORI(size, source, dest) => Some(self.or(bus, size, source, dest)),
            Instruction::OR(size, source, dest) => Some(self.or(bus, size, source, dest)),
            Instruction::EORI(size, source, dest) => Some(self.eor(bus, size, source, dest)),
            Instruction::EOR(size, source, dest) => Some(self.eor(bus, size, source, dest)),
            _ => None,
        }
    }

    /// Carries out an instruction that moves data, tests it, works on one
    /// bit of it or shifts it; returns `None`, with nothing done, for any
    /// other instruction.
    pub fn execute_data<B: MappedHardware>(&mut self, bus: &mut B, instruction: Instruction) -> (r:
        Option<Result<(), Fault>>)
        requires
            instruction.wf(),
        ensures
            match data_executed::<B>(old(self)@.regs, old(bus)@, instruction) {
                Some(out) => r is Some && (final(self)@, final(bus)@, r->0) == on_registers(
                    old(self)@,
                    out,
                ),
                None => r is None && final(self)@ == old(self)@ && final(bus)@ == old(bus)@,
            },
            old(self)@.regs.wf() ==> final(self)@.regs.wf(),
    {
        match instruction {
            Instruction::LEA(ea, reg) => Some(self.lea(bus, ea, reg)),
            Instruction::TST(size, ea) => Some(self.tst(bus, size, ea)),
            Instruction::BTST(size, bit, ea) => Some(self.btst(bus, size, bit, ea)),
            Instruction::BSET(size, bit, ea) => Some(self.bset(bus, size, bit, ea)),
            Instruction::BCHG(size, bit, ea) => Some(
                self.bit_operate(bus, BitOperation::Bchg, size, bit, ea),
            ),
            Instruction::BCLR(size, bit, ea) => Some(
                self.bit_operate(bus, BitOperation::Bclr, size, bit, ea),
            ),
            Instruction::MOVE(size, source, dest) => Some(self.move_(bus, size, source, dest)),
            Instruction::MOVEQ(size, source, dest) => Some(self.move_(bus, size, source, dest)),
            Instruction::MOVEM(size, source, direction) => Some(
                self.movem(bus, size, source, direction),
            ),
            Instruction::CLR(size, destination) => Some(self.clr(bus, size, destination)),
            Instruction::LSLD(size, count, dest) => Some(self.lsl(bus, size, count, dest)),
            Instruction::LSRD(size, count, dest) => Some(self.lsr(bus, size, count, dest)),
            Instruction::LINK(reg, displacement) => Some(self.link(bus, reg, displacement)),
            Instruction::PEA(ea) => Some(self.pea(bus, ea)),
            _ => None,
        }
    }

    /// Carries out an instruction that changes the flow of the program;
    /// returns `None`, with nothing done, for any other instruction.
    pub fn execute_control<B: MappedHardware>(
        &mut self,
        bus: &mut B,
        instruction: Instruction,
    ) -> (r: Option<Result<(), Fault>>)
        requires
            instruction.wf(),
        ensures
            match control_executed::<B>(old(self)@, old(bus)@, instruction) {
                Some(out) => r is Some && (final(self)@, final(bus)@, r->0) == out,
                None => r is None && final(self)@ == old(self)@ && final(bus)@ == old(bus)@,
            },
            old(self)@.regs.wf() ==> final(self)@.regs.wf(),
    {
        match instruction {
            Instruction::NOP => {
                self.nop();
                Some(Ok(()))
            },
            Instruction::DB(condition, source, ea) => Some(self.db(bus, condition, source, ea)),
            Instruction::BCC(size, condition, ea) => Some(self.bcc(bus, size, condition, ea)),
            Instruction::BRA(label) => Some(self.bra(bus, label)),
            Instruction::JMP(label) => Some(self.jmp(bus, label)),
            Instruction::JSR(ea) => Some(self.jsr(bus, ea)),
            Instruction::RTS => Some(self.rts(bus)),
            Instruction::RTE => Some(self.rte(bus)),
            Instruction::BSR(label) => Some(self.bsr(bus, label)),
            Instruction::STOP(ccr) => Some(self.stop(bus, ccr)),
            _ => None,
        }
    }

    /// Carries out a decoded instruction.
    pub fn execute_instruction<B: MappedHardware>(
        &mut self,
        bus: &mut B,
        instruction: Instruction,
    ) -> (r: Result<(), Fault>)
        requires
            instruction.wf(),
        ensures
            (final(self)@, final(bus)@, r) == executed::<B>(old(self)@, old(bus)@, instruction),
            old(self)@.regs.wf() ==> final(self)@.regs.wf(),
    {
        if let Some(done) = self.execute_arithmetic(bus, instruction) {
            return done;
        }
        if let Some(done) = self.execute_data(bus, instruction) {
            return done;
        }
        if let Some(done) = self.execute_control(bus, instruction) {
            return done;
        }
        Err(Fault::Unimplemented)
    }

    /// Makes one step: serves an interrupt request if one waits, and, unless
    /// the processor is stopped, reads, decodes and carries out the next
    /// instruction.
    pub fn execute_next_instruction<B: MappedHardware>(&mut self, bus: &mut B) -> (r: Result<
        (),
        Fault,
    >)
        ensures
            (final(self)@, final(bus)@, r) == stepped::<B>(old(self)@, old(bus)@),
            old(self)@.regs.wf() ==> final(self)@.regs.wf(),
    {
        self.run_interrupt(bus)?;
        if self.stopped {
            return Ok(());
        }
        let opcode: u16 = self.fetch_word(bus)?;
        let instruction: Instruction = decode(opcode)?;
        self.execute_instruction(bus, instruction)
    }
}

} // verus!
