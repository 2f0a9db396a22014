//! The instructions that move data: MOVE, MOVEQ, MOVEM, LEA, PEA and LINK.
use vstd::prelude::*;
use crate::addressing_mode::{
    effective_address, lemma_low_replaced, loaded, low_replaced, memory_read, memory_written,
    operand_read, operand_written, read_addressing_mode, read_addressing_mode_address,
    read_memory, resolved, step_of, stored, write_addressing_mode, write_memory, AddressingMode,
    DataSize, RegNr,
};
use crate::arithmetic::keeping_x;
use crate::cpu::{on_registers, pushed, word_fetched, Cpu, Outcome};
use crate::fault::Fault;
use crate::mapped_hardware::MappedHardware;
use crate::memory::{lemma_operand_written, Memory};
use crate::registers::{sign_extended, ConditionCode, RegisterState};
use crate::value::{flags_of, logic_flags, Value};

verus! {

/// Whether a move to `destination` sets the condition codes: it does unless
/// the destination is an address register, the user stack pointer, the status
/// register or the condition codes themselves.
pub open spec fn move_sets_flags(destination: AddressingMode) -> bool {
    !(destination is AddressDirect || destination is USP || destination is SR
        || destination is CCR)
}

/// MOVE and MOVEQ: the source is read and written to the destination; N and Z
/// then describe the operand moved, V and C are clear, X is kept.
#[verifier::opaque]
pub open spec fn moved<B: MappedHardware>(
    regs: RegisterState,
    bus: B::V,
    size: DataSize,
    source: AddressingMode,
    destination: AddressingMode,
) -> Outcome<B::V, ()> {
    match operand_read::<B>(regs, bus, size, source) {
        (r1, b1, Ok(value)) => match operand_written::<B>(r1, b1, size, destination, value) {
            (r2, b2, Ok(_)) => if move_sets_flags(destination) {
                (r2.with_ccr(keeping_x(logic_flags(size, value), r2.ccr)), b2, Ok(()))
            } else {
                (r2, b2, Ok(()))
            },
            (r2, b2, Err(fault)) => (r2, b2, Err(fault)),
        },
        (r1, b1, Err(fault)) => (r1, b1, Err(fault)),
    }
}

/// A move of width `size` from a data or address register to a data register
/// copies the operand and nothing else.
///
/// The low `size.bits()` bits of the destination become those of the source,
/// so that the destination holds the same operand with the same sign; its
/// other bits stay. Every other data register, the address registers, the
/// stack pointers, the program counter and the system byte stay, and so does
/// the bus. N and Z describe the operand moved, V and C are clear, X stays.
pub proof fn lemma_move_to_data_register<B: MappedHardware>(
    regs: RegisterState,
    bus: B::V,
    size: DataSize,
    source: AddressingMode,
    destination: RegNr,
)
    requires
        regs.wf(),
        source is DataDirect || source is AddressDirect,
        source.wf(),
        destination < 8,
    ensures
        ({
            let (after, bus_after, result) = moved::<B>(
                regs,
                bus,
                size,
                source,
                AddressingMode::DataDirect(destination),
            );
            let from = match source {
                AddressingMode::DataDirect(n) => regs.d[n as int],
                AddressingMode::AddressDirect(n) => regs.a[n as int],
                _ => 0u32,
            };
            let operand = Value::spec_from_raw(size, from);
            let to = after.d[destination as int];
            &&& result is Ok
            &&& bus_after == bus
            &&& Value::spec_from_raw(size, to) == operand
            &&& Value::spec_from_raw(size, to).signed() == operand.signed()
            &&& size.high(to as int) == size.high(regs.d[destination as int] as int)
            &&& after.d.len() == 8
            &&& forall|i: int| 0 <= i < 8 && i != destination ==> after.d[i] == regs.d[i]
            &&& after.a == regs.a
            &&& after.pc == regs.pc
            &&& after.usp == regs.usp && after.isp == regs.isp && after.msp == regs.msp
            &&& after.ssr == regs.ssr
            &&& after.ccr == (ConditionCode {
                x: regs.ccr.x,
                n: operand.signed() < 0,
                z: operand.unsigned() == 0,
                v: false,
                c: false,
            })
            &&& after.wf()
        }),
{
    let from = match source {
        AddressingMode::DataDirect(n) => regs.d[n as int],
        AddressingMode::AddressDirect(n) => regs.a[n as int],
        _ => 0u32,
    };
    let operand = Value::spec_from_raw(size, from);
    let old = regs.d[destination as int];
    lemma_low_replaced(old, size, operand);
    assert(moved::<B>(regs, bus, size, source, AddressingMode::DataDirect(destination)) == (
        regs.with_data(destination as int, low_replaced(old, size, operand)).with_ccr(
            keeping_x(logic_flags(size, operand), regs.ccr),
        ),
        bus,
        Ok::<(), Fault>(()),
    )) by {
        reveal(moved);
        reveal(operand_read);
        reveal(operand_written);
        reveal(resolved);
        reveal(loaded);
        reveal(stored);
    }
    assert(operand.coerced(size) == operand) by {
        lemma_low_replaced(0, size, Value::LongWord(from));
    }
    crate::value::lemma_wrap_once(size, operand.unsigned());
}

/// A move of width `size` from a data or address register to an address
/// register puts the operand there with zeros above it and changes no
/// condition code.
///
/// Where the destination is A7 the shadow of the stack pointer in use
/// follows; nothing else changes.
pub proof fn lemma_move_to_address_register<B: MappedHardware>(
    regs: RegisterState,
    bus: B::V,
    size: DataSize,
    source: AddressingMode,
    destination: RegNr,
)
    requires
        regs.wf(),
        source is DataDirect || source is AddressDirect,
        source.wf(),
        destination < 8,
    ensures
        ({
            let (after, bus_after, result) = moved::<B>(
                regs,
                bus,
                size,
                source,
                AddressingMode::AddressDirect(destination),
            );
            let from = match source {
                AddressingMode::DataDirect(n) => regs.d[n as int],
                AddressingMode::AddressDirect(n) => regs.a[n as int],
                _ => 0u32,
            };
            &&& result is Ok
            &&& bus_after == bus
            &&& after.a[destination as int] == Value::spec_from_raw(size, from).unsigned()
            &&& after.a.len() == 8
            &&& forall|i: int| 0 <= i < 8 && i != destination ==> after.a[i] == regs.a[i]
            &&& after.d == regs.d
            &&& after.pc == regs.pc
            &&& after.ssr == regs.ssr
            &&& after.ccr == regs.ccr
            &&& after.wf()
        }),
{
    let from = match source {
        AddressingMode::DataDirect(n) => regs.d[n as int],
        AddressingMode::AddressDirect(n) => regs.a[n as int],
        _ => 0u32,
    };
    let operand = Value::spec_from_raw(size, from);
    assert(operand.coerced(size) == operand) by {
        lemma_low_replaced(0, size, Value::LongWord(from));
    }
    assert(moved::<B>(regs, bus, size, source, AddressingMode::AddressDirect(destination)) == (
        regs.with_address(destination as int, operand.unsigned() as u32),
        bus,
        Ok::<(), Fault>(()),
    )) by {
        reveal(moved);
        reveal(operand_read);
        reveal(operand_written);
        reveal(resolved);
        reveal(loaded);
        reveal(stored);
    }
    crate::registers::lemma_other_writes_keep_a7_in_step(
        regs,
        destination as int,
        operand.unsigned() as u32,
        regs.ccr,
    );
}

/// LEA: the effective address of the operand is written to the register.
#[verifier::opaque]
pub open spec fn address_loaded<B: MappedHardware>(
    regs: RegisterState,
    bus: B::V,
    mode: AddressingMode,
    register: AddressingMode,
) -> Outcome<B::V, ()> {
    match effective_address::<B>(regs, bus, DataSize::LongWord, mode) {
        (r, b, Ok(address)) => operand_written::<B>(
            r,
            b,
            DataSize::LongWord,
            register,
            Value::LongWord(address),
        ),
        (r, b, Err(fault)) => (r, b, Err(fault)),
    }
}

/// PEA: the effective address of the operand is pushed as a long word.
#[verifier::opaque]
pub open spec fn address_pushed<B: MappedHardware>(
    regs: RegisterState,
    bus: B::V,
    mode: AddressingMode,
) -> Outcome<B::V, ()> {
    match effective_address::<B>(regs, bus, DataSize::LongWord, mode) {
        (r, b, Ok(address)) => pushed::<B>(r, b, DataSize::LongWord, Value::LongWord(address)),
        (r, b, Err(fault)) => (r, b, Err(fault)),
    }
}

/// LINK: the register is pushed as a long word and takes the value of the
/// stack pointer; then the displacement, sign-extended, is added to the stack
/// pointer.
#[verifier::opaque]
pub open spec fn linked<B: MappedHardware>(
    regs: RegisterState,
    bus: B::V,
    register: AddressingMode,
    displacement: AddressingMode,
) -> Outcome<B::V, ()> {
    match operand_read::<B>(regs, bus, DataSize::LongWord, register) {
        (r1, b1, Ok(frame)) => match pushed::<B>(r1, b1, DataSize::LongWord, frame) {
            (r2, b2, Ok(_)) => match operand_written::<B>(
                r2,
                b2,
                DataSize::LongWord,
                register,
                Value::LongWord(r2.sp()),
            ) {
                (r3, b3, Ok(_)) => match operand_read::<B>(r3, b3, DataSize::Word, displacement) {
                    (r4, b4, Ok(value)) => (
                        r4.with_address(7, r4.sp().wrapping_add(sign_extended(value))),
                        b4,
                        Ok(()),
                    ),
                    (r4, b4, Err(fault)) => (r4, b4, Err(fault)),
                },
                (r3, b3, Err(fault)) => (r3, b3, Err(fault)),
            },
            (r2, b2, Err(fault)) => (r2, b2, Err(fault)),
        },
        (r1, b1, Err(fault)) => (r1, b1, Err(fault)),
    }
}

/// A register as a MOVEM mask names it: whether it is an address register,
/// and its number.
pub type MaskRegister = (bool, RegNr);

/// The register that bit number `slot` of a MOVEM mask stands for.
///
/// In the order of the bits: D0 to D7, then A0 to A7; with `reversed`, as for
/// the pre-decrement mode, A7 to A0, then D7 to D0.
pub open spec fn mask_register(reversed: bool, slot: int) -> MaskRegister {
    if reversed {
        if slot < 8 {
            (true, (7 - slot) as usize)
        } else {
            (false, (15 - slot) as usize)
        }
    } else {
        if slot < 8 {
            (false, slot as usize)
        } else {
            (true, (slot - 8) as usize)
        }
    }
}

/// The move of one register of a MOVEM, and the address at which the next
/// register goes on where the mode does not step.
///
/// With post-increment or pre-decrement the address comes from the address
/// register, which is stepped; else it is `running`, and the next register
/// lies behind this one. To memory goes the low part of the register; from
/// memory comes the whole register, with zeros above the operand.
#[verifier::opaque]
pub open spec fn register_moved<B: MappedHardware>(
    regs: RegisterState,
    bus: B::V,
    size: DataSize,
    mode: AddressingMode,
    to_registers: bool,
    register: MaskRegister,
    running: u32,
) -> Outcome<B::V, u32> {
    let (r1, address, next) = match mode {
        AddressingMode::AddressIndirectPostIncrement(n) => (
            regs.with_address(n as int, regs.a[n as int].wrapping_add(step_of(size, n))),
            regs.a[n as int],
            running,
        ),
        AddressingMode::AddressIndirectPreDecrement(n) => (
            regs.with_address(n as int, regs.a[n as int].wrapping_sub(step_of(size, n))),
            regs.a[n as int].wrapping_sub(step_of(size, n)),
            running,
        ),
        _ => (regs, running, running.wrapping_add(size.bytes() as u32)),
    };
    if to_registers {
        match memory_read::<B>(bus, size, address) {
            (b, Ok(value)) => (
                if register.0 {
                    r1.with_address(register.1 as int, value.unsigned() as u32)
                } else {
                    r1.with_data(register.1 as int, value.unsigned() as u32)
                },
                b,
                Ok(next),
            ),
            (b, Err(fault)) => (r1, b, Err(fault)),
        }
    } else {
        let whole = if register.0 {
            r1.a[register.1 as int]
        } else {
            r1.d[register.1 as int]
        };
        match memory_written::<B>(bus, size, address, Value::spec_from_raw(size, whole)) {
            (b, Ok(_)) => (r1, b, Ok(next)),
            (b, Err(fault)) => (r1, b, Err(fault)),
        }
    }
}

/// The moves of a MOVEM from bit number `slot` of the mask on, of which
/// `rest` holds the bits not yet looked at, lowest first.
pub open spec fn registers_moved<B: MappedHardware>(
    regs: RegisterState,
    bus: B::V,
    size: DataSize,
    mode: AddressingMode,
    to_registers: bool,
    rest: u16,
    slot: int,
    running: u32,
) -> Outcome<B::V, ()>
    decreases 16 - slot,
{
    if slot < 0 || slot >= 16 {
        (regs, bus, Ok(()))
    } else if rest % 2 == 0 {
        registers_moved::<B>(regs, bus, size, mode, to_registers, rest / 2, slot + 1, running)
    } else {
        match register_moved::<B>(
            regs,
            bus,
            size,
            mode,
            to_registers,
            mask_register(mode is AddressIndirectPreDecrement, slot),
            running,
        ) {
            (r, b, Ok(next)) => registers_moved::<B>(
                r,
                b,
                size,
                mode,
                to_registers,
                rest / 2,
                slot + 1,
                next,
            ),
            (r, b, Err(fault)) => (r, b, Err(fault)),
        }
    }
}

/// Whether `mode` steps its address register at each access.
pub open spec fn steps(mode: AddressingMode) -> bool {
    mode is AddressIndirectPostIncrement || mode is AddressIndirectPreDecrement
}

/// MOVEM: the mask is the word after the opcode. Its bits are gone through
/// from the lowest to the highest, and for each bit set one register is moved:
/// to memory where `direction` is zero, else from memory.
#[verifier::opaque]
pub open spec fn multiple_moved<B: MappedHardware>(
    regs: RegisterState,
    bus: B::V,
    size: DataSize,
    mode: AddressingMode,
    direction: u8,
) -> Outcome<B::V, ()> {
    match word_fetched::<B>(regs, bus) {
        (r1, b1, Ok(mask)) => if steps(mode) {
            registers_moved::<B>(r1, b1, size, mode, direction != 0, mask, 0, 0)
        } else {
            match effective_address::<B>(r1, b1, size, mode) {
                (r2, b2, Ok(base)) => registers_moved::<B>(
                    r2,
                    b2,
                    size,
                    mode,
                    direction != 0,
                    mask,
                    0,
                    base,
                ),
                (r2, b2, Err(fault)) => (r2, b2, Err(fault)),
            }
        },
        (r1, b1, Err(fault)) => (r1, b1, Err(fault)),
    }
}

/// The number of bits set in what is left of a MOVEM mask at bit number
/// `slot`.
pub open spec fn selected(rest: u16, slot: int) -> int
    decreases 16 - slot,
{
    if slot < 0 || slot >= 16 {
        0
    } else if rest % 2 == 0 {
        selected((rest / 2) as u16, slot + 1)
    } else {
        1 + selected((rest / 2) as u16, slot + 1)
    }
}

/// A MOVEM of words or long words to a memory through `-(A7)` pushes one
/// operand for each bit set in the mask: where the memory reaches the stack
/// and the stack has room, every write is taken, the stack pointer comes down
/// by the operand's width times the number of bits set, and the data
/// registers and the program counter stay.
pub proof fn lemma_movem_pushes(
    regs: RegisterState,
    memory: Seq<u8>,
    size: DataSize,
    rest: u16,
    slot: int,
    running: u32,
)
    requires
        regs.wf(),
        size != DataSize::Byte,
        0 <= slot <= 16,
        size.bytes() * selected(rest, slot) <= regs.sp() <= memory.len(),
    ensures
        ({
            let (after, written, result) = registers_moved::<Memory>(
                regs,
                memory,
                size,
                AddressingMode::AddressIndirectPreDecrement(7),
                false,
                rest,
                slot,
                running,
            );
            &&& result is Ok
            &&& after.sp() == regs.sp() - size.bytes() * selected(rest, slot)
            &&& written.len() == memory.len()
            &&& after.d == regs.d
            &&& after.pc == regs.pc
            &&& after.ssr == regs.ssr
            &&& after.wf()
        }),
    decreases 16 - slot,
{
    let mode = AddressingMode::AddressIndirectPreDecrement(7);
    if slot >= 16 {
    } else if rest % 2 == 0 {
        lemma_movem_pushes(regs, memory, size, (rest / 2) as u16, slot + 1, running);
    } else {
        let step = step_of(size, 7);
        let address = regs.sp().wrapping_sub(step);
        assert(step == size.bytes());
        assert(selected(rest, slot) == 1 + selected((rest / 2) as u16, slot + 1));
        assert(selected((rest / 2) as u16, slot + 1) >= 0) by {
            lemma_selected_is_a_count((rest / 2) as u16, slot + 1);
        }
        assert(size.bytes() * selected(rest, slot) == size.bytes() + size.bytes() * selected(
            (rest / 2) as u16,
            slot + 1,
        )) by (nonlinear_arith)
            requires
                selected(rest, slot) == 1 + selected((rest / 2) as u16, slot + 1),
        ;
        assert(address == regs.sp() - step);
        let lowered = regs.with_address(7, address);
        let register = mask_register(true, slot);
        let whole = if register.0 {
            lowered.a[register.1 as int]
        } else {
            lowered.d[register.1 as int]
        };
        let value = Value::spec_from_raw(size, whole);
        lemma_operand_written(memory, size, address, value);
        let (written, _) = memory_written::<Memory>(memory, size, address, value);
        assert(register_moved::<Memory>(regs, memory, size, mode, false, register, running) == (
            lowered,
            written,
            Ok::<u32, Fault>(running),
        )) by {
            reveal(register_moved);
        }
        crate::registers::lemma_writes_keep_a7_in_step(regs, address, regs.ssr, 0);
        lemma_movem_pushes(lowered, written, size, (rest / 2) as u16, slot + 1, running);
    }
}

/// The number of bits set in a mask is no negative number and at most the
/// number of bits left.
pub proof fn lemma_selected_is_a_count(rest: u16, slot: int)
    requires
        0 <= slot <= 16,
    ensures
        0 <= selected(rest, slot) <= 16 - slot,
    decreases 16 - slot,
{
    if slot < 16 {
        lemma_selected_is_a_count((rest / 2) as u16, slot + 1);
    }
}

/// MOVEM of words or long words to a memory through `-(A7)`: where the mask
/// can be read, and the memory reaches the stack and the stack has room, the
/// instruction pushes one operand for each bit set in the mask. The stack
/// pointer comes down by the operand's width times the number of bits set,
/// and the program counter moves behind the mask.
pub proof fn lemma_movem_to_stack(regs: RegisterState, memory: Seq<u8>, size: DataSize, mask: u16)
    requires
        regs.wf(),
        size != DataSize::Byte,
        Memory::word_read(memory, regs.pc).1 == Some(mask),
        size.bytes() * selected(mask, 0) <= regs.sp() <= memory.len(),
    ensures
        ({
            let (after, written, result) = multiple_moved::<Memory>(
                regs,
                memory,
                size,
                AddressingMode::AddressIndirectPreDecrement(7),
                0,
            );
            &&& result is Ok
            &&& after.sp() == regs.sp() - size.bytes() * selected(mask, 0)
            &&& after.pc == regs.pc.wrapping_add(2)
            &&& written.len() == memory.len()
            &&& after.d == regs.d
            &&& after.wf()
        }),
{
    reveal(multiple_moved);
    reveal(word_fetched);
    let fetched = regs.with_pc(regs.pc.wrapping_add(2));
    lemma_movem_pushes(fetched, memory, size, mask, 0, 0);
}

impl Cpu {
    /// LEA.
    pub fn lea<B: MappedHardware>(
        &mut self,
        bus: &mut B,
        addressing_mode: AddressingMode,
        register: AddressingMode,
    ) -> (r: Result<(), Fault>)
        requires
            addressing_mode.wf(),
            register.wf(),
        ensures
            (final(self)@, final(bus)@, r) == on_registers(
                old(self)@,
                address_loaded::<B>(old(self)@.regs, old(bus)@, addressing_mode, register),
            ),
            old(self)@.regs.wf() ==> final(self)@.regs.wf(),
    {
        proof {
            reveal(address_loaded);
        }
        let address: u32 = read_addressing_mode_address(
            self,
            bus,
            DataSize::LongWord,
            addressing_mode,
        )?;
        write_addressing_mode(self, bus, DataSize::LongWord, register, Value::LongWord(address))
    }

    /// PEA.
    pub fn pea<B: MappedHardware>(&mut self, bus: &mut B, ea: AddressingMode) -> (r: Result<
        (),
        Fault,
    >)
        requires
            ea.wf(),
        ensures
            (final(self)@, final(bus)@, r) == on_registers(
                old(self)@,
                address_pushed::<B>(old(self)@.regs, old(bus)@, ea),
            ),
            old(self)@.regs.wf() ==> final(self)@.regs.wf(),
    {
        proof {
            reveal(address_pushed);
        }
        let address: u32 = read_addressing_mode_address(self, bus, DataSize::LongWord, ea)?;
        self.push_stack(bus, DataSize::LongWord, Value::LongWord(address))
    }

    /// LINK.
    pub fn link<B: MappedHardware>(
        &mut self,
        bus: &mut B,
        reg: AddressingMode,
        displacement: AddressingMode,
    ) -> (r: Result<(), Fault>)
        requires
            reg.wf(),
            displacement.wf(),
        ensures
            (final(self)@, final(bus)@, r) == on_registers(
                old(self)@,
                linked::<B>(old(self)@.regs, old(bus)@, reg, displacement),
            ),
            old(self)@.regs.wf() ==> final(self)@.regs.wf(),
    {
        proof {
            reveal(linked);
        }
        let frame: Value = read_addressing_mode(self, bus, DataSize::LongWord, reg)?;
        self.push_stack(bus, DataSize::LongWord, frame)?;
        let sp: u32 = self.registers.sp();
        write_addressing_mode(self, bus, DataSize::LongWord, reg, Value::LongWord(sp))?;
        let value: Value = read_addressing_mode(self, bus, DataSize::Word, displacement)?;
        self.registers.displace_sp(value);
        Ok(())
    }

    /// MOVE and MOVEQ.
    pub fn move_<B: MappedHardware>(
        &mut self,
        bus: &mut B,
        size: DataSize,
        source: AddressingMode,
        dest: AddressingMode,
    ) -> (r: Result<(), Fault>)
        requires
            source.wf(),
            dest.wf(),
        ensures
            (final(self)@, final(bus)@, r) == on_registers(
                old(self)@,
                moved::<B>(old(self)@.regs, old(bus)@, size, source, dest),
            ),
            old(self)@.regs.wf() ==> final(self)@.regs.wf(),
    {
        proof {
            reveal(moved);
        }
        let value: Value = read_addressing_mode(self, bus, size, source)?;
        write_addressing_mode(self, bus, size, dest, value)?;
        match dest {
            AddressingMode::AddressDirect(_) => {},
            AddressingMode::USP => {},
            AddressingMode::SR => {},
            AddressingMode::CCR => {},
            _ => {
                let x: bool = self.registers.ccr().x;
                self.registers.set_flags(ConditionCode { x, ..flags_of(size, value) });
            },
        }
        Ok(())
    }

    /// Moves one register of a MOVEM.
    pub fn move_register<B: MappedHardware>(
        &mut self,
        bus: &mut B,
        size: DataSize,
        mode: AddressingMode,
        to_registers: bool,
        register: MaskRegister,
        running: u32,
    ) -> (r: Result<u32, Fault>)
        requires
            mode.wf(),
            register.1 < 8,
        ensures
            (final(self)@, final(bus)@, r) == on_registers(
                old(self)@,
                register_moved::<B>(
                    old(self)@.regs,
                    old(bus)@,
                    size,
                    mode,
                    to_registers,
                    register,
                    running,
                ),
            ),
            old(self)@.regs.wf() ==> final(self)@.regs.wf(),
    {
        proof {
            reveal(register_moved);
        }
        let (address, next): (u32, u32) = match mode {
            AddressingMode::AddressIndirectPostIncrement(n) => {
                let address: u32 = self.registers.address(n);
                let step: u32 = if n == 7 && size == DataSize::Byte {
                    2
                } else {
                    size.byte_count()
                };
                self.registers.set_address(n, address.wrapping_add(step));
                (address, running)
            },
            AddressingMode::AddressIndirectPreDecrement(n) => {
                let step: u32 = if n == 7 && size == DataSize::Byte {
                    2
                } else {
                    size.byte_count()
                };
                let address: u32 = self.registers.address(n).wrapping_sub(step);
                self.registers.set_address(n, address);
                (address, running)
            },
            _ => (running, running.wrapping_add(size.byte_count())),
        };
        if to_registers {
            let value: Value = read_memory(bus, size, address)?;
            if register.0 {
                self.registers.set_address(register.1, value.to_u32());
            } else {
                self.registers.set_data(register.1, value.to_u32());
            }
        } else {
            let whole: u32 = if register.0 {
                self.registers.address(register.1)
            } else {
                self.registers.data(register.1)
            };
            write_memory(bus, size, address, Value::from_raw(size, whole))?;
        }
        Ok(next)
    }

    /// MOVEM.
    pub fn movem<B: MappedHardware>(
        &mut self,
        bus: &mut B,
        size: DataSize,
        source: AddressingMode,
        direction: u8,
    ) -> (r: Result<(), Fault>)
        requires
            source.wf(),
        ensures
            (final(self)@, final(bus)@, r) == on_registers(
                old(self)@,
                multiple_moved::<B>(old(self)@.regs, old(bus)@, size, source, direction),
            ),
            old(self)@.regs.wf() ==> final(self)@.regs.wf(),
    {
        proof {
            reveal(multiple_moved);
        }
        let ghost goal = multiple_moved::<B>(old(self)@.regs, old(bus)@, size, source, direction);
        let mask: u16 = self.fetch_word(bus)?;
        let (reversed, base): (bool, u32) = match source {
            AddressingMode::AddressIndirectPostIncrement(_) => (false, 0),
            AddressingMode::AddressIndirectPreDecrement(_) => (true, 0),
            _ => (false, read_addressing_mode_address(self, bus, size, source)?),
        };
        let to_registers: bool = direction != 0;
        let mut rest: u16 = mask;
        let mut running: u32 = base;
        let mut slot: usize = 0;
        while slot < 16
            invariant
                slot <= 16,
                source.wf(),
                reversed == (source is AddressIndirectPreDecrement),
                registers_moved::<B>(
                    self@.regs,
                    bus@,
                    size,
                    source,
                    to_registers,
                    rest,
                    slot as int,
                    running,
                ) == goal,
                goal == multiple_moved::<B>(old(self)@.regs, old(bus)@, size, source, direction),
                self@.pending == old(self)@.pending,
                self@.stopped == old(self)@.stopped,
                old(self)@.regs.wf() ==> self@.regs.wf(),
            decreases 16 - slot,
        {
            if rest % 2 == 1 {
                let register: MaskRegister = if reversed {
                    if slot < 8 {
                        (true, 7 - slot)
                    } else {
                        (false, 15 - slot)
                    }
                } else {
                    if slot < 8 {
                        (false, slot)
                    } else {
                        (true, slot - 8)
                    }
                };
                running =
                self.move_register(bus, size, source, to_registers, register, running)?;
            }
            rest = rest / 2;
            slot = slot + 1;
        }
        Ok(())
    }
}

} // verus!
