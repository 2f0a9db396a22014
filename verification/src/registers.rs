//! The register file: data and address registers, program counter, status
//! register and the three stack pointers that A7 stands for.
use vstd::prelude::*;
use crate::fault::Fault;
use crate::value::Value;

verus! {

/// The five condition codes.
#[derive(Debug, Clone, Copy, PartialEq, Eq, Structural)]
pub struct ConditionCode {
    /// Extend: the carry of the last arithmetic operation.
    pub x: bool,
    /// Negative: the result's highest bit.
    pub n: bool,
    /// Zero: the result is zero.
    pub z: bool,
    /// Overflow: the signed result does not fit.
    pub v: bool,
    /// Carry: the unsigned result does not fit.
    pub c: bool,
}

/// One if `flag` holds, else zero.
pub open spec fn bit_of(flag: bool) -> int {
    if flag {
        1
    } else {
        0
    }
}

/// Whether bit number `bit` of the unsigned number `bits` is set.
pub open spec fn has_bit(bits: int, bit: int) -> bool {
    if bit == 0 {
        bits % 2 == 1
    } else if bit == 1 {
        (bits / 2) % 2 == 1
    } else if bit == 2 {
        (bits / 4) % 2 == 1
    } else if bit == 3 {
        (bits / 8) % 2 == 1
    } else if bit == 4 {
        (bits / 16) % 2 == 1
    } else if bit == 5 {
        (bits / 32) % 2 == 1
    } else if bit == 6 {
        (bits / 64) % 2 == 1
    } else {
        (bits / 128) % 2 == 1
    }
}

/// `has_bit` reads the bits of a byte: bit number `bit` is the one that a
/// shift by `bit` positions to the right brings to the lowest place.
pub proof fn lemma_has_bit(bits: u8, bit: u8)
    requires
        bit < 8,
    ensures
        has_bit(bits as int, bit as int) == ((bits >> bit) & 1 == 1),
{
    assert({
        &&& (bits % 2 == 1) == ((bits >> 0u8) & 1 == 1)
        &&& ((bits / 2) % 2 == 1) == ((bits >> 1u8) & 1 == 1)
        &&& ((bits / 4) % 2 == 1) == ((bits >> 2u8) & 1 == 1)
        &&& ((bits / 8) % 2 == 1) == ((bits >> 3u8) & 1 == 1)
        &&& ((bits / 16) % 2 == 1) == ((bits >> 4u8) & 1 == 1)
        &&& ((bits / 32) % 2 == 1) == ((bits >> 5u8) & 1 == 1)
        &&& ((bits / 64) % 2 == 1) == ((bits >> 6u8) & 1 == 1)
        &&& ((bits / 128) % 2 == 1) == ((bits >> 7u8) & 1 == 1)
    }) by (bit_vector);
}

impl ConditionCode {
    /// The codes as the low byte of the status register holds them:
    /// X is bit 4, N bit 3, Z bit 2, V bit 1 and C bit 0.
    pub open spec fn spec_bits(self) -> int {
        16 * bit_of(self.x) + 8 * bit_of(self.n) + 4 * bit_of(self.z) + 2 * bit_of(self.v)
            + bit_of(self.c)
    }

    /// The codes that the five lowest bits of `bits` hold.
    pub open spec fn of_bits(bits: int) -> ConditionCode {
        ConditionCode {
            x: has_bit(bits, 4),
            n: has_bit(bits, 3),
            z: has_bit(bits, 2),
            v: has_bit(bits, 1),
            c: has_bit(bits, 0),
        }
    }

    /// No code set.
    pub open spec fn spec_empty() -> ConditionCode {
        ConditionCode { x: false, n: false, z: false, v: false, c: false }
    }

    /// No code set.
    pub fn empty() -> (r: ConditionCode)
        ensures
            r == ConditionCode::spec_empty(),
    {
        ConditionCode { x: false, n: false, z: false, v: false, c: false }
    }

    /// The codes as a byte.
    pub fn bits(&self) -> (r: u8)
        ensures
            r == self.spec_bits(),
            r <= 0x1f,
    {
        let mut r: u8 = 0;
        if self.x {
            r = r + 16;
        }
        if self.n {
            r = r + 8;
        }
        if self.z {
            r = r + 4;
        }
        if self.v {
            r = r + 2;
        }
        if self.c {
            r = r + 1;
        }
        r
    }

    /// The codes that the five lowest bits of `bits` hold; the other bits are
    /// dropped.
    pub fn from_bits_truncate(bits: u8) -> (r: ConditionCode)
        ensures
            r == ConditionCode::of_bits(bits as int),
    {
        ConditionCode {
            x: (bits / 16) % 2 == 1,
            n: (bits / 8) % 2 == 1,
            z: (bits / 4) % 2 == 1,
            v: (bits / 2) % 2 == 1,
            c: bits % 2 == 1,
        }
    }

    /// The codes that `bits` holds, if `bits` holds nothing else.
    pub fn from_bits(bits: u8) -> (r: Option<ConditionCode>)
        ensures
            bits <= 0x1f ==> r == Some(ConditionCode::of_bits(bits as int)),
            bits > 0x1f ==> r is None,
    {
        if bits <= 0x1f {
            Some(ConditionCode::from_bits_truncate(bits))
        } else {
            None
        }
    }

    /// Reading the codes back from their byte gives the same codes.
    pub proof fn lemma_bits_round_trip(self)
        ensures
            ConditionCode::of_bits(self.spec_bits()) == self,
            0 <= self.spec_bits() <= 0x1f,
    {
    }
}

impl Default for ConditionCode {
    /// No code set.
    fn default() -> (r: ConditionCode)
        ensures
            r == ConditionCode::spec_empty(),
    {
        ConditionCode::empty()
    }
}

/// The system byte of the status register.
#[derive(Debug, Clone, Copy, PartialEq, Eq, Structural)]
pub struct SupervisorStatusRegister {
    /// Trace.
    pub t: bool,
    /// Supervisor state.
    pub s: bool,
    /// Master state.
    pub m: bool,
    /// The interrupt mask's bit 2.
    pub im2: bool,
    /// The interrupt mask's bit 1.
    pub im1: bool,
    /// The interrupt mask's bit 0.
    pub im0: bool,
}

impl SupervisorStatusRegister {
    /// The interrupt mask as a level, 0 to 7.
    pub open spec fn interrupt_mask(self) -> int {
        4 * bit_of(self.im2) + 2 * bit_of(self.im1) + bit_of(self.im0)
    }

    /// The byte as the high half of the status register holds it:
    /// T is bit 7, S bit 5, M bit 4, the interrupt mask bits 2 to 0.
    pub open spec fn spec_bits(self) -> int {
        128 * bit_of(self.t) + 32 * bit_of(self.s) + 16 * bit_of(self.m) + self.interrupt_mask()
    }

    /// The system byte that `bits` holds; bits 6 and 3 are dropped.
    pub open spec fn of_bits(bits: int) -> SupervisorStatusRegister {
        SupervisorStatusRegister {
            t: has_bit(bits, 7),
            s: has_bit(bits, 5),
            m: has_bit(bits, 4),
            im2: has_bit(bits, 2),
            im1: has_bit(bits, 1),
            im0: has_bit(bits, 0),
        }
    }

    /// The same byte with the interrupt mask set to `level`, 0 to 7.
    pub open spec fn with_interrupt_mask(self, level: int) -> SupervisorStatusRegister {
        SupervisorStatusRegister {
            im2: has_bit(level, 2),
            im1: has_bit(level, 1),
            im0: has_bit(level, 0),
            ..self
        }
    }

    /// Nothing set: user state, no trace, mask 0.
    pub open spec fn spec_empty() -> SupervisorStatusRegister {
        SupervisorStatusRegister { t: false, s: false, m: false, im2: false, im1: false, im0: false }
    }

    /// Nothing set: user state, no trace, mask 0.
    pub fn empty() -> (r: SupervisorStatusRegister)
        ensures
            r == SupervisorStatusRegister::spec_empty(),
    {
        SupervisorStatusRegister { t: false, s: false, m: false, im2: false, im1: false, im0: false }
    }

    /// The system byte.
    pub fn bits(&self) -> (r: u8)
        ensures
            r == self.spec_bits(),
    {
        let mut r: u8 = 0;
        if self.t {
            r = r + 128;
        }
        if self.s {
            r = r + 32;
        }
        if self.m {
            r = r + 16;
        }
        if self.im2 {
            r = r + 4;
        }
        if self.im1 {
            r = r + 2;
        }
        if self.im0 {
            r = r + 1;
        }
        r
    }

    /// The system byte that `bits` holds; bits 6 and 3 are dropped.
    pub fn from_bits_truncate(bits: u8) -> (r: SupervisorStatusRegister)
        ensures
            r == SupervisorStatusRegister::of_bits(bits as int),
    {
        SupervisorStatusRegister {
            t: (bits / 128) % 2 == 1,
            s: (bits / 32) % 2 == 1,
            m: (bits / 16) % 2 == 1,
            im2: (bits / 4) % 2 == 1,
            im1: (bits / 2) % 2 == 1,
            im0: bits % 2 == 1,
        }
    }

    /// The same byte with the interrupt mask set to `level`.
    pub fn masked(self, level: u8) -> (r: SupervisorStatusRegister)
        requires
            level <= 7,
        ensures
            r == self.with_interrupt_mask(level as int),
            r.interrupt_mask() == level,
    {
        SupervisorStatusRegister {
            im2: (level / 4) % 2 == 1,
            im1: (level / 2) % 2 == 1,
            im0: level % 2 == 1,
            ..self
        }
    }

    /// Reading the byte back gives the same register, and setting the mask to a
    /// level makes that level the mask.
    pub proof fn lemma_bits_round_trip(self, level: int)
        requires
            0 <= level <= 7,
        ensures
            SupervisorStatusRegister::of_bits(self.spec_bits()) == self,
            self.with_interrupt_mask(level).interrupt_mask() == level,
    {
    }
}

impl Default for SupervisorStatusRegister {
    /// Nothing set.
    fn default() -> (r: SupervisorStatusRegister)
        ensures
            r == SupervisorStatusRegister::spec_empty(),
    {
        SupervisorStatusRegister::empty()
    }
}

/// The three stack pointers that address register 7 can stand for.
#[derive(Debug, Clone, Copy, PartialEq, Eq, Structural)]
pub enum StackPointer {
    /// The user stack pointer.
    USP,
    /// The interrupt stack pointer.
    ISP,
    /// The master stack pointer.
    MSP,
}

/// The stack pointer that is in use under the system byte `ssr`: the user's
/// outside supervisor state, else the master's or the interrupt one.
pub open spec fn selected_stack(ssr: SupervisorStatusRegister) -> StackPointer {
    if !ssr.s {
        StackPointer::USP
    } else if ssr.m {
        StackPointer::MSP
    } else {
        StackPointer::ISP
    }
}

/// The sum of an address and a displacement in two's complement, kept to 32
/// bits.
pub open spec fn displaced(base: u32, displacement: u32) -> u32 {
    base.wrapping_add(displacement)
}

/// The register file as a mathematical value.
pub struct RegisterState {
    /// D0 to D7.
    pub d: Seq<u32>,
    /// A0 to A7.
    pub a: Seq<u32>,
    pub pc: u32,
    pub ccr: ConditionCode,
    pub usp: u32,
    pub isp: u32,
    pub msp: u32,
    pub ssr: SupervisorStatusRegister,
}

impl RegisterState {
    /// The register file after power-on: everything zero.
    pub open spec fn zero() -> RegisterState {
        RegisterState {
            d: Seq::new(8, |i: int| 0u32),
            a: Seq::new(8, |i: int| 0u32),
            pc: 0,
            ccr: ConditionCode::spec_empty(),
            usp: 0,
            isp: 0,
            msp: 0,
            ssr: SupervisorStatusRegister::spec_empty(),
        }
    }

    /// The stack pointer in use.
    pub open spec fn active_stack(self) -> StackPointer {
        selected_stack(self.ssr)
    }

    /// The value of the shadow of the stack pointer in use.
    pub open spec fn active_shadow(self) -> u32 {
        match self.active_stack() {
            StackPointer::USP => self.usp,
            StackPointer::ISP => self.isp,
            StackPointer::MSP => self.msp,
        }
    }

    /// There are eight registers of each kind, and A7 is the stack pointer in
    /// use.
    pub open spec fn wf(self) -> bool {
        &&& self.d.len() == 8
        &&& self.a.len() == 8
        &&& self.a[7] == self.active_shadow()
    }

    /// A7.
    pub open spec fn sp(self) -> u32 {
        self.a[7]
    }

    /// The 16-bit status register: the system byte above the condition codes.
    pub open spec fn sr(self) -> int {
        256 * self.ssr.spec_bits() + self.ccr.spec_bits()
    }

    pub open spec fn with_pc(self, pc: u32) -> RegisterState {
        RegisterState { pc, ..self }
    }

    pub open spec fn with_ccr(self, ccr: ConditionCode) -> RegisterState {
        RegisterState { ccr, ..self }
    }

    pub open spec fn with_data(self, reg: int, value: u32) -> RegisterState {
        RegisterState { d: self.d.update(reg, value), ..self }
    }

    /// The state with the value of A7 copied to the shadow in use.
    pub open spec fn saved(self) -> RegisterState {
        match self.active_stack() {
            StackPointer::USP => RegisterState { usp: self.a[7], ..self },
            StackPointer::ISP => RegisterState { isp: self.a[7], ..self },
            StackPointer::MSP => RegisterState { msp: self.a[7], ..self },
        }
    }

    /// The state with the shadow in use copied to A7.
    pub open spec fn applied(self) -> RegisterState {
        RegisterState { a: self.a.update(7, self.active_shadow()), ..self }
    }

    /// The state after a write to an address register; a write to A7 reaches
    /// the shadow in use too.
    pub open spec fn with_address(self, reg: int, value: u32) -> RegisterState {
        let written = RegisterState { a: self.a.update(reg, value), ..self };
        if reg == 7 {
            written.saved()
        } else {
            written
        }
    }

    /// The state after a write to the user stack pointer; in user state that
    /// is a write to A7.
    pub open spec fn with_usp(self, value: u32) -> RegisterState {
        let written = RegisterState { usp: value, ..self };
        if self.active_stack() == StackPointer::USP {
            written.applied()
        } else {
            written
        }
    }

    /// The state after a write to the system byte: A7 is saved to the shadow
    /// that was in use, and loaded from the one that is in use afterwards.
    pub open spec fn with_ssr(self, ssr: SupervisorStatusRegister) -> RegisterState {
        RegisterState { ssr, ..self.saved() }.applied()
    }

    /// The state after a write to the whole status register.
    pub open spec fn with_sr(self, value: u16) -> RegisterState {
        self.with_ssr(SupervisorStatusRegister::of_bits(value as int / 256)).with_ccr(
            ConditionCode::of_bits(value as int % 256),
        )
    }
}

/// After a write to A7, to the system byte or to the whole status register,
/// A7 is the stack pointer in use: it equals the shadow that the system byte
/// selects.
pub proof fn lemma_writes_keep_a7_in_step(
    regs: RegisterState,
    value: u32,
    ssr: SupervisorStatusRegister,
    status: u16,
)
    requires
        regs.d.len() == 8,
        regs.a.len() == 8,
    ensures
        regs.with_address(7, value).sp() == value,
        regs.with_address(7, value).sp() == regs.with_address(7, value).active_shadow(),
        regs.with_address(7, value).wf(),
        regs.with_ssr(ssr).sp() == regs.with_ssr(ssr).active_shadow(),
        regs.with_ssr(ssr).wf(),
        regs.with_sr(status).sp() == regs.with_sr(status).active_shadow(),
        regs.with_sr(status).wf(),
{
}

/// The writes that touch neither A7 nor the system byte keep A7 in step with
/// the stack pointer in use, and a write to the user stack pointer takes A7
/// along where the user stack pointer is in use.
pub proof fn lemma_other_writes_keep_a7_in_step(
    regs: RegisterState,
    reg: int,
    value: u32,
    ccr: ConditionCode,
)
    requires
        regs.wf(),
        0 <= reg < 8,
    ensures
        regs.with_pc(value).wf(),
        regs.with_ccr(ccr).wf(),
        regs.with_data(reg, value).wf(),
        regs.with_address(reg, value).wf(),
        regs.with_usp(value).wf(),
        regs.active_stack() == StackPointer::USP ==> regs.with_usp(value).sp() == value,
        regs.active_stack() != StackPointer::USP ==> regs.with_usp(value).sp() == regs.sp(),
{
}

/// A switch to another stack pointer and back loses nothing: each of the
/// three stack pointers keeps its value while another one is in use.
pub proof fn lemma_stack_pointers_are_kept(
    regs: RegisterState,
    other: SupervisorStatusRegister,
)
    requires
        regs.wf(),
    ensures
        regs.with_ssr(other).with_ssr(regs.ssr).a == regs.a,
        regs.with_ssr(other).with_ssr(regs.ssr).usp == regs.usp,
        regs.with_ssr(other).with_ssr(regs.ssr).isp == regs.isp,
        regs.with_ssr(other).with_ssr(regs.ssr).msp == regs.msp,
{
    let back = regs.with_ssr(other).with_ssr(regs.ssr);
    assert(back.a =~= regs.a);
}

/// The displacement that `value` stands for, sign-extended to 32 bits in
/// two's complement.
pub open spec fn sign_extended(value: Value) -> u32 {
    match value {
        Value::Byte(b) => if b >= 0x80 {
            (b + 0xffff_ff00) as u32
        } else {
            b as u32
        },
        Value::Word(w) => if w >= 0x8000 {
            (w + 0xffff_0000) as u32
        } else {
            w as u32
        },
        Value::LongWord(l) => l,
    }
}

/// The registers of the processor.
pub struct Registers {
    d: [u32; 8],
    a: [u32; 8],
    pc: u32,
    ccr: ConditionCode,
    usp: u32,
    isp: u32,
    msp: u32,
    ssr: SupervisorStatusRegister,
}

impl View for Registers {
    type V = RegisterState;

    closed spec fn view(&self) -> RegisterState {
        RegisterState {
            d: self.d@,
            a: self.a@,
            pc: self.pc,
            ccr: self.ccr,
            usp: self.usp,
            isp: self.isp,
            msp: self.msp,
            ssr: self.ssr,
        }
    }
}

impl Default for Registers {
    /// All registers zero.
    fn default() -> (r: Registers)
        ensures
            r@ == RegisterState::zero(),
            r@.wf(),
    {
        Registers::new()
    }
}

impl Registers {
    /// All registers zero: user state, with A7 and its shadow in step.
    pub fn new() -> (r: Registers)
        ensures
            r@ == RegisterState::zero(),
            r@.wf(),
    {
        let r = Registers {
            d: [0u32; 8],
            a: [0u32; 8],
            pc: 0,
            ccr: ConditionCode::empty(),
            usp: 0,
            isp: 0,
            msp: 0,
            ssr: SupervisorStatusRegister::empty(),
        };
        assert(r@.d =~= RegisterState::zero().d);
        assert(r@.a =~= RegisterState::zero().a);
        r
    }

    /// There are eight registers of each kind.
    pub proof fn lemma_eight(&self)
        ensures
            self@.d.len() == 8,
            self@.a.len() == 8,
    {
    }

    pub fn pc(&self) -> (r: u32)
        ensures
            r == self@.pc,
    {
        self.pc
    }

    /// Moves the program counter one byte on, wrapping at the end of the
    /// address space.
    pub fn pc_increment(&mut self)
        ensures
            final(self)@ == old(self)@.with_pc(old(self)@.pc.wrapping_add(1)),
            old(self)@.wf() ==> final(self)@.wf(),
    {
        self.pc = self.pc.wrapping_add(1);
    }

    pub fn set_pc(&mut self, new_pc: u32)
        ensures
            final(self)@ == old(self)@.with_pc(new_pc),
            old(self)@.wf() ==> final(self)@.wf(),
    {
        self.pc = new_pc;
    }

    /// A7, the stack pointer in use.
    pub fn sp(&self) -> (r: u32)
        ensures
            r == self@.sp(),
    {
        self.a[7]
    }

    /// Writes A7 and, with it, the shadow of the stack pointer in use.
    pub fn set_sp(&mut self, new_sp: u32)
        ensures
            final(self)@ == old(self)@.with_address(7, new_sp),
            final(self)@.sp() == new_sp,
            final(self)@.sp() == final(self)@.active_shadow(),
            final(self)@.wf(),
    {
        self.set_address(7, new_sp);
    }

    /// The stack pointer that address register 7 stands for at present.
    pub fn get_current_stack_pointer(&self) -> (r: StackPointer)
        ensures
            r == self@.active_stack(),
    {
        if !self.ssr.s {
            StackPointer::USP
        } else if self.ssr.m {
            StackPointer::MSP
        } else {
            StackPointer::ISP
        }
    }

    /// The user stack pointer.
    pub fn usp(&self) -> (r: u32)
        ensures
            r == self@.usp,
    {
        self.usp
    }

    /// Writes the user stack pointer; in user state A7 follows.
    pub fn set_usp(&mut self, new_value: u32)
        ensures
            final(self)@ == old(self)@.with_usp(new_value),
            final(self)@.usp == new_value,
            old(self)@.wf() ==> final(self)@.wf(),
    {
        self.usp = new_value;
        match self.get_current_stack_pointer() {
            StackPointer::USP => self.apply_stack_pointer(),
            _ => {},
        }
    }

    /// Adds `value`, sign-extended to 32 bits, to A7, wrapping at the end of
    /// the address space.
    pub fn displace_sp(&mut self, value: Value)
        ensures
            final(self)@ == old(self)@.with_address(
                7,
                displaced(old(self)@.sp(), sign_extended(value)),
            ),
            final(self)@.sp() == final(self)@.active_shadow(),
            final(self)@.wf(),
    {
        let sp: u32 = self.sp();
        self.set_sp(sp.wrapping_add(value.sign_extend()));
    }

    /// Adds `value`, sign-extended to 32 bits, to the program counter,
    /// wrapping at the end of the address space. A long word is no
    /// displacement of the program counter: nothing changes then.
    pub fn displace_pc(&mut self, value: Value) -> (r: Result<(), Fault>)
        ensures
            value is LongWord ==> r == Err::<(), Fault>(Fault::IllegalStateUse) && final(self)@
                == old(self)@,
            !(value is LongWord) ==> r == Ok::<(), Fault>(()) && final(self)@ == old(
                self,
            )@.with_pc(displaced(old(self)@.pc, sign_extended(value))),
            old(self)@.wf() ==> final(self)@.wf(),
    {
        match value {
            Value::LongWord(_) => Err(Fault::IllegalStateUse),
            _ => {
                self.pc = self.pc.wrapping_add(value.sign_extend());
                Ok(())
            },
        }
    }

    pub fn data(&self, reg: usize) -> (r: u32)
        requires
            reg < 8,
        ensures
            r == self@.d[reg as int],
    {
        self.d[reg]
    }

    pub fn set_data(&mut self, reg: usize, value: u32)
        requires
            reg < 8,
        ensures
            final(self)@ == old(self)@.with_data(reg as int, value),
            final(self)@.d[reg as int] == value,
            old(self)@.wf() ==> final(self)@.wf(),
    {
        self.d[reg] = value;
    }

    pub fn address(&self, reg: usize) -> (r: u32)
        requires
            reg < 8,
        ensures
            r == self@.a[reg as int],
    {
        self.a[reg]
    }

    /// Writes an address register. A write to A7 is a write to the stack
    /// pointer in use, and reaches its shadow.
    pub fn set_address(&mut self, reg: usize, value: u32)
        requires
            reg < 8,
        ensures
            final(self)@ == old(self)@.with_address(reg as int, value),
            final(self)@.a[reg as int] == value,
            reg == 7 ==> final(self)@.sp() == final(self)@.active_shadow(),
            reg == 7 || old(self)@.wf() ==> final(self)@.wf(),
    {
        self.a[reg] = value;
        if reg == 7 {
            self.save_current_stack_pointer();
        }
    }

    /// The condition codes.
    pub fn ccr(&self) -> (r: ConditionCode)
        ensures
            r == self@.ccr,
    {
        self.ccr
    }

    /// Replaces the condition codes.
    pub fn set_flags(&mut self, ccr: ConditionCode)
        ensures
            final(self)@ == old(self)@.with_ccr(ccr),
            old(self)@.wf() ==> final(self)@.wf(),
    {
        self.ccr = ccr;
    }

    /// Writes the condition codes from a byte, of which the five lowest bits
    /// count.
    pub fn set_ccr(&mut self, value: u8)
        ensures
            final(self)@ == old(self)@.with_ccr(ConditionCode::of_bits(value as int)),
            old(self)@.wf() ==> final(self)@.wf(),
    {
        self.ccr = ConditionCode::from_bits_truncate(value);
    }

    /// The system byte.
    pub fn ssr(&self) -> (r: SupervisorStatusRegister)
        ensures
            r == self@.ssr,
    {
        self.ssr
    }

    /// Writes the system byte. A7 is first saved to the shadow of the stack
    /// pointer that was in use, then loaded from the one that the new byte
    /// selects.
    pub fn set_ssr(&mut self, ssr: SupervisorStatusRegister)
        ensures
            final(self)@ == old(self)@.with_ssr(ssr),
            final(self)@.ssr == ssr,
            final(self)@.sp() == final(self)@.active_shadow(),
            final(self)@.wf(),
    {
        self.save_current_stack_pointer();
        self.ssr = ssr;
        self.apply_stack_pointer();
    }

    /// The 16-bit status register.
    pub fn sr(&self) -> (r: u16)
        ensures
            r == self@.sr(),
    {
        let ccr: u16 = self.ccr.bits() as u16;
        let ssr: u16 = self.ssr.bits() as u16;
        ssr * 256 + ccr
    }

    /// Writes the 16-bit status register, with the stack pointers kept in
    /// step as for a write to the system byte.
    pub fn set_sr(&mut self, value: u16)
        ensures
            final(self)@ == old(self)@.with_sr(value),
            final(self)@.sp() == final(self)@.active_shadow(),
            final(self)@.wf(),
    {
        let high: u8 = (value / 256) as u8;
        let low: u8 = (value % 256) as u8;
        self.set_ssr(SupervisorStatusRegister::from_bits_truncate(high));
        self.ccr = ConditionCode::from_bits_truncate(low);
    }

    /// Copies A7 to the shadow of the stack pointer in use.
    fn save_current_stack_pointer(&mut self)
        ensures
            final(self)@ == old(self)@.saved(),
            final(self)@.wf(),
    {
        match self.get_current_stack_pointer() {
            StackPointer::ISP => self.isp = self.a[7],
            StackPointer::MSP => self.msp = self.a[7],
            StackPointer::USP => self.usp = self.a[7],
        };
    }

    /// Copies the shadow of the stack pointer in use to A7.
    fn apply_stack_pointer(&mut self)
        ensures
            final(self)@ == old(self)@.applied(),
            final(self)@.wf(),
    {
        match self.get_current_stack_pointer() {
            StackPointer::ISP => self.a[7] = self.isp,
            StackPointer::MSP => self.a[7] = self.msp,
            StackPointer::USP => self.a[7] = self.usp,
        };
    }
}

} // verus!
