//! The instructions that the decoder knows.
use vstd::prelude::*;
use crate::addressing_mode::{AddressingMode, Condition, DataSize};

verus! {

/// A decoded instruction: the operation with its size and operands.
#[derive(Debug, PartialEq, Eq, Structural, Copy, Clone)]
pub enum Instruction {
    DIVU(DataSize, AddressingMode, AddressingMode),
    DIVS(DataSize, AddressingMode, AddressingMode),
    OR(DataSize, AddressingMode, AddressingMode),
    SBCD(AddressingMode, AddressingMode),
    SUB(DataSize, AddressingMode, AddressingMode),
    SUBA(DataSize, AddressingMode, AddressingMode),
    SUBX(DataSize, AddressingMode, AddressingMode),
    ASRD(DataSize, AddressingMode, AddressingMode),
    ASLD(DataSize, AddressingMode, AddressingMode),
    LSRD(DataSize, AddressingMode, AddressingMode),
    LSLD(DataSize, AddressingMode, AddressingMode),
    ROXRD(DataSize, AddressingMode, AddressingMode),
    ROXLD(DataSize, AddressingMode, AddressingMode),
    RORD(DataSize, AddressingMode, AddressingMode),
    ROLD(DataSize, AddressingMode, AddressingMode),
    ORI(DataSize, AddressingMode, AddressingMode),
    ANDI(DataSize, AddressingMode, AddressingMode),
    SUBI(DataSize, AddressingMode, AddressingMode),
    ADDI(DataSize, AddressingMode, AddressingMode),
    EORI(DataSize, AddressingMode, AddressingMode),
    CMPI(DataSize, AddressingMode),
    BTST(DataSize, AddressingMode, AddressingMode),
    BCHG(DataSize, AddressingMode, AddressingMode),
    BCLR(DataSize, AddressingMode, AddressingMode),
    BSET(DataSize, AddressingMode, AddressingMode),
    MOVEP(DataSize, AddressingMode, AddressingMode),
    MOVE(DataSize, AddressingMode, AddressingMode),
    ADDA(DataSize, AddressingMode, AddressingMode),
    ADDX(DataSize, AddressingMode, AddressingMode),
    ADD(DataSize, AddressingMode, AddressingMode),
    RESET,
    NOP,
    STOP(AddressingMode),
    RTE,
    RTS,
    TRAPV,
    RTR,
    AND(DataSize, AddressingMode, AddressingMode),
    MULU(DataSize, AddressingMode, AddressingMode),
    ABCD(AddressingMode, AddressingMode),
    EXG(DataSize, AddressingMode, AddressingMode),
    MULS(DataSize, AddressingMode, AddressingMode),
    BRA(AddressingMode),
    BSR(AddressingMode),
    BCC(DataSize, Condition, AddressingMode),
    MOVEQ(DataSize, AddressingMode, AddressingMode),
    CMP(DataSize, AddressingMode, AddressingMode),
    CMPA(DataSize, AddressingMode, AddressingMode),
    CMPM(DataSize, AddressingMode, AddressingMode),
    EOR(DataSize, AddressingMode, AddressingMode),
    SUBQ(DataSize, AddressingMode, AddressingMode),
    ADDQ(DataSize, AddressingMode, AddressingMode),
    ST(DataSize, Condition, AddressingMode),
    DB(Condition, AddressingMode, AddressingMode),
    LEA(AddressingMode, AddressingMode),
    CHK(DataSize, AddressingMode, AddressingMode),
    JMP(AddressingMode),
    JSR(AddressingMode),
    TRAP(AddressingMode),
    UNLK(AddressingMode),
    LINK(AddressingMode, AddressingMode),
    /// Size, the memory operand, and the direction: 0 from the registers to
    /// memory, 1 from memory to the registers.
    MOVEM(DataSize, AddressingMode, u8),
    TST(DataSize, AddressingMode),
    TAS(DataSize, AddressingMode),
    EXT(DataSize, AddressingMode),
    PEA(AddressingMode),
    SWAP(DataSize, AddressingMode),
    NBCD(AddressingMode),
    NOT(DataSize, AddressingMode),
    NEG(DataSize, AddressingMode),
    NEGX(DataSize, AddressingMode),
    CLR(DataSize, AddressingMode),
}

impl Instruction {
    /// An instruction is well formed when each of its operands is.
    pub open spec fn wf(self) -> bool {
        match self {
            Instruction::DIVU(_, a, b) => a.wf() && b.wf(),
            Instruction::DIVS(_, a, b) => a.wf() && b.wf(),
            Instruction::OR(_, a, b) => a.wf() && b.wf(),
            Instruction::SBCD(a, b) => a.wf() && b.wf(),
            Instruction::SUB(_, a, b) => a.wf() && b.wf(),
            Instruction::SUBA(_, a, b) => a.wf() && b.wf(),
            Instruction::SUBX(_, a, b) => a.wf() && b.wf(),
            Instruction::ASRD(_, a, b) => a.wf() && b.wf(),
            Instruction::ASLD(_, a, b) => a.wf() && b.wf(),
            Instruction::LSRD(_, a, b) => a.wf() && b.wf(),
            Instruction::LSLD(_, a, b) => a.wf() && b.wf(),
            Instruction::ROXRD(_, a, b) => a.wf() && b.wf(),
            Instruction::ROXLD(_, a, b) => a.wf() && b.wf(),
            Instruction::RORD(_, a, b) => a.wf() && b.wf(),
            Instruction::ROLD(_, a, b) => a.wf() && b.wf(),
            Instruction::ORI(_, a, b) => a.wf() && b.wf(),
            Instruction::ANDI(_, a, b) => a.wf() && b.wf(),
            Instruction::SUBI(_, a, b) => a.wf() && b.wf(),
            Instruction::ADDI(_, a, b) => a.wf() && b.wf(),
            Instruction::EORI(_, a, b) => a.wf() && b.wf(),
            Instruction::CMPI(_, a) => a.wf(),
            Instruction::BTST(_, a, b) => a.wf() && b.wf(),
            Instruction::BCHG(_, a, b) => a.wf() && b.wf(),
            Instruction::BCLR(_, a, b) => a.wf() && b.wf(),
            Instruction::BSET(_, a, b) => a.wf() && b.wf(),
            Instruction::MOVEP(_, a, b) => a.wf() && b.wf(),
            Instruction::MOVE(_, a, b) => a.wf() && b.wf(),
            Instruction::ADDA(_, a, b) => a.wf() && b.wf(),
            Instruction::ADDX(_, a, b) => a.wf() && b.wf(),
            Instruction::ADD(_, a, b) => a.wf() && b.wf(),
            Instruction::RESET => true,
            Instruction::NOP => true,
            Instruction::STOP(a) => a.wf(),
            Instruction::RTE => true,
            Instruction::RTS => true,
            Instruction::TRAPV => true,
            Instruction::RTR => true,
            Instruction::AND(_, a, b) => a.wf() && b.wf(),
            Instruction::MULU(_, a, b) => a.wf() && b.wf(),
            Instruction::ABCD(a, b) => a.wf() && b.wf(),
            Instruction::EXG(_, a, b) => a.wf() && b.wf(),
            Instruction::MULS(_, a, b) => a.wf() && b.wf(),
            Instruction::BRA(a) => a.wf(),
            Instruction::BSR(a) => a.wf(),
            Instruction::BCC(_, _, a) => a.wf(),
            Instruction::MOVEQ(_, a, b) => a.wf() && b.wf(),
            Instruction::CMP(_, a, b) => a.wf() && b.wf(),
            Instruction::CMPA(_, a, b) => a.wf() && b.wf(),
            Instruction::CMPM(_, a, b) => a.wf() && b.wf(),
            Instruction::EOR(_, a, b) => a.wf() && b.wf(),
            Instruction::SUBQ(_, a, b) => a.wf() && b.wf(),
            Instruction::ADDQ(_, a, b) => a.wf() && b.wf(),
            Instruction::ST(_, _, a) => a.wf(),
            Instruction::DB(_, a, b) => a.wf() && b.wf(),
            Instruction::LEA(a, b) => a.wf() && b.wf(),
            Instruction::CHK(_, a, b) => a.wf() && b.wf(),
            Instruction::JMP(a) => a.wf(),
            Instruction::JSR(a) => a.wf(),
            Instruction::TRAP(a) => a.wf(),
            Instruction::UNLK(a) => a.wf(),
            Instruction::LINK(a, b) => a.wf() && b.wf(),
            Instruction::MOVEM(_, a, _) => a.wf(),
            Instruction::TST(_, a) => a.wf(),
            Instruction::TAS(_, a) => a.wf(),
            Instruction::EXT(_, a) => a.wf(),
            Instruction::PEA(a) => a.wf(),
            Instruction::SWAP(_, a) => a.wf(),
            Instruction::NBCD(a) => a.wf(),
            Instruction::NOT(_, a) => a.wf(),
            Instruction::NEG(_, a) => a.wf(),
            Instruction::NEGX(_, a) => a.wf(),
            Instruction::CLR(_, a) => a.wf(),
        }
    }
}

} // verus!
