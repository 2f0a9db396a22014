//! The instruction decoder: from a 16-bit opcode word to an instruction, by
//! the word's four highest bits and then by its other fields.
use vstd::prelude::*;
use crate::addressing_mode::{
    addressing_mode_of, condition_of, data_size_of, decode_addressing_mode, decode_condition,
    decode_data_size, AddressingMode, DataSize, DataSizeIdentifier,
};
use crate::fault::Fault;
use crate::instruction_set::Instruction;

verus! {

/// The fields of an opcode word.
#[derive(Debug, PartialEq, Eq, Structural, Copy, Clone)]
pub struct Fields {
    /// Bits 15 to 12: the major group.
    pub group: usize,
    /// Bits 11 to 9.
    pub upper: usize,
    /// Bits 8 to 6.
    pub middle: usize,
    /// Bits 5 to 3: the mode of the operand in the low six bits.
    pub mode: usize,
    /// Bits 2 to 0: the register of that operand.
    pub register: usize,
}

impl Fields {
    /// Each field is as wide as its bits allow.
    pub open spec fn wf(self) -> bool {
        &&& self.group < 16
        &&& self.upper < 8
        &&& self.middle < 8
        &&& self.mode < 8
        &&& self.register < 8
    }

    /// The opcode word that has these fields.
    pub open spec fn word(self) -> int {
        4096 * self.group + 512 * self.upper + 64 * self.middle + 8 * self.mode + self.register
    }
}

/// The fields of the opcode word `opcode`.
pub open spec fn fields_of(opcode: u16) -> Fields {
    Fields {
        group: (opcode / 4096) as usize,
        upper: ((opcode / 512) % 8) as usize,
        middle: ((opcode / 64) % 8) as usize,
        mode: ((opcode / 8) % 8) as usize,
        register: (opcode % 8) as usize,
    }
}

/// Splits an opcode word into its fields.
pub fn split(opcode: u16) -> (f: Fields)
    ensures
        f == fields_of(opcode),
        f.wf(),
        f.word() == opcode,
{
    assert(4096 * (opcode / 4096) + 512 * ((opcode / 512) % 8) + 64 * ((opcode / 64) % 8) + 8
        * ((opcode / 8) % 8) + opcode % 8 == opcode) by (bit_vector);
    Fields {
        group: (opcode / 4096) as usize,
        upper: ((opcode / 512) % 8) as usize,
        middle: ((opcode / 64) % 8) as usize,
        mode: ((opcode / 8) % 8) as usize,
        register: (opcode % 8) as usize,
    }
}

/// Immediate arithmetic, bit operations and MOVEP.
///
/// `None` where the fields are a reserved pattern of this group.
pub open spec fn group_0000(f: Fields) -> Option<Instruction> {
    if f.middle >= 4 && f.mode != 1 {
        match addressing_mode_of(f.mode * 8 + f.register) {
            Some(mode) => {
                let bit: AddressingMode = AddressingMode::DataDirect(f.upper);
                if f.middle == 4 {
                    Some(Instruction::BTST(DataSize::LongWord, bit, mode))
                } else if f.middle == 5 {
                    Some(Instruction::BCHG(DataSize::LongWord, bit, mode))
                } else if f.middle == 6 {
                    Some(Instruction::BCLR(DataSize::LongWord, bit, mode))
                } else {
                    Some(Instruction::BSET(DataSize::LongWord, bit, mode))
                }
            },
            _ => None,
        }
    } else if f.middle >= 4 {
        match data_size_of(DataSizeIdentifier::OneBit(f.middle % 2)) {
            Some(size) => {
                let memory: AddressingMode = AddressingMode::AddressIndirectDisplacement(f.register);
                let data: AddressingMode = AddressingMode::DataDirect(f.upper);
                if f.middle < 6 {
                    Some(Instruction::MOVEP(size, memory, data))
                } else {
                    Some(Instruction::MOVEP(size, data, memory))
                }
            },
            _ => None,
        }
    } else if f.upper == 4 {
        match addressing_mode_of(f.mode * 8 + f.register) {
            Some(mode) => {
                let size: DataSize = match mode {
                    AddressingMode::DataDirect(_) => DataSize::LongWord,
                    _ => DataSize::Byte,
                };
                if f.middle == 0 {
                    Some(Instruction::BTST(size, AddressingMode::Immediate, mode))
                } else if f.middle == 1 {
                    Some(Instruction::BCHG(size, AddressingMode::Immediate, mode))
                } else if f.middle == 2 {
                    Some(Instruction::BCLR(size, AddressingMode::Immediate, mode))
                } else {
                    Some(Instruction::BSET(size, AddressingMode::Immediate, mode))
                }
            },
            _ => None,
        }
    } else {
        match (
            data_size_of(DataSizeIdentifier::TwoBit(f.middle)),
            addressing_mode_of(f.mode * 8 + f.register),
        ) {
            (Some(size), Some(mode)) => {
                if f.upper == 0 {
                    Some(Instruction::ORI(size, AddressingMode::Immediate, mode))
                } else if f.upper == 1 {
                    Some(Instruction::ANDI(size, AddressingMode::Immediate, mode))
                } else if f.upper == 2 {
                    Some(Instruction::SUBI(size, AddressingMode::Immediate, mode))
                } else if f.upper == 3 {
                    Some(Instruction::ADDI(size, AddressingMode::Immediate, mode))
                } else if f.upper == 5 {
                    Some(Instruction::EORI(size, AddressingMode::Immediate, mode))
                } else if f.upper == 6 {
                    Some(Instruction::CMPI(size, mode))
                } else {
                    None
                }
            },
            _ => None,
        }
    }
}

/// MOVE: the source is the low six bits; the destination is bits 11 to 6
/// with the register above the mode.
///
/// `None` where the fields are a reserved pattern of this group.
pub open spec fn group_move(f: Fields) -> Option<Instruction> {
    let size: DataSize = if f.group == 1 {
        DataSize::Byte
    } else if f.group == 2 {
        DataSize::LongWord
    } else {
        DataSize::Word
    };
    match (
        addressing_mode_of(f.mode * 8 + f.register),
        addressing_mode_of(f.middle * 8 + f.upper),
    ) {
        (Some(source), Some(destination)) => Some(Instruction::MOVE(size, source, destination)),
        _ => None,
    }
}

/// The dense group of single-operand and control instructions.
///
/// `None` where the fields are a reserved pattern of this group.
pub open spec fn group_0100(f: Fields) -> Option<Instruction> {
    if f.upper == 7 && f.middle == 1 && f.mode == 6 && f.register == 0 {
        Some(Instruction::RESET)
    } else if f.upper == 7 && f.middle == 1 && f.mode == 6 && f.register == 1 {
        Some(Instruction::NOP)
    } else if f.upper == 7 && f.middle == 1 && f.mode == 6 && f.register == 2 {
        Some(Instruction::STOP(AddressingMode::Immediate))
    } else if f.upper == 7 && f.middle == 1 && f.mode == 6 && f.register == 3 {
        Some(Instruction::RTE)
    } else if f.upper == 7 && f.middle == 1 && f.mode == 6 && f.register == 5 {
        Some(Instruction::RTS)
    } else if f.upper == 7 && f.middle == 1 && f.mode == 6 && f.register == 6 {
        Some(Instruction::TRAPV)
    } else if f.upper == 7 && f.middle == 1 && f.mode == 6 && f.register == 7 {
        Some(Instruction::RTR)
    } else if f.middle >= 4 {
        match addressing_mode_of(f.mode * 8 + f.register) {
            Some(mode) => {
                if f.middle == 6 {
                    Some(Instruction::CHK(DataSize::Word, mode, AddressingMode::DataDirect(f.upper)))
                } else if f.middle == 7 {
                    Some(Instruction::LEA(mode, AddressingMode::AddressDirect(f.upper)))
                } else {
                    None
                }
            },
            _ => None,
        }
    } else if f.upper == 4 && f.middle == 1 && f.mode == 0 {
        Some(Instruction::SWAP(DataSize::Word, AddressingMode::DataDirect(f.register)))
    } else if f.upper == 4 && f.middle >= 2 && f.mode == 0 {
        match data_size_of(DataSizeIdentifier::OneBit(f.middle % 2)) {
            Some(size) => Some(Instruction::EXT(size, AddressingMode::DataDirect(f.register))),
            _ => None,
        }
    } else if f.upper == 7 && f.middle == 1 && f.mode == 2 {
        Some(
            Instruction::LINK(
                AddressingMode::AddressDirect(f.register),
                AddressingMode::Immediate,
            ),
        )
    } else if f.upper == 7 && f.middle == 1 && f.mode == 3 {
        Some(Instruction::UNLK(AddressingMode::AddressDirect(f.register)))
    } else if f.upper == 7 && f.middle == 1 && f.mode == 4 {
        Some(
            Instruction::MOVE(
                DataSize::Word,
                AddressingMode::AddressDirect(f.register),
                AddressingMode::USP,
            ),
        )
    } else if f.upper == 7 && f.middle == 1 && f.mode == 5 {
        Some(
            Instruction::MOVE(
                DataSize::Word,
                AddressingMode::USP,
                AddressingMode::AddressDirect(f.register),
            ),
        )
    } else if f.upper == 7 && f.middle == 1 {
        Some(Instruction::TRAP(AddressingMode::Vector((f.mode * 8 + f.register) as u32)))
    } else if f.upper == 7 && f.middle == 0 {
        None
    } else {
        match addressing_mode_of(f.mode * 8 + f.register) {
            Some(mode) => {
                if f.middle == 3 && f.upper == 0 {
                    Some(Instruction::MOVE(DataSize::Word, AddressingMode::SR, mode))
                } else if f.middle == 3 && f.upper == 2 {
                    Some(Instruction::MOVE(DataSize::Word, mode, AddressingMode::CCR))
                } else if f.middle == 3 && f.upper == 3 {
                    Some(Instruction::MOVE(DataSize::Word, mode, AddressingMode::SR))
                } else if f.middle == 3 && f.upper == 5 {
                    Some(Instruction::TAS(DataSize::Byte, mode))
                } else if f.upper == 4 && f.middle == 0 {
                    Some(Instruction::NBCD(mode))
                } else if f.upper == 4 && f.middle == 1 {
                    Some(Instruction::PEA(mode))
                } else if f.upper == 7 && f.middle == 2 {
                    Some(Instruction::JSR(mode))
                } else if f.upper == 7 {
                    Some(Instruction::JMP(mode))
                } else if f.upper == 4 || f.upper == 6 {
                    match data_size_of(DataSizeIdentifier::OneBit(f.middle % 2)) {
                        Some(size) => if f.upper == 4 {
                            Some(Instruction::MOVEM(size, mode, 0))
                        } else {
                            Some(Instruction::MOVEM(size, mode, 1))
                        },
                        _ => None,
                    }
                } else {
                    match data_size_of(DataSizeIdentifier::TwoBit(f.middle)) {
                        Some(size) => if f.upper == 0 {
                            Some(Instruction::NEGX(size, mode))
                        } else if f.upper == 1 {
                            Some(Instruction::CLR(size, mode))
                        } else if f.upper == 2 {
                            Some(Instruction::NEG(size, mode))
                        } else if f.upper == 3 {
                            Some(Instruction::NOT(size, mode))
                        } else {
                            Some(Instruction::TST(size, mode))
                        },
                        _ => None,
                    }
                }
            },
            _ => None,
        }
    }
}

/// ADDQ and SUBQ, and the set and loop instructions on a condition.
///
/// `None` where the fields are a reserved pattern of this group.
pub open spec fn group_0101(f: Fields) -> Option<Instruction> {
    if f.middle % 4 == 3 && f.mode == 1 {
        Some(
            Instruction::DB(
                condition_of(f.upper * 2 + f.middle / 4),
                AddressingMode::DataDirect(f.register),
                AddressingMode::Immediate,
            ),
        )
    } else if f.middle % 4 == 3 {
        match addressing_mode_of(f.mode * 8 + f.register) {
            Some(mode) => Some(
                Instruction::ST(DataSize::Byte, condition_of(f.upper * 2 + f.middle / 4), mode),
            ),
            _ => None,
        }
    } else {
        match (
            data_size_of(DataSizeIdentifier::TwoBit(f.middle % 4)),
            addressing_mode_of(f.mode * 8 + f.register),
        ) {
            (Some(size), Some(mode)) => {
                let quick: AddressingMode = AddressingMode::Value(f.upper as u32);
                if f.middle < 4 {
                    Some(Instruction::ADDQ(size, quick, mode))
                } else {
                    Some(Instruction::SUBQ(size, quick, mode))
                }
            },
            _ => None,
        }
    }
}

/// Branches: bits 11 to 8 are the condition, the low byte is the short
/// displacement, and a zero there says that a word displacement follows.
///
/// `None` where the fields are a reserved pattern of this group.
pub open spec fn group_0110(f: Fields) -> Option<Instruction> {
    let code = f.upper * 2 + f.middle / 4;
    let label = (f.middle % 4) * 64 + f.mode * 8 + f.register;
    let target: AddressingMode = if label == 0 {
        AddressingMode::Immediate
    } else {
        AddressingMode::Value(label as u32)
    };
    if code == 0 {
        Some(Instruction::BRA(target))
    } else if code == 1 {
        Some(Instruction::BSR(target))
    } else if label == 0 {
        Some(Instruction::BCC(DataSize::Word, condition_of(code), target))
    } else {
        Some(Instruction::BCC(DataSize::Byte, condition_of(code), target))
    }
}

/// MOVEQ: the low byte, sign-extended to 32 bits, goes to the data
/// register that bits 11 to 9 name.
///
/// `None` where the fields are a reserved pattern of this group.
pub open spec fn group_0111(f: Fields) -> Option<Instruction> {
    let byte = (f.middle % 4) * 64 + f.mode * 8 + f.register;
    let quick: u32 = if byte >= 0x80 {
        (byte + 0xffff_ff00) as u32
    } else {
        byte as u32
    };
    Some(
        Instruction::MOVEQ(
            DataSize::LongWord,
            AddressingMode::Value(quick),
            AddressingMode::DataDirect(f.upper),
        ),
    )
}

/// OR, the divisions and SBCD.
///
/// `None` where the fields are a reserved pattern of this group.
pub open spec fn group_1000(f: Fields) -> Option<Instruction> {
    let data: AddressingMode = AddressingMode::DataDirect(f.upper);
    if f.middle == 4 && f.mode < 2 {
        Some(Instruction::SBCD(data, AddressingMode::DataDirect(f.register)))
    } else {
        match addressing_mode_of(f.mode * 8 + f.register) {
            Some(mode) => {
                if f.middle == 3 {
                    Some(Instruction::DIVU(DataSize::Word, mode, data))
                } else if f.middle == 7 {
                    Some(Instruction::DIVS(DataSize::Word, data, mode))
                } else {
                    match data_size_of(DataSizeIdentifier::TwoBit(f.middle % 4)) {
                        Some(size) => if f.middle < 4 {
                            Some(Instruction::OR(size, mode, data))
                        } else {
                            Some(Instruction::OR(size, data, mode))
                        },
                        _ => None,
                    }
                }
            },
            _ => None,
        }
    }
}

/// SUB, SUBA and SUBX.
///
/// `None` where the fields are a reserved pattern of this group.
pub open spec fn group_1001(f: Fields) -> Option<Instruction> {
    let data: AddressingMode = AddressingMode::DataDirect(f.upper);
    if f.middle % 4 == 3 {
        match (
            data_size_of(DataSizeIdentifier::OneBit(f.middle / 4)),
            addressing_mode_of(f.mode * 8 + f.register),
        ) {
            (Some(size), Some(mode)) => Some(
                Instruction::SUBA(size, mode, AddressingMode::AddressDirect(f.upper)),
            ),
            _ => None,
        }
    } else if f.middle >= 4 && f.mode < 2 {
        match data_size_of(DataSizeIdentifier::TwoBit(f.middle % 4)) {
            Some(size) => if f.mode == 0 {
                Some(Instruction::SUBX(size, AddressingMode::DataDirect(f.register), data))
            } else {
                Some(
                    Instruction::SUBX(
                        size,
                        AddressingMode::AddressIndirectPreDecrement(f.register),
                        AddressingMode::AddressIndirectPreDecrement(f.upper),
                    ),
                )
            },
            _ => None,
        }
    } else {
        match (
            data_size_of(DataSizeIdentifier::TwoBit(f.middle % 4)),
            addressing_mode_of(f.mode * 8 + f.register),
        ) {
            (Some(size), Some(mode)) => if f.middle < 4 && f.mode == 0 {
                Some(Instruction::SUB(size, mode, data))
            } else {
                Some(Instruction::SUB(size, data, mode))
            },
            _ => None,
        }
    }
}

/// CMP, CMPA, CMPM and EOR.
///
/// `None` where the fields are a reserved pattern of this group.
pub open spec fn group_1011(f: Fields) -> Option<Instruction> {
    if f.middle % 4 == 3 {
        match (
            data_size_of(DataSizeIdentifier::OneBit(f.middle / 4)),
            addressing_mode_of(f.mode * 8 + f.register),
        ) {
            (Some(size), Some(mode)) => Some(
                Instruction::CMPA(size, mode, AddressingMode::AddressDirect(f.upper)),
            ),
            _ => None,
        }
    } else if f.middle >= 4 && f.mode < 2 {
        match data_size_of(DataSizeIdentifier::TwoBit(f.middle % 4)) {
            Some(size) => if f.mode == 0 {
                Some(
                    Instruction::CMPM(
                        size,
                        AddressingMode::DataDirect(f.register),
                        AddressingMode::DataDirect(f.upper),
                    ),
                )
            } else {
                Some(
                    Instruction::CMPM(
                        size,
                        AddressingMode::AddressIndirectPostIncrement(f.register),
                        AddressingMode::AddressIndirectPostIncrement(f.upper),
                    ),
                )
            },
            _ => None,
        }
    } else {
        match (
            data_size_of(DataSizeIdentifier::TwoBit(f.middle % 4)),
            addressing_mode_of(f.mode * 8 + f.register),
        ) {
            (Some(size), Some(mode)) => if f.middle < 4 {
                Some(Instruction::CMP(size, mode, AddressingMode::DataDirect(f.upper)))
            } else {
                Some(Instruction::EOR(size, mode, AddressingMode::AddressDirect(f.upper)))
            },
            _ => None,
        }
    }
}

/// AND, the multiplications, ABCD and EXG.
///
/// `None` where the fields are a reserved pattern of this group.
pub open spec fn group_1100(f: Fields) -> Option<Instruction> {
    let data: AddressingMode = AddressingMode::DataDirect(f.upper);
    if f.middle == 4 && f.mode == 0 {
        Some(Instruction::ABCD(AddressingMode::DataDirect(f.register), data))
    } else if f.middle == 4 && f.mode == 1 {
        Some(
            Instruction::ABCD(
                AddressingMode::AddressIndirectPreDecrement(f.register),
                AddressingMode::AddressIndirectPreDecrement(f.upper),
            ),
        )
    } else if f.middle == 5 && f.mode == 0 {
        Some(Instruction::EXG(DataSize::LongWord, AddressingMode::DataDirect(f.register), data))
    } else if f.middle == 5 && f.mode == 1 {
        Some(
            Instruction::EXG(
                DataSize::LongWord,
                AddressingMode::AddressDirect(f.register),
                AddressingMode::AddressDirect(f.upper),
            ),
        )
    } else if f.middle == 6 && f.mode == 1 {
        Some(Instruction::EXG(DataSize::LongWord, AddressingMode::AddressDirect(f.register), data))
    } else {
        match addressing_mode_of(f.mode * 8 + f.register) {
            Some(mode) => {
                if f.middle == 3 {
                    Some(Instruction::MULU(DataSize::Word, mode, data))
                } else if f.middle == 7 {
                    Some(Instruction::MULS(DataSize::Word, mode, data))
                } else {
                    match data_size_of(DataSizeIdentifier::TwoBit(f.middle % 4)) {
                        Some(size) => if f.middle < 4 {
                            Some(Instruction::AND(size, mode, data))
                        } else {
                            Some(Instruction::AND(size, data, mode))
                        },
                        _ => None,
                    }
                }
            },
            _ => None,
        }
    }
}

/// ADD, ADDA and ADDX.
///
/// `None` where the fields are a reserved pattern of this group.
pub open spec fn group_1101(f: Fields) -> Option<Instruction> {
    let data: AddressingMode = AddressingMode::DataDirect(f.upper);
    if f.middle % 4 == 3 {
        match (
            data_size_of(DataSizeIdentifier::OneBit(f.middle / 4)),
            addressing_mode_of(f.mode * 8 + f.register),
        ) {
            (Some(size), Some(mode)) => Some(
                Instruction::ADDA(size, mode, AddressingMode::AddressDirect(f.upper)),
            ),
            _ => None,
        }
    } else if f.middle >= 4 && f.mode < 2 {
        match data_size_of(DataSizeIdentifier::TwoBit(f.middle % 4)) {
            Some(size) => if f.mode == 0 {
                Some(Instruction::ADDX(size, AddressingMode::DataDirect(f.register), data))
            } else {
                Some(
                    Instruction::ADDX(
                        size,
                        AddressingMode::AddressIndirectPreDecrement(f.register),
                        AddressingMode::AddressIndirectPreDecrement(f.upper),
                    ),
                )
            },
            _ => None,
        }
    } else {
        match (
            data_size_of(DataSizeIdentifier::TwoBit(f.middle % 4)),
            addressing_mode_of(f.mode * 8 + f.register),
        ) {
            (Some(size), Some(mode)) => if f.middle < 4 {
                Some(Instruction::ADD(size, mode, data))
            } else {
                Some(Instruction::ADD(size, data, mode))
            },
            _ => None,
        }
    }
}

/// Shifts and rotates. With bits 7 and 6 set and bit 11 clear the operand
/// is in memory and moves by one position; else it is a data register, and the
/// count is bits 11 to 9 or, with bit 5 set, the data register they name.
///
/// `None` where the fields are a reserved pattern of this group.
pub open spec fn group_1110(f: Fields) -> Option<Instruction> {
    if f.middle % 4 == 3 && f.upper < 4 {
        match addressing_mode_of(f.mode * 8 + f.register) {
            Some(mode) => {
                let one: AddressingMode = AddressingMode::Value(1);
                let kind = f.upper * 2 + f.middle / 4;
                if kind == 0 {
                    Some(Instruction::ASRD(DataSize::Word, one, mode))
                } else if kind == 1 {
                    Some(Instruction::ASLD(DataSize::Word, one, mode))
                } else if kind == 2 {
                    Some(Instruction::LSRD(DataSize::Word, one, mode))
                } else if kind == 3 {
                    Some(Instruction::LSLD(DataSize::Word, one, mode))
                } else if kind == 4 {
                    Some(Instruction::ROXRD(DataSize::Word, one, mode))
                } else if kind == 5 {
                    Some(Instruction::ROXLD(DataSize::Word, one, mode))
                } else if kind == 6 {
                    Some(Instruction::RORD(DataSize::Word, one, mode))
                } else {
                    Some(Instruction::ROLD(DataSize::Word, one, mode))
                }
            },
            _ => None,
        }
    } else {
        match data_size_of(DataSizeIdentifier::TwoBit(f.middle % 4)) {
            Some(size) => {
                let count: AddressingMode = if f.mode < 4 {
                    AddressingMode::Value(f.upper as u32)
                } else {
                    AddressingMode::DataDirect(f.upper)
                };
                let register: AddressingMode = AddressingMode::DataDirect(f.register);
                let kind = (f.mode % 4) * 2 + f.middle / 4;
                if kind == 0 {
                    Some(Instruction::ASRD(size, count, register))
                } else if kind == 1 {
                    Some(Instruction::ASLD(size, count, register))
                } else if kind == 2 {
                    Some(Instruction::LSRD(size, count, register))
                } else if kind == 3 {
                    Some(Instruction::LSLD(size, count, register))
                } else if kind == 4 {
                    Some(Instruction::ROXRD(size, count, register))
                } else if kind == 5 {
                    Some(Instruction::ROXLD(size, count, register))
                } else if kind == 6 {
                    Some(Instruction::RORD(size, count, register))
                } else {
                    Some(Instruction::ROLD(size, count, register))
                }
            },
            _ => None,
        }
    }
}

/// The instruction that the opcode word `opcode` stands for; `None` where the
/// word is a reserved or unknown pattern.
///
/// The four highest bits choose one of sixteen groups, of which two (`1010`
/// and `1111`) hold no instruction; within a group the other fields decide.
pub open spec fn instruction_of(opcode: u16) -> Option<Instruction> {
    let f = fields_of(opcode);
    if f.group == 0 {
        group_0000(f)
    } else if f.group <= 3 {
        group_move(f)
    } else if f.group == 4 {
        group_0100(f)
    } else if f.group == 5 {
        group_0101(f)
    } else if f.group == 6 {
        group_0110(f)
    } else if f.group == 7 {
        group_0111(f)
    } else if f.group == 8 {
        group_1000(f)
    } else if f.group == 9 {
        group_1001(f)
    } else if f.group == 11 {
        group_1011(f)
    } else if f.group == 12 {
        group_1100(f)
    } else if f.group == 13 {
        group_1101(f)
    } else if f.group == 14 {
        group_1110(f)
    } else {
        None
    }
}

/// What a decoder returns for an opcode that stands for `expected`: the
/// instruction itself, or a decode failure where there is none.
pub open spec fn decodes_to(r: Result<Instruction, Fault>, expected: Option<Instruction>) -> bool {
    match expected {
        Some(instruction) => r == Ok::<Instruction, Fault>(instruction) && instruction.wf(),
        None => r == Err::<Instruction, Fault>(Fault::DecodeFailure),
    }
}

/// The fields of an opcode word are its bits 15 to 12, 11 to 9, 8 to 6, 5 to 3
/// and 2 to 0.
pub proof fn lemma_fields_are_bit_fields(opcode: u16)
    ensures
        fields_of(opcode).group == opcode >> 12,
        fields_of(opcode).upper == (opcode >> 9) & 7,
        fields_of(opcode).middle == (opcode >> 6) & 7,
        fields_of(opcode).mode == (opcode >> 3) & 7,
        fields_of(opcode).register == opcode & 7,
{
    assert({
        &&& opcode / 4096 == opcode >> 12
        &&& (opcode / 512) % 8 == (opcode >> 9) & 7
        &&& (opcode / 64) % 8 == (opcode >> 6) & 7
        &&& (opcode / 8) % 8 == (opcode >> 3) & 7
        &&& opcode % 8 == opcode & 7
    }) by (bit_vector);
}

/// The groups `1010` and `1111` hold no instruction.
pub proof fn lemma_unassigned_groups(opcode: u16)
    requires
        opcode >> 12 == 10 || opcode >> 12 == 15,
    ensures
        instruction_of(opcode) is None,
{
    lemma_fields_are_bit_fields(opcode);
}

/// Every opcode of the group `0111` is a MOVEQ of its low byte, sign-extended
/// to 32 bits, to the data register that bits 11 to 9 name.
pub proof fn lemma_moveq(opcode: u16)
    requires
        opcode >> 12 == 7,
    ensures
        instruction_of(opcode) == Some(
            Instruction::MOVEQ(
                DataSize::LongWord,
                AddressingMode::Value(
                    if opcode & 0x80 != 0 {
                        0xffff_ff00u32 | (opcode & 0xff) as u32
                    } else {
                        (opcode & 0xff) as u32
                    },
                ),
                AddressingMode::DataDirect(((opcode >> 9) & 7) as usize),
            ),
        ),
{
    lemma_fields_are_bit_fields(opcode);
    let f = fields_of(opcode);
    let byte = (f.middle % 4) * 64 + f.mode * 8 + f.register;
    assert({
        &&& (((opcode / 64) % 8) % 4) * 64 + ((opcode / 8) % 8) * 8 + opcode % 8 == opcode & 0xff
        &&& (opcode & 0x80 != 0 <==> opcode & 0xff >= 0x80)
        &&& (opcode & 0xff) as u32 + 0xffff_ff00 == 0xffff_ff00u32 | (opcode & 0xff) as u32
    }) by (bit_vector);
}

/// Decodes an opcode of the group: immediate arithmetic, bit operations and MOVEP.
pub fn decode_0000(f: Fields) -> (r: Result<Instruction, Fault>)
    requires
        f.wf(),
    ensures
        decodes_to(r, group_0000(f)),
{
    if f.middle >= 4 && f.mode != 1 {
        match decode_addressing_mode(f.mode * 8 + f.register) {
            Ok(mode) => {
                let bit: AddressingMode = AddressingMode::DataDirect(f.upper);
                if f.middle == 4 {
                    Ok(Instruction::BTST(DataSize::LongWord, bit, mode))
                } else if f.middle == 5 {
                    Ok(Instruction::BCHG(DataSize::LongWord, bit, mode))
                } else if f.middle == 6 {
                    Ok(Instruction::BCLR(DataSize::LongWord, bit, mode))
                } else {
                    Ok(Instruction::BSET(DataSize::LongWord, bit, mode))
                }
            },
            _ => Err(Fault::DecodeFailure),
        }
    } else if f.middle >= 4 {
        match decode_data_size(DataSizeIdentifier::OneBit(f.middle % 2)) {
            Ok(size) => {
                let memory: AddressingMode = AddressingMode::AddressIndirectDisplacement(f.register);
                let data: AddressingMode = AddressingMode::DataDirect(f.upper);
                if f.middle < 6 {
                    Ok(Instruction::MOVEP(size, memory, data))
                } else {
                    Ok(Instruction::MOVEP(size, data, memory))
                }
            },
            _ => Err(Fault::DecodeFailure),
        }
    } else if f.upper == 4 {
        match decode_addressing_mode(f.mode * 8 + f.register) {
            Ok(mode) => {
                let size: DataSize = match mode {
                    AddressingMode::DataDirect(_) => DataSize::LongWord,
                    _ => DataSize::Byte,
                };
                if f.middle == 0 {
                    Ok(Instruction::BTST(size, AddressingMode::Immediate, mode))
                } else if f.middle == 1 {
                    Ok(Instruction::BCHG(size, AddressingMode::Immediate, mode))
                } else if f.middle == 2 {
                    Ok(Instruction::BCLR(size, AddressingMode::Immediate, mode))
                } else {
                    Ok(Instruction::BSET(size, AddressingMode::Immediate, mode))
                }
            },
            _ => Err(Fault::DecodeFailure),
        }
    } else {
        match (
            decode_data_size(DataSizeIdentifier::TwoBit(f.middle)),
            decode_addressing_mode(f.mode * 8 + f.register),
        ) {
            (Ok(size), Ok(mode)) => {
                if f.upper == 0 {
                    Ok(Instruction::ORI(size, AddressingMode::Immediate, mode))
                } else if f.upper == 1 {
                    Ok(Instruction::ANDI(size, AddressingMode::Immediate, mode))
                } else if f.upper == 2 {
                    Ok(Instruction::SUBI(size, AddressingMode::Immediate, mode))
                } else if f.upper == 3 {
                    Ok(Instruction::ADDI(size, AddressingMode::Immediate, mode))
                } else if f.upper == 5 {
                    Ok(Instruction::EORI(size, AddressingMode::Immediate, mode))
                } else if f.upper == 6 {
                    Ok(Instruction::CMPI(size, mode))
                } else {
                    Err(Fault::DecodeFailure)
                }
            },
            _ => Err(Fault::DecodeFailure),
        }
    }
}

/// Decodes an opcode of the group: mOVE: the source is the low six bits; the destination is bits 11 to 6
/// with the register above the mode.
pub fn decode_move(f: Fields) -> (r: Result<Instruction, Fault>)
    requires
        f.wf(),
        1 <= f.group <= 3,
    ensures
        decodes_to(r, group_move(f)),
{
    let size: DataSize = if f.group == 1 {
        DataSize::Byte
    } else if f.group == 2 {
        DataSize::LongWord
    } else {
        DataSize::Word
    };
    match (
        decode_addressing_mode(f.mode * 8 + f.register),
        decode_addressing_mode(f.middle * 8 + f.upper),
    ) {
        (Ok(source), Ok(destination)) => Ok(Instruction::MOVE(size, source, destination)),
        _ => Err(Fault::DecodeFailure),
    }
}

/// Decodes an opcode of the group: the dense group of single-operand and control instructions.
pub fn decode_0100(f: Fields) -> (r: Result<Instruction, Fault>)
    requires
        f.wf(),
    ensures
        decodes_to(r, group_0100(f)),
{
    if f.upper == 7 && f.middle == 1 && f.mode == 6 && f.register == 0 {
        Ok(Instruction::RESET)
    } else if f.upper == 7 && f.middle == 1 && f.mode == 6 && f.register == 1 {
        Ok(Instruction::NOP)
    } else if f.upper == 7 && f.middle == 1 && f.mode == 6 && f.register == 2 {
        Ok(Instruction::STOP(AddressingMode::Immediate))
    } else if f.upper == 7 && f.middle == 1 && f.mode == 6 && f.register == 3 {
        Ok(Instruction::RTE)
    } else if f.upper == 7 && f.middle == 1 && f.mode == 6 && f.register == 5 {
        Ok(Instruction::RTS)
    } else if f.upper == 7 && f.middle == 1 && f.mode == 6 && f.register == 6 {
        Ok(Instruction::TRAPV)
    } else if f.upper == 7 && f.middle == 1 && f.mode == 6 && f.register == 7 {
        Ok(Instruction::RTR)
    } else if f.middle >= 4 {
        match decode_addressing_mode(f.mode * 8 + f.register) {
            Ok(mode) => {
                if f.middle == 6 {
                    Ok(Instruction::CHK(DataSize::Word, mode, AddressingMode::DataDirect(f.upper)))
                } else if f.middle == 7 {
                    Ok(Instruction::LEA(mode, AddressingMode::AddressDirect(f.upper)))
                } else {
                    Err(Fault::DecodeFailure)
                }
            },
            _ => Err(Fault::DecodeFailure),
        }
    } else if f.upper == 4 && f.middle == 1 && f.mode == 0 {
        Ok(Instruction::SWAP(DataSize::Word, AddressingMode::DataDirect(f.register)))
    } else if f.upper == 4 && f.middle >= 2 && f.mode == 0 {
        match decode_data_size(DataSizeIdentifier::OneBit(f.middle % 2)) {
            Ok(size) => Ok(Instruction::EXT(size, AddressingMode::DataDirect(f.register))),
            _ => Err(Fault::DecodeFailure),
        }
    } else if f.upper == 7 && f.middle == 1 && f.mode == 2 {
        Ok(
            Instruction::LINK(
                AddressingMode::AddressDirect(f.register),
                AddressingMode::Immediate,
            ),
        )
    } else if f.upper == 7 && f.middle == 1 && f.mode == 3 {
        Ok(Instruction::UNLK(AddressingMode::AddressDirect(f.register)))
    } else if f.upper == 7 && f.middle == 1 && f.mode == 4 {
        Ok(
            Instruction::MOVE(
                DataSize::Word,
                AddressingMode::AddressDirect(f.register),
                AddressingMode::USP,
            ),
        )
    } else if f.upper == 7 && f.middle == 1 && f.mode == 5 {
        Ok(
            Instruction::MOVE(
                DataSize::Word,
                AddressingMode::USP,
                AddressingMode::AddressDirect(f.register),
            ),
        )
    } else if f.upper == 7 && f.middle == 1 {
        Ok(Instruction::TRAP(AddressingMode::Vector((f.mode * 8 + f.register) as u32)))
    } else if f.upper == 7 && f.middle == 0 {
        Err(Fault::DecodeFailure)
    } else {
        match decode_addressing_mode(f.mode * 8 + f.register) {
            Ok(mode) => {
                if f.middle == 3 && f.upper == 0 {
                    Ok(Instruction::MOVE(DataSize::Word, AddressingMode::SR, mode))
                } else if f.middle == 3 && f.upper == 2 {
                    Ok(Instruction::MOVE(DataSize::Word, mode, AddressingMode::CCR))
                } else if f.middle == 3 && f.upper == 3 {
                    Ok(Instruction::MOVE(DataSize::Word, mode, AddressingMode::SR))
                } else if f.middle == 3 && f.upper == 5 {
                    Ok(Instruction::TAS(DataSize::Byte, mode))
                } else if f.upper == 4 && f.middle == 0 {
                    Ok(Instruction::NBCD(mode))
                } else if f.upper == 4 && f.middle == 1 {
                    Ok(Instruction::PEA(mode))
                } else if f.upper == 7 && f.middle == 2 {
                    Ok(Instruction::JSR(mode))
                } else if f.upper == 7 {
                    Ok(Instruction::JMP(mode))
                } else if f.upper == 4 || f.upper == 6 {
                    match decode_data_size(DataSizeIdentifier::OneBit(f.middle % 2)) {
                        Ok(size) => if f.upper == 4 {
                            Ok(Instruction::MOVEM(size, mode, 0))
                        } else {
                            Ok(Instruction::MOVEM(size, mode, 1))
                        },
                        _ => Err(Fault::DecodeFailure),
                    }
                } else {
                    match decode_data_size(DataSizeIdentifier::TwoBit(f.middle)) {
                        Ok(size) => if f.upper == 0 {
                            Ok(Instruction::NEGX(size, mode))
                        } else if f.upper == 1 {
                            Ok(Instruction::CLR(size, mode))
                        } else if f.upper == 2 {
                            Ok(Instruction::NEG(size, mode))
                        } else if f.upper == 3 {
                            Ok(Instruction::NOT(size, mode))
                        } else {
                            Ok(Instruction::TST(size, mode))
                        },
                        _ => Err(Fault::DecodeFailure),
                    }
                }
            },
            _ => Err(Fault::DecodeFailure),
        }
    }
}

/// Decodes an opcode of the group: aDDQ and SUBQ, and the set and loop instructions on a condition.
pub fn decode_0101(f: Fields) -> (r: Result<Instruction, Fault>)
    requires
        f.wf(),
    ensures
        decodes_to(r, group_0101(f)),
{
    if f.middle % 4 == 3 && f.mode == 1 {
        Ok(
            Instruction::DB(
                decode_condition(f.upper * 2 + f.middle / 4),
                AddressingMode::DataDirect(f.register),
                AddressingMode::Immediate,
            ),
        )
    } else if f.middle % 4 == 3 {
        match decode_addressing_mode(f.mode * 8 + f.register) {
            Ok(mode) => Ok(
                Instruction::ST(DataSize::Byte, decode_condition(f.upper * 2 + f.middle / 4), mode),
            ),
            _ => Err(Fault::DecodeFailure),
        }
    } else {
        match (
            decode_data_size(DataSizeIdentifier::TwoBit(f.middle % 4)),
            decode_addressing_mode(f.mode * 8 + f.register),
        ) {
            (Ok(size), Ok(mode)) => {
                let quick: AddressingMode = AddressingMode::Value(f.upper as u32);
                if f.middle < 4 {
                    Ok(Instruction::ADDQ(size, quick, mode))
                } else {
                    Ok(Instruction::SUBQ(size, quick, mode))
                }
            },
            _ => Err(Fault::DecodeFailure),
        }
    }
}

/// Decodes an opcode of the group: branches: bits 11 to 8 are the condition, the low byte is the short
/// displacement, and a zero there says that a word displacement follows.
pub fn decode_0110(f: Fields) -> (r: Result<Instruction, Fault>)
    requires
        f.wf(),
    ensures
        decodes_to(r, group_0110(f)),
{
    let code: usize = f.upper * 2 + f.middle / 4;
    let label: usize = (f.middle % 4) * 64 + f.mode * 8 + f.register;
    let target: AddressingMode = if label == 0 {
        AddressingMode::Immediate
    } else {
        AddressingMode::Value(label as u32)
    };
    if code == 0 {
        Ok(Instruction::BRA(target))
    } else if code == 1 {
        Ok(Instruction::BSR(target))
    } else if label == 0 {
        Ok(Instruction::BCC(DataSize::Word, decode_condition(code), target))
    } else {
        Ok(Instruction::BCC(DataSize::Byte, decode_condition(code), target))
    }
}

/// Decodes an opcode of the group: mOVEQ: the low byte, sign-extended to 32 bits, goes to the data
/// register that bits 11 to 9 name.
pub fn decode_0111(f: Fields) -> (r: Result<Instruction, Fault>)
    requires
        f.wf(),
    ensures
        decodes_to(r, group_0111(f)),
{
    let byte: usize = (f.middle % 4) * 64 + f.mode * 8 + f.register;
    let quick: u32 = if byte >= 0x80 {
        (byte + 0xffff_ff00) as u32
    } else {
        byte as u32
    };
    Ok(
        Instruction::MOVEQ(
            DataSize::LongWord,
            AddressingMode::Value(quick),
            AddressingMode::DataDirect(f.upper),
        ),
    )
}

/// Decodes an opcode of the group: oR, the divisions and SBCD.
pub fn decode_1000(f: Fields) -> (r: Result<Instruction, Fault>)
    requires
        f.wf(),
    ensures
        decodes_to(r, group_1000(f)),
{
    let data: AddressingMode = AddressingMode::DataDirect(f.upper);
    if f.middle == 4 && f.mode < 2 {
        Ok(Instruction::SBCD(data, AddressingMode::DataDirect(f.register)))
    } else {
        match decode_addressing_mode(f.mode * 8 + f.register) {
            Ok(mode) => {
                if f.middle == 3 {
                    Ok(Instruction::DIVU(DataSize::Word, mode, data))
                } else if f.middle == 7 {
                    Ok(Instruction::DIVS(DataSize::Word, data, mode))
                } else {
                    match decode_data_size(DataSizeIdentifier::TwoBit(f.middle % 4)) {
                        Ok(size) => if f.middle < 4 {
                            Ok(Instruction::OR(size, mode, data))
                        } else {
                            Ok(Instruction::OR(size, data, mode))
                        },
                        _ => Err(Fault::DecodeFailure),
                    }
                }
            },
            _ => Err(Fault::DecodeFailure),
        }
    }
}

/// Decodes an opcode of the group: sUB, SUBA and SUBX.
pub fn decode_1001(f: Fields) -> (r: Result<Instruction, Fault>)
    requires
        f.wf(),
    ensures
        decodes_to(r, group_1001(f)),
{
    let data: AddressingMode = AddressingMode::DataDirect(f.upper);
    if f.middle % 4 == 3 {
        match (
            decode_data_size(DataSizeIdentifier::OneBit(f.middle / 4)),
            decode_addressing_mode(f.mode * 8 + f.register),
        ) {
            (Ok(size), Ok(mode)) => Ok(
                Instruction::SUBA(size, mode, AddressingMode::AddressDirect(f.upper)),
            ),
            _ => Err(Fault::DecodeFailure),
        }
    } else if f.middle >= 4 && f.mode < 2 {
        match decode_data_size(DataSizeIdentifier::TwoBit(f.middle % 4)) {
            Ok(size) => if f.mode == 0 {
                Ok(Instruction::SUBX(size, AddressingMode::DataDirect(f.register), data))
            } else {
                Ok(
                    Instruction::SUBX(
                        size,
                        AddressingMode::AddressIndirectPreDecrement(f.register),
                        AddressingMode::AddressIndirectPreDecrement(f.upper),
                    ),
                )
            },
            _ => Err(Fault::DecodeFailure),
        }
    } else {
        match (
            decode_data_size(DataSizeIdentifier::TwoBit(f.middle % 4)),
            decode_addressing_mode(f.mode * 8 + f.register),
        ) {
            (Ok(size), Ok(mode)) => if f.middle < 4 && f.mode == 0 {
                Ok(Instruction::SUB(size, mode, data))
            } else {
                Ok(Instruction::SUB(size, data, mode))
            },
            _ => Err(Fault::DecodeFailure),
        }
    }
}

/// Decodes an opcode of the group: cMP, CMPA, CMPM and EOR.
pub fn decode_1011(f: Fields) -> (r: Result<Instruction, Fault>)
    requires
        f.wf(),
    ensures
        decodes_to(r, group_1011(f)),
{
    if f.middle % 4 == 3 {
        match (
            decode_data_size(DataSizeIdentifier::OneBit(f.middle / 4)),
            decode_addressing_mode(f.mode * 8 + f.register),
        ) {
            (Ok(size), Ok(mode)) => Ok(
                Instruction::CMPA(size, mode, AddressingMode::AddressDirect(f.upper)),
            ),
            _ => Err(Fault::DecodeFailure),
        }
    } else if f.middle >= 4 && f.mode < 2 {
        match decode_data_size(DataSizeIdentifier::TwoBit(f.middle % 4)) {
            Ok(size) => if f.mode == 0 {
                Ok(
                    Instruction::CMPM(
                        size,
                        AddressingMode::DataDirect(f.register),
                        AddressingMode::DataDirect(f.upper),
                    ),
                )
            } else {
                Ok(
                    Instruction::CMPM(
                        size,
                        AddressingMode::AddressIndirectPostIncrement(f.register),
                        AddressingMode::AddressIndirectPostIncrement(f.upper),
                    ),
                )
            },
            _ => Err(Fault::DecodeFailure),
        }
    } else {
        match (
            decode_data_size(DataSizeIdentifier::TwoBit(f.middle % 4)),
            decode_addressing_mode(f.mode * 8 + f.register),
        ) {
            (Ok(size), Ok(mode)) => if f.middle < 4 {
                Ok(Instruction::CMP(size, mode, AddressingMode::DataDirect(f.upper)))
            } else {
                Ok(Instruction::EOR(size, mode, AddressingMode::AddressDirect(f.upper)))
            },
            _ => Err(Fault::DecodeFailure),
        }
    }
}

/// Decodes an opcode of the group: aND, the multiplications, ABCD and EXG.
pub fn decode_1100(f: Fields) -> (r: Result<Instruction, Fault>)
    requires
        f.wf(),
    ensures
        decodes_to(r, group_1100(f)),
{
    let data: AddressingMode = AddressingMode::DataDirect(f.upper);
    if f.middle == 4 && f.mode == 0 {
        Ok(Instruction::ABCD(AddressingMode::DataDirect(f.register), data))
    } else if f.middle == 4 && f.mode == 1 {
        Ok(
            Instruction::ABCD(
                AddressingMode::AddressIndirectPreDecrement(f.register),
                AddressingMode::AddressIndirectPreDecrement(f.upper),
            ),
        )
    } else if f.middle == 5 && f.mode == 0 {
        Ok(Instruction::EXG(DataSize::LongWord, AddressingMode::DataDirect(f.register), data))
    } else if f.middle == 5 && f.mode == 1 {
        Ok(
            Instruction::EXG(
                DataSize::LongWord,
                AddressingMode::AddressDirect(f.register),
                AddressingMode::AddressDirect(f.upper),
            ),
        )
    } else if f.middle == 6 && f.mode == 1 {
        Ok(Instruction::EXG(DataSize::LongWord, AddressingMode::AddressDirect(f.register), data))
    } else {
        match decode_addressing_mode(f.mode * 8 + f.register) {
            Ok(mode) => {
                if f.middle == 3 {
                    Ok(Instruction::MULU(DataSize::Word, mode, data))
                } else if f.middle == 7 {
                    Ok(Instruction::MULS(DataSize::Word, mode, data))
                } else {
                    match decode_data_size(DataSizeIdentifier::TwoBit(f.middle % 4)) {
                        Ok(size) => if f.middle < 4 {
                            Ok(Instruction::AND(size, mode, data))
                        } else {
                            Ok(Instruction::AND(size, data, mode))
                        },
                        _ => Err(Fault::DecodeFailure),
                    }
                }
            },
            _ => Err(Fault::DecodeFailure),
        }
    }
}

/// Decodes an opcode of the group: aDD, ADDA and ADDX.
pub fn decode_1101(f: Fields) -> (r: Result<Instruction, Fault>)
    requires
        f.wf(),
    ensures
        decodes_to(r, group_1101(f)),
{
    let data: AddressingMode = AddressingMode::DataDirect(f.upper);
    if f.middle % 4 == 3 {
        match (
            decode_data_size(DataSizeIdentifier::OneBit(f.middle / 4)),
            decode_addressing_mode(f.mode * 8 + f.register),
        ) {
            (Ok(size), Ok(mode)) => Ok(
                Instruction::ADDA(size, mode, AddressingMode::AddressDirect(f.upper)),
            ),
            _ => Err(Fault::DecodeFailure),
        }
    } else if f.middle >= 4 && f.mode < 2 {
        match decode_data_size(DataSizeIdentifier::TwoBit(f.middle % 4)) {
            Ok(size) => if f.mode == 0 {
                Ok(Instruction::ADDX(size, AddressingMode::DataDirect(f.register), data))
            } else {
                Ok(
                    Instruction::ADDX(
                        size,
                        AddressingMode::AddressIndirectPreDecrement(f.register),
                        AddressingMode::AddressIndirectPreDecrement(f.upper),
                    ),
                )
            },
            _ => Err(Fault::DecodeFailure),
        }
    } else {
        match (
            decode_data_size(DataSizeIdentifier::TwoBit(f.middle % 4)),
            decode_addressing_mode(f.mode * 8 + f.register),
        ) {
            (Ok(size), Ok(mode)) => if f.middle < 4 {
                Ok(Instruction::ADD(size, mode, data))
            } else {
                Ok(Instruction::ADD(size, data, mode))
            },
            _ => Err(Fault::DecodeFailure),
        }
    }
}

/// Decodes an opcode of the group: shifts and rotates. With bits 7 and 6 set and bit 11 clear the operand
/// is in memory and moves by one position; else it is a data register, and the
/// count is bits 11 to 9 or, with bit 5 set, the data register they name.
pub fn decode_1110(f: Fields) -> (r: Result<Instruction, Fault>)
    requires
        f.wf(),
    ensures
        decodes_to(r, group_1110(f)),
{
    if f.middle % 4 == 3 && f.upper < 4 {
        match decode_addressing_mode(f.mode * 8 + f.register) {
            Ok(mode) => {
                let one: AddressingMode = AddressingMode::Value(1);
                let kind: usize = f.upper * 2 + f.middle / 4;
                if kind == 0 {
                    Ok(Instruction::ASRD(DataSize::Word, one, mode))
                } else if kind == 1 {
                    Ok(Instruction::ASLD(DataSize::Word, one, mode))
                } else if kind == 2 {
                    Ok(Instruction::LSRD(DataSize::Word, one, mode))
                } else if kind == 3 {
                    Ok(Instruction::LSLD(DataSize::Word, one, mode))
                } else if kind == 4 {
                    Ok(Instruction::ROXRD(DataSize::Word, one, mode))
                } else if kind == 5 {
                    Ok(Instruction::ROXLD(DataSize::Word, one, mode))
                } else if kind == 6 {
                    Ok(Instruction::RORD(DataSize::Word, one, mode))
                } else {
                    Ok(Instruction::ROLD(DataSize::Word, one, mode))
                }
            },
            _ => Err(Fault::DecodeFailure),
        }
    } else {
        match decode_data_size(DataSizeIdentifier::TwoBit(f.middle % 4)) {
            Ok(size) => {
                let count: AddressingMode = if f.mode < 4 {
                    AddressingMode::Value(f.upper as u32)
                } else {
                    AddressingMode::DataDirect(f.upper)
                };
                let register: AddressingMode = AddressingMode::DataDirect(f.register);
                let kind: usize = (f.mode % 4) * 2 + f.middle / 4;
                if kind == 0 {
                    Ok(Instruction::ASRD(size, count, register))
                } else if kind == 1 {
                    Ok(Instruction::ASLD(size, count, register))
                } else if kind == 2 {
                    Ok(Instruction::LSRD(size, count, register))
                } else if kind == 3 {
                    Ok(Instruction::LSLD(size, count, register))
                } else if kind == 4 {
                    Ok(Instruction::ROXRD(size, count, register))
                } else if kind == 5 {
                    Ok(Instruction::ROXLD(size, count, register))
                } else if kind == 6 {
                    Ok(Instruction::RORD(size, count, register))
                } else {
                    Ok(Instruction::ROLD(size, count, register))
                }
            },
            _ => Err(Fault::DecodeFailure),
        }
    }
}

/// Decodes an opcode word. Every word gives an instruction or a decode
/// failure.
pub fn decode(opcode: u16) -> (r: Result<Instruction, Fault>)
    ensures
        decodes_to(r, instruction_of(opcode)),
        r is Err ==> r == Err::<Instruction, Fault>(Fault::DecodeFailure),
        r matches Ok(instruction) ==> instruction.wf(),
{
    let f: Fields = split(opcode);
    if f.group == 0 {
        decode_0000(f)
    } else if f.group <= 3 {
        decode_move(f)
    } else if f.group == 4 {
        decode_0100(f)
    } else if f.group == 5 {
        decode_0101(f)
    } else if f.group == 6 {
        decode_0110(f)
    } else if f.group == 7 {
        decode_0111(f)
    } else if f.group == 8 {
        decode_1000(f)
    } else if f.group == 9 {
        decode_1001(f)
    } else if f.group == 11 {
        decode_1011(f)
    } else if f.group == 12 {
        decode_1100(f)
    } else if f.group == 13 {
        decode_1101(f)
    } else if f.group == 14 {
        decode_1110(f)
    } else {
        Err(Fault::DecodeFailure)
    }
}

} // verus!
