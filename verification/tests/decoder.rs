use m68k::addressing_mode::{AddressingMode, Condition, DataSize};
use m68k::decoder::decode;
use m68k::fault::Fault;
use m68k::instruction_set::Instruction;

#[test]
fn test_decode_divu_w() {
    let opcode = 0b1000_000011_000001;
    let instruction = decode(opcode);
    assert_eq!(
        instruction,
        Ok(Instruction::DIVU(
            DataSize::Word,
            AddressingMode::DataDirect(1),
            AddressingMode::DataDirect(0),
        ))
    );
}

#[test]
fn test_decode_or_z() {
    // or.z a,Dd
    //             1000 ddd0zz aaaaaa
    let opcode = 0b1000_000000_000001;
    let instruction = decode(opcode);
    assert_eq!(
        instruction,
        Ok(Instruction::OR(
            DataSize::Byte,
            AddressingMode::DataDirect(1),
            AddressingMode::DataDirect(0),
        ))
    );

    // or.z Ds,a
    //             1000 sss1zz aaaaaa
    let opcode = 0b1000_001100_010000;
    let instruction = decode(opcode);
    assert_eq!(
        instruction,
        Ok(Instruction::OR(
            DataSize::Byte,
            AddressingMode::DataDirect(1),
            AddressingMode::AddressIndirect(0),
        ))
    );
}

#[test]
fn test_decode_btst() {
    let opcode = 0b0000_100000_010010;
    let instruction = decode(opcode);
    assert_eq!(
        instruction,
        Ok(Instruction::BTST(
            DataSize::Byte,
            AddressingMode::Immediate,
            AddressingMode::AddressIndirect(0b010)
        ))
    );

    let opcode = 0b0000_011100_000010;
    let instruction = decode(opcode);
    assert_eq!(
        instruction,
        Ok(Instruction::BTST(
            DataSize::LongWord,
            AddressingMode::DataDirect(0b011),
            AddressingMode::DataDirect(0b010)
        ))
    );
}

#[test]
fn decode_singletons() {
    assert_eq!(decode(0x4E70), Ok(Instruction::RESET));
    assert_eq!(decode(0x4E71), Ok(Instruction::NOP));
    assert_eq!(decode(0x4E72), Ok(Instruction::STOP(AddressingMode::Immediate)));
    assert_eq!(decode(0x4E73), Ok(Instruction::RTE));
    assert_eq!(decode(0x4E75), Ok(Instruction::RTS));
    assert_eq!(decode(0x4E76), Ok(Instruction::TRAPV));
    assert_eq!(decode(0x4E77), Ok(Instruction::RTR));
}

#[test]
fn decode_moveq_sign_extends() {
    assert_eq!(
        decode(0x7425),
        Ok(Instruction::MOVEQ(
            DataSize::LongWord,
            AddressingMode::Value(0x25),
            AddressingMode::DataDirect(2)
        ))
    );
    assert_eq!(
        decode(0x70FF),
        Ok(Instruction::MOVEQ(
            DataSize::LongWord,
            AddressingMode::Value(0xFFFF_FFFF),
            AddressingMode::DataDirect(0)
        ))
    );
}

#[test]
fn decode_branches() {
    assert_eq!(decode(0x60FE), Ok(Instruction::BRA(AddressingMode::Value(0xFE))));
    assert_eq!(decode(0x6000), Ok(Instruction::BRA(AddressingMode::Immediate)));
    assert_eq!(decode(0x6102), Ok(Instruction::BSR(AddressingMode::Value(2))));
    assert_eq!(
        decode(0x66FC),
        Ok(Instruction::BCC(DataSize::Byte, Condition::NE, AddressingMode::Value(0xFC)))
    );
    assert_eq!(
        decode(0x6700),
        Ok(Instruction::BCC(DataSize::Word, Condition::EQ, AddressingMode::Immediate))
    );
    assert_eq!(
        decode(0x51C8),
        Ok(Instruction::DB(
            Condition::F,
            AddressingMode::DataDirect(0),
            AddressingMode::Immediate
        ))
    );
}

#[test]
fn decode_move_swaps_destination_fields() {
    // move.b (a5)+,(a0)+
    assert_eq!(
        decode(0x10DD),
        Ok(Instruction::MOVE(
            DataSize::Byte,
            AddressingMode::AddressIndirectPostIncrement(5),
            AddressingMode::AddressIndirectPostIncrement(0)
        ))
    );
    // move.w d0,(a2)
    assert_eq!(
        decode(0x3480),
        Ok(Instruction::MOVE(
            DataSize::Word,
            AddressingMode::DataDirect(0),
            AddressingMode::AddressIndirect(2)
        ))
    );
}

#[test]
fn decode_addq_and_movem() {
    assert_eq!(
        decode(0x5215),
        Ok(Instruction::ADDQ(
            DataSize::Byte,
            AddressingMode::Value(1),
            AddressingMode::AddressIndirect(5)
        ))
    );
    // movem.l <list>,-(a7)
    assert_eq!(
        decode(0x48E7),
        Ok(Instruction::MOVEM(
            DataSize::LongWord,
            AddressingMode::AddressIndirectPreDecrement(7),
            0
        ))
    );
    // movem.l (a7)+,<list>
    assert_eq!(
        decode(0x4CDF),
        Ok(Instruction::MOVEM(
            DataSize::LongWord,
            AddressingMode::AddressIndirectPostIncrement(7),
            1
        ))
    );
}

#[test]
fn decode_reserved_patterns_fail() {
    // the groups 1010 and 1111 hold no instruction
    assert_eq!(decode(0xA000), Err(Fault::DecodeFailure));
    assert_eq!(decode(0xFFFF), Err(Fault::DecodeFailure));
    // ori with the size field 11
    assert_eq!(decode(0x00C0), Err(Fault::DecodeFailure));
    // an operand of mode 7 with register 5
    assert_eq!(decode(0x4A3D), Err(Fault::DecodeFailure));
}

#[test]
fn decode_never_panics() {
    let mut opcode: u32 = 0;
    let mut decoded: u32 = 0;
    while opcode <= 0xFFFF {
        match decode(opcode as u16) {
            Ok(_) => decoded += 1,
            Err(fault) => assert_eq!(fault, Fault::DecodeFailure),
        }
        opcode += 1;
    }
    assert!(decoded > 0);
}

fn fingerprint(group: u32) -> u64 {
    // FNV-1a over the decoded form of each opcode of the group
    let mut hash: u64 = 0xcbf2_9ce4_8422_2325;
    for opcode in (group << 12)..((group + 1) << 12) {
        for byte in format!("{:?}", decode(opcode as u16)).bytes() {
            hash ^= byte as u64;
            hash = hash.wrapping_mul(0x0000_0100_0000_01b3);
        }
    }
    hash
}

#[test]
fn decode_table_by_group() {
    let expected: [u64; 16] = [
        0xb2ef5644bdb403cb,
        0x93138d06d2799044,
        0x16aeca1aa8112dd0,
        0x1ef0cc9ca6ae454e,
        0x0f302d7f49f0e962,
        0xf90e976c17daec64,
        0x9aadbbb2c50450c9,
        0xdc37b34121acb295,
        0xacca6ee8d3186795,
        0xbdca23682cc33a05,
        0x4f8df6220aaa0325,
        0x447beea64aebf295,
        0xe029a42f9e61e775,
        0x848f5179515089a5,
        0x2f1dcc89009a1ce5,
        0x4f8df6220aaa0325,
    ];
    let mut wrong = Vec::new();
    for group in 0..16 {
        if fingerprint(group) != expected[group as usize] {
            wrong.push(group);
        }
    }
    assert_eq!(wrong, Vec::<u32>::new());
}
