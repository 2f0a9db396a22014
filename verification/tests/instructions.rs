use m68k::addressing_mode::{AddressingMode, Condition, DataSize};
use m68k::bus::Bus;
use m68k::arithmetic::Operation;
use m68k::bits::BitOperation;
use m68k::cpu::Cpu;
use m68k::mapped_hardware::MappedHardware;
use m68k::memory::Memory;
use m68k::registers::ConditionCode;
use m68k::value::Value;

fn engine(program: &[u8]) -> (Cpu, Bus<Memory>) {
    let mut bus = Bus::new();
    bus.map_hardware(Memory::with_size(program.to_vec(), 0x1000));
    (Cpu::new(), bus)
}

fn codes(cpu: &Cpu) -> (bool, bool, bool, bool, bool) {
    let ccr = cpu.registers.ccr();
    (ccr.x, ccr.n, ccr.z, ccr.v, ccr.c)
}

#[test]
fn move_byte_between_data_registers_keeps_the_upper_bits() {
    // move.b d1,d0
    let (mut cpu, mut bus) = engine(&[0x10, 0x01]);
    cpu.registers.set_data(0, 0x1234_5678);
    cpu.registers.set_data(1, 0xaabb_ccdd);
    cpu.registers.set_data(2, 0x0f0f_0f0f);
    cpu.registers.set_address(3, 0x7777);
    cpu.registers.set_ccr(0x1f);
    assert_eq!(cpu.execute_next_instruction(&mut bus), Ok(()));
    assert_eq!(cpu.registers.data(0), 0x1234_56dd);
    assert_eq!(cpu.registers.data(1), 0xaabb_ccdd);
    assert_eq!(cpu.registers.data(2), 0x0f0f_0f0f);
    assert_eq!(cpu.registers.address(3), 0x7777);
    assert_eq!(codes(&cpu), (true, true, false, false, false));
}

#[test]
fn move_word_and_long_between_data_registers() {
    // move.w d1,d0 ; move.l d1,d2
    let (mut cpu, mut bus) = engine(&[0x30, 0x01, 0x24, 0x01]);
    cpu.registers.set_data(0, 0x1234_5678);
    cpu.registers.set_data(1, 0xaabb_0000);
    assert_eq!(cpu.execute_next_instruction(&mut bus), Ok(()));
    assert_eq!(cpu.registers.data(0), 0x1234_0000);
    assert_eq!(codes(&cpu), (false, false, true, false, false));
    assert_eq!(cpu.execute_next_instruction(&mut bus), Ok(()));
    assert_eq!(cpu.registers.data(2), 0xaabb_0000);
    assert_eq!(codes(&cpu), (false, true, false, false, false));
}

#[test]
fn move_to_an_address_register_leaves_the_condition_codes() {
    // move.w d1,a0
    let (mut cpu, mut bus) = engine(&[0x30, 0x41]);
    cpu.registers.set_data(1, 0xaabb_ccdd);
    cpu.registers.set_address(0, 0xffff_ffff);
    cpu.registers.set_ccr(0x04);
    assert_eq!(cpu.execute_next_instruction(&mut bus), Ok(()));
    assert_eq!(cpu.registers.address(0), 0x0000_ccdd);
    assert_eq!(codes(&cpu), (false, false, true, false, false));
}

#[test]
fn move_immediate_and_memory() {
    // move.l #$12345678,d0 ; move.w d0,(a0)+ ; move.b #$9a,-(a0)
    let (mut cpu, mut bus) =
        engine(&[0x20, 0x3c, 0x12, 0x34, 0x56, 0x78, 0x30, 0xc0, 0x11, 0x3c, 0x00, 0x9a]);
    cpu.registers.set_address(0, 0x200);
    assert_eq!(cpu.execute_next_instruction(&mut bus), Ok(()));
    assert_eq!(cpu.registers.data(0), 0x1234_5678);
    assert_eq!(cpu.registers.pc(), 6);
    assert_eq!(cpu.execute_next_instruction(&mut bus), Ok(()));
    assert_eq!(bus.read_word(0x200), Some(0x5678));
    assert_eq!(cpu.registers.address(0), 0x202);
    assert_eq!(cpu.execute_next_instruction(&mut bus), Ok(()));
    assert_eq!(cpu.registers.address(0), 0x201);
    assert_eq!(bus.read_word(0x200), Some(0x569a));
    assert_eq!(cpu.registers.pc(), 12);
    assert_eq!(codes(&cpu), (false, true, false, false, false));
}

#[test]
fn move_to_and_from_the_status_register() {
    // move.w d0,sr ; move.w sr,d1 ; move.w d2,ccr
    let (mut cpu, mut bus) = engine(&[0x46, 0xc0, 0x40, 0xc1, 0x44, 0xc2]);
    cpu.set_sp(0x500);
    cpu.registers.set_data(0, 0x2704);
    cpu.registers.set_data(2, 0xffff);
    assert_eq!(cpu.execute_next_instruction(&mut bus), Ok(()));
    assert_eq!(cpu.registers.sr(), 0x2704);
    // supervisor state has its own stack pointer
    assert_eq!(cpu.registers.sp(), 0);
    assert_eq!(cpu.registers.usp(), 0x500);
    assert_eq!(cpu.execute_next_instruction(&mut bus), Ok(()));
    assert_eq!(cpu.registers.data(1), 0x2704);
    assert_eq!(cpu.execute_next_instruction(&mut bus), Ok(()));
    assert_eq!(cpu.registers.sr(), 0x271f);
}

#[test]
fn move_to_and_from_the_user_stack_pointer() {
    // move a1,usp ; move usp,a2
    let (mut cpu, mut bus) = engine(&[0x4e, 0x61, 0x4e, 0x6a]);
    cpu.registers.set_sr(0x2000);
    cpu.registers.set_address(1, 0x0001_2345);
    assert_eq!(cpu.execute_next_instruction(&mut bus), Ok(()));
    assert_eq!(cpu.registers.usp(), 0x2345);
    assert_eq!(cpu.execute_next_instruction(&mut bus), Ok(()));
    assert_eq!(cpu.registers.address(2), 0x2345);
}

#[test]
fn add_and_sub_between_registers() {
    // add.w d1,d0 ; sub.b d1,d0
    let (mut cpu, mut bus) = engine(&[0xd0, 0x41, 0x90, 0x01]);
    cpu.registers.set_data(0, 0x0001_ffff);
    cpu.registers.set_data(1, 0x0000_0002);
    assert_eq!(cpu.execute_next_instruction(&mut bus), Ok(()));
    assert_eq!(cpu.registers.data(0), 0x0001_0001);
    assert_eq!(codes(&cpu), (true, false, false, false, true));
    assert_eq!(cpu.execute_next_instruction(&mut bus), Ok(()));
    assert_eq!(cpu.registers.data(0), 0x0001_00ff);
    assert_eq!(codes(&cpu), (true, true, false, false, true));
}

#[test]
fn addi_and_subq_and_suba() {
    // addi.l #$10,d0 ; subq.w #3,d0 ; suba.l d0,a1
    let (mut cpu, mut bus) =
        engine(&[0x06, 0x80, 0x00, 0x00, 0x00, 0x10, 0x57, 0x40, 0x93, 0xc0]);
    cpu.registers.set_data(0, 0x7fff_fff0);
    cpu.registers.set_address(1, 0x8000_0000);
    assert_eq!(cpu.execute_next_instruction(&mut bus), Ok(()));
    assert_eq!(cpu.registers.data(0), 0x8000_0000);
    assert_eq!(codes(&cpu), (false, true, false, true, false));
    assert_eq!(cpu.execute_next_instruction(&mut bus), Ok(()));
    assert_eq!(cpu.registers.data(0), 0x8000_fffd);
    assert_eq!(codes(&cpu), (true, true, false, false, true));
    assert_eq!(cpu.execute_next_instruction(&mut bus), Ok(()));
    assert_eq!(cpu.registers.address(1), 0xffff_0003);
}

#[test]
fn cmp_keeps_the_destination_and_x() {
    // cmp.w d1,d0 ; cmpi.b #$10,d0
    let (mut cpu, mut bus) = engine(&[0xb0, 0x41, 0x0c, 0x00, 0x00, 0x10]);
    cpu.registers.set_data(0, 0x0000_0005);
    cpu.registers.set_data(1, 0xffff_0005);
    cpu.registers.set_ccr(0x10);
    assert_eq!(cpu.execute_next_instruction(&mut bus), Ok(()));
    assert_eq!(cpu.registers.data(0), 5);
    assert_eq!(codes(&cpu), (true, false, true, false, false));
    assert_eq!(cpu.execute_next_instruction(&mut bus), Ok(()));
    assert_eq!(cpu.registers.data(0), 5);
    assert_eq!(cpu.registers.pc(), 6);
    // 5 - 16 borrows
    assert_eq!(codes(&cpu), (true, true, false, false, true));
}

#[test]
fn logical_instructions_keep_x() {
    // and.l d1,d0 ; ori.b #$0f,d0 ; eori.w #$ffff,d0
    let (mut cpu, mut bus) =
        engine(&[0xc0, 0x81, 0x00, 0x00, 0x00, 0x0f, 0x0a, 0x40, 0xff, 0xff]);
    cpu.registers.set_data(0, 0xff00_ff00);
    cpu.registers.set_data(1, 0x0ff0_0ff0);
    cpu.registers.set_ccr(0x13);
    assert_eq!(cpu.execute_next_instruction(&mut bus), Ok(()));
    assert_eq!(cpu.registers.data(0), 0x0f00_0f00);
    assert_eq!(codes(&cpu), (true, false, false, false, false));
    assert_eq!(cpu.execute_next_instruction(&mut bus), Ok(()));
    assert_eq!(cpu.registers.data(0), 0x0f00_0f0f);
    assert_eq!(cpu.execute_next_instruction(&mut bus), Ok(()));
    assert_eq!(cpu.registers.data(0), 0x0f00_f0f0);
    assert_eq!(codes(&cpu), (true, true, false, false, false));
}

#[test]
fn ori_with_the_immediate_mode_as_destination_works_on_the_condition_codes() {
    // ori.b #$11,ccr
    let (mut cpu, mut bus) = engine(&[0x00, 0x3c, 0x00, 0x11]);
    assert_eq!(cpu.execute_next_instruction(&mut bus), Ok(()));
    assert_eq!(cpu.registers.pc(), 4);
    // the result reaches the codes, of which X stays; then N, Z, V and C are
    // those of the result
    assert_eq!(codes(&cpu), (true, false, false, false, false));
}

#[test]
fn operate_directly_on_operands() {
    let (mut cpu, mut bus) = engine(&[]);
    cpu.registers.set_data(0, 0x0000_00f0);
    assert_eq!(
        cpu.operate(
            &mut bus,
            Operation::Eor,
            DataSize::Byte,
            AddressingMode::Value(0xff),
            AddressingMode::DataDirect(0)
        ),
        Ok(())
    );
    assert_eq!(cpu.registers.data(0), 0x0f);
    assert_eq!(
        cpu.operate(
            &mut bus,
            Operation::Compare,
            DataSize::Byte,
            AddressingMode::Value(0x0f),
            AddressingMode::DataDirect(0)
        ),
        Ok(())
    );
    assert_eq!(cpu.registers.data(0), 0x0f);
    assert!(cpu.registers.ccr().z);
}

#[test]
fn tst_and_clr() {
    // tst.b (a0) ; clr.w d0 ; tst.l d0
    let (mut cpu, mut bus) = engine(&[0x4a, 0x10, 0x42, 0x40, 0x4a, 0x80]);
    cpu.registers.set_address(0, 0x100);
    cpu.registers.set_data(0, 0xffff_ffff);
    cpu.registers.set_ccr(0x1f);
    bus.write_byte(0x100, 0x80);
    assert_eq!(cpu.execute_next_instruction(&mut bus), Ok(()));
    assert_eq!(codes(&cpu), (true, true, false, false, false));
    assert_eq!(cpu.execute_next_instruction(&mut bus), Ok(()));
    assert_eq!(cpu.registers.data(0), 0xffff_0000);
    assert_eq!(codes(&cpu), (true, false, true, false, false));
    assert_eq!(cpu.execute_next_instruction(&mut bus), Ok(()));
    assert_eq!(codes(&cpu), (true, true, false, false, false));
}

#[test]
fn bit_operations_on_a_data_register() {
    // btst #3,d0 ; bset #0,d0 ; bclr #35,d0 ; bchg d1,d0
    let (mut cpu, mut bus) = engine(&[
        0x08, 0x00, 0x00, 0x03, 0x08, 0xc0, 0x00, 0x00, 0x08, 0x80, 0x00, 0x23, 0x03, 0x40,
    ]);
    cpu.registers.set_data(0, 0x0000_0008);
    cpu.registers.set_data(1, 0x0000_0021);
    cpu.registers.set_ccr(0x1b);
    assert_eq!(cpu.execute_next_instruction(&mut bus), Ok(()));
    assert_eq!(cpu.registers.pc(), 4);
    assert_eq!(cpu.registers.data(0), 8);
    assert_eq!(codes(&cpu), (true, true, false, true, true));
    assert_eq!(cpu.execute_next_instruction(&mut bus), Ok(()));
    assert_eq!(cpu.registers.data(0), 9);
    assert_eq!(codes(&cpu), (true, true, true, true, true));
    assert_eq!(cpu.execute_next_instruction(&mut bus), Ok(()));
    assert_eq!(cpu.registers.data(0), 1);
    assert_eq!(codes(&cpu), (true, true, false, true, true));
    assert_eq!(cpu.execute_next_instruction(&mut bus), Ok(()));
    assert_eq!(cpu.registers.data(0), 3);
    assert_eq!(codes(&cpu), (true, true, true, true, true));
    assert_eq!(cpu.registers.pc(), 14);
}

#[test]
fn bit_operations_on_a_byte_of_memory() {
    // btst #15,(a0) ; bset #8,(a0)
    let (mut cpu, mut bus) = engine(&[0x08, 0x10, 0x00, 0x0f, 0x08, 0xd0, 0x00, 0x08]);
    cpu.registers.set_address(0, 0x100);
    bus.write_word(0x100, 0x80ff);
    assert_eq!(cpu.execute_next_instruction(&mut bus), Ok(()));
    assert_eq!(cpu.registers.ccr().z, false);
    assert_eq!(cpu.execute_next_instruction(&mut bus), Ok(()));
    assert_eq!(cpu.registers.ccr().z, true);
    assert_eq!(bus.read_word(0x100), Some(0x81ff));
    assert_eq!(
        cpu.bit_operate(
            &mut bus,
            BitOperation::Bchg,
            DataSize::Byte,
            AddressingMode::Value(7),
            AddressingMode::AddressIndirect(0)
        ),
        Ok(())
    );
    assert_eq!(bus.read_word(0x100), Some(0x01ff));
    assert_eq!(cpu.registers.ccr().z, false);
}

#[test]
fn shifts_by_an_immediate_count() {
    // lsl.b #1,d0 ; lsr.w #8,d1
    let (mut cpu, mut bus) = engine(&[0xe3, 0x08, 0xe0, 0x49]);
    cpu.registers.set_data(0, 0x1234_5681);
    cpu.registers.set_data(1, 0x1234_8000);
    assert_eq!(cpu.execute_next_instruction(&mut bus), Ok(()));
    assert_eq!(cpu.registers.data(0), 0x1234_5602);
    assert_eq!(codes(&cpu), (true, false, false, false, true));
    assert_eq!(cpu.execute_next_instruction(&mut bus), Ok(()));
    assert_eq!(cpu.registers.data(1), 0x1234_0080);
    assert_eq!(codes(&cpu), (false, false, false, false, false));
}

#[test]
fn shifts_by_a_register_count_modulo_64() {
    // lsl.l d1,d0 ; lsl.l d1,d0
    let (mut cpu, mut bus) = engine(&[0xe3, 0xa8, 0xe3, 0xa8]);
    cpu.registers.set_data(0, 0x1000_0001);
    cpu.registers.set_data(1, 64 + 4);
    assert_eq!(cpu.execute_next_instruction(&mut bus), Ok(()));
    assert_eq!(cpu.registers.data(0), 0x0000_0010);
    assert_eq!(codes(&cpu), (true, false, false, false, true));
    // a count of zero keeps X and clears C
    cpu.registers.set_data(1, 64);
    assert_eq!(cpu.execute_next_instruction(&mut bus), Ok(()));
    assert_eq!(cpu.registers.data(0), 0x0000_0010);
    assert_eq!(codes(&cpu), (true, false, false, false, false));
}

#[test]
fn shift_of_a_word_in_memory_by_one() {
    // lsr.w (a0)
    let (mut cpu, mut bus) = engine(&[0xe2, 0xd0]);
    cpu.registers.set_address(0, 0x100);
    bus.write_word(0x100, 0x0003);
    assert_eq!(cpu.execute_next_instruction(&mut bus), Ok(()));
    assert_eq!(bus.read_word(0x100), Some(0x0001));
    assert_eq!(codes(&cpu), (true, false, false, false, true));
}

#[test]
fn lea_pea_and_link() {
    // lea $10(a1),a0 ; pea (a0) ; link a6,#-8
    let (mut cpu, mut bus) =
        engine(&[0x41, 0xe9, 0x00, 0x10, 0x48, 0x50, 0x4e, 0x56, 0xff, 0xf8]);
    cpu.set_sp(0x200);
    cpu.registers.set_address(1, 0x100);
    cpu.registers.set_address(6, 0xaaaa_0000);
    assert_eq!(cpu.execute_next_instruction(&mut bus), Ok(()));
    assert_eq!(cpu.registers.address(0), 0x110);
    assert_eq!(cpu.execute_next_instruction(&mut bus), Ok(()));
    assert_eq!(cpu.registers.sp(), 0x1fc);
    assert_eq!(bus.read_long(0x1fc), Some(0x110));
    assert_eq!(cpu.execute_next_instruction(&mut bus), Ok(()));
    assert_eq!(bus.read_long(0x1f8), Some(0xaaaa_0000));
    assert_eq!(cpu.registers.address(6), 0x1f8);
    assert_eq!(cpu.registers.sp(), 0x1f0);
    assert_eq!(cpu.registers.usp(), 0x1f0);
    assert_eq!(cpu.registers.pc(), 10);
}

#[test]
fn conditional_branches() {
    // beq +2 ; (skipped) ; bne.w +$10
    let (mut cpu, mut bus) = engine(&[0x67, 0x02, 0x4e, 0x71, 0x66, 0x00, 0x00, 0x10]);
    cpu.registers.set_ccr(0x04);
    assert_eq!(cpu.execute_next_instruction(&mut bus), Ok(()));
    assert_eq!(cpu.registers.pc(), 4);
    // not taken: the program goes on behind the displacement word
    assert_eq!(cpu.execute_next_instruction(&mut bus), Ok(()));
    assert_eq!(cpu.registers.pc(), 8);
    cpu.set_pc(4);
    cpu.registers.set_ccr(0x00);
    assert_eq!(cpu.execute_next_instruction(&mut bus), Ok(()));
    assert_eq!(cpu.registers.pc(), 6 + 0x10);
    cpu.set_pc(0);
    assert_eq!(cpu.execute_next_instruction(&mut bus), Ok(()));
    assert_eq!(cpu.registers.pc(), 2);
}

#[test]
fn every_condition_reads_its_codes() {
    let mut cpu = Cpu::new();
    let all = [
        Condition::T,
        Condition::F,
        Condition::HI,
        Condition::LS,
        Condition::CC,
        Condition::CS,
        Condition::NE,
        Condition::EQ,
        Condition::VC,
        Condition::VS,
        Condition::PL,
        Condition::MI,
        Condition::GE,
        Condition::LT,
        Condition::GT,
        Condition::LE,
    ];
    let mut bits: u8 = 0;
    while bits < 32 {
        let cc = ConditionCode::from_bits_truncate(bits);
        cpu.registers.set_flags(cc);
        let expected = [
            true,
            false,
            !cc.c && !cc.z,
            cc.c || cc.z,
            !cc.c,
            cc.c,
            !cc.z,
            cc.z,
            !cc.v,
            cc.v,
            !cc.n,
            cc.n,
            cc.n == cc.v,
            cc.n != cc.v,
            !cc.z && cc.n == cc.v,
            cc.z || cc.n != cc.v,
        ];
        for i in 0..16 {
            assert_eq!(cpu.read_condition_code(all[i]), expected[i]);
        }
        bits += 1;
    }
}

#[test]
fn bsr_pushes_the_address_behind_the_opcode() {
    // bsr +4
    let (mut cpu, mut bus) = engine(&[0x61, 0x04]);
    cpu.set_sp(0x100);
    assert_eq!(cpu.execute_next_instruction(&mut bus), Ok(()));
    assert_eq!(cpu.registers.pc(), 6);
    assert_eq!(cpu.registers.sp(), 0xfc);
    assert_eq!(bus.read_long(0xfc), Some(2));
}

#[test]
fn bsr_with_a_word_displacement() {
    // bsr.w +$10
    let (mut cpu, mut bus) = engine(&[0x61, 0x00, 0x00, 0x10]);
    cpu.set_sp(0x100);
    assert_eq!(cpu.execute_next_instruction(&mut bus), Ok(()));
    assert_eq!(cpu.registers.pc(), 0x12);
    assert_eq!(bus.read_long(0xfc), Some(2));
}

#[test]
fn jmp_takes_the_effective_address() {
    // jmp (a0)
    let (mut cpu, mut bus) = engine(&[0x4e, 0xd0]);
    cpu.registers.set_address(0, 0x1234_5678);
    assert_eq!(cpu.execute_next_instruction(&mut bus), Ok(()));
    assert_eq!(cpu.registers.pc(), 0x1234_5678);
}

#[test]
fn rte_pops_the_status_register_then_the_program_counter() {
    let (mut cpu, mut bus) = engine(&[0x4e, 0x73]);
    cpu.set_sp(0x100);
    bus.write_word(0x100, 0x001f);
    bus.write_long(0x102, 0x0000_0040);
    assert_eq!(cpu.execute_next_instruction(&mut bus), Ok(()));
    assert_eq!(cpu.registers.sr(), 0x001f);
    assert_eq!(cpu.registers.pc(), 0x40);
    assert_eq!(cpu.registers.sp(), 0x106);
}

#[test]
fn rte_to_another_stack() {
    let (mut cpu, mut bus) = engine(&[0x4e, 0x73]);
    cpu.set_sp(0x300);
    cpu.registers.set_sr(0x2000);
    cpu.set_sp(0x100);
    bus.write_word(0x100, 0x0000);
    bus.write_long(0x102, 0x0000_0040);
    assert_eq!(cpu.execute_next_instruction(&mut bus), Ok(()));
    assert_eq!(cpu.registers.sr(), 0);
    assert_eq!(cpu.registers.pc(), 0x40);
    // both were popped from the supervisor's stack; A7 is the user's again
    assert_eq!(cpu.registers.sp(), 0x300);
    cpu.registers.set_sr(0x2000);
    assert_eq!(cpu.registers.sp(), 0x106);
}

#[test]
fn push_and_pop() {
    let (mut cpu, mut bus) = engine(&[]);
    cpu.set_sp(0x100);
    assert_eq!(cpu.push_stack(&mut bus, DataSize::Word, Value::LongWord(0x1234_5678)), Ok(()));
    assert_eq!(cpu.registers.sp(), 0xfe);
    assert_eq!(cpu.push_stack(&mut bus, DataSize::LongWord, Value::Byte(0x9a)), Ok(()));
    assert_eq!(cpu.registers.sp(), 0xfa);
    assert_eq!(cpu.pop_long(&mut bus), Ok(0x9a));
    assert_eq!(cpu.pop_word(&mut bus), Ok(0x5678));
    assert_eq!(cpu.registers.sp(), 0x100);
}

#[test]
fn the_stack_pointer_wraps() {
    let mut bus: Bus<Memory> = Bus::new();
    bus.map_hardware(Memory::with_size(Vec::new(), 16));
    let mut cpu = Cpu::new();
    cpu.set_sp(2);
    assert_eq!(
        cpu.push_stack(&mut bus, DataSize::LongWord, Value::LongWord(1)),
        Err(m68k::fault::Fault::BusAbsent)
    );
    assert_eq!(cpu.registers.sp(), 0xffff_fffe);
}
