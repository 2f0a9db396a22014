use m68k::bus::Bus;
use m68k::cpu::Cpu;
use m68k::fault::Fault;
use m68k::mapped_hardware::MappedHardware;
use m68k::memory::Memory;
use m68k::vm::VirtualMachine;

fn scenario(program: &[u8]) -> (Cpu, Bus<Memory>) {
    let mut bus = Bus::new();
    bus.map_hardware(Memory::with_size(program.to_vec(), 0x1000));
    (Cpu::new(), bus)
}

#[test]
fn reset_loads_stack_pointer_then_program_counter() {
    let (mut cpu, mut bus) = scenario(&[0x00, 0x00, 0x04, 0x00, 0x00, 0x00, 0x00, 0x08]);
    cpu.set_pc(0x123);
    assert_eq!(cpu.reset(&mut bus), Ok(()));
    assert_eq!(cpu.registers.sp(), 0x400);
    assert_eq!(cpu.registers.usp(), 0x400);
    assert_eq!(cpu.registers.pc(), 8);
}

#[test]
fn reset_without_memory_is_a_bus_fault() {
    let mut cpu = Cpu::new();
    let mut bus: Bus<Memory> = Bus::new();
    assert_eq!(cpu.reset(&mut bus), Err(Fault::BusAbsent));
    let mut short: Bus<Memory> = Bus::new();
    short.map_hardware(Memory::with_size(vec![0, 0, 1, 0, 0, 0], 6));
    assert_eq!(cpu.reset(&mut short), Err(Fault::BusAbsent));
    assert_eq!(cpu.registers.sp(), 0x100);
}

#[test]
fn nop_then_bra_with_displacement_minus_two_loops_on_the_branch() {
    let (mut cpu, mut bus) = scenario(&[0x4e, 0x71, 0x60, 0xfe]);
    assert_eq!(cpu.execute_next_instruction(&mut bus), Ok(()));
    assert_eq!(cpu.registers.pc(), 2);
    assert_eq!(cpu.execute_next_instruction(&mut bus), Ok(()));
    assert_eq!(cpu.registers.pc(), 2);
    assert_eq!(cpu.execute_next_instruction(&mut bus), Ok(()));
    assert_eq!(cpu.registers.pc(), 2);
}

#[test]
fn nop_then_bra_with_displacement_minus_four_returns_to_the_nop() {
    let (mut cpu, mut bus) = scenario(&[0x4e, 0x71, 0x60, 0xfc]);
    assert_eq!(cpu.execute_next_instruction(&mut bus), Ok(()));
    assert_eq!(cpu.registers.pc(), 2);
    assert_eq!(cpu.execute_next_instruction(&mut bus), Ok(()));
    assert_eq!(cpu.registers.pc(), 0);
    assert_eq!(cpu.execute_next_instruction(&mut bus), Ok(()));
    assert_eq!(cpu.registers.pc(), 2);
}

#[test]
fn two_nops_then_bra_back_to_the_first() {
    let (mut cpu, mut bus) = scenario(&[0x4e, 0x71, 0x4e, 0x71, 0x60, 0xfa]);
    for _ in 0..3 {
        assert_eq!(cpu.execute_next_instruction(&mut bus), Ok(()));
    }
    assert_eq!(cpu.registers.pc(), 0);
}

#[test]
fn moveq_loads_the_whole_register() {
    let (mut cpu, mut bus) = scenario(&[0x74, 0x25]);
    cpu.registers.set_data(2, 0xffff_ffff);
    assert_eq!(cpu.execute_next_instruction(&mut bus), Ok(()));
    assert_eq!(cpu.registers.data(2), 0x0000_0025);
    assert_eq!(cpu.registers.ccr().n, false);
    assert_eq!(cpu.registers.ccr().z, false);
    assert_eq!(cpu.registers.pc(), 2);
}

#[test]
fn moveq_of_a_negative_byte_sets_n() {
    let (mut cpu, mut bus) = scenario(&[0x70, 0xff, 0x72, 0x00]);
    assert_eq!(cpu.execute_next_instruction(&mut bus), Ok(()));
    assert_eq!(cpu.registers.data(0), 0xffff_ffff);
    assert_eq!(cpu.registers.ccr().n, true);
    assert_eq!(cpu.registers.ccr().z, false);
    assert_eq!(cpu.execute_next_instruction(&mut bus), Ok(()));
    assert_eq!(cpu.registers.data(1), 0);
    assert_eq!(cpu.registers.ccr().n, false);
    assert_eq!(cpu.registers.ccr().z, true);
}

#[test]
fn addq_byte_to_memory_wraps_and_carries() {
    // addq.b #1,(a5)
    let (mut cpu, mut bus) = scenario(&[0x52, 0x15]);
    cpu.registers.set_address(5, 0x100);
    bus.write_byte(0x100, 0xff);
    bus.write_byte(0x101, 0x55);
    assert_eq!(cpu.execute_next_instruction(&mut bus), Ok(()));
    assert_eq!(bus.read_byte(0x100), Some(0x00));
    assert_eq!(bus.read_byte(0x101), Some(0x55));
    assert_eq!(cpu.registers.address(5), 0x100);
    let ccr = cpu.registers.ccr();
    assert_eq!((ccr.x, ccr.n, ccr.z, ccr.v, ccr.c), (true, false, true, false, true));
}

#[test]
fn addq_byte_with_post_increment_steps_the_register_once() {
    // addq.b #1,(a5)+
    let (mut cpu, mut bus) = scenario(&[0x52, 0x1d]);
    cpu.registers.set_address(5, 0x100);
    bus.write_byte(0x100, 0x10);
    assert_eq!(cpu.execute_next_instruction(&mut bus), Ok(()));
    assert_eq!(bus.read_byte(0x100), Some(0x11));
    assert_eq!(cpu.registers.address(5), 0x101);
    let ccr = cpu.registers.ccr();
    assert_eq!((ccr.x, ccr.n, ccr.z, ccr.v, ccr.c), (false, false, false, false, false));
}

#[test]
fn a_byte_on_the_stack_pointer_steps_by_two() {
    // addq.b #1,(a7)+
    let (mut cpu, mut bus) = scenario(&[0x52, 0x1f]);
    cpu.set_sp(0x100);
    assert_eq!(cpu.execute_next_instruction(&mut bus), Ok(()));
    assert_eq!(bus.read_byte(0x100), Some(0x01));
    assert_eq!(cpu.registers.sp(), 0x102);
    assert_eq!(cpu.registers.usp(), 0x102);
}

#[test]
fn movem_pushes_five_registers_and_pops_them() {
    // movem.l d0-d3/a0,-(a7) ; movem.l (a7)+,d0-d3/a0
    let (mut cpu, mut bus) = scenario(&[0x48, 0xe7, 0xf0, 0x80, 0x4c, 0xdf, 0x01, 0x0f]);
    cpu.set_sp(0x200);
    cpu.registers.set_data(0, 0x1111_1111);
    cpu.registers.set_data(1, 0x2222_2222);
    cpu.registers.set_data(2, 0x3333_3333);
    cpu.registers.set_data(3, 0x4444_4444);
    cpu.registers.set_data(4, 0x5555_5555);
    cpu.registers.set_address(0, 0xaaaa_aaaa);
    assert_eq!(cpu.execute_next_instruction(&mut bus), Ok(()));
    assert_eq!(cpu.registers.pc(), 4);
    assert_eq!(cpu.registers.sp(), 0x200 - 20);
    assert_eq!(bus.read_long(0x1ec), Some(0x1111_1111));
    assert_eq!(bus.read_long(0x1f0), Some(0x2222_2222));
    assert_eq!(bus.read_long(0x1f4), Some(0x3333_3333));
    assert_eq!(bus.read_long(0x1f8), Some(0x4444_4444));
    assert_eq!(bus.read_long(0x1fc), Some(0xaaaa_aaaa));
    assert_eq!(bus.read_long(0x1e8), Some(0));

    for reg in 0..5 {
        cpu.registers.set_data(reg, 0);
    }
    cpu.registers.set_address(0, 0);
    assert_eq!(cpu.execute_next_instruction(&mut bus), Ok(()));
    assert_eq!(cpu.registers.pc(), 8);
    assert_eq!(cpu.registers.sp(), 0x200);
    assert_eq!(cpu.registers.data(0), 0x1111_1111);
    assert_eq!(cpu.registers.data(1), 0x2222_2222);
    assert_eq!(cpu.registers.data(2), 0x3333_3333);
    assert_eq!(cpu.registers.data(3), 0x4444_4444);
    assert_eq!(cpu.registers.data(4), 0);
    assert_eq!(cpu.registers.address(0), 0xaaaa_aaaa);
}

#[test]
fn movem_to_a_plain_address_goes_upwards_and_leaves_the_register() {
    // movem.w d0-d1/a2,(a1)
    let (mut cpu, mut bus) = scenario(&[0x48, 0x91, 0x04, 0x03]);
    cpu.registers.set_address(1, 0x300);
    cpu.registers.set_address(2, 0x0bad_cafe);
    cpu.registers.set_data(0, 0x1234_5678);
    cpu.registers.set_data(1, 0x9abc_def0);
    assert_eq!(cpu.execute_next_instruction(&mut bus), Ok(()));
    assert_eq!(bus.read_word(0x300), Some(0x5678));
    assert_eq!(bus.read_word(0x302), Some(0xdef0));
    assert_eq!(bus.read_word(0x304), Some(0xcafe));
    assert_eq!(bus.read_word(0x306), Some(0));
    assert_eq!(cpu.registers.address(1), 0x300);
}

#[test]
fn dbf_counts_down_to_minus_one() {
    // nop ; dbf d0,-4 ; nop
    let (mut cpu, mut bus) = scenario(&[0x4e, 0x71, 0x51, 0xc8, 0xff, 0xfc, 0x4e, 0x71]);
    cpu.registers.set_data(0, 0x0001_0003);
    let mut iterations = 0;
    let mut steps = 0;
    while cpu.registers.pc() != 6 {
        if cpu.registers.pc() == 2 {
            iterations += 1;
        }
        assert_eq!(cpu.execute_next_instruction(&mut bus), Ok(()));
        steps += 1;
        assert!(steps <= 100);
    }
    assert_eq!(iterations, 3 + 1);
    assert_eq!(steps, 8);
    assert_eq!(cpu.registers.data(0), 0x0001_ffff);
}

#[test]
fn dbt_falls_through_without_counting() {
    // dbt d0,-4
    let (mut cpu, mut bus) = scenario(&[0x50, 0xc8, 0xff, 0xfc]);
    cpu.registers.set_data(0, 5);
    assert_eq!(cpu.execute_next_instruction(&mut bus), Ok(()));
    assert_eq!(cpu.registers.pc(), 4);
    assert_eq!(cpu.registers.data(0), 5);
}

#[test]
fn jsr_pushes_the_return_address_and_rts_pops_it() {
    // jsr $10.l ... rts
    let mut program = vec![0x4e, 0xb9, 0x00, 0x00, 0x00, 0x10];
    program.resize(0x10, 0);
    program.extend_from_slice(&[0x4e, 0x75]);
    let (mut cpu, mut bus) = scenario(&program);
    cpu.set_sp(0x100);
    assert_eq!(cpu.execute_next_instruction(&mut bus), Ok(()));
    assert_eq!(cpu.registers.pc(), 0x10);
    assert_eq!(cpu.registers.sp(), 0xfc);
    assert_eq!(bus.read_long(0xfc), Some(6));
    assert_eq!(cpu.execute_next_instruction(&mut bus), Ok(()));
    assert_eq!(cpu.registers.pc(), 6);
    assert_eq!(cpu.registers.sp(), 0x100);
}

#[test]
fn an_auto_interrupt_takes_its_handler_from_the_vector_of_its_level() {
    let mut program = vec![0u8; 0x210];
    // the vector of level 2 lies at 60 + 4 * 2
    program[68..72].copy_from_slice(&[0x00, 0x00, 0x02, 0x00]);
    program[0x200..0x202].copy_from_slice(&[0x4e, 0x71]);
    let (mut cpu, mut bus) = scenario(&program);
    cpu.set_sp(0x100);
    cpu.set_pc(0x10);
    cpu.registers.set_ccr(0x15);
    cpu.request_auto_interrupt(2);
    assert_eq!(cpu.interrupt_requests.len(), 1);
    assert_eq!(cpu.execute_next_instruction(&mut bus), Ok(()));
    assert_eq!(cpu.interrupt_requests.len(), 0);
    assert_eq!(cpu.registers.sp(), 0xfa);
    assert_eq!(bus.read_long(0xfc), Some(0x10));
    assert_eq!(bus.read_word(0xfa), Some(0x0015));
    assert_eq!(cpu.registers.sr(), 0x0215);
    // the handler's first instruction has run
    assert_eq!(cpu.registers.pc(), 0x202);
}

#[test]
fn interrupts_are_served_oldest_first_one_at_a_step() {
    let mut program = vec![0u8; 0x400];
    program[0x300..0x302].copy_from_slice(&[0x4e, 0x71]);
    program[0x380..0x382].copy_from_slice(&[0x4e, 0x71]);
    let (mut cpu, mut bus) = scenario(&program);
    cpu.set_sp(0x100);
    cpu.request_interrupt(9, 0x300);
    cpu.request_interrupt(1, 0x380);
    assert_eq!(cpu.execute_next_instruction(&mut bus), Ok(()));
    assert_eq!(cpu.registers.pc(), 0x302);
    // a level above 7 gives the mask 7
    assert_eq!(cpu.registers.sr(), 0x0700);
    assert_eq!(cpu.interrupt_requests.len(), 1);
    assert_eq!(cpu.execute_next_instruction(&mut bus), Ok(()));
    assert_eq!(cpu.registers.pc(), 0x382);
    assert_eq!(cpu.registers.sr(), 0x0100);
    assert_eq!(cpu.registers.sp(), 0x100 - 12);
    assert_eq!(bus.read_long(0x100 - 10), Some(0x302));
    assert_eq!(bus.read_word(0x100 - 12), Some(0x0700));
}

#[test]
fn stop_waits_for_an_interrupt() {
    // stop #$2700 ; nop ; ... ; nop at 8
    let (mut cpu, mut bus) =
        scenario(&[0x4e, 0x72, 0x27, 0x00, 0x4e, 0x71, 0x00, 0x00, 0x4e, 0x71]);
    cpu.set_sp(0x100);
    assert_eq!(cpu.execute_next_instruction(&mut bus), Ok(()));
    assert!(cpu.stopped);
    assert_eq!(cpu.registers.pc(), 4);
    // in user state the status register is not written
    assert_eq!(cpu.registers.sr(), 0);
    assert_eq!(cpu.execute_next_instruction(&mut bus), Ok(()));
    assert!(cpu.stopped);
    assert_eq!(cpu.registers.pc(), 4);
    cpu.request_interrupt(1, 8);
    assert_eq!(cpu.execute_next_instruction(&mut bus), Ok(()));
    assert!(!cpu.stopped);
    assert_eq!(cpu.registers.pc(), 10);
}

#[test]
fn stop_in_supervisor_state_writes_the_status_register() {
    let (mut cpu, mut bus) = scenario(&[0x4e, 0x72, 0x27, 0x1f]);
    cpu.registers.set_sr(0x2000);
    assert_eq!(cpu.execute_next_instruction(&mut bus), Ok(()));
    assert!(cpu.stopped);
    assert_eq!(cpu.registers.sr(), 0x271f);
}

#[test]
fn the_machine_resets_and_steps() {
    let mut program = vec![0x00, 0x00, 0x04, 0x00, 0x00, 0x00, 0x00, 0x08];
    program.extend_from_slice(&[0x74, 0x25, 0x60, 0xfe]);
    let mut vm: VirtualMachine<Memory> = VirtualMachine::new(Vec::new());
    assert_eq!(vm.init(), Err(Fault::BusAbsent));
    vm.map_hardware(Memory::with_size(program, 0x1000));
    assert_eq!(vm.init(), Ok(()));
    assert_eq!(vm.cpu().registers.pc(), 8);
    assert_eq!(vm.cpu().registers.sp(), 0x400);
    assert_eq!(vm.tick(), Ok(()));
    assert_eq!(vm.cpu().registers.data(2), 0x25);
    assert_eq!(vm.tick(), Ok(()));
    assert_eq!(vm.cpu().registers.pc(), 10);
    // two words at the reset that failed, four at the one that passed,
    // then two opcode words
    assert_eq!(vm.cycles(), 4 * (2 + 4 + 2));
}

#[test]
fn the_machine_runs_a_number_of_steps() {
    // moveq #3,d0 ; nop ; dbf d0,-4 ; reset
    let mut vm: VirtualMachine<Memory> = VirtualMachine::new(Vec::new());
    vm.map_hardware(Memory::with_size(
        vec![0x70, 0x03, 0x4e, 0x71, 0x51, 0xc8, 0xff, 0xfc, 0x4e, 0x70],
        0x100,
    ));
    assert_eq!(vm.run(0), Ok(()));
    assert_eq!(vm.cpu().registers.pc(), 0);
    assert_eq!(vm.run(3), Ok(()));
    assert_eq!(vm.cpu().registers.pc(), 2);
    assert_eq!(vm.cpu().registers.data(0), 2);
    // three more rounds of the loop, then the instruction that is not
    // carried out
    assert_eq!(vm.run(100), Err(Fault::Unimplemented));
    assert_eq!(vm.cpu().registers.pc(), 10);
    assert_eq!(vm.cpu().registers.data(0), 0xffff);
    assert_eq!(vm.cycles(), 4 * (1 + 4 * 3 + 1));
}
