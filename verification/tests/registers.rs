use m68k::fault::Fault;
use m68k::registers::{ConditionCode, Registers, StackPointer, SupervisorStatusRegister};
use m68k::value::Value;

#[test]
fn registers_start_at_zero() {
    let r = Registers::new();
    assert_eq!(r.pc(), 0);
    assert_eq!(r.sp(), 0);
    assert_eq!(r.sr(), 0);
    assert_eq!(r.data(0), 0);
    assert_eq!(r.address(6), 0);
    assert_eq!(r.get_current_stack_pointer(), StackPointer::USP);
}

#[test]
fn condition_code_bits() {
    let cc = ConditionCode { x: true, n: false, z: true, v: false, c: true };
    assert_eq!(cc.bits(), 0b1_0101);
    assert_eq!(ConditionCode::from_bits_truncate(0b1_0101), cc);
    assert_eq!(ConditionCode::from_bits_truncate(0xff).bits(), 0x1f);
    assert_eq!(ConditionCode::from_bits(0x20), None);
    assert_eq!(ConditionCode::from_bits(0x08), Some(ConditionCode { n: true, ..ConditionCode::empty() }));
    assert_eq!(ConditionCode::empty().bits(), 0);
}

#[test]
fn system_byte_bits() {
    let ssr = SupervisorStatusRegister::from_bits_truncate(0xff);
    assert_eq!(ssr.bits(), 0xb7);
    assert_eq!(SupervisorStatusRegister::empty().bits(), 0);
    assert_eq!(SupervisorStatusRegister::empty().masked(5).bits(), 5);
    assert_eq!(ssr.masked(0).bits(), 0xb0);
}

#[test]
fn status_register_is_system_byte_above_condition_codes() {
    let mut r = Registers::new();
    r.set_sr(0x2715);
    assert_eq!(r.sr(), 0x2715);
    assert_eq!(r.ccr().bits(), 0x15);
    assert_eq!(r.ssr().bits(), 0x27);
    r.set_ccr(0xff);
    assert_eq!(r.sr(), 0x271f);
    r.set_flags(ConditionCode::empty());
    assert_eq!(r.sr(), 0x2700);
    r.set_sr(0xffff);
    assert_eq!(r.sr(), 0xb71f);
}

#[test]
fn a_write_to_sp_reaches_the_stack_pointer_in_use() {
    let mut r = Registers::new();
    r.set_sp(0x1000);
    assert_eq!(r.sp(), 0x1000);
    assert_eq!(r.usp(), 0x1000);
    r.set_address(7, 0x2000);
    assert_eq!(r.sp(), 0x2000);
    assert_eq!(r.usp(), 0x2000);
}

#[test]
fn a_write_to_sr_switches_the_stack_pointer() {
    let mut r = Registers::new();
    r.set_sp(0x1000);
    // supervisor state selects the interrupt stack pointer
    r.set_sr(0x2000);
    assert_eq!(r.get_current_stack_pointer(), StackPointer::ISP);
    assert_eq!(r.sp(), 0);
    assert_eq!(r.usp(), 0x1000);
    r.set_sp(0x3000);
    // supervisor and master state select the master stack pointer
    r.set_sr(0x3000);
    assert_eq!(r.get_current_stack_pointer(), StackPointer::MSP);
    assert_eq!(r.sp(), 0);
    r.set_sp(0x4000);
    // back to the interrupt stack pointer, then to the user's
    r.set_sr(0x2000);
    assert_eq!(r.sp(), 0x3000);
    r.set_sr(0x0000);
    assert_eq!(r.get_current_stack_pointer(), StackPointer::USP);
    assert_eq!(r.sp(), 0x1000);
    r.set_sr(0x3000);
    assert_eq!(r.sp(), 0x4000);
}

#[test]
fn a_write_to_usp_reaches_a7_in_user_state_only() {
    let mut r = Registers::new();
    r.set_usp(0x500);
    assert_eq!(r.sp(), 0x500);
    r.set_sr(0x2000);
    r.set_sp(0x900);
    r.set_usp(0x600);
    assert_eq!(r.sp(), 0x900);
    assert_eq!(r.usp(), 0x600);
    r.set_sr(0);
    assert_eq!(r.sp(), 0x600);
}

#[test]
fn displacements_are_sign_extended_and_wrap() {
    let mut r = Registers::new();
    r.set_pc(0x100);
    assert_eq!(r.displace_pc(Value::Byte(0xfe)), Ok(()));
    assert_eq!(r.pc(), 0xfe);
    assert_eq!(r.displace_pc(Value::Word(0x0102)), Ok(()));
    assert_eq!(r.pc(), 0x200);
    assert_eq!(r.displace_pc(Value::Word(0xfdff)), Ok(()));
    assert_eq!(r.pc(), 0xffff_ffff);
    r.pc_increment();
    assert_eq!(r.pc(), 0);
    r.set_sp(0x10);
    r.displace_sp(Value::Word(0xfff8));
    assert_eq!(r.sp(), 8);
    assert_eq!(r.usp(), 8);
    r.displace_sp(Value::LongWord(0xffff_ffff));
    assert_eq!(r.sp(), 7);
    r.displace_sp(Value::Byte(0x80));
    assert_eq!(r.sp(), 0xffff_ff87);
}

#[test]
fn a_long_displacement_of_the_program_counter_is_refused() {
    let mut r = Registers::new();
    r.set_pc(0x100);
    assert_eq!(r.displace_pc(Value::LongWord(4)), Err(Fault::IllegalStateUse));
    assert_eq!(r.pc(), 0x100);
}

#[test]
fn data_and_address_registers_are_separate() {
    let mut r = Registers::new();
    r.set_data(3, 0x1234);
    r.set_address(3, 0x5678);
    assert_eq!(r.data(3), 0x1234);
    assert_eq!(r.address(3), 0x5678);
    assert_eq!(r.data(2), 0);
    assert_eq!(r.sp(), 0);
}

#[test]
fn defaults_are_zero() {
    assert_eq!(ConditionCode::default(), ConditionCode::empty());
    assert_eq!(SupervisorStatusRegister::default().bits(), 0);
    let r = Registers::default();
    assert_eq!(r.sr(), 0);
    assert_eq!(r.sp(), 0);
    let cpu = m68k::cpu::Cpu::default();
    assert_eq!(cpu.registers.pc(), 0);
    assert!(!cpu.stopped);
    assert_eq!(cpu.interrupt_requests.len(), 0);
}
