use m68k::bus::Bus;
use m68k::mapped_hardware::MappedHardware;
use m68k::memory::Memory;

#[test]
fn memory_is_big_endian() {
    let mut memory = Memory::with_size(vec![0x12, 0x34, 0x56, 0x78], 8);
    assert_eq!(memory.read_word(0), Some(0x1234));
    assert_eq!(memory.read_word(1), Some(0x3456));
    assert_eq!(memory.read_long(0), Some(0x1234_5678));
    assert_eq!(memory.read_byte(2), Some(0x56));
    assert_eq!(memory.read_word(4), Some(0));
}

#[test]
fn memory_ends_where_its_bytes_end() {
    let mut memory = Memory::with_size(vec![1, 2, 3, 4], 4);
    assert_eq!(memory.len(), 4);
    assert_eq!(memory.read_word(2), Some(0x0304));
    assert_eq!(memory.read_word(3), None);
    assert_eq!(memory.read_word(4), None);
    assert_eq!(memory.read_long(2), None);
    assert_eq!(memory.write_word(3, 0xffff), None);
    assert_eq!(memory.read_word(2), Some(0x0304));
    assert_eq!(memory.read_word(0xffff_ffff), None);
}

#[test]
fn a_program_longer_than_the_memory_extends_it() {
    let mut memory = Memory::with_size(vec![1, 2, 3, 4, 5, 6], 2);
    assert_eq!(memory.len(), 6);
    assert_eq!(memory.read_word(4), Some(0x0506));
}

#[test]
fn memory_writes_words_bytes_and_longs() {
    let mut memory = Memory::with_size(vec![0xaa, 0xbb], 8);
    assert_eq!(memory.write_word(0, 0x1234), Some(0x1234));
    assert_eq!(memory.read_word(0), Some(0x1234));
    assert_eq!(memory.write_word(1, 0xcdef), Some(0xcdef));
    assert_eq!(memory.read_long(0), Some(0x12cd_ef00));
    assert_eq!(memory.write_byte(4, 0x77), Some(0x77));
    assert_eq!(memory.read_word(4), Some(0x7700));
    assert_eq!(memory.write_byte(5, 0x88), Some(0x88));
    assert_eq!(memory.read_word(4), Some(0x7788));
    assert_eq!(memory.write_long(4, 0x0102_0304), Some(0x0102_0304));
    assert_eq!(memory.read_word(4), Some(0x0102));
    assert_eq!(memory.read_word(6), Some(0x0304));
    assert_eq!(memory.write_long(6, 0x0a0b_0c0d), None);
    assert_eq!(memory.read_word(6), Some(0x0a0b));
}

#[test]
fn the_default_memory_has_sixteen_mebibytes() {
    let mut memory = Memory::new(vec![0x4e, 0x71]);
    assert_eq!(memory.len(), 0x100_0000);
    assert_eq!(memory.read_word(0), Some(0x4e71));
    assert_eq!(memory.read_word(0xff_fffe), Some(0));
    assert_eq!(memory.read_word(0xff_ffff), None);
}

#[test]
fn bus_reads_first_present_device() {
    let mut bus: Bus<Memory> = Bus::new();
    assert_eq!(bus.read_word(0), None);
    bus.map_hardware(Memory::with_size(vec![0x12, 0x34], 2));
    bus.map_hardware(Memory::with_size(vec![0xaa, 0xbb, 0xcc, 0xdd], 4));
    assert_eq!(bus.read_word(0), Some(0x1234));
    assert_eq!(bus.read_word(2), Some(0xccdd));
    assert_eq!(bus.read_long(0), Some(0x1234_ccdd));
    assert_eq!(bus.read_word(3), None);
}

#[test]
fn bus_counts_four_cycles_for_each_word() {
    let mut bus: Bus<Memory> = Bus::default();
    bus.map_hardware(Memory::with_size(vec![0; 8], 8));
    assert_eq!(bus.cycles(), 0);
    bus.read_word(0);
    assert_eq!(bus.cycles(), 4);
    bus.read_long(0);
    assert_eq!(bus.cycles(), 12);
    bus.write_word(0, 1);
    assert_eq!(bus.cycles(), 16);
    bus.write_byte(0, 1);
    assert_eq!(bus.cycles(), 24);
    bus.write_long(0, 1);
    assert_eq!(bus.cycles(), 32);
    bus.tick(3);
    assert_eq!(bus.cycles, 35);
}

#[test]
fn bus_writes_to_the_first_device_that_takes_the_word() {
    let mut bus: Bus<Memory> = Bus::new();
    bus.map_hardware(Memory::with_size(vec![0, 0], 2));
    bus.map_hardware(Memory::with_size(vec![0, 0, 0, 0], 4));
    assert_eq!(bus.write_word(0, 0x1111), Some(0x1111));
    assert_eq!(bus.write_word(2, 0x2222), Some(0x2222));
    assert_eq!(bus.write_word(4, 0x3333), None);
    assert_eq!(bus.read_long(0), Some(0x1111_2222));
}
