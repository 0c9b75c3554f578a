use lib::bus::Bus;
use lib::cpu::CPU;

#[test]
fn test_0xa9_lda_immediate_load_data() {
    let bus = Bus::new();
    let mut cpu = CPU::new(bus);
    cpu.load_and_run(&[0xA9, 0x05, 0x00]);

    assert_eq!(cpu.register_a, 0x05);
    assert_eq!(cpu.status & 0b1000_0010, 0b0000_0000);
}

#[test]
fn test_0xa9_lda_zero_flag() {
    let bus = Bus::new();
    let mut cpu = CPU::new(bus);
    cpu.load_and_run(&[0xA9, 0x00, 0x00]);

    assert_eq!(cpu.status & 0b0000_0010, 0b0000_0010);
}

#[test]
fn test_0xa9_lda_negative_flag() {
    let bus = Bus::new();
    let mut cpu = CPU::new(bus);
    cpu.load_and_run(&[0xA9, 0x80, 0x00]);

    assert_eq!(cpu.status & 0b1000_0000, 0b1000_0000);
}

#[test]
fn test_0xaa_tax_move_a_to_x() {
    let bus = Bus::new();
    let mut cpu = CPU::new(bus);
    cpu.load_and_run(&[0xA9, 0x0A, 0xAA, 0x00]);

    assert_eq!(cpu.register_x, 0x0A);
}

#[test]
fn test_0xe8_inx_increment() {
    let bus = Bus::new();
    let mut cpu = CPU::new(bus);
    cpu.register_x = 0x00;
    cpu.load_and_run(&[0xE8, 0x00]);

    assert_eq!(cpu.register_x, 0x01);
}

#[test]
fn test_0xe8_inx_overflow() {
    let bus = Bus::new();
    let mut cpu = CPU::new(bus);
    cpu.register_x = 0xFF;
    cpu.load_and_run(&[0xE8, 0x00]);

    assert_eq!(cpu.register_x, 0x00);
    assert_eq!(cpu.status & 0b0000_0010, 0b0000_0010);
}

#[test]
fn test_0xa5_lda_zero_page() {
    let bus = Bus::new();
    let mut cpu = CPU::new(bus);
    cpu.mem_write(0x0010, 0x55);
    cpu.load_and_run(&[0xA5, 0x10, 0x00]);

    assert_eq!(cpu.register_a, 0x55);
}
