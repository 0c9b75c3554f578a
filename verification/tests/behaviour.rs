use lib::bus::{Bus, BusRegion, RAM_SIZE};
use lib::cpu::{AddressingMode, CPU, StepEvent};

fn fresh_cpu() -> CPU {
    CPU::new(Bus::new())
}

#[test]
fn new_cpu_power_on_state() {
    let cpu = fresh_cpu();
    assert_eq!(cpu.register_a, 0);
    assert_eq!(cpu.register_x, 0);
    assert_eq!(cpu.register_y, 0);
    assert_eq!(cpu.status, 0);
    assert_eq!(cpu.program_counter, 0);
    assert_eq!(cpu.stack_pointer, 0xFD);
    assert_eq!(cpu.mem_read(0x0000), 0);
    assert_eq!(cpu.mem_read(0x07FF), 0);
}

#[test]
fn bus_regions() {
    assert_eq!(Bus::region(0x0000), BusRegion::WorkRam);
    assert_eq!(Bus::region(0x1FFF), BusRegion::WorkRam);
    assert_eq!(Bus::region(0x2000), BusRegion::PpuRegisters);
    assert_eq!(Bus::region(0x3FFF), BusRegion::PpuRegisters);
    assert_eq!(Bus::region(0x4000), BusRegion::Unmapped);
    assert_eq!(Bus::region(0xFFFF), BusRegion::Unmapped);
    assert_eq!(RAM_SIZE, 2048);
}

#[test]
fn ram_read_after_write() {
    let mut bus = Bus::new();
    bus.mem_write(0x0123, 0xAB);
    assert_eq!(bus.mem_read(0x0123), 0xAB);
    assert_eq!(bus.mem_read(0x0124), 0x00);
}

#[test]
fn ram_is_mirrored_every_2k() {
    let mut bus = Bus::new();
    bus.mem_write(0x0001, 0x42);
    assert_eq!(bus.mem_read(0x0801), 0x42);
    assert_eq!(bus.mem_read(0x1001), 0x42);
    assert_eq!(bus.mem_read(0x1801), 0x42);
    bus.mem_write(0x1FFF, 0x99);
    assert_eq!(bus.mem_read(0x07FF), 0x99);
}

#[test]
fn writes_outside_ram_are_ignored_and_read_zero() {
    let mut bus = Bus::new();
    bus.mem_write(0x2000, 0x11);
    bus.mem_write(0x4000, 0x22);
    assert_eq!(bus.mem_read(0x2000), 0);
    assert_eq!(bus.mem_read(0x4000), 0);
    assert_eq!(bus.mem_read(0x0000), 0);
    assert_eq!(bus.mem_read(0x0007), 0);
}

#[test]
fn mem_read_u16_is_little_endian() {
    let mut cpu = fresh_cpu();
    cpu.mem_write(0x0010, 0x34);
    cpu.mem_write(0x0011, 0x12);
    assert_eq!(cpu.mem_read_u16(0x0010), 0x1234);
}

#[test]
fn operand_address_every_mode() {
    let mut cpu = fresh_cpu();
    cpu.program_counter = 0x0200;
    cpu.mem_write(0x0200, 0xF0);
    cpu.mem_write(0x0201, 0x12);
    cpu.register_x = 0x20;
    cpu.register_y = 0x05;
    assert_eq!(cpu.get_operand_address(&AddressingMode::Immediate), 0x0200);
    assert_eq!(cpu.get_operand_address(&AddressingMode::ZeroPage), 0x00F0);
    assert_eq!(cpu.get_operand_address(&AddressingMode::Absolute), 0x12F0);
    // zero-page indexing wraps inside the zero page
    assert_eq!(cpu.get_operand_address(&AddressingMode::ZeroPage_X), 0x0010);
    assert_eq!(cpu.get_operand_address(&AddressingMode::ZeroPage_Y), 0x00F5);
    assert_eq!(cpu.get_operand_address(&AddressingMode::Absolute_X), 0x1310);
    assert_eq!(cpu.get_operand_address(&AddressingMode::Absolute_Y), 0x12F5);
}

#[test]
fn absolute_indexing_wraps_at_64k() {
    let mut cpu = fresh_cpu();
    cpu.mem_write(0x0000, 0xFF);
    cpu.mem_write(0x0001, 0xFF);
    cpu.register_x = 0x02;
    assert_eq!(cpu.get_operand_address(&AddressingMode::Absolute_X), 0x0001);
}

#[test]
fn operand_address_indirect_modes() {
    let mut cpu = fresh_cpu();
    cpu.program_counter = 0x0300;
    cpu.mem_write(0x0300, 0x40);
    cpu.register_x = 0x04;
    cpu.register_y = 0x10;
    // (zp,X): pointer at 0x44/0x45
    cpu.mem_write(0x0044, 0x00);
    cpu.mem_write(0x0045, 0x06);
    assert_eq!(cpu.get_operand_address(&AddressingMode::Indirect_X), 0x0600);
    // (zp),Y: pointer at 0x40/0x41, plus Y
    cpu.mem_write(0x0040, 0xF8);
    cpu.mem_write(0x0041, 0x03);
    assert_eq!(cpu.get_operand_address(&AddressingMode::Indirect_Y), 0x0408);
}

#[test]
fn indirect_pointer_wraps_inside_zero_page() {
    let mut cpu = fresh_cpu();
    cpu.mem_write(0x0000, 0xFF);
    cpu.mem_write(0x00FF, 0x34);
    cpu.mem_write(0x0100, 0x99);
    // the high byte is taken from 0x0000 (0xFF), not from 0x0100
    assert_eq!(cpu.get_operand_address(&AddressingMode::Indirect_Y), 0xFF34);
}

#[test]
fn run_reports_every_instruction() {
    let mut cpu = fresh_cpu();
    let trace = cpu.load_and_run(&[0xA9, 0x42, 0xAA, 0xE8, 0x00]);
    assert_eq!(
        trace,
        vec![
            StepEvent::LdaImmediate { a: 0x42 },
            StepEvent::Tax { x: 0x42 },
            StepEvent::Inx { x: 0x43 },
            StepEvent::Brk,
        ]
    );
    assert_eq!(cpu.register_a, 0x42);
    assert_eq!(cpu.register_x, 0x43);
    assert_eq!(cpu.program_counter, 5);
}

#[test]
fn unknown_opcode_stops_the_run() {
    let mut cpu = fresh_cpu();
    let trace = cpu.load_and_run(&[0xE8, 0xFF, 0xE8, 0x00]);
    assert_eq!(trace, vec![StepEvent::Inx { x: 1 }, StepEvent::UnknownOpcode { opcode: 0xFF }]);
    assert_eq!(cpu.register_x, 1);
    assert_eq!(cpu.program_counter, 2);
}

#[test]
fn load_and_run_stores_the_program() {
    let mut cpu = fresh_cpu();
    cpu.load_and_run(&[0xA9, 0x07, 0x00]);
    assert_eq!(cpu.mem_read(0x0000), 0xA9);
    assert_eq!(cpu.mem_read(0x0001), 0x07);
    assert_eq!(cpu.mem_read(0x0002), 0x00);
}

#[test]
fn flags_follow_the_loaded_value_and_keep_other_bits() {
    let mut cpu = fresh_cpu();
    cpu.status = 0b0100_0001;
    cpu.load_and_run(&[0xA9, 0x00, 0x00]);
    assert_eq!(cpu.status, 0b0100_0011);
    cpu.load_and_run(&[0xA9, 0x90, 0x00]);
    assert_eq!(cpu.status, 0b1100_0001);
}

#[test]
fn tax_sets_zero_flag() {
    let mut cpu = fresh_cpu();
    cpu.register_x = 5;
    cpu.load_and_run(&[0xAA, 0x00]);
    assert_eq!(cpu.register_x, 0);
    assert_eq!(cpu.status & 0b0000_0010, 0b0000_0010);
}

#[test]
fn run_without_program_stops_at_brk() {
    let mut cpu = fresh_cpu();
    cpu.program_counter = 0x2000;
    let trace = cpu.run();
    assert_eq!(trace, vec![StepEvent::Brk]);
    assert_eq!(cpu.program_counter, 0x2001);
}

#[test]
fn program_runs_off_the_end_of_ram_into_brk() {
    let mut cpu = fresh_cpu();
    // fill RAM with INX: the program repeats through the mirrors and stops
    // at 0x2000, which reads as BRK
    let program = vec![0xE8u8; 2048];
    let trace = cpu.load_and_run(&program);
    assert_eq!(trace.len(), 0x2000 + 1);
    assert_eq!(cpu.register_x, 0x00);
    assert_eq!(cpu.program_counter, 0x2001);
}
