//! What each instruction and addressing mode does, stated from the bytes in
//! memory and the registers alone, and how a run goes on or stops.

use vstd::prelude::*;

use crate::bus::{ram_read, ram_write};
use crate::cpu::{
    AddressingMode, CpuState, StepEvent, lemma_zn_flags, load_program, operand_address,
    operand_address_defined, read_u16, run_from, step_spec, with_program,
};

verus! {

/// `new_status` is `old_status` after a load of `value`: the zero flag (bit 1)
/// is set exactly when `value` is 0, the negative flag (bit 7) is bit 7 of
/// `value`, and every other bit is kept.
pub open spec fn flags_after_load(old_status: u8, new_status: u8, value: u8) -> bool {
    &&& (new_status & 0b0000_0010 == 0b0000_0010) == (value == 0)
    &&& new_status & 0b1000_0000 == value & 0b1000_0000
    &&& new_status & 0b0111_1101 == old_status & 0b0111_1101
}

/// The byte at `addr` of the memory of `s`.
pub open spec fn byte_at(s: CpuState, addr: int) -> int {
    ram_read(s.ram, addr as u16) as int
}

/// A 16-bit word read from memory is little-endian: the byte at `pos` is the
/// low byte and the byte at `pos + 1` the high byte.
pub proof fn law_word_is_little_endian(ram: Seq<u8>, pos: u16)
    requires
        pos < 0xFFFF,
    ensures
        read_u16(ram, pos) == ram_read(ram, pos) + 256 * ram_read(ram, (pos + 1) as u16),
{
}

/// The operand address of every addressing mode, from the operand bytes at
/// the program counter and the index registers: zero-page indexing wraps
/// modulo 0x100, absolute indexing modulo 0x10000, and the pointer of the
/// indirect modes is a little-endian word in the zero page whose high byte
/// wraps to the start of the zero page.
pub proof fn law_operand_addresses(s: CpuState)
    ensures
        operand_address(s, AddressingMode::Immediate) == s.pc,
        operand_address(s, AddressingMode::ZeroPage) == byte_at(s, s.pc as int),
        operand_address(s, AddressingMode::ZeroPage_X) == (byte_at(s, s.pc as int) + s.x) % 0x100,
        operand_address(s, AddressingMode::ZeroPage_Y) == (byte_at(s, s.pc as int) + s.y) % 0x100,
        s.pc < 0xFFFF ==> operand_address(s, AddressingMode::Absolute) == byte_at(s, s.pc as int)
            + 256 * byte_at(s, s.pc + 1),
        s.pc < 0xFFFF ==> operand_address(s, AddressingMode::Absolute_X) == (byte_at(s, s.pc as int)
            + 256 * byte_at(s, s.pc + 1) + s.x) % 0x10000,
        s.pc < 0xFFFF ==> operand_address(s, AddressingMode::Absolute_Y) == (byte_at(s, s.pc as int)
            + 256 * byte_at(s, s.pc + 1) + s.y) % 0x10000,
        operand_address(s, AddressingMode::Indirect_X) == byte_at(
            s,
            (byte_at(s, s.pc as int) + s.x) % 0x100,
        ) + 256 * byte_at(s, (byte_at(s, s.pc as int) + s.x + 1) % 0x100),
        operand_address(s, AddressingMode::Indirect_Y) == (byte_at(s, byte_at(s, s.pc as int))
            + 256 * byte_at(s, (byte_at(s, s.pc as int) + 1) % 0x100) + s.y) % 0x10000,
{
    reveal(operand_address);
    let arg = ram_read(s.ram, s.pc);
    let p = (arg + s.x) % 0x100;
    assert((p + 1) % 0x100 == (arg + s.x + 1) % 0x100);
}

/// `LDA #imm` (0xA9): the accumulator gets the byte after the opcode, the
/// flags follow it, the program counter moves past both bytes, and nothing
/// else changes.
pub proof fn law_lda_immediate(s: CpuState)
    requires
        ram_read(s.ram, s.pc) == 0xA9,
    ensures
        ({
            let (n, e) = step_spec(s);
            let v = byte_at(s, s.pc + 1);
            &&& e == StepEvent::LdaImmediate { a: v as u8 }
            &&& n.a == v
            &&& flags_after_load(s.status, n.status, n.a)
            &&& n.pc == s.pc + 2
            &&& n.x == s.x && n.y == s.y && n.sp == s.sp && n.ram == s.ram
        }),
{
    reveal(operand_address);
    assert(s.pc <= 0x1FFF);
    let v = ram_read(s.ram, (s.pc + 1) as u16);
    lemma_zn_flags(s.status, v);
}

/// `LDA zp` (0xA5): the accumulator gets the byte at the zero-page address
/// given by the one operand byte after the opcode, the flags follow it, the
/// program counter moves past both bytes, and nothing else changes.
pub proof fn law_lda_zero_page(s: CpuState)
    requires
        ram_read(s.ram, s.pc) == 0xA5,
    ensures
        ({
            let (n, e) = step_spec(s);
            let v = byte_at(s, byte_at(s, s.pc + 1));
            &&& e == StepEvent::LdaZeroPage { a: v as u8 }
            &&& n.a == v
            &&& flags_after_load(s.status, n.status, n.a)
            &&& n.pc == s.pc + 2
            &&& n.x == s.x && n.y == s.y && n.sp == s.sp && n.ram == s.ram
        }),
{
    reveal(operand_address);
    assert(s.pc <= 0x1FFF);
    let v = ram_read(s.ram, ram_read(s.ram, (s.pc + 1) as u16) as u16);
    lemma_zn_flags(s.status, v);
}

/// `TAX` (0xAA): X gets the accumulator, the flags follow it whatever X held
/// before, the program counter moves past the opcode, and nothing else
/// changes.
pub proof fn law_tax(s: CpuState)
    requires
        ram_read(s.ram, s.pc) == 0xAA,
    ensures
        ({
            let (n, e) = step_spec(s);
            &&& e == StepEvent::Tax { x: s.a }
            &&& n.x == s.a
            &&& flags_after_load(s.status, n.status, s.a)
            &&& n.pc == s.pc + 1
            &&& n.a == s.a && n.y == s.y && n.sp == s.sp && n.ram == s.ram
        }),
{
    assert(s.pc <= 0x1FFF);
    lemma_zn_flags(s.status, s.a);
}

/// `INX` (0xE8): X goes up by one, wrapping from 0xFF to 0, the flags follow
/// the new X, the program counter moves past the opcode, and nothing else
/// changes.
pub proof fn law_inx(s: CpuState)
    requires
        ram_read(s.ram, s.pc) == 0xE8,
    ensures
        ({
            let (n, e) = step_spec(s);
            &&& n.x == (s.x + 1) % 0x100
            &&& e == StepEvent::Inx { x: n.x }
            &&& flags_after_load(s.status, n.status, n.x)
            &&& n.pc == s.pc + 1
            &&& n.a == s.a && n.y == s.y && n.sp == s.sp && n.ram == s.ram
        }),
{
    assert(s.pc <= 0x1FFF);
    let x = ((s.x + 1) % 0x100) as u8;
    lemma_zn_flags(s.status, x);
}

/// `BRK` (0x00) and every opcode that is not implemented only move the
/// program counter past the opcode, report `Brk` or the opcode, and end the
/// run there.
pub proof fn law_run_stops(s: CpuState)
    requires
        ram_read(s.ram, s.pc) != 0xA9,
        ram_read(s.ram, s.pc) != 0xA5,
        ram_read(s.ram, s.pc) != 0xAA,
        ram_read(s.ram, s.pc) != 0xE8,
    ensures
        run_from(s).0 == (CpuState { pc: (s.pc + 1) as u16, ..s }),
        ram_read(s.ram, s.pc) == 0 ==> run_from(s).1 == seq![StepEvent::Brk],
        ram_read(s.ram, s.pc) != 0 ==> run_from(s).1 == seq![
            StepEvent::UnknownOpcode { opcode: ram_read(s.ram, s.pc) },
        ],
{
}

/// Only `BRK` and unimplemented opcodes end a run: after `LDA #imm`,
/// `LDA zp`, `TAX` or `INX` the run goes on from the next state, and the
/// trace is that instruction's event followed by the rest of the run.
pub proof fn law_run_continues(s: CpuState)
    requires
        ram_read(s.ram, s.pc) == 0xA9 || ram_read(s.ram, s.pc) == 0xA5 || ram_read(s.ram, s.pc)
            == 0xAA || ram_read(s.ram, s.pc) == 0xE8,
    ensures
        run_from(s).0 == run_from(step_spec(s).0).0,
        run_from(s).1 == seq![step_spec(s).1] + run_from(step_spec(s).0).1,
{
    assert(s.pc <= 0x1FFF);
}

/// A run ends after an event exactly when that event is `Brk` or
/// `UnknownOpcode`.
pub proof fn law_halting_events(e: StepEvent)
    ensures
        e.halts() <==> (e is Brk || e is UnknownOpcode),
{
}

/// Every addressing mode but `NoneAddressing` has an operand address; the
/// absolute modes need the program counter below 0xFFFF to read their word.
pub proof fn law_operand_address_defined(s: CpuState, mode: AddressingMode)
    ensures
        (mode is Immediate || mode is ZeroPage || mode is ZeroPage_X || mode is ZeroPage_Y
            || mode is Indirect_X || mode is Indirect_Y) ==> operand_address_defined(s, mode),
        (mode is Absolute || mode is Absolute_X || mode is Absolute_Y) ==> (operand_address_defined(
            s,
            mode,
        ) <==> s.pc < 0xFFFF),
        !operand_address_defined(s, AddressingMode::NoneAddressing),
{
}

/// Loading writes the bytes of a program in order: loading one more byte
/// writes it to the address that is the program's old length truncated to 16
/// bits,
/// after the rest; an empty program changes nothing.
pub proof fn law_load_program_in_order(ram: Seq<u8>, program: Seq<u8>, byte: u8)
    ensures
        load_program(ram, Seq::empty()) == ram,
        load_program(ram, program.push(byte)) == ram_write(
            load_program(ram, program),
            program.len() as u16,
            byte,
        ),
{
    assert(program.push(byte).drop_last() =~= program);
}

/// Before it runs, `load_and_run` copies the program into memory and points
/// the program counter at address 0; the registers are left as they were.
pub proof fn law_program_start(s: CpuState, program: Seq<u8>)
    ensures
        with_program(s, program) == (CpuState { pc: 0, ram: load_program(s.ram, program), ..s }),
{
}

} // verus!
