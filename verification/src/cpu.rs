use vstd::prelude::*;

use crate::bus::{Bus, RAM_SIZE, ram_read, ram_write};

verus! {

/// How an instruction finds its operand.
#[derive(Debug, Clone, Copy, PartialEq, Eq, Structural)]
#[allow(non_camel_case_types)]
pub enum AddressingMode {
    Immediate,
    ZeroPage,
    ZeroPage_X,
    ZeroPage_Y,
    Absolute,
    Absolute_X,
    Absolute_Y,
    Indirect_X,
    Indirect_Y,
    NoneAddressing,
}

/// What one executed instruction did, as far as an observer cares.
#[derive(Debug, Clone, Copy, PartialEq, Eq, Structural)]
pub enum StepEvent {
    /// `LDA #imm` (0xA9) loaded `a` into the accumulator.
    LdaImmediate { a: u8 },
    /// `LDA zp` (0xA5) loaded `a` into the accumulator.
    LdaZeroPage { a: u8 },
    /// `TAX` (0xAA) copied the accumulator, now `x`, into X.
    Tax { x: u8 },
    /// `INX` (0xE8) incremented X, which is now `x`.
    Inx { x: u8 },
    /// `BRK` (0x00) stopped the program.
    Brk,
    /// An opcode that is not implemented stopped the program.
    UnknownOpcode { opcode: u8 },
}

impl StepEvent {
    /// Whether this event ends the fetch-decode-execute loop.
    pub open spec fn halts(self) -> bool {
        self is Brk || self is UnknownOpcode
    }

    /// Whether this event ends the fetch-decode-execute loop.
    pub fn is_halting(&self) -> (b: bool)
        ensures
            b == self.halts(),
    {
        match self {
            StepEvent::Brk | StepEvent::UnknownOpcode { .. } => true,
            _ => false,
        }
    }
}

/// The abstract state of the CPU: its registers and the work RAM on its bus.
pub struct CpuState {
    pub a: u8,
    pub x: u8,
    pub y: u8,
    pub status: u8,
    pub pc: u16,
    pub sp: u8,
    pub ram: Seq<u8>,
}

/// The 6502 CPU of the console, wired to its bus.
pub struct CPU {
    pub register_a: u8,
    pub register_x: u8,
    pub register_y: u8,
    pub status: u8,
    pub program_counter: u16,
    pub stack_pointer: u8,
    pub bus: Bus,
}

impl View for CPU {
    type V = CpuState;

    open spec fn view(&self) -> CpuState {
        CpuState {
            a: self.register_a,
            x: self.register_x,
            y: self.register_y,
            status: self.status,
            pc: self.program_counter,
            sp: self.stack_pointer,
            ram: self.bus@,
        }
    }
}

/// Zero flag: bit 1 of the status register.
pub const FLAG_ZERO: u8 = 0b0000_0010;

/// Negative flag: bit 7 of the status register.
pub const FLAG_NEGATIVE: u8 = 0b1000_0000;

/// The status register after a load of `result`: the zero flag is set exactly
/// when `result` is 0, the negative flag is bit 7 of `result`, and every
/// other bit is kept.
pub open spec fn zn_flags(status: u8, result: u8) -> u8 {
    (status & 0b0111_1101) | (if result == 0 { FLAG_ZERO } else { 0u8 }) | (result & FLAG_NEGATIVE)
}

/// The 16-bit little-endian word at `pos` and `pos + 1`.
pub open spec fn read_u16(ram: Seq<u8>, pos: u16) -> u16 {
    (ram_read(ram, (pos + 1) as u16) * 256 + ram_read(ram, pos)) as u16
}

/// The little-endian word stored at `ptr` and `ptr + 1` of the zero page;
/// the second byte wraps around to the start of the zero page.
pub open spec fn zero_page_word(ram: Seq<u8>, ptr: u8) -> u16 {
    (ram_read(ram, ((ptr + 1) % 0x100) as u16) * 256 + ram_read(ram, ptr as u16)) as u16
}

/// The address of the operand under `mode`, for an instruction whose
/// operand bytes start at the program counter of `s`.
#[verifier::opaque]
pub open spec fn operand_address(s: CpuState, mode: AddressingMode) -> u16 {
    let arg = ram_read(s.ram, s.pc);
    match mode {
        AddressingMode::Immediate => s.pc,
        AddressingMode::ZeroPage => arg as u16,
        AddressingMode::Absolute => read_u16(s.ram, s.pc),
        AddressingMode::ZeroPage_X => ((arg + s.x) % 0x100) as u16,
        AddressingMode::ZeroPage_Y => ((arg + s.y) % 0x100) as u16,
        AddressingMode::Absolute_X => ((read_u16(s.ram, s.pc) + s.x) % 0x10000) as u16,
        AddressingMode::Absolute_Y => ((read_u16(s.ram, s.pc) + s.y) % 0x10000) as u16,
        AddressingMode::Indirect_X => zero_page_word(s.ram, ((arg + s.x) % 0x100) as u8),
        AddressingMode::Indirect_Y => ((zero_page_word(s.ram, arg) + s.y) % 0x10000) as u16,
        AddressingMode::NoneAddressing => 0,
    }
}

/// Whether computing the operand address under `mode` is defined at `s`:
/// `NoneAddressing` has no operand, and the absolute modes read a word at the
/// program counter, which must not be the last address.
pub open spec fn operand_address_defined(s: CpuState, mode: AddressingMode) -> bool {
    &&& !(mode is NoneAddressing)
    &&& (mode is Absolute || mode is Absolute_X || mode is Absolute_Y) ==> s.pc < 0xFFFF
}

/// `s` after `LDA` with `mode`: the accumulator holds the byte at the operand
/// address and the zero and negative flags follow it.
pub open spec fn lda_spec(s: CpuState, mode: AddressingMode) -> CpuState {
    let v = ram_read(s.ram, operand_address(s, mode));
    CpuState { a: v, status: zn_flags(s.status, v), ..s }
}

/// One fetch-decode-execute step from `s`: the next state and what happened.
pub open spec fn step_spec(s: CpuState) -> (CpuState, StepEvent) {
    let opcode = ram_read(s.ram, s.pc);
    let fetched = CpuState { pc: (s.pc + 1) as u16, ..s };
    if opcode == 0xA9 {
        let l = lda_spec(fetched, AddressingMode::Immediate);
        (CpuState { pc: (l.pc + 1) as u16, ..l }, StepEvent::LdaImmediate { a: l.a })
    } else if opcode == 0xA5 {
        let l = lda_spec(fetched, AddressingMode::ZeroPage);
        (CpuState { pc: (l.pc + 1) as u16, ..l }, StepEvent::LdaZeroPage { a: l.a })
    } else if opcode == 0xAA {
        (
            CpuState { x: fetched.a, status: zn_flags(fetched.status, fetched.a), ..fetched },
            StepEvent::Tax { x: fetched.a },
        )
    } else if opcode == 0x00 {
        (fetched, StepEvent::Brk)
    } else if opcode == 0xE8 {
        let x = ((fetched.x + 1) % 0x100) as u8;
        (CpuState { x: x, status: zn_flags(fetched.status, x), ..fetched }, StepEvent::Inx { x: x })
    } else {
        (fetched, StepEvent::UnknownOpcode { opcode: opcode })
    }
}

/// Running from `s` until an instruction halts: the final state and the
/// events of every executed instruction, in order.
pub open spec fn run_from(s: CpuState) -> (CpuState, Seq<StepEvent>)
    decreases 0x10000 - s.pc,
{
    let (next, event) = step_spec(s);
    if event.halts() {
        (next, seq![event])
    } else {
        proof {
            assert(s.pc <= 0x1FFF);
        }
        let (last, events) = run_from(next);
        (last, seq![event] + events)
    }
}

/// `s` with `program` copied into memory from address 0 on and the program
/// counter pointing at its first byte.
pub open spec fn with_program(s: CpuState, program: Seq<u8>) -> CpuState {
    CpuState { pc: 0, ram: load_program(s.ram, program), ..s }
}

/// The work RAM after the bytes of `program` were written, one after the
/// other, to the addresses 0, 1, 2, ... (taken modulo 0x10000).
pub open spec fn load_program(ram: Seq<u8>, program: Seq<u8>) -> Seq<u8>
    decreases program.len(),
{
    if program.len() == 0 {
        ram
    } else {
        let last = program.len() - 1;
        ram_write(load_program(ram, program.drop_last()), last as u16, program[last])
    }
}


/// The 16-bit word whose low byte is `lo` and high byte is `hi`.
fn word_from_bytes(lo: u8, hi: u8) -> (word: u16)
    ensures
        word == hi * 256 + lo,
{
    let (h, l) = (hi as u16, lo as u16);
    assert((h << 8) | l == h * 256 + l) by (bit_vector)
        requires
            h < 256,
            l < 256,
    ;
    (h << 8) | l
}

impl CPU {
    /// A CPU in its power-on state, wired to `bus`: all registers are zero
    /// except the stack pointer, which starts at 0xFD.
    pub fn new(bus: Bus) -> (cpu: Self)
        ensures
            cpu@ == (CpuState { a: 0, x: 0, y: 0, status: 0, pc: 0, sp: 0xFD, ram: bus@ }),
    {
        CPU {
            register_a: 0,
            register_x: 0,
            register_y: 0,
            status: 0,
            program_counter: 0,
            stack_pointer: 0xFD,
            bus,
        }
    }

    /// Reads the byte at `addr` through the bus.
    pub fn mem_read(&self, addr: u16) -> (data: u8)
        ensures
            data == ram_read(self@.ram, addr),
    {
        self.bus.mem_read(addr)
    }

    /// Writes `data` to `addr` through the bus; the registers are unchanged.
    pub fn mem_write(&mut self, addr: u16, data: u8)
        ensures
            final(self)@ == (CpuState { ram: ram_write(old(self)@.ram, addr, data), ..old(self)@ }),
    {
        self.bus.mem_write(addr, data)
    }

    /// Fetches the byte at the program counter and moves the program counter
    /// past it.
    fn mem_read_pc(&mut self) -> (data: u8)
        requires
            old(self).program_counter < 0xFFFF,
        ensures
            data == ram_read(old(self)@.ram, old(self).program_counter),
            final(self)@ == (CpuState { pc: (old(self)@.pc + 1) as u16, ..old(self)@ }),
    {
        let data = self.mem_read(self.program_counter);
        self.program_counter += 1;
        data
    }

    /// Sets the zero flag exactly when `result` is 0 and the negative flag to
    /// bit 7 of `result`, keeping every other status bit.
    fn update_zero_and_negative_flags(&mut self, result: u8)
        ensures
            final(self)@ == (CpuState { status: zn_flags(old(self).status, result), ..old(self)@ }),
    {
        let old_status = self.status;
        if result == 0 {
            self.status = self.status | 0b0000_0010;
        } else {
            self.status = self.status & 0b1111_1101;
        }
        if result & 0b1000_0000 != 0 {
            self.status = self.status | 0b1000_0000;
        } else {
            self.status = self.status & 0b0111_1111;
        }
        let new_status = self.status;
        assert(new_status == zn_flags(old_status, result)) by (bit_vector)
            requires
                result == 0 ==> (result & 0x80 != 0 ==> new_status == (old_status | 0x02) | 0x80),
                result == 0 ==> (result & 0x80 == 0 ==> new_status == (old_status | 0x02) & 0x7F),
                result != 0 ==> (result & 0x80 != 0 ==> new_status == (old_status & 0xFD) | 0x80),
                result != 0 ==> (result & 0x80 == 0 ==> new_status == (old_status & 0xFD) & 0x7F),
        ;
    }

    /// Reads the 16-bit little-endian word at `pos` and `pos + 1`.
    pub fn mem_read_u16(&self, pos: u16) -> (word: u16)
        requires
            pos < 0xFFFF,
        ensures
            word == read_u16(self@.ram, pos),
    {
        let lo = self.mem_read(pos);
        let hi = self.mem_read(pos + 1);
        word_from_bytes(lo, hi)
    }

    /// Reads the little-endian word at `ptr` and `ptr + 1` of the zero page,
    /// wrapping around inside the zero page.
    fn read_zero_page_word(&self, ptr: u8) -> (word: u16)
        ensures
            word == zero_page_word(self@.ram, ptr),
    {
        let lo = self.mem_read(ptr as u16);
        let hi = self.mem_read(ptr.wrapping_add(1) as u16);
        word_from_bytes(lo, hi)
    }

    /// The address of the operand under `mode`, for an instruction whose
    /// operand bytes start at the program counter. Zero-page indexing wraps
    /// inside the zero page, absolute indexing wraps at 0x10000.
    #[verifier::rlimit(50)]
    pub fn get_operand_address(&self, mode: &AddressingMode) -> (addr: u16)
        requires
            operand_address_defined(self@, *mode),
        ensures
            addr == operand_address(self@, *mode),
    {
        match mode {
            AddressingMode::Immediate => {
                proof {
                    reveal(operand_address);
                }
                self.program_counter
            },
            AddressingMode::ZeroPage => {
                proof {
                    reveal(operand_address);
                }
                self.mem_read(self.program_counter) as u16
            },
            AddressingMode::Absolute => {
                proof {
                    reveal(operand_address);
                }
                self.mem_read_u16(self.program_counter)
            },
            AddressingMode::ZeroPage_X => {
                proof {
                    reveal(operand_address);
                }
                let pos = self.mem_read(self.program_counter);
                let addr = pos.wrapping_add(self.register_x) as u16;
                addr
            },
            AddressingMode::ZeroPage_Y => {
                proof {
                    reveal(operand_address);
                }
                let pos = self.mem_read(self.program_counter);
                let addr = pos.wrapping_add(self.register_y) as u16;
                addr
            },
            AddressingMode::Absolute_X => {
                proof {
                    reveal(operand_address);
                }
                let base = self.mem_read_u16(self.program_counter);
                let addr = base.wrapping_add(self.register_x as u16);
                addr
            },
            AddressingMode::Absolute_Y => {
                proof {
                    reveal(operand_address);
                }
                let base = self.mem_read_u16(self.program_counter);
                let addr = base.wrapping_add(self.register_y as u16);
                addr
            },
            AddressingMode::Indirect_X => {
                proof {
                    reveal(operand_address);
                }
                let base = self.mem_read(self.program_counter);
                let ptr: u8 = base.wrapping_add(self.register_x);
                self.read_zero_page_word(ptr)
            },
            AddressingMode::Indirect_Y => {
                proof {
                    reveal(operand_address);
                }
                let base = self.mem_read(self.program_counter);
                let deref_base = self.read_zero_page_word(base);
                let deref = deref_base.wrapping_add(self.register_y as u16);
                deref
            },
            AddressingMode::NoneAddressing => {
                // excluded by the precondition: this mode has no operand
                vstd::pervasive::unreached()
            },
        }
    }

    /// `LDA`: loads the byte at the operand address into the accumulator and
    /// updates the zero and negative flags.
    fn lda(&mut self, mode: &AddressingMode)
        requires
            operand_address_defined(old(self)@, *mode),
        ensures
            final(self)@ == lda_spec(old(self)@, *mode),
    {
        let addr = self.get_operand_address(mode);
        let value = self.mem_read(addr);
        self.register_a = value;
        self.update_zero_and_negative_flags(self.register_a);
    }

    /// Executes the instruction at the program counter.
    fn step(&mut self) -> (event: StepEvent)
        requires
            old(self).program_counter < 0xFFFF,
        ensures
            (final(self)@, event) == step_spec(old(self)@),
    {
        let opcode = self.mem_read_pc();
        match opcode {
            0xA9 => {
                self.lda(&AddressingMode::Immediate);
                self.program_counter += 1;
                StepEvent::LdaImmediate { a: self.register_a }
            },
            0xA5 => {
                self.lda(&AddressingMode::ZeroPage);
                self.program_counter += 1;
                StepEvent::LdaZeroPage { a: self.register_a }
            },
            0xAA => {
                self.register_x = self.register_a;
                self.update_zero_and_negative_flags(self.register_x);
                StepEvent::Tax { x: self.register_x }
            },
            0x00 => StepEvent::Brk,
            0xE8 => {
                self.register_x = self.register_x.wrapping_add(1);
                self.update_zero_and_negative_flags(self.register_x);
                StepEvent::Inx { x: self.register_x }
            },
            _ => StepEvent::UnknownOpcode { opcode },
        }
    }

    /// The fetch-decode-execute loop: executes instructions until `BRK` or an
    /// opcode that is not implemented, and returns what each executed
    /// instruction did, in order.
    pub fn run(&mut self) -> (trace: Vec<StepEvent>)
        requires
            old(self).program_counter < 0xFFFF,
        ensures
            (final(self)@, trace@) == run_from(old(self)@),
    {
        let ghost start = self@;
        let mut trace: Vec<StepEvent> = Vec::new();
        loop
            invariant_except_break
                self.program_counter < 0xFFFF,
                run_from(self@).0 == run_from(start).0,
                trace@ + run_from(self@).1 == run_from(start).1,
            ensures
                (self@, trace@) == run_from(start),
            decreases 0x10000 - self.program_counter,
        {
            let ghost before = self@;
            let event = self.step();
            trace.push(event);
            if event.is_halting() {
                assert(trace@ =~= run_from(start).1);
                break;
            }
            assert(before.pc <= 0x1FFF);
            assert(trace@ + run_from(self@).1 =~= run_from(start).1);
        }
        trace
    }

    /// Copies `program` into memory from address 0 on, points the program
    /// counter at it and runs it; returns what each executed instruction did.
    pub fn load_and_run(&mut self, program: &[u8]) -> (trace: Vec<StepEvent>)
        ensures
            (final(self)@, trace@) == run_from(with_program(old(self)@, program@)),
    {
        let mut i: usize = 0;
        while i < program.len()
            invariant
                i <= program.len(),
                self@ == (CpuState { ram: load_program(old(self)@.ram, program@.take(i as int)), ..old(self)@ }),
            decreases program.len() - i,
        {
            let byte = program[i];
            self.mem_write(0x0000 + i as u16, byte);
            assert(program@.take(i + 1).drop_last() =~= program@.take(i as int));
            i += 1;
        }
        assert(program@.take(program.len() as int) =~= program@);
        self.program_counter = 0x0000;
        self.run()
    }
}


/// The zero flag is set exactly when the loaded value is 0, the negative
/// flag is bit 7 of the loaded value, and no other status bit changes.
pub proof fn lemma_zn_flags(status: u8, result: u8)
    ensures
        (zn_flags(status, result) & FLAG_ZERO == FLAG_ZERO) <==> result == 0,
        (zn_flags(status, result) & FLAG_ZERO == 0) <==> result != 0,
        zn_flags(status, result) & FLAG_NEGATIVE == result & FLAG_NEGATIVE,
        zn_flags(status, result) & 0b0111_1101 == status & 0b0111_1101,
{
    assert((((status & 0x7D) | (if result == 0 { 0x02u8 } else { 0u8 }) | (result & 0x80)) & 0x02
        == 0x02) <==> result == 0) by (bit_vector);
    assert((((status & 0x7D) | (if result == 0 { 0x02u8 } else { 0u8 }) | (result & 0x80)) & 0x02
        == 0) <==> result != 0) by (bit_vector);
    assert(((status & 0x7D) | (if result == 0 { 0x02u8 } else { 0u8 }) | (result & 0x80)) & 0x80
        == result & 0x80) by (bit_vector);
    assert(((status & 0x7D) | (if result == 0 { 0x02u8 } else { 0u8 }) | (result & 0x80)) & 0x7D
        == status & 0x7D) by (bit_vector);
}

/// The zero-page modes never leave the zero page: indexing wraps around
/// inside it.
pub proof fn lemma_zero_page_modes_stay_in_zero_page(s: CpuState, mode: AddressingMode)
    requires
        mode is ZeroPage || mode is ZeroPage_X || mode is ZeroPage_Y,
    ensures
        operand_address(s, mode) < 0x100,
{
    reveal(operand_address);
}

/// Loading a program that fits in the work RAM puts its bytes, in order, at
/// the addresses 0, 1, 2, ... and leaves the rest of the work RAM as it was.
pub proof fn lemma_load_program(ram: Seq<u8>, program: Seq<u8>)
    requires
        ram.len() == RAM_SIZE,
        program.len() <= RAM_SIZE,
    ensures
        load_program(ram, program).len() == RAM_SIZE,
        forall|i: int|
            0 <= i < program.len() ==> #[trigger] ram_read(load_program(ram, program), i as u16)
                == program[i],
        forall|i: int|
            program.len() <= i < RAM_SIZE ==> #[trigger] ram_read(load_program(ram, program), i as u16)
                == ram_read(ram, i as u16),
    decreases program.len(),
{
    if program.len() > 0 {
        let prefix = program.drop_last();
        let last = program.len() - 1;
        lemma_load_program(ram, prefix);
        let before = load_program(ram, prefix);
        assert forall|i: int| 0 <= i < program.len() implies #[trigger] ram_read(
            load_program(ram, program),
            i as u16,
        ) == program[i] by {
            if i < last {
                assert(ram_read(before, i as u16) == prefix[i]);
            }
        }
        assert forall|i: int| program.len() <= i < RAM_SIZE implies #[trigger] ram_read(
            load_program(ram, program),
            i as u16,
        ) == ram_read(ram, i as u16) by {
            assert(ram_read(before, i as u16) == ram_read(ram, i as u16));
        }
    }
}

/// Running always comes to a stop, and only by a halting instruction: the
/// last event halts and no earlier one does. Running never writes memory and
/// never touches Y or the stack pointer.
pub proof fn lemma_run_outcome(s: CpuState)
    ensures
        run_from(s).0.ram == s.ram,
        run_from(s).0.y == s.y,
        run_from(s).0.sp == s.sp,
        run_from(s).1.len() >= 1,
        run_from(s).1.last() is Brk || run_from(s).1.last() is UnknownOpcode,
        forall|i: int|
            0 <= i < run_from(s).1.len() - 1 ==> !(#[trigger] run_from(s).1[i] is Brk || run_from(
                s,
            ).1[i] is UnknownOpcode),
    decreases 0x10000 - s.pc,
{
    let (next, event) = step_spec(s);
    if !event.halts() {
        assert(s.pc <= 0x1FFF);
        lemma_run_outcome(next);
        let rest = run_from(next).1;
        assert(run_from(s).1 == seq![event] + rest);
        assert forall|i: int| 0 <= i < run_from(s).1.len() - 1 implies !(#[trigger] run_from(
            s,
        ).1[i] is Brk || run_from(s).1[i] is UnknownOpcode) by {
            if i > 0 {
                assert(run_from(s).1[i] == rest[i - 1]);
            }
        }
    }
}

/// After `load_and_run` of a program that fits in the work RAM, the program
/// is still in memory at the addresses 0, 1, 2, ...: running never
/// overwrites it.
pub proof fn lemma_program_survives_run(s: CpuState, program: Seq<u8>)
    requires
        s.ram.len() == RAM_SIZE,
        program.len() <= RAM_SIZE,
    ensures
        forall|i: int|
            0 <= i < program.len() ==> #[trigger] ram_read(
                run_from(with_program(s, program)).0.ram,
                i as u16,
            ) == program[i],
{
    lemma_load_program(s.ram, program);
    lemma_run_outcome(with_program(s, program));
}

} // verus!
