use vstd::prelude::*;

verus! {

/// Size in bytes of the CPU's work RAM (2 KiB).
pub const RAM_SIZE: usize = 2048;

/// The part of the CPU address space that an address falls into.
#[derive(Debug, Clone, Copy, PartialEq, Eq, Structural)]
pub enum BusRegion {
    /// 0x0000..=0x1FFF: the 2 KiB work RAM and its three mirrors.
    WorkRam,
    /// 0x2000..=0x3FFF: the PPU registers and their mirrors (not connected yet).
    PpuRegisters,
    /// 0x4000..=0xFFFF: nothing is connected there yet.
    Unmapped,
}

/// The region that `addr` belongs to.
pub open spec fn region_of(addr: u16) -> BusRegion {
    if addr <= 0x1FFF {
        BusRegion::WorkRam
    } else if addr <= 0x3FFF {
        BusRegion::PpuRegisters
    } else {
        BusRegion::Unmapped
    }
}

/// The RAM cell that a work-RAM address is mirrored down to.
pub open spec fn ram_index(addr: u16) -> int {
    (addr % 0x800) as int
}

/// What a read of `addr` gives when the work RAM holds `ram`:
/// the mirrored RAM cell for work-RAM addresses, 0 everywhere else.
pub open spec fn ram_read(ram: Seq<u8>, addr: u16) -> u8 {
    if region_of(addr) is WorkRam {
        ram[ram_index(addr)]
    } else {
        0
    }
}

/// The work RAM after a write of `data` to `addr`: only work-RAM addresses
/// change anything, and they change the mirrored cell.
pub open spec fn ram_write(ram: Seq<u8>, addr: u16, data: u8) -> Seq<u8> {
    if region_of(addr) is WorkRam {
        ram.update(ram_index(addr), data)
    } else {
        ram
    }
}

/// What a read gives back after a write: the written byte where both
/// addresses are work-RAM addresses mirrored down to the same cell, the old
/// contents everywhere else. A write outside the work RAM changes nothing,
/// and no write changes the size of the work RAM.
pub proof fn lemma_read_after_write(ram: Seq<u8>, a: u16, b: u16, data: u8)
    requires
        ram.len() == RAM_SIZE,
    ensures
        ram_write(ram, a, data).len() == RAM_SIZE,
        a > 0x1FFF ==> ram_write(ram, a, data) == ram,
        ram_read(ram_write(ram, a, data), b) == if a <= 0x1FFF && b <= 0x1FFF && a % 0x800 == b
            % 0x800 {
            data
        } else {
            ram_read(ram, b)
        },
{
}

/// How the bus reaches the work RAM: an address up to 0x1FFF reads and
/// writes the cell at the address modulo 0x800; every other address reads as
/// 0 and ignores writes. A fresh work RAM holds 2048 zero bytes.
pub proof fn lemma_ram_access(ram: Seq<u8>, addr: u16, data: u8)
    requires
        ram.len() == RAM_SIZE,
    ensures
        addr <= 0x1FFF ==> ram_read(ram, addr) == ram[addr as int % 0x800],
        addr <= 0x1FFF ==> ram_write(ram, addr, data) == ram.update(addr as int % 0x800, data),
        addr > 0x1FFF ==> ram_read(ram, addr) == 0,
        addr > 0x1FFF ==> ram_write(ram, addr, data) == ram,
        zeroed_ram().len() == 2048,
        ram_read(zeroed_ram(), addr) == 0,
{
}

/// The address space is split at 0x2000 and 0x4000: work RAM below 0x2000,
/// the PPU registers from 0x2000 to 0x3FFF, nothing from 0x4000 on.
pub proof fn lemma_regions(addr: u16)
    ensures
        region_of(addr) == BusRegion::WorkRam <==> addr < 0x2000,
        region_of(addr) == BusRegion::PpuRegisters <==> 0x2000 <= addr < 0x4000,
        region_of(addr) == BusRegion::Unmapped <==> 0x4000 <= addr,
{
}

/// The work RAM is mirrored: every work-RAM address reads the same byte as
/// its image in the first 2 KiB, and addresses 0x800 apart read alike.
pub proof fn lemma_mirroring(ram: Seq<u8>, addr: u16)
    requires
        ram.len() == RAM_SIZE,
        addr <= 0x1FFF,
    ensures
        ram_read(ram, addr) == ram_read(ram, addr % 0x800),
        addr + 0x800 <= 0x1FFF ==> ram_read(ram, (addr + 0x800) as u16) == ram_read(ram, addr),
{
}

/// The PPU registers and the unmapped addresses always read as 0.
pub proof fn lemma_outside_ram_reads_zero(ram: Seq<u8>, addr: u16)
    requires
        addr > 0x1FFF,
    ensures
        ram_read(ram, addr) == 0,
{
}

/// A work RAM with every cell zero.
pub open spec fn zeroed_ram() -> Seq<u8> {
    Seq::new(RAM_SIZE as nat, |i: int| 0u8)
}

/// The memory bus of the console, as seen from the CPU.
pub struct Bus {
    cpu_vram: [u8; 2048],
}

impl View for Bus {
    type V = Seq<u8>;

    /// The contents of the work RAM.
    closed spec fn view(&self) -> Seq<u8> {
        self.cpu_vram@
    }
}

/// Mirrors down a work-RAM address to its RAM cell.
fn mirror_down(addr: u16) -> (idx: usize)
    requires
        addr <= 0x1FFF,
    ensures
        idx == ram_index(addr),
        idx < RAM_SIZE,
{
    let m = addr & 0x07FF;
    assert(addr & 0x07FF == addr % 0x800) by (bit_vector);
    m as usize
}

impl Bus {
    /// The work RAM always has exactly `RAM_SIZE` cells.
    pub proof fn lemma_ram_len(&self)
        ensures
            self@.len() == RAM_SIZE,
    {
    }

    /// A bus whose work RAM is all zero.
    pub fn new() -> (bus: Self)
        ensures
            bus@ == zeroed_ram(),
    {
        let bus = Bus { cpu_vram: [0u8; 2048] };
        assert(bus@ =~= zeroed_ram());
        bus
    }

    /// The region that `addr` belongs to.
    pub fn region(addr: u16) -> (r: BusRegion)
        ensures
            r == region_of(addr),
    {
        if addr <= 0x1FFF {
            BusRegion::WorkRam
        } else if addr <= 0x3FFF {
            BusRegion::PpuRegisters
        } else {
            BusRegion::Unmapped
        }
    }

    /// Reads the byte at `addr`. Work-RAM addresses read the mirrored RAM
    /// cell; the PPU registers and unmapped addresses read as 0.
    pub fn mem_read(&self, addr: u16) -> (data: u8)
        ensures
            data == ram_read(self@, addr),
    {
        if addr <= 0x1FFF {
            self.cpu_vram[mirror_down(addr)]
        } else if addr <= 0x3FFF {
            // PPU registers are not connected yet.
            0
        } else {
            0
        }
    }

    /// Writes `data` to `addr`. Only work-RAM addresses store anything;
    /// writes to the PPU registers and to unmapped addresses are ignored.
    pub fn mem_write(&mut self, addr: u16, data: u8)
        ensures
            final(self)@ == ram_write(old(self)@, addr, data),
    {
        if addr <= 0x1FFF {
            let idx = mirror_down(addr);
            self.cpu_vram[idx] = data;
        } else if addr <= 0x3FFF {
            // PPU registers are not connected yet.
        } else {
        }
    }
}

} // verus!
