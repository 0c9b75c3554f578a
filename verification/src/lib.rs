//! A small 6502 (NES CPU) emulator core: the memory bus with its mirrored
//! work RAM, and a CPU that fetches, decodes and executes a handful of
//! instructions.

pub mod bus;
pub mod cpu;
pub mod laws;
