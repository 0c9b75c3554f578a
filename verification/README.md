# lib: a verified 6502 (NES CPU) emulator core

- `src/bus.rs` — the memory bus: 2 KiB of work RAM mirrored over
  0x0000..=0x1FFF, the (not yet connected) PPU registers at 0x2000..=0x3FFF
  and unmapped space above. Reads and writes are specified by `ram_read` and
  `ram_write`; laws on read-after-write and mirroring are proved there.
- `src/cpu.rs` — the CPU: registers, operand addressing modes, the zero and
  negative flags, and the fetch-decode-execute loop (`LDA #imm`, `LDA zp`,
  `TAX`, `INX`, `BRK`). The loop is specified by the total spec function
  `run_from`, which also proves that every run stops; `run` and
  `load_and_run` return the list of executed instructions.
- `app/main.rs` — a small program that loads a test program, runs it and
  prints a line per executed instruction and the final registers.
- `tests/` — the behaviour tests.
