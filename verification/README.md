# nes

A cycle-accurate NES emulator core whose behaviour is specified and proved with
Verus: the RP2A03 CPU and its 256 opcodes, the bus and memory map, the PPU dot by
dot, the APU, the cartridge boards (NROM, UxROM, CNROM, MMC1, MMC3, AxROM, GxROM),
the controllers and the iNES loader.

Layout:

- `src/` — the verified library. Every function carries a `requires`/`ensures`
  contract over spec functions (`executes_opcode`, `Ppu::after_dot`,
  `Apu::after_write`, `Mapper::is_from_ines`, ...), and the laws of the system
  (RAM and register mirroring, push/pull, JSR/RTS, interrupt entry and RTI,
  nametable and palette mirroring, frame length, ...) are public proof functions.
  The CPU's bus traffic is recorded in a ghost trace (`Bus::accesses`), over which
  the instruction contracts are stated.
- `tests/` — behavioural tests, run against the compiled library.
- `app/` — what the library leaves to its host: the floating-point audio mixer,
  an emulator handle with ROM loading and error reporting, debugging dumps to
  stderr, and the `nes_*` C interface.
