//! Core of a NES-style emulator: a 6502-family instruction interpreter, a
//! memory-mapped bus dispatcher, and the PPU timing/rendering state machine.
//!
//! The crate is organised leaf-first: `cpu` holds the register file and the
//! packed status-flag byte, `inst` the total instruction decoder, `nes_file`
//! the cartridge mappers, `ppu` the video register file, `interpret` the
//! machine state and bus, `evaluate` the instruction semantics, and `trace`
//! the execution-log formatter used by trace-diff harnesses.

pub mod buf;
pub mod cpu;
pub mod drawing;
pub mod evaluate;
pub mod inst;
pub mod interpret;
pub mod nes_file;
pub mod ppu;
