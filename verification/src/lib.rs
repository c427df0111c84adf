//! A verified core for an NES emulator: the 6502 interpreter and its memory
//! bus, the PPU register interface, the NROM cartridge mapper, the APU
//! register stub and the iNES image loader.
//!
//! Every executable function carries a contract over a mathematical model of
//! the machine: `CpuState` for the CPU and all that hangs on its bus,
//! `PpuState` for the PPU, `NromState` for the cartridge. The laws that
//! relate several operations are stated and proved in `cpu_laws` and
//! `ppu_laws`.

pub mod rom;
pub mod apu;
pub mod mapper;
pub mod ppu;
pub mod ppu_laws;
pub mod flags;
pub mod opcodes;
pub mod cpu;
pub mod cpu_state;
pub mod cpu_laws;
pub mod interpreter;
pub mod trace;
