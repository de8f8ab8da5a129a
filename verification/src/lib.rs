//! A verified core of a Nintendo Entertainment System emulator: a MOS 6502
//! CPU interpreter together with the shared address bus that routes every
//! CPU memory access to the memory-mapped devices (internal RAM, the PPU
//! register window, and cartridge ROM through a mapper).
//!
//! `model` holds the mathematical semantics, `optable` the opcode dispatch
//! table, `mos6502` the executable CPU proved equal to the model, `bus` the
//! device fabric, and `laws` the properties proved of the whole.

pub mod bus;
pub mod cartridge;
pub mod laws;
pub mod mappers;
pub mod model;
pub mod mos6502;
pub mod nes;
pub mod optable;
pub mod ppu;
pub mod ram;
