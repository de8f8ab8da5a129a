//! Mapper 0 (NROM): no bank switching. The CPU window `0x8000..=0xFFFF` is
//! masked down to one or two 16 KiB PRG banks.

use vstd::prelude::*;
use crate::mappers::Mapper;

verus! {

/// The PRG mask NROM uses: with two 16 KiB banks the full 32 KiB window is
/// addressed; with a single bank the window mirrors it.
pub open spec fn nrom_mask(prg_rom_banks: u8) -> u16 {
    if prg_rom_banks > 1 {
        0x7fff
    } else {
        0x3fff
    }
}

pub struct Mapper0 {
    pub prg_rom_banks: u8,
    pub mask: u16,
}

impl Mapper0 {
    pub fn new(prg_rom_banks: u8) -> (m: Mapper0)
        ensures
            m.prg_rom_banks == prg_rom_banks,
            m.mask == nrom_mask(prg_rom_banks),
    {
        Mapper0 {
            prg_rom_banks,
            mask: if prg_rom_banks > 1 {
                0x7fff
            } else {
                0x3fff
            },
        }
    }
}

impl Mapper for Mapper0 {
    open spec fn map_read(&self, addr: u16) -> Option<u16> {
        if addr >= 0x8000 {
            Some(addr & self.mask)
        } else {
            None
        }
    }

    open spec fn map_write(&self, addr: u16, data: u8) -> Option<u16> {
        if addr >= 0x8000 {
            Some(addr & self.mask)
        } else {
            None
        }
    }

    open spec fn map_ppu_read(&self, addr: u16) -> Option<u16> {
        Some(addr)
    }

    open spec fn map_ppu_write(&self, addr: u16, data: u8) -> Option<u16> {
        Some(addr)
    }

    fn read(&self, addr: u16) -> (r: Option<u16>) {
        if addr >= 0x8000 {
            Some(addr & self.mask)
        } else {
            None
        }
    }

    fn write(&self, addr: u16, data: u8) -> (r: Option<u16>) {
        if addr >= 0x8000 {
            Some(addr & self.mask)
        } else {
            None
        }
    }

    fn ppu_read(&self, addr: u16) -> (r: Option<u16>) {
        Some(addr)
    }

    fn ppu_write(&self, addr: u16, data: u8) -> (r: Option<u16>) {
        Some(addr)
    }
}

} // verus!
