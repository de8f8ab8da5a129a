//! Cartridge mappers: on-cartridge bank-switching logic that translates
//! CPU-visible addresses into physical ROM offsets.

pub mod mapper0;

use vstd::prelude::*;

verus! {

/// The address-translation contract of a cartridge mapper.
///
/// `read` and `write` translate a raw CPU address into an index into
/// PRG-ROM; `ppu_read` and `ppu_write` do the same on the PPU side for
/// CHR-ROM. A result of `None` means the mapper does not claim the address.
pub trait Mapper: Sized {
    /// Where a CPU read of `addr` lands in PRG-ROM, if anywhere.
    spec fn map_read(&self, addr: u16) -> Option<u16>;

    /// Where a CPU write of `addr` lands in PRG-ROM, if anywhere.
    spec fn map_write(&self, addr: u16, data: u8) -> Option<u16>;

    /// Where a PPU read of `addr` lands in CHR-ROM, if anywhere.
    spec fn map_ppu_read(&self, addr: u16) -> Option<u16>;

    /// Where a PPU write of `addr` lands in CHR-ROM, if anywhere.
    spec fn map_ppu_write(&self, addr: u16, data: u8) -> Option<u16>;

    fn read(&self, addr: u16) -> (r: Option<u16>)
        ensures
            r == self.map_read(addr),
    ;

    fn write(&self, addr: u16, data: u8) -> (r: Option<u16>)
        ensures
            r == self.map_write(addr, data),
    ;

    fn ppu_read(&self, addr: u16) -> (r: Option<u16>)
        ensures
            r == self.map_ppu_read(addr),
    ;

    fn ppu_write(&self, addr: u16, data: u8) -> (r: Option<u16>)
        ensures
            r == self.map_ppu_write(addr, data),
    ;
}

} // verus!
