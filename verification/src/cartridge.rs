//! The cartridge: an iNES image split into PRG-ROM and CHR-ROM, reached
//! through a mapper. On the CPU bus it claims `0x8000..=0xFFFF` for reads;
//! writes in that range are ignored by mapper 0.

use vstd::prelude::*;
use crate::mappers::Mapper;
use crate::mappers::mapper0::Mapper0;
use crate::mappers::mapper0::nrom_mask;

verus! {

/// The mathematical state of a cartridge: its two memories and the NROM
/// address mask.
pub ghost struct CartView {
    pub prg: Seq<u8>,
    pub chr: Seq<u8>,
    pub mask: u16,
}

/// What a CPU read of `addr` returns from the cartridge: for addresses in
/// `0x8000..=0xFFFF` the mapper masks the address down to a PRG-ROM index;
/// an index beyond the ROM, or an address below the window, is "not mine".
pub open spec fn cart_cpu_read(c: CartView, addr: u16) -> Option<u8> {
    if addr >= 0x8000 {
        let idx = addr & c.mask;
        if idx < c.prg.len() {
            Some(c.prg[idx as int])
        } else {
            None
        }
    } else {
        None
    }
}

/// What a PPU read of `addr` returns from CHR-ROM (mapper 0 maps it
/// unchanged).
pub open spec fn cart_ppu_read(c: CartView, addr: u16) -> Option<u8> {
    if addr < c.chr.len() {
        Some(c.chr[addr as int])
    } else {
        None
    }
}

/// Whether `file` starts with a well-formed iNES header: at least 16 bytes,
/// beginning with the ASCII bytes `NES` followed by `0x1A`.
pub open spec fn ines_valid(file: Seq<u8>) -> bool {
    &&& file.len() >= 16
    &&& file[0] == 0x4eu8
    &&& file[1] == 0x45u8
    &&& file[2] == 0x53u8
    &&& file[3] == 0x1au8
}

/// The mapper ID encoded in the two flags bytes of the header.
pub open spec fn ines_mapper_id(file: Seq<u8>) -> u8 {
    (file[7] & 0xf0) | (file[6] >> 4)
}

/// Whether the image carries a 512-byte trainer between header and PRG data.
pub open spec fn ines_trainer(file: Seq<u8>) -> bool {
    file[6] & 0x04 != 0
}

/// Where the PRG data starts in the image.
pub open spec fn ines_prg_start(file: Seq<u8>) -> int {
    if ines_trainer(file) {
        528int
    } else {
        16int
    }
}

/// `size` bytes of `file` starting at `start`, zero-padded where the file
/// ends early.
pub open spec fn padded_slice(file: Seq<u8>, start: int, size: int) -> Seq<u8> {
    Seq::new(size as nat, |i: int| if start + i < file.len() { file[start + i] } else { 0u8 })
}

/// Why an iNES image was rejected.
#[derive(Clone, Copy, PartialEq, Eq, Structural, Debug)]
pub enum CartridgeError {
    /// The image is shorter than a header or does not begin with `NES<0x1A>`.
    MalformedHeader,
    /// The image names a mapper this core does not implement.
    UnknownMapper { mapper_id: u8 },
}

/// The parsed iNES header fields.
#[derive(Clone, Copy, PartialEq, Eq, Structural, Debug)]
pub struct Header {
    pub prg_rom_chunks: u8,
    pub chr_rom_chunks: u8,
    pub mapper1: u8,
    pub mapper2: u8,
    pub prg_ram_size: u8,
    pub tv_system1: u8,
    pub tv_system2: u8,
    pub mapper_id: u8,
}

pub struct Cartridge {
    pub header: Header,
    pub mapper: Mapper0,
    pub prg_mem: Vec<u8>,
    pub chr_mem: Vec<u8>,
}

/// `size` bytes of `file` from `start` on, zero-padded past the end of the
/// file.
fn copy_padded(file: &Vec<u8>, start: usize, size: usize) -> (v: Vec<u8>)
    requires
        start + size <= usize::MAX,
    ensures
        v@ == padded_slice(file@, start as int, size as int),
{
    let mut v: Vec<u8> = Vec::new();
    let mut i: usize = 0;
    while i < size
        invariant
            i <= size,
            i == v@.len(),
            start + size <= usize::MAX,
            forall|j: int| 0 <= j < i ==> v@[j] == padded_slice(file@, start as int, size as int)[j],
        decreases size - i,
    {
        if start + i < file.len() {
            v.push(file[start + i]);
        } else {
            v.push(0);
        }
        i = i + 1;
    }
    assert(v@ =~= padded_slice(file@, start as int, size as int));
    v
}

impl Cartridge {
    pub open spec fn view(&self) -> CartView {
        CartView { prg: self.prg_mem@, chr: self.chr_mem@, mask: self.mapper.mask }
    }

    /// Builds a cartridge from an iNES image: validates the header, rejects
    /// unknown mappers, and slices PRG and CHR data out of the file,
    /// zero-padding short files to the sizes the header promises.
    pub fn from_bytes(file: &Vec<u8>) -> (r: Result<Cartridge, CartridgeError>)
        ensures
            r is Ok <==> ines_valid(file@) && ines_mapper_id(file@) == 0,
            !ines_valid(file@) ==> r == Result::<Cartridge, CartridgeError>::Err(
                CartridgeError::MalformedHeader,
            ),
            ines_valid(file@) && ines_mapper_id(file@) != 0 ==> r == Result::<
                Cartridge,
                CartridgeError,
            >::Err(CartridgeError::UnknownMapper { mapper_id: ines_mapper_id(file@) }),
            r is Ok ==> {
                let c = r->Ok_0;
                &&& c.header == (Header {
                    prg_rom_chunks: file@[4],
                    chr_rom_chunks: file@[5],
                    mapper1: file@[6],
                    mapper2: file@[7],
                    prg_ram_size: file@[8],
                    tv_system1: file@[9],
                    tv_system2: file@[10],
                    mapper_id: 0u8,
                })
                &&& c.mapper.mask == nrom_mask(file@[4])
                &&& c.prg_mem@ == padded_slice(
                    file@,
                    ines_prg_start(file@),
                    file@[4] * 0x4000,
                )
                &&& c.chr_mem@ == padded_slice(
                    file@,
                    ines_prg_start(file@) + file@[4] * 0x4000,
                    file@[5] * 0x2000,
                )
            },
    {
        if file.len() < 16 {
            return Err(CartridgeError::MalformedHeader);
        }
        if !(file[0] == 0x4e && file[1] == 0x45 && file[2] == 0x53 && file[3] == 0x1a) {
            return Err(CartridgeError::MalformedHeader);
        }
        let mapper_id: u8 = (file[7] & 0xf0) | (file[6] >> 4);
        if mapper_id != 0 {
            return Err(CartridgeError::UnknownMapper { mapper_id });
        }
        let header = Header {
            prg_rom_chunks: file[4],
            chr_rom_chunks: file[5],
            mapper1: file[6],
            mapper2: file[7],
            prg_ram_size: file[8],
            tv_system1: file[9],
            tv_system2: file[10],
            mapper_id,
        };
        let prg_size: usize = (header.prg_rom_chunks as usize) * 0x4000;
        let chr_size: usize = (header.chr_rom_chunks as usize) * 0x2000;
        let start: usize = if file[6] & 0x04 != 0 {
            16 + 512
        } else {
            16
        };
        let prg_mem = copy_padded(file, start, prg_size);
        let chr_mem = copy_padded(file, start + prg_size, chr_size);
        Ok(Cartridge { header, mapper: Mapper0::new(header.prg_rom_chunks), prg_mem, chr_mem })
    }

    /// A PPU-side read of CHR-ROM through the mapper.
    pub fn ppu_read(&self, addr: u16) -> (r: Option<u8>)
        ensures
            r == cart_ppu_read(self.view(), addr),
    {
        match self.mapper.ppu_read(addr) {
            Some(a) => {
                if (a as usize) < self.chr_mem.len() {
                    Some(self.chr_mem[a as usize])
                } else {
                    None
                }
            },
            None => None,
        }
    }

    /// A PPU-side write; mapper 0 has no CHR-RAM, so it changes nothing.
    pub fn ppu_write(&mut self, addr: u16, data: u8)
        ensures
            *final(self) == *old(self),
    {
        let _ = self.mapper.ppu_write(addr, data);
    }
}

} // verus!
