//! The picture processing unit, as the CPU core sees it: an 8-byte register
//! file mirrored across the window `0x2000..0x4000`, plus the frame state the
//! shell advances at three PPU ticks per CPU tick. The register semantics are
//! outside the core's responsibility; reads and writes in the window reach
//! the register file unmodified.

use vstd::prelude::*;

verus! {

/// Pixels of one frame: 256 x 240.
pub const IMAGE_SIZE: usize = 256 * 240;

/// Number of colours of the fixed NES palette.
pub const PAL_SIZE: usize = 64;

/// The mathematical state of the PPU.
pub ghost struct PpuView {
    pub regs: Seq<u8>,
    pub pal: Seq<(u8, u8, u8)>,
    pub image: Seq<(u8, u8, u8)>,
    pub scanline: int,
    pub cycle: int,
    pub frame_complete: bool,
}

/// The fixed 64-colour NES palette.
pub open spec fn nes_palette() -> Seq<(u8, u8, u8)> {
    seq![
        (84,84,84), (0,30,116), (8,16,144), (48,0,136),
        (68,0,100), (92,0,48), (84,4,0), (60,24,0),
        (32,42,0), (8,58,0), (0,64,0), (0,60,0),
        (0,50,60), (0,0,0), (0,0,0), (0,0,0),
        (152,150,152), (8,76,196), (48,50,236), (92,30,228),
        (136,20,176), (160,20,100), (152,34,32), (120,60,0),
        (84,90,0), (40,114,0), (8,124,0), (0,118,40),
        (0,102,120), (0,0,0), (0,0,0), (0,0,0),
        (236,238,236), (76,154,236), (120,124,236), (176,98,236),
        (228,84,236), (236,88,180), (236,106,100), (212,136,32),
        (160,170,0), (116,196,0), (76,208,32), (56,204,108),
        (56,180,204), (60,60,60), (0,0,0), (0,0,0),
        (236,238,236), (168,204,236), (188,188,236), (212,178,236),
        (236,174,236), (236,174,212), (236,180,176), (228,196,144),
        (204,210,120), (180,222,120), (168,226,144), (152,226,180),
        (160,214,228), (160,162,160), (0,0,0), (0,0,0),
    ]
}

/// What a PPU register read of `addr` returns: the mirrored register for
/// addresses in the window, "not mine" outside it.
pub open spec fn ppu_reg_read(p: PpuView, addr: u16) -> Option<u8> {
    if 0x2000 <= addr && addr < 0x4000 {
        Some(p.regs[addr as int % 8])
    } else {
        None
    }
}

/// PPU state after a register write: the mirrored register is replaced for
/// addresses in the window, nothing changes outside it.
pub open spec fn ppu_reg_write(p: PpuView, addr: u16, data: u8) -> PpuView {
    if 0x2000 <= addr && addr < 0x4000 {
        PpuView { regs: p.regs.update(addr as int % 8, data), ..p }
    } else {
        p
    }
}

/// One pixel written into the frame buffer, when the beam is in the visible
/// region; writes that fall outside the buffer are dropped.
pub open spec fn ppu_set_pixel(p: PpuView, colour: u8) -> PpuView {
    if p.scanline >= 0 && p.cycle > 0 && p.cycle * 256 + p.scanline < p.image.len() {
        PpuView { image: p.image.update(p.cycle * 256 + p.scanline, p.pal[colour as int]), ..p }
    } else {
        p
    }
}

/// One PPU tick: a pixel is emitted, then the beam advances; 341 cycles per
/// scanline, scanlines -1 through 260, and the frame-complete latch is set
/// when the beam wraps back to the pre-render line.
pub open spec fn ppu_tick(p: PpuView) -> PpuView {
    let q = ppu_set_pixel(p, 0x30);
    if q.cycle + 1 >= 341 {
        if q.scanline + 1 >= 261 {
            PpuView { cycle: 0, scanline: -1, frame_complete: true, ..q }
        } else {
            PpuView { cycle: 0, scanline: q.scanline + 1, ..q }
        }
    } else {
        PpuView { cycle: q.cycle + 1, ..q }
    }
}

/// The PPU invariant: fixed-size register file, palette and frame buffer,
/// and a beam position inside one frame.
pub open spec fn ppu_wf(p: PpuView) -> bool {
    &&& p.regs.len() == 8
    &&& p.pal.len() == PAL_SIZE
    &&& p.pal == nes_palette()
    &&& p.image.len() == IMAGE_SIZE
    &&& 0 <= p.cycle <= 340
    &&& -1 <= p.scanline <= 260
}

/// The PPU state right after construction.
pub open spec fn ppu_init() -> PpuView {
    PpuView {
        regs: Seq::new(8, |i: int| 0xffu8),
        pal: nes_palette(),
        image: Seq::new(IMAGE_SIZE as nat, |i: int| (0u8, 0u8, 0u8)),
        scanline: -1,
        cycle: 0,
        frame_complete: false,
    }
}

pub struct Ppu {
    pub memory: Vec<u8>,
    pub pal: Vec<(u8, u8, u8)>,
    pub image: Vec<(u8, u8, u8)>,
    pub scanline: i32,
    pub cycle: i32,
    pub frame_complete: bool,
}

impl Ppu {
    pub open spec fn view(&self) -> PpuView {
        PpuView {
            regs: self.memory@,
            pal: self.pal@,
            image: self.image@,
            scanline: self.scanline as int,
            cycle: self.cycle as int,
            frame_complete: self.frame_complete,
        }
    }

    pub fn new() -> (p: Ppu)
        ensures
            ppu_wf(p.view()),
            p.view() == ppu_init(),
    {
        let mut memory: Vec<u8> = Vec::new();
        let mut i: usize = 0;
        while i < 8
            invariant
                i == memory@.len(),
                i <= 8,
                forall|j: int| 0 <= j < i ==> memory@[j] == 0xffu8,
            decreases 8 - i,
        {
            memory.push(0xff);
            i = i + 1;
        }
        let mut image: Vec<(u8, u8, u8)> = Vec::new();
        let mut k: usize = 0;
        while k < IMAGE_SIZE
            invariant
                k == image@.len(),
                k <= IMAGE_SIZE,
                forall|j: int| 0 <= j < k ==> image@[j] == (0u8, 0u8, 0u8),
            decreases IMAGE_SIZE - k,
        {
            image.push((0, 0, 0));
            k = k + 1;
        }
        let p = Ppu {
            memory,
            pal: Self::get_pal(),
            image,
            scanline: -1,
            cycle: 0,
            frame_complete: false,
        };
        assert(p.view().regs =~= ppu_init().regs);
        assert(p.view().image =~= ppu_init().image);
        p
    }

    /// One PPU tick, as `ppu_tick` describes.
    pub fn clock(&mut self)
        requires
            ppu_wf(old(self).view()),
        ensures
            ppu_wf(final(self).view()),
            final(self).view() == ppu_tick(old(self).view()),
    {
        self.set_pixel(0x30);

        self.cycle = self.cycle + 1;

        if self.cycle >= 341 {
            self.cycle = 0;
            self.scanline = self.scanline + 1;
            if self.scanline >= 261 {
                self.scanline = -1;
                self.frame_complete = true;
            }
        }
    }

    fn set_pixel(&mut self, colour: u8)
        requires
            ppu_wf(old(self).view()),
            colour < PAL_SIZE,
        ensures
            ppu_wf(final(self).view()),
            final(self).view() == ppu_set_pixel(old(self).view(), colour),
    {
        if self.scanline >= 0 && self.cycle > 0 {
            let idx: usize = (self.cycle as usize) * 256 + (self.scanline as usize);
            if idx < self.image.len() {
                self.image[idx] = self.pal[colour as usize];
            }
        }
    }

    /// The fixed NES palette as concrete data, equal to `nes_palette`.
    #[verifier::rlimit(50)]
    pub fn get_pal() -> (v: Vec<(u8, u8, u8)>)
        ensures
            v@ == nes_palette(),
            v@.len() == PAL_SIZE,
    {
        let mut v: Vec<(u8, u8, u8)> = Vec::new();
        v.push((84,84,84));
        v.push((0,30,116));
        v.push((8,16,144));
        v.push((48,0,136));
        v.push((68,0,100));
        v.push((92,0,48));
        v.push((84,4,0));
        v.push((60,24,0));
        v.push((32,42,0));
        v.push((8,58,0));
        v.push((0,64,0));
        v.push((0,60,0));
        v.push((0,50,60));
        v.push((0,0,0));
        v.push((0,0,0));
        v.push((0,0,0));
        v.push((152,150,152));
        v.push((8,76,196));
        v.push((48,50,236));
        v.push((92,30,228));
        v.push((136,20,176));
        v.push((160,20,100));
        v.push((152,34,32));
        v.push((120,60,0));
        v.push((84,90,0));
        v.push((40,114,0));
        v.push((8,124,0));
        v.push((0,118,40));
        v.push((0,102,120));
        v.push((0,0,0));
        v.push((0,0,0));
        v.push((0,0,0));
        v.push((236,238,236));
        v.push((76,154,236));
        v.push((120,124,236));
        v.push((176,98,236));
        v.push((228,84,236));
        v.push((236,88,180));
        v.push((236,106,100));
        v.push((212,136,32));
        v.push((160,170,0));
        v.push((116,196,0));
        v.push((76,208,32));
        v.push((56,204,108));
        v.push((56,180,204));
        v.push((60,60,60));
        v.push((0,0,0));
        v.push((0,0,0));
        v.push((236,238,236));
        v.push((168,204,236));
        v.push((188,188,236));
        v.push((212,178,236));
        v.push((236,174,236));
        v.push((236,174,212));
        v.push((236,180,176));
        v.push((228,196,144));
        v.push((204,210,120));
        v.push((180,222,120));
        v.push((168,226,144));
        v.push((152,226,180));
        v.push((160,214,228));
        v.push((160,162,160));
        v.push((0,0,0));
        v.push((0,0,0));
        assert(v@ =~= nes_palette());
        v
    }
}

} // verus!
