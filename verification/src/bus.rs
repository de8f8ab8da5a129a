//! The shared address bus. A registry of memory-mapped devices: on a read it
//! polls the devices in registration order and returns the first datum (or 0
//! when nobody claims the address); on a write it broadcasts to every device,
//! each filtering by its own window.

use vstd::prelude::*;
use crate::cartridge::Cartridge;
use crate::mappers::Mapper;
use crate::cartridge::CartView;
use crate::cartridge::cart_cpu_read;
use crate::ppu::Ppu;
use crate::ppu::PpuView;
use crate::ppu::ppu_reg_read;
use crate::ppu::ppu_reg_write;
use crate::ppu::ppu_tick;
use crate::ppu::ppu_wf;
use crate::ram::Ram;
use crate::ram::ram_read;
use crate::ram::ram_write;

verus! {

/// The mathematical state of one bus device.
pub ghost enum DeviceView {
    Ram { mem: Seq<u8> },
    Ppu { ppu: PpuView },
    Cart { cart: CartView },
}

/// The per-device invariant.
pub open spec fn view_wf(d: DeviceView) -> bool {
    match d {
        DeviceView::Ram { mem } => mem.len() == 0x800,
        DeviceView::Ppu { ppu } => ppu_wf(ppu),
        DeviceView::Cart { cart } => true,
    }
}

/// What one device answers to a read: its datum when `addr` lies in its
/// window, "not mine" otherwise.
pub open spec fn view_read(d: DeviceView, addr: u16) -> Option<u8> {
    match d {
        DeviceView::Ram { mem } => ram_read(mem, addr),
        DeviceView::Ppu { ppu } => ppu_reg_read(ppu, addr),
        DeviceView::Cart { cart } => cart_cpu_read(cart, addr),
    }
}

/// One device after a write: it applies the write iff `addr` lies in its
/// window, and is unchanged otherwise (cartridge ROM ignores CPU writes).
pub open spec fn view_write(d: DeviceView, addr: u16, data: u8) -> DeviceView {
    match d {
        DeviceView::Ram { mem } => DeviceView::Ram { mem: ram_write(mem, addr, data) },
        DeviceView::Ppu { ppu } => DeviceView::Ppu { ppu: ppu_reg_write(ppu, addr, data) },
        DeviceView::Cart { cart } => DeviceView::Cart { cart },
    }
}

/// The contract of every memory-mapped component on the bus.
pub trait BusDevice: Sized {
    /// The device's mathematical state.
    spec fn dev_view(&self) -> DeviceView;

    fn read(&self, addr: u16) -> (r: Option<u8>)
        requires
            view_wf(self.dev_view()),
        ensures
            r == view_read(self.dev_view(), addr),
    ;

    fn write(&mut self, addr: u16, data: u8)
        requires
            view_wf(old(self).dev_view()),
        ensures
            view_wf(final(self).dev_view()),
            final(self).dev_view() == view_write(old(self).dev_view(), addr, data),
    ;
}

impl BusDevice for Ram {
    open spec fn dev_view(&self) -> DeviceView {
        DeviceView::Ram { mem: self.memory@ }
    }

    fn read(&self, addr: u16) -> (r: Option<u8>) {
        if addr < 0x2000 {
            Some(self.memory[(addr % 0x800) as usize])
        } else {
            None
        }
    }

    fn write(&mut self, addr: u16, data: u8) {
        if addr < 0x2000 {
            self.memory[(addr % 0x800) as usize] = data;
        }
    }
}

impl BusDevice for Ppu {
    open spec fn dev_view(&self) -> DeviceView {
        DeviceView::Ppu { ppu: self.view() }
    }

    fn read(&self, addr: u16) -> (r: Option<u8>) {
        if 0x2000 <= addr && addr < 0x4000 {
            Some(self.memory[(addr % 8) as usize])
        } else {
            None
        }
    }

    fn write(&mut self, addr: u16, data: u8) {
        if 0x2000 <= addr && addr < 0x4000 {
            self.memory[(addr % 8) as usize] = data;
        }
    }
}

impl BusDevice for Cartridge {
    open spec fn dev_view(&self) -> DeviceView {
        DeviceView::Cart { cart: self.view() }
    }

    fn read(&self, addr: u16) -> (r: Option<u8>) {
        if addr >= 0x8000 {
            match self.mapper.read(addr) {
                Some(a) => {
                    if (a as usize) < self.prg_mem.len() {
                        Some(self.prg_mem[a as usize])
                    } else {
                        None
                    }
                },
                None => None,
            }
        } else {
            None
        }
    }

    fn write(&mut self, addr: u16, data: u8) {
    }
}

/// One registered bus device.
pub enum Device {
    Ram(Ram),
    Ppu(Ppu),
    Cartridge(Cartridge),
}

impl BusDevice for Device {
    open spec fn dev_view(&self) -> DeviceView {
        match self {
            Device::Ram(ram) => ram.dev_view(),
            Device::Ppu(ppu) => ppu.dev_view(),
            Device::Cartridge(cart) => cart.dev_view(),
        }
    }

    fn read(&self, addr: u16) -> (r: Option<u8>) {
        match self {
            Device::Ram(ram) => ram.read(addr),
            Device::Ppu(ppu) => ppu.read(addr),
            Device::Cartridge(cart) => cart.read(addr),
        }
    }

    fn write(&mut self, addr: u16, data: u8) {
        match self {
            Device::Ram(ram) => ram.write(addr, data),
            Device::Ppu(ppu) => ppu.write(addr, data),
            Device::Cartridge(cart) => cart.write(addr, data),
        }
    }
}


/// Every PPU on the bus advanced one tick; all other devices unchanged.
pub open spec fn ppu_tick_all(devs: Seq<DeviceView>) -> Seq<DeviceView> {
    devs.map_values(
        |d: DeviceView|
            match d {
                DeviceView::Ppu { ppu } => DeviceView::Ppu { ppu: ppu_tick(ppu) },
                other => other,
            },
    )
}

impl Device {
    /// Advances the device one PPU tick if it is the PPU; a no-op otherwise.
    fn tick_ppu(&mut self)
        requires
            view_wf(old(self).dev_view()),
        ensures
            view_wf(final(self).dev_view()),
            final(self).dev_view() == (match old(self).dev_view() {
                DeviceView::Ppu { ppu } => DeviceView::Ppu { ppu: ppu_tick(ppu) },
                other => other,
            }),
    {
        match self {
            Device::Ppu(p) => {
                p.clock();
            },
            _ => {},
        }
    }
}

/// Every registered device is well formed.
pub open spec fn bus_wf(devs: Seq<DeviceView>) -> bool {
    forall|i: int| 0 <= i < devs.len() ==> view_wf(#[trigger] devs[i])
}

/// What the bus answers to a read: the devices are polled in registration
/// order and the first datum wins; an unclaimed address reads as 0.
pub open spec fn bus_read(devs: Seq<DeviceView>, addr: u16) -> u8
    decreases devs.len(),
{
    if devs.len() == 0 {
        0
    } else {
        match view_read(devs[0], addr) {
            Some(v) => v,
            None => bus_read(devs.skip(1), addr),
        }
    }
}

/// The bus after a write: it is delivered to every device exactly once.
pub open spec fn bus_write(devs: Seq<DeviceView>, addr: u16, data: u8) -> Seq<DeviceView> {
    devs.map_values(|d: DeviceView| view_write(d, addr, data))
}

/// When the first `i` devices do not claim `addr`, the bus answer is decided
/// by the rest.
pub proof fn lemma_bus_read_skip(devs: Seq<DeviceView>, addr: u16, i: int)
    requires
        0 <= i <= devs.len(),
        forall|j: int| 0 <= j < i ==> view_read(#[trigger] devs[j], addr) is None,
    ensures
        bus_read(devs, addr) == bus_read(devs.skip(i), addr),
    decreases i,
{
    if i > 0 {
        assert(view_read(devs[0], addr) is None);
        lemma_bus_read_skip(devs.skip(1), addr, i - 1);
        assert(devs.skip(1).skip(i - 1) =~= devs.skip(i));
    } else {
        assert(devs.skip(0) =~= devs);
    }
}

pub struct Bus {
    pub devices: Vec<Device>,
}

impl View for Bus {
    type V = Seq<DeviceView>;

    open spec fn view(&self) -> Seq<DeviceView> {
        self.devices@.map_values(|d: Device| d.dev_view())
    }
}

impl Bus {
    pub fn new() -> (b: Bus)
        ensures
            b@ =~= Seq::<DeviceView>::empty(),
            bus_wf(b@),
    {
        Bus { devices: Vec::new() }
    }

    /// Registers a device; registration order is significant for reads.
    pub fn connect(&mut self, dev: Device)
        requires
            bus_wf(old(self)@),
            view_wf(dev.dev_view()),
        ensures
            bus_wf(final(self)@),
            final(self)@ == old(self)@.push(dev.dev_view()),
    {
        let ghost v = dev.dev_view();
        self.devices.push(dev);
        assert(self@ =~= old(self)@.push(v));
    }

    /// Polls the devices in registration order and returns the first datum;
    /// 0 when no device claims the address.
    pub fn read(&self, addr: u16) -> (r: u8)
        requires
            bus_wf(self@),
        ensures
            r == bus_read(self@, addr),
    {
        let n = self.devices.len();
        let mut i: usize = 0;
        while i < n
            invariant
                n == self.devices.len(),
                i <= n,
                bus_wf(self@),
                forall|j: int| 0 <= j < i ==> view_read(#[trigger] self@[j], addr) is None,
            decreases n - i,
        {
            assert(self@[i as int] == self.devices@[i as int].dev_view());
            match self.devices[i].read(addr) {
                Some(v) => {
                    proof {
                        lemma_bus_read_skip(self@, addr, i as int);
                        assert(self@.skip(i as int)[0] == self@[i as int]);
                    }
                    return v;
                },
                None => {
                },
            }
            i = i + 1;
        }
        proof {
            lemma_bus_read_skip(self@, addr, n as int);
            assert(self@.skip(n as int) =~= Seq::<DeviceView>::empty());
        }
        0
    }

    /// Delivers the write to every registered device exactly once, in
    /// registration order; each device filters by its own window.
    pub fn write(&mut self, addr: u16, data: u8)
        requires
            bus_wf(old(self)@),
        ensures
            bus_wf(final(self)@),
            final(self)@ == bus_write(old(self)@, addr, data),
    {
        let n = self.devices.len();
        let mut i: usize = 0;
        while i < n
            invariant
                n == self.devices.len(),
                i <= n,
                old(self)@.len() == n,
                self@.len() == n,
                bus_wf(self@),
                forall|j: int| i <= j < n ==> self@[j] == old(self)@[j],
                forall|j: int| 0 <= j < i ==> self@[j] == view_write(#[trigger] old(self)@[j], addr, data),
            decreases n - i,
        {
            let ghost prev = self@;
            assert(self@[i as int] == self.devices@[i as int].dev_view());
            self.devices[i].write(addr, data);
            proof {
                assert(self@ =~= prev.update(
                    i as int,
                    view_write(old(self)@[i as int], addr, data),
                ));
            }
            i = i + 1;
        }
        assert(self@ =~= bus_write(old(self)@, addr, data));
    }

    /// Advances every PPU on the bus by one tick.
    pub fn clock_ppu(&mut self)
        requires
            bus_wf(old(self)@),
        ensures
            bus_wf(final(self)@),
            final(self)@ == ppu_tick_all(old(self)@),
    {
        let n = self.devices.len();
        let mut i: usize = 0;
        while i < n
            invariant
                n == self.devices.len(),
                i <= n,
                old(self)@.len() == n,
                self@.len() == n,
                bus_wf(self@),
                forall|j: int| i <= j < n ==> self@[j] == old(self)@[j],
                forall|j: int|
                    0 <= j < i ==> self@[j] == (match #[trigger] old(self)@[j] {
                        DeviceView::Ppu { ppu } => DeviceView::Ppu { ppu: ppu_tick(ppu) },
                        other => other,
                    }),
            decreases n - i,
        {
            let ghost prev = self@;
            assert(self@[i as int] == self.devices@[i as int].dev_view());
            self.devices[i].tick_ppu();
            proof {
                assert(self@ =~= prev.update(i as int, self.devices@[i as int].dev_view()));
            }
            i = i + 1;
        }
        assert(self@ =~= ppu_tick_all(old(self)@));
    }
}

} // verus!
