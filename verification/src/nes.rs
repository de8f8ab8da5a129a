//! The console shell: it owns the bus, the CPU, the internal RAM, the PPU
//! and the cartridge, wires them together, and exposes `reset` and `clock`.
//! The PPU is clocked three times per CPU clock.

use vstd::prelude::*;
use crate::bus::Bus;
use crate::bus::Device;
use crate::bus::DeviceView;
use crate::bus::bus_wf;
use crate::bus::ppu_tick_all;
use crate::cartridge::Cartridge;
use crate::model::cpu_clock_spec;
use crate::model::reset_spec;
use crate::mos6502::Cpu;
use crate::ppu::Ppu;
use crate::ppu::ppu_init;
use crate::ram::RAM_SIZE;
use crate::ram::Ram;

verus! {

pub struct Nes {
    pub cpu: Cpu,
    pub bus: Bus,
}

/// One console tick: one CPU cycle, then three PPU ticks.
pub open spec fn nes_clock_spec(cpu: Cpu, devs: Seq<DeviceView>) -> (Cpu, Seq<DeviceView>) {
    let s = cpu_clock_spec(cpu, devs);
    (s.0, ppu_tick_all(ppu_tick_all(ppu_tick_all(s.1))))
}

impl Nes {
    /// A console with its RAM and PPU on the bus, in that registration
    /// order, and a freshly constructed CPU.
    pub fn new() -> (n: Nes)
        ensures
            bus_wf(n.bus@),
            n.cpu == (Cpu { a: 0, x: 0, y: 0, pc: 0, sp: 0xfd, status: 0, wait: 0 }),
            n.bus@.len() == 2,
            n.bus@[0] == (DeviceView::Ram { mem: Seq::new(RAM_SIZE as nat, |i: int| 0u8) }),
            n.bus@[1] == (DeviceView::Ppu { ppu: ppu_init() }),
    {
        let mut bus = Bus::new();
        bus.connect(Device::Ram(Ram::new()));
        bus.connect(Device::Ppu(Ppu::new()));
        Nes { cpu: Cpu::new(), bus }
    }

    /// Registers the cartridge on the bus, after RAM and PPU.
    pub fn insert(&mut self, cartridge: Cartridge)
        requires
            bus_wf(old(self).bus@),
        ensures
            bus_wf(final(self).bus@),
            final(self).bus@ == old(self).bus@.push(
                DeviceView::Cart { cart: cartridge.view() },
            ),
            final(self).cpu == old(self).cpu,
    {
        self.bus.connect(Device::Cartridge(cartridge));
    }

    /// One console tick: the CPU advances one machine cycle and the PPU
    /// advances three.
    pub fn clock(&mut self)
        requires
            bus_wf(old(self).bus@),
        ensures
            bus_wf(final(self).bus@),
            final(self).cpu == nes_clock_spec(old(self).cpu, old(self).bus@).0,
            final(self).bus@ == nes_clock_spec(old(self).cpu, old(self).bus@).1,
    {
        self.cpu.clock(&mut self.bus);
        self.bus.clock_ppu();
        self.bus.clock_ppu();
        self.bus.clock_ppu();
    }

    /// Resets the CPU through the reset vector; the bus is only read.
    pub fn reset(&mut self)
        requires
            bus_wf(old(self).bus@),
        ensures
            bus_wf(final(self).bus@),
            final(self).bus@ == old(self).bus@,
            final(self).cpu == reset_spec(old(self).cpu, old(self).bus@),
    {
        self.cpu.reset(&self.bus);
    }
}

} // verus!
