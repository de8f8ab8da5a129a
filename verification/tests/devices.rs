use nes_core::bus::Bus;
use nes_core::bus::BusDevice;
use nes_core::bus::Device;
use nes_core::cartridge::Cartridge;
use nes_core::cartridge::CartridgeError;
use nes_core::mappers::Mapper;
use nes_core::mappers::mapper0::Mapper0;
use nes_core::nes::Nes;
use nes_core::ppu::Ppu;
use nes_core::ram::Ram;

/// An iNES image: the 16-byte header, then the PRG and CHR payload.
fn ines_bytes(prg_chunks: u8, chr_chunks: u8, flags6: u8, payload: &[u8]) -> Vec<u8> {
    let mut file = vec![0x4e, 0x45, 0x53, 0x1a, prg_chunks, chr_chunks, flags6, 0, 0, 0, 0, 0, 0, 0, 0, 0];
    file.extend_from_slice(payload);
    file
}

#[test]
fn unmapped_read_returns_zero() {
    let bus = Bus::new();
    assert_eq!(bus.read(0x1234), 0);
    let mut with_ram = Bus::new();
    with_ram.connect(Device::Ram(Ram::new()));
    // nothing claims 0x5000
    assert_eq!(with_ram.read(0x5000), 0);
}

#[test]
fn ram_mirrors_every_two_kib() {
    let mut bus = Bus::new();
    bus.connect(Device::Ram(Ram::new()));
    bus.write(0x0001, 0xab);
    assert_eq!(bus.read(0x0001), 0xab);
    assert_eq!(bus.read(0x0801), 0xab);
    assert_eq!(bus.read(0x1801), 0xab);
    bus.write(0x1002, 0xcd);
    assert_eq!(bus.read(0x0002), 0xcd);
}

#[test]
fn write_broadcasts_to_every_device() {
    // Two RAMs registered: one write lands in both; the read is answered by
    // the first in registration order.
    let mut bus = Bus::new();
    bus.connect(Device::Ram(Ram::new()));
    bus.connect(Device::Ram(Ram::new()));
    bus.write(0x0005, 0x77);
    assert_eq!(bus.read(0x0005), 0x77);
    for dev in &bus.devices {
        match dev {
            Device::Ram(ram) => assert_eq!(ram.memory[0x0005], 0x77),
            _ => panic!("only RAMs were registered"),
        }
    }
}

#[test]
fn ppu_registers_mirror_every_eight() {
    let mut bus = Bus::new();
    bus.connect(Device::Ppu(Ppu::new()));
    bus.write(0x2002, 0x3c);
    assert_eq!(bus.read(0x2002), 0x3c);
    assert_eq!(bus.read(0x200a), 0x3c);
    assert_eq!(bus.read(0x3ffa), 0x3c);
    // below and above the window the PPU stays silent
    assert_eq!(bus.read(0x1002), 0);
    assert_eq!(bus.read(0x4002), 0);
}

#[test]
fn ppu_beam_advances() {
    let mut ppu = Ppu::new();
    assert_eq!(ppu.cycle, 0);
    assert_eq!(ppu.scanline, -1);
    ppu.clock();
    assert_eq!(ppu.cycle, 1);
    for _ in 0..340 {
        ppu.clock();
    }
    assert_eq!(ppu.cycle, 0);
    assert_eq!(ppu.scanline, 0);
    assert!(!ppu.frame_complete);
}

#[test]
fn ppu_frame_completes() {
    let mut ppu = Ppu::new();
    for _ in 0..341 * 262 {
        ppu.clock();
    }
    assert!(ppu.frame_complete);
    assert_eq!(ppu.scanline, -1);
}

#[test]
fn nes_clocks_ppu_three_times_per_cpu_clock() {
    let mut nes = Nes::new();
    nes.clock();
    let mut seen = false;
    for dev in &nes.bus.devices {
        if let Device::Ppu(ppu) = dev {
            assert_eq!(ppu.cycle, 3);
            seen = true;
        }
    }
    assert!(seen);
}

#[test]
fn palette_has_the_hardware_colours() {
    let pal = Ppu::get_pal();
    assert_eq!(pal.len(), 64);
    assert_eq!(pal[0], (84, 84, 84));
    assert_eq!(pal[0x30], (236, 238, 236));
    assert_eq!(pal[63], (0, 0, 0));
}

#[test]
fn mapper0_masks_by_bank_count() {
    let one = Mapper0::new(1);
    assert_eq!(one.mask, 0x3fff);
    let two = Mapper0::new(2);
    assert_eq!(two.mask, 0x7fff);
    assert_eq!(one.read(0x8000), Some(0x0000));
    assert_eq!(one.read(0xc005), Some(0x0005));
    assert_eq!(two.read(0xc005), Some(0x4005));
    assert_eq!(one.read(0x7fff), None);
    assert_eq!(one.write(0x9000, 1), Some(0x1000));
}

#[test]
fn cartridge_rejects_short_file() {
    assert!(matches!(
        Cartridge::from_bytes(&vec![0x4e, 0x45, 0x53]),
        Err(CartridgeError::MalformedHeader)
    ));
}

#[test]
fn cartridge_rejects_bad_magic() {
    let mut file = ines_bytes(1, 0, 0, &[]);
    file[3] = 0x00;
    assert!(matches!(Cartridge::from_bytes(&file), Err(CartridgeError::MalformedHeader)));
}

#[test]
fn cartridge_rejects_unknown_mapper() {
    // flags 6 = 0x10 encodes mapper 1
    let file = ines_bytes(1, 0, 0x10, &[]);
    assert!(matches!(
        Cartridge::from_bytes(&file),
        Err(CartridgeError::UnknownMapper { mapper_id: 1 })
    ));
}

#[test]
fn cartridge_slices_and_pads_prg() {
    let file = ines_bytes(1, 1, 0, &[0xaa, 0xbb]);
    let cart = Cartridge::from_bytes(&file).unwrap();
    assert_eq!(cart.prg_mem.len(), 0x4000);
    assert_eq!(cart.prg_mem[0], 0xaa);
    assert_eq!(cart.prg_mem[1], 0xbb);
    assert_eq!(cart.prg_mem[2], 0x00);
    // the file ended before the CHR section: all padded
    assert_eq!(cart.chr_mem.len(), 0x2000);
    assert_eq!(cart.chr_mem[0], 0x00);
    assert_eq!(cart.header.prg_rom_chunks, 1);
    assert_eq!(cart.header.chr_rom_chunks, 1);
    assert_eq!(cart.header.mapper_id, 0);
}

#[test]
fn cartridge_skips_trainer() {
    // flags 6 bit 2: a 512-byte trainer sits between header and PRG data
    let mut payload = vec![0u8; 512];
    payload.push(0xee);
    let file = ines_bytes(1, 0, 0x04, &payload);
    let cart = Cartridge::from_bytes(&file).unwrap();
    assert_eq!(cart.prg_mem[0], 0xee);
}

#[test]
fn cartridge_answers_cpu_window_only() {
    let mut body = vec![0u8; 0x4000];
    body[0] = 0x11;
    body[0x3fff] = 0x22;
    let file = ines_bytes(1, 0, 0, &body);
    let cart = Cartridge::from_bytes(&file).unwrap();
    let mut bus = Bus::new();
    bus.connect(Device::Ram(Ram::new()));
    bus.connect(Device::Cartridge(cart));
    assert_eq!(bus.read(0x8000), 0x11);
    assert_eq!(bus.read(0xc000), 0x11);
    assert_eq!(bus.read(0xffff), 0x22);
    // CPU writes into the ROM window are ignored
    bus.write(0x8000, 0x99);
    assert_eq!(bus.read(0x8000), 0x11);
}

#[test]
fn cartridge_chr_reads() {
    let mut payload = vec![0u8; 0x4000];
    payload.push(0x42);
    payload.resize(0x4000 + 0x2000, 0);
    let file = ines_bytes(1, 1, 0, &payload);
    let cart = Cartridge::from_bytes(&file).unwrap();
    assert_eq!(cart.ppu_read(0x0000), Some(0x42));
    assert_eq!(cart.ppu_read(0x1fff), Some(0x00));
    // beyond CHR-ROM nothing answers
    assert_eq!(cart.ppu_read(0x2000), None);
}

#[test]
fn registration_order_decides_reads() {
    // Two RAMs with different contents in the same window: the first
    // registered answers.
    let mut first = Ram::new();
    let mut second = Ram::new();
    first.write(0x0007, 0x01);
    second.write(0x0007, 0x02);
    let mut bus = Bus::new();
    bus.connect(Device::Ram(first));
    bus.connect(Device::Ram(second));
    assert_eq!(bus.read(0x0007), 0x01);
}
