use nes_core::bus::Bus;
use nes_core::bus::Device;
use nes_core::cartridge::Cartridge;
use nes_core::mos6502::Cpu;
use nes_core::mos6502::FLAG_B;
use nes_core::mos6502::FLAG_C;
use nes_core::mos6502::FLAG_N;
use nes_core::mos6502::FLAG_U;
use nes_core::mos6502::FLAG_V;
use nes_core::mos6502::FLAG_Z;
use nes_core::nes::Nes;
use nes_core::ram::Ram;

/// A bus with only the internal RAM, and a CPU.
fn ram_machine() -> (Cpu, Bus) {
    let mut bus = Bus::new();
    bus.connect(Device::Ram(Ram::new()));
    (Cpu::new(), bus)
}

/// An iNES image with one 16 KiB PRG bank holding the given bytes at the
/// given PRG offsets.
fn prg_image(patches: &[(usize, u8)]) -> Vec<u8> {
    let mut file = vec![0x4e, 0x45, 0x53, 0x1a, 1, 0, 0, 0, 0, 0, 0, 0, 0, 0, 0, 0];
    file.resize(16 + 0x4000, 0);
    for &(off, b) in patches {
        file[16 + off] = b;
    }
    file
}

#[test]
fn reset_vector_loads_pc() {
    // With [0xFFFC] = 0x34 and [0xFFFD] = 0x12 (through the single mirrored
    // PRG bank), reset lands at 0x1234 with SP = 0xFD and 8 cycles charged.
    let file = prg_image(&[(0x3ffc, 0x34), (0x3ffd, 0x12)]);
    let cart = Cartridge::from_bytes(&file).unwrap();
    let mut nes = Nes::new();
    nes.insert(cart);
    nes.reset();
    assert_eq!(nes.cpu.pc, 0x1234);
    assert_eq!(nes.cpu.sp, 0xfd);
    assert_eq!(nes.cpu.wait, 8);
    assert_eq!(nes.cpu.status, FLAG_U);
}

#[test]
fn reset_is_idempotent() {
    let file = prg_image(&[(0x3ffc, 0x34), (0x3ffd, 0x12)]);
    let cart = Cartridge::from_bytes(&file).unwrap();
    let mut nes = Nes::new();
    nes.insert(cart);
    nes.reset();
    let once = nes.cpu;
    nes.reset();
    assert_eq!(nes.cpu, once);
}

#[test]
fn immediate_load_from_rom() {
    // At PC = 0x8000 the bytes A9 42 (LDA #$42) load 0x42 in 2 cycles.
    let file = prg_image(&[(0, 0xa9), (1, 0x42)]);
    let cart = Cartridge::from_bytes(&file).unwrap();
    let (mut cpu, mut bus) = ram_machine();
    bus.connect(Device::Cartridge(cart));
    cpu.pc = 0x8000;
    cpu.clock(&mut bus);
    assert_eq!(cpu.a, 0x42);
    assert_eq!(cpu.status & FLAG_Z, 0);
    assert_eq!(cpu.status & FLAG_N, 0);
    // the fetch tick consumed one of the two cycles
    assert_eq!(cpu.wait, 1);
    cpu.clock(&mut bus);
    assert_eq!(cpu.wait, 0);
    assert_eq!(cpu.pc, 0x8002);
}

#[test]
fn lda_zero_and_negative_flags() {
    // LDA #$00 sets Z and clears N; LDA #$80 clears Z and sets N.
    let (mut cpu, mut bus) = ram_machine();
    bus.write(0x0200, 0xa9);
    bus.write(0x0201, 0x00);
    bus.write(0x0202, 0xa9);
    bus.write(0x0203, 0x80);
    cpu.pc = 0x0200;
    cpu.next_inst(&mut bus);
    assert_ne!(cpu.status & FLAG_Z, 0);
    assert_eq!(cpu.status & FLAG_N, 0);
    cpu.next_inst(&mut bus);
    assert_eq!(cpu.status & FLAG_Z, 0);
    assert_ne!(cpu.status & FLAG_N, 0);
    assert_eq!(cpu.a, 0x80);
}

#[test]
fn adc_with_signed_overflow() {
    // With A = 0x50 and C = 0, ADC #$50 gives 0xA0 with V and N set.
    let (mut cpu, mut bus) = ram_machine();
    bus.write(0x0200, 0x69);
    bus.write(0x0201, 0x50);
    cpu.pc = 0x0200;
    cpu.a = 0x50;
    cpu.next_inst(&mut bus);
    assert_eq!(cpu.a, 0xa0);
    assert_eq!(cpu.status & FLAG_C, 0);
    assert_ne!(cpu.status & FLAG_V, 0);
    assert_ne!(cpu.status & FLAG_N, 0);
    assert_eq!(cpu.status & FLAG_Z, 0);
}

#[test]
fn sbc_with_borrow_clear() {
    // With A = 0x50 and C = 1, SBC #$30 gives 0x20 with C set and V clear.
    let (mut cpu, mut bus) = ram_machine();
    bus.write(0x0200, 0xe9);
    bus.write(0x0201, 0x30);
    cpu.pc = 0x0200;
    cpu.a = 0x50;
    cpu.status = FLAG_C;
    cpu.next_inst(&mut bus);
    assert_eq!(cpu.a, 0x20);
    assert_ne!(cpu.status & FLAG_C, 0);
    assert_eq!(cpu.status & FLAG_V, 0);
    assert_eq!(cpu.status & FLAG_N, 0);
    assert_eq!(cpu.status & FLAG_Z, 0);
}

#[test]
fn adc_sbc_round_trip_restores_a() {
    // ADC #$13, SEC, SBC #$13 with C = 0 and no carry-out restores A and
    // leaves the carry set.
    let (mut cpu, mut bus) = ram_machine();
    for (i, b) in [0x69, 0x13, 0x38, 0xe9, 0x13].iter().enumerate() {
        bus.write(0x0200 + i as u16, *b);
    }
    cpu.pc = 0x0200;
    cpu.a = 0x20;
    cpu.next_inst(&mut bus);
    assert_eq!(cpu.a, 0x33);
    cpu.next_inst(&mut bus);
    cpu.next_inst(&mut bus);
    assert_eq!(cpu.a, 0x20);
    assert_ne!(cpu.status & FLAG_C, 0);
}

#[test]
fn jsr_rts_round_trip() {
    // From PC = 0x0600: JSR $0609; ...; RTS. After the call the stack holds
    // the return address 0x0602, high then low; after RTS, PC = 0x0603.
    let program = [0x20, 0x09, 0x06, 0x00, 0x00, 0x00, 0x00, 0x00, 0x00, 0x60];
    let (mut cpu, mut bus) = ram_machine();
    for (i, b) in program.iter().enumerate() {
        bus.write(0x0600 + i as u16, *b);
    }
    cpu.pc = 0x0600;
    cpu.next_inst(&mut bus);
    assert_eq!(cpu.pc, 0x0609);
    assert_eq!(cpu.sp, 0xfd - 2);
    assert_eq!(bus.read(0x01fd), 0x06);
    assert_eq!(bus.read(0x01fc), 0x02);
    cpu.next_inst(&mut bus);
    assert_eq!(cpu.pc, 0x0603);
    assert_eq!(cpu.sp, 0xfd);
}

#[test]
fn indirect_jump_page_wrap() {
    // JMP ($02FF) with [0x02FF] = 0x34, [0x0300] = 0x12, [0x0200] = 0x78
    // reads its high byte from 0x0200, landing at 0x7834, not 0x1234.
    let (mut cpu, mut bus) = ram_machine();
    bus.write(0x02ff, 0x34);
    bus.write(0x0300, 0x12);
    bus.write(0x0200, 0x78);
    bus.write(0x0400, 0x6c);
    bus.write(0x0401, 0xff);
    bus.write(0x0402, 0x02);
    cpu.pc = 0x0400;
    cpu.next_inst(&mut bus);
    assert_eq!(cpu.pc, 0x7834);
}

#[test]
fn pha_pla_round_trip() {
    // PHA; LDA #$00; PLA restores A; the stack pointer returns to its start.
    let (mut cpu, mut bus) = ram_machine();
    for (i, b) in [0x48, 0xa9, 0x00, 0x68].iter().enumerate() {
        bus.write(0x0200 + i as u16, *b);
    }
    cpu.pc = 0x0200;
    cpu.a = 0x37;
    cpu.x = 5;
    cpu.y = 6;
    cpu.next_inst(&mut bus);
    cpu.next_inst(&mut bus);
    assert_eq!(cpu.a, 0x00);
    cpu.next_inst(&mut bus);
    assert_eq!(cpu.a, 0x37);
    assert_eq!(cpu.sp, 0xfd);
    assert_eq!(cpu.x, 5);
    assert_eq!(cpu.y, 6);
}

#[test]
fn php_plp_round_trip() {
    // PHP; PLP restores P with B and U set in the result.
    let (mut cpu, mut bus) = ram_machine();
    bus.write(0x0200, 0x08);
    bus.write(0x0201, 0x28);
    cpu.pc = 0x0200;
    cpu.status = 0xc1;
    cpu.next_inst(&mut bus);
    cpu.next_inst(&mut bus);
    assert_eq!(cpu.status, 0xc1 | FLAG_B | FLAG_U);
}

#[test]
fn stack_pointer_wraps() {
    // A push with SP = 0x00 wraps to 0xFF; a pop with SP = 0xFF wraps back.
    let (mut cpu, mut bus) = ram_machine();
    bus.write(0x0200, 0x48);
    bus.write(0x0201, 0x68);
    cpu.pc = 0x0200;
    cpu.sp = 0x00;
    cpu.a = 0x99;
    cpu.next_inst(&mut bus);
    assert_eq!(cpu.sp, 0xff);
    assert_eq!(bus.read(0x0100), 0x99);
    cpu.next_inst(&mut bus);
    assert_eq!(cpu.sp, 0x00);
    assert_eq!(cpu.a, 0x99);
}

#[test]
fn branch_taken_on_page_costs_three_cycles() {
    // BNE +2, taken, staying on the page: base 2 plus exactly 1 extra.
    let (mut cpu, mut bus) = ram_machine();
    bus.write(0x0200, 0xd0);
    bus.write(0x0201, 0x02);
    cpu.pc = 0x0200;
    cpu.clock(&mut bus);
    assert_eq!(cpu.pc, 0x0204);
    assert_eq!(cpu.wait, 2);
}

#[test]
fn branch_crossing_page_costs_four_cycles() {
    // BNE +0x7F from 0x02F0 lands on page 3: base 2 plus 2 extra.
    let (mut cpu, mut bus) = ram_machine();
    bus.write(0x02f0, 0xd0);
    bus.write(0x02f1, 0x7f);
    cpu.pc = 0x02f0;
    cpu.clock(&mut bus);
    assert_eq!(cpu.pc, 0x0371);
    assert_eq!(cpu.wait, 3);
}

#[test]
fn branch_not_taken_costs_two_cycles() {
    let (mut cpu, mut bus) = ram_machine();
    bus.write(0x0200, 0xd0);
    bus.write(0x0201, 0x02);
    cpu.pc = 0x0200;
    cpu.status = FLAG_Z;
    cpu.clock(&mut bus);
    assert_eq!(cpu.pc, 0x0202);
    assert_eq!(cpu.wait, 1);
}

#[test]
fn backward_branch_wraps_displacement() {
    // BNE -4 from 0x0202 lands at 0x0200: the displacement sign-extends.
    let (mut cpu, mut bus) = ram_machine();
    bus.write(0x0202, 0xd0);
    bus.write(0x0203, 0xfc);
    cpu.pc = 0x0202;
    cpu.next_inst(&mut bus);
    assert_eq!(cpu.pc, 0x0200);
}

#[test]
fn irq_enters_handler_when_unmasked() {
    let file = prg_image(&[(0x3ffe, 0x77), (0x3fff, 0x13)]);
    let cart = Cartridge::from_bytes(&file).unwrap();
    let (mut cpu, mut bus) = ram_machine();
    bus.connect(Device::Cartridge(cart));
    cpu.pc = 0xabcd;
    cpu.status = FLAG_C;
    cpu.irq(&mut bus);
    assert_eq!(cpu.pc, 0x1377);
    assert_eq!(cpu.wait, 7);
    assert_eq!(cpu.sp, 0xfd - 3);
    // PC was pushed high then low, then the status with B clear and U set;
    // I is set only in the live register, after the push
    assert_eq!(bus.read(0x01fd), 0xab);
    assert_eq!(bus.read(0x01fc), 0xcd);
    assert_eq!(bus.read(0x01fb), FLAG_C | FLAG_U);
    assert_eq!(cpu.status, FLAG_C | FLAG_U | 0x04);
}

#[test]
fn irq_is_masked_by_i_flag() {
    let (mut cpu, mut bus) = ram_machine();
    cpu.pc = 0xabcd;
    cpu.status = 0x04;
    let before = cpu;
    cpu.irq(&mut bus);
    assert_eq!(cpu, before);
}

#[test]
fn nmi_is_unconditional() {
    let file = prg_image(&[(0x3ffa, 0x66), (0x3ffb, 0x12)]);
    let cart = Cartridge::from_bytes(&file).unwrap();
    let (mut cpu, mut bus) = ram_machine();
    bus.connect(Device::Cartridge(cart));
    cpu.pc = 0x9000;
    cpu.status = 0x04;
    cpu.nmi(&mut bus);
    assert_eq!(cpu.pc, 0x1266);
    assert_eq!(cpu.wait, 8);
}

#[test]
fn program_counter_wraps() {
    assert_eq!(nes_core::mos6502::wrapping_add16(0xffff, 1), 0);
    assert_eq!(nes_core::mos6502::wrapping_sub16(0, 1), 0xffff);
    assert_eq!(nes_core::mos6502::wrapping_add8(0xff, 1), 0);
    assert_eq!(nes_core::mos6502::wrapping_sub8(0, 1), 0xff);
}

#[test]
fn read_modify_write_hits_memory() {
    // INC $10 twice, DEC $10 once: the cell, not a register, changes.
    let (mut cpu, mut bus) = ram_machine();
    for (i, b) in [0xe6, 0x10, 0xe6, 0x10, 0xc6, 0x10].iter().enumerate() {
        bus.write(0x0200 + i as u16, *b);
    }
    cpu.pc = 0x0200;
    cpu.x = 0x42;
    cpu.next_inst(&mut bus);
    cpu.next_inst(&mut bus);
    assert_eq!(bus.read(0x0010), 2);
    cpu.next_inst(&mut bus);
    assert_eq!(bus.read(0x0010), 1);
    // DEX decrements the register, not memory
    cpu.pc = 0x0300;
    bus.write(0x0300, 0xca);
    cpu.next_inst(&mut bus);
    assert_eq!(cpu.x, 0x41);
    assert_eq!(bus.read(0x0010), 1);
}

#[test]
fn cpy_compares_y() {
    // CPY #$10 with Y = 0x10 and X = 0: Z and C come from Y.
    let (mut cpu, mut bus) = ram_machine();
    bus.write(0x0200, 0xc0);
    bus.write(0x0201, 0x10);
    cpu.pc = 0x0200;
    cpu.y = 0x10;
    cpu.x = 0x00;
    cpu.next_inst(&mut bus);
    assert_ne!(cpu.status & FLAG_Z, 0);
    assert_ne!(cpu.status & FLAG_C, 0);
}

#[test]
fn lsr_carry_from_bit_zero() {
    // LSR A with A = 0x03: C = bit 0, result 0x01.
    let (mut cpu, mut bus) = ram_machine();
    bus.write(0x0200, 0x4a);
    cpu.pc = 0x0200;
    cpu.a = 0x03;
    cpu.next_inst(&mut bus);
    assert_eq!(cpu.a, 0x01);
    assert_ne!(cpu.status & FLAG_C, 0);
    // A = 0x02 leaves the carry clear
    cpu.pc = 0x0200;
    cpu.a = 0x02;
    cpu.status = 0;
    cpu.next_inst(&mut bus);
    assert_eq!(cpu.a, 0x01);
    assert_eq!(cpu.status & FLAG_C, 0);
}

#[test]
fn absolute_indexed_page_cross_pays_a_cycle() {
    // LDA $02F0,X with X = 0x20 crosses into page 3: 4 base + 1 extra.
    let (mut cpu, mut bus) = ram_machine();
    for (i, b) in [0xbd, 0xf0, 0x02].iter().enumerate() {
        bus.write(0x0200 + i as u16, *b);
    }
    bus.write(0x0310, 0x5a);
    cpu.pc = 0x0200;
    cpu.x = 0x20;
    cpu.clock(&mut bus);
    assert_eq!(cpu.a, 0x5a);
    assert_eq!(cpu.wait, 4);
    // without the crossing it stays at the base count
    bus.write(0x02f1, 0x5b);
    cpu.pc = 0x0200;
    cpu.x = 0x01;
    cpu.wait = 0;
    cpu.clock(&mut bus);
    assert_eq!(cpu.a, 0x5b);
    assert_eq!(cpu.wait, 3);
}
