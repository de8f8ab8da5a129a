use nes_core::bus::Bus;
use nes_core::bus::Device;
use nes_core::mos6502::Cpu;
use nes_core::mos6502::FLAG_C;
use nes_core::mos6502::FLAG_D;
use nes_core::mos6502::FLAG_I;
use nes_core::mos6502::FLAG_N;
use nes_core::mos6502::FLAG_V;
use nes_core::mos6502::FLAG_Z;
use nes_core::ram::Ram;

/// A CPU over a RAM-only bus, with the program at 0x0200.
fn machine(program: &[u8]) -> (Cpu, Bus) {
    let mut bus = Bus::new();
    bus.connect(Device::Ram(Ram::new()));
    for (i, b) in program.iter().enumerate() {
        bus.write(0x0200 + i as u16, *b);
    }
    let mut cpu = Cpu::new();
    cpu.pc = 0x0200;
    (cpu, bus)
}

#[test]
fn stores_hit_their_addresses() {
    // STA $10; STX $11; STY $0312
    let (mut cpu, mut bus) = machine(&[0x85, 0x10, 0x86, 0x11, 0x8c, 0x12, 0x03]);
    cpu.a = 1;
    cpu.x = 2;
    cpu.y = 3;
    cpu.next_inst(&mut bus);
    cpu.next_inst(&mut bus);
    cpu.next_inst(&mut bus);
    assert_eq!(bus.read(0x0010), 1);
    assert_eq!(bus.read(0x0011), 2);
    assert_eq!(bus.read(0x0312), 3);
    // stores touch no flags
    assert_eq!(cpu.status, 0);
}

#[test]
fn zero_page_indexed_wraps() {
    // LDA $FF,X with X = 2 reads 0x0001, not 0x0101.
    let (mut cpu, mut bus) = machine(&[0xb5, 0xff]);
    bus.write(0x0001, 0x6d);
    bus.write(0x0101, 0x1e);
    cpu.x = 2;
    cpu.next_inst(&mut bus);
    assert_eq!(cpu.a, 0x6d);
}

#[test]
fn indexed_indirect_reads_through_zero_page() {
    // LDA ($20,X) with X = 4: pointer at 0x24/0x25 -> 0x0305.
    let (mut cpu, mut bus) = machine(&[0xa1, 0x20]);
    bus.write(0x0024, 0x05);
    bus.write(0x0025, 0x03);
    bus.write(0x0305, 0x99);
    cpu.x = 4;
    cpu.next_inst(&mut bus);
    assert_eq!(cpu.a, 0x99);
}

#[test]
fn indirect_indexed_adds_y() {
    // LDA ($20),Y with Y = 3: pointer at 0x20/0x21 -> 0x0300, plus 3.
    let (mut cpu, mut bus) = machine(&[0xb1, 0x20]);
    bus.write(0x0020, 0x00);
    bus.write(0x0021, 0x03);
    bus.write(0x0303, 0x77);
    cpu.y = 3;
    cpu.next_inst(&mut bus);
    assert_eq!(cpu.a, 0x77);
}

#[test]
fn asl_shifts_into_carry() {
    // ASL A with A = 0x81: result 0x02, carry from bit 7.
    let (mut cpu, mut bus) = machine(&[0x0a]);
    cpu.a = 0x81;
    cpu.next_inst(&mut bus);
    assert_eq!(cpu.a, 0x02);
    assert_ne!(cpu.status & FLAG_C, 0);
    assert_eq!(cpu.status & FLAG_Z, 0);
}

#[test]
fn rol_and_ror_rotate_through_carry() {
    // ROL A with C = 1 pulls the carry into bit 0.
    let (mut cpu, mut bus) = machine(&[0x2a]);
    cpu.a = 0x40;
    cpu.status = FLAG_C;
    cpu.next_inst(&mut bus);
    assert_eq!(cpu.a, 0x81);
    assert_eq!(cpu.status & FLAG_C, 0);
    // ROR A with C = 1 pulls the carry into bit 7 and bit 0 into C.
    let (mut cpu2, mut bus2) = machine(&[0x6a]);
    cpu2.a = 0x03;
    cpu2.status = FLAG_C;
    cpu2.next_inst(&mut bus2);
    assert_eq!(cpu2.a, 0x81);
    assert_ne!(cpu2.status & FLAG_C, 0);
}

#[test]
fn shift_on_memory_writes_back() {
    // ASL $40: memory, not A, is shifted.
    let (mut cpu, mut bus) = machine(&[0x06, 0x40]);
    bus.write(0x0040, 0x21);
    cpu.a = 0x55;
    cpu.next_inst(&mut bus);
    assert_eq!(bus.read(0x0040), 0x42);
    assert_eq!(cpu.a, 0x55);
}

#[test]
fn bit_reads_operand_bits() {
    // BIT $40 with M = 0xC0 and A = 0x01: Z set (A & M == 0), N and V from M.
    let (mut cpu, mut bus) = machine(&[0x24, 0x40]);
    bus.write(0x0040, 0xc0);
    cpu.a = 0x01;
    cpu.next_inst(&mut bus);
    assert_ne!(cpu.status & FLAG_Z, 0);
    assert_ne!(cpu.status & FLAG_N, 0);
    assert_ne!(cpu.status & FLAG_V, 0);
}

#[test]
fn logical_ops_set_zero_and_negative() {
    // ORA #$80; EOR #$80; AND #$0F
    let (mut cpu, mut bus) = machine(&[0x09, 0x80, 0x49, 0x80, 0x29, 0x0f]);
    cpu.next_inst(&mut bus);
    assert_eq!(cpu.a, 0x80);
    assert_ne!(cpu.status & FLAG_N, 0);
    cpu.next_inst(&mut bus);
    assert_eq!(cpu.a, 0x00);
    assert_ne!(cpu.status & FLAG_Z, 0);
    cpu.a = 0xf3;
    cpu.next_inst(&mut bus);
    assert_eq!(cpu.a, 0x03);
    assert_eq!(cpu.status & (FLAG_Z | FLAG_N), 0);
}

#[test]
fn transfers_move_registers() {
    // TAX; TXS; TSX after changing X; TYA
    let (mut cpu, mut bus) = machine(&[0xaa, 0x9a, 0xba, 0x98]);
    cpu.a = 0x44;
    cpu.y = 0x55;
    cpu.next_inst(&mut bus);
    assert_eq!(cpu.x, 0x44);
    cpu.next_inst(&mut bus);
    assert_eq!(cpu.sp, 0x44);
    // TXS touched no flags
    assert_eq!(cpu.status, 0);
    cpu.x = 0;
    cpu.next_inst(&mut bus);
    assert_eq!(cpu.x, 0x44);
    cpu.next_inst(&mut bus);
    assert_eq!(cpu.a, 0x55);
}

#[test]
fn flag_ops_toggle_their_flag() {
    // SEC; SED; SEI; CLC; CLD; CLI; CLV
    let (mut cpu, mut bus) = machine(&[0x38, 0xf8, 0x78, 0x18, 0xd8, 0x58, 0xb8]);
    cpu.status = FLAG_V;
    cpu.next_inst(&mut bus);
    assert_ne!(cpu.status & FLAG_C, 0);
    cpu.next_inst(&mut bus);
    assert_ne!(cpu.status & FLAG_D, 0);
    cpu.next_inst(&mut bus);
    assert_ne!(cpu.status & FLAG_I, 0);
    cpu.next_inst(&mut bus);
    assert_eq!(cpu.status & FLAG_C, 0);
    cpu.next_inst(&mut bus);
    assert_eq!(cpu.status & FLAG_D, 0);
    cpu.next_inst(&mut bus);
    assert_eq!(cpu.status & FLAG_I, 0);
    cpu.next_inst(&mut bus);
    assert_eq!(cpu.status & FLAG_V, 0);
}

#[test]
fn decimal_flag_has_no_arithmetic_effect() {
    // SED; ADC #$09 with A = 0x09: binary addition even with D set.
    let (mut cpu, mut bus) = machine(&[0xf8, 0x69, 0x09]);
    cpu.a = 0x09;
    cpu.next_inst(&mut bus);
    cpu.next_inst(&mut bus);
    assert_eq!(cpu.a, 0x12);
    assert_ne!(cpu.status & FLAG_D, 0);
}

#[test]
fn compare_orders_unsigned() {
    // CMP #$30 with A = 0x20: C clear, N from the wrapped difference.
    let (mut cpu, mut bus) = machine(&[0xc9, 0x30]);
    cpu.a = 0x20;
    cpu.next_inst(&mut bus);
    assert_eq!(cpu.status & FLAG_C, 0);
    assert_ne!(cpu.status & FLAG_N, 0);
    assert_eq!(cpu.status & FLAG_Z, 0);
}

#[test]
fn brk_and_rti_round_trip() {
    // BRK enters the handler with I set; RTI there returns with the old
    // flags.
    let (mut cpu, mut bus) = machine(&[0x00]);
    // IRQ/BRK vector in RAM is unmapped (reads 0), so point the test at RAM:
    // the vector reads give 0x0000; place RTI there.
    bus.write(0x0000, 0x40);
    cpu.status = FLAG_C;
    cpu.next_inst(&mut bus);
    assert_eq!(cpu.pc, 0x0000);
    assert_ne!(cpu.status & FLAG_I, 0);
    let sp_in_handler = cpu.sp;
    assert_eq!(sp_in_handler, 0xfd - 3);
    cpu.next_inst(&mut bus);
    // RTI pops the pushed status (B cleared in the result) and the return
    // address, which BRK advanced past its padding byte
    assert_eq!(cpu.pc, 0x0203);
    assert_eq!(cpu.sp, 0xfd);
    assert_ne!(cpu.status & FLAG_C, 0);
}

#[test]
fn undocumented_opcodes_only_pay_cycles() {
    // 0x02 is an undocumented slot: 2 cycles, no state change.
    let (mut cpu, mut bus) = machine(&[0x02]);
    cpu.a = 0x12;
    cpu.clock(&mut bus);
    assert_eq!(cpu.a, 0x12);
    assert_eq!(cpu.pc, 0x0201);
    assert_eq!(cpu.wait, 1);
}

#[test]
fn nop_advances_only_the_counter() {
    let (mut cpu, mut bus) = machine(&[0xea]);
    cpu.clock(&mut bus);
    assert_eq!(cpu.pc, 0x0201);
    assert_eq!(cpu.wait, 1);
    cpu.clock(&mut bus);
    assert_eq!(cpu.wait, 0);
}

#[test]
fn jmp_absolute_sets_pc() {
    let (mut cpu, mut bus) = machine(&[0x4c, 0x34, 0x12]);
    cpu.next_inst(&mut bus);
    assert_eq!(cpu.pc, 0x1234);
}
