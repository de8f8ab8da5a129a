//! The opcode dispatch table: a flat 256-entry map from the raw opcode byte
//! to its operation, addressing mode, and base cycle count. Every slot is
//! populated; undocumented opcodes fall to a no-op-equivalent with a
//! realistic cycle count, so execution never halts on unexpected bytes.

use vstd::prelude::*;
use crate::mos6502::Mode;
use crate::mos6502::OpEntry;
use crate::mos6502::OpKind;

verus! {

/// The table entry for `opcode`.
pub open spec fn op_entry(opcode: u8) -> OpEntry {
    match opcode {
        0x00 => OpEntry { kind: OpKind::Brk, mode: Mode::Imm, cycles: 7 },
        0x01 => OpEntry { kind: OpKind::Ora, mode: Mode::Izx, cycles: 6 },
        0x02 => OpEntry { kind: OpKind::Xxx, mode: Mode::Imp, cycles: 2 },
        0x03 => OpEntry { kind: OpKind::Xxx, mode: Mode::Imp, cycles: 8 },
        0x04 => OpEntry { kind: OpKind::Nop, mode: Mode::Imp, cycles: 3 },
        0x05 => OpEntry { kind: OpKind::Ora, mode: Mode::Zp0, cycles: 3 },
        0x06 => OpEntry { kind: OpKind::Asl, mode: Mode::Zp0, cycles: 5 },
        0x07 => OpEntry { kind: OpKind::Xxx, mode: Mode::Imp, cycles: 5 },
        0x08 => OpEntry { kind: OpKind::Php, mode: Mode::Imp, cycles: 3 },
        0x09 => OpEntry { kind: OpKind::Ora, mode: Mode::Imm, cycles: 2 },
        0x0a => OpEntry { kind: OpKind::Asl, mode: Mode::Imp, cycles: 2 },
        0x0b => OpEntry { kind: OpKind::Xxx, mode: Mode::Imp, cycles: 2 },
        0x0c => OpEntry { kind: OpKind::Nop, mode: Mode::Imp, cycles: 4 },
        0x0d => OpEntry { kind: OpKind::Ora, mode: Mode::Abs, cycles: 4 },
        0x0e => OpEntry { kind: OpKind::Asl, mode: Mode::Abs, cycles: 6 },
        0x0f => OpEntry { kind: OpKind::Xxx, mode: Mode::Imp, cycles: 6 },
        0x10 => OpEntry { kind: OpKind::Bpl, mode: Mode::Rel, cycles: 2 },
        0x11 => OpEntry { kind: OpKind::Ora, mode: Mode::Izy, cycles: 5 },
        0x12 => OpEntry { kind: OpKind::Xxx, mode: Mode::Imp, cycles: 2 },
        0x13 => OpEntry { kind: OpKind::Xxx, mode: Mode::Imp, cycles: 8 },
        0x14 => OpEntry { kind: OpKind::Nop, mode: Mode::Imp, cycles: 4 },
        0x15 => OpEntry { kind: OpKind::Ora, mode: Mode::Zpx, cycles: 4 },
        0x16 => OpEntry { kind: OpKind::Asl, mode: Mode::Zpx, cycles: 6 },
        0x17 => OpEntry { kind: OpKind::Xxx, mode: Mode::Imp, cycles: 6 },
        0x18 => OpEntry { kind: OpKind::Clc, mode: Mode::Imp, cycles: 2 },
        0x19 => OpEntry { kind: OpKind::Ora, mode: Mode::Aby, cycles: 4 },
        0x1a => OpEntry { kind: OpKind::Nop, mode: Mode::Imp, cycles: 2 },
        0x1b => OpEntry { kind: OpKind::Xxx, mode: Mode::Imp, cycles: 7 },
        0x1c => OpEntry { kind: OpKind::Nop, mode: Mode::Imp, cycles: 4 },
        0x1d => OpEntry { kind: OpKind::Ora, mode: Mode::Abx, cycles: 4 },
        0x1e => OpEntry { kind: OpKind::Asl, mode: Mode::Abx, cycles: 7 },
        0x1f => OpEntry { kind: OpKind::Xxx, mode: Mode::Imp, cycles: 7 },
        0x20 => OpEntry { kind: OpKind::Jsr, mode: Mode::Abs, cycles: 6 },
        0x21 => OpEntry { kind: OpKind::And, mode: Mode::Izx, cycles: 6 },
        0x22 => OpEntry { kind: OpKind::Xxx, mode: Mode::Imp, cycles: 2 },
        0x23 => OpEntry { kind: OpKind::Xxx, mode: Mode::Imp, cycles: 8 },
        0x24 => OpEntry { kind: OpKind::Bit, mode: Mode::Zp0, cycles: 3 },
        0x25 => OpEntry { kind: OpKind::And, mode: Mode::Zp0, cycles: 3 },
        0x26 => OpEntry { kind: OpKind::Rol, mode: Mode::Zp0, cycles: 5 },
        0x27 => OpEntry { kind: OpKind::Xxx, mode: Mode::Imp, cycles: 5 },
        0x28 => OpEntry { kind: OpKind::Plp, mode: Mode::Imp, cycles: 4 },
        0x29 => OpEntry { kind: OpKind::And, mode: Mode::Imm, cycles: 2 },
        0x2a => OpEntry { kind: OpKind::Rol, mode: Mode::Imp, cycles: 2 },
        0x2b => OpEntry { kind: OpKind::Xxx, mode: Mode::Imp, cycles: 2 },
        0x2c => OpEntry { kind: OpKind::Bit, mode: Mode::Abs, cycles: 4 },
        0x2d => OpEntry { kind: OpKind::And, mode: Mode::Abs, cycles: 4 },
        0x2e => OpEntry { kind: OpKind::Rol, mode: Mode::Abs, cycles: 6 },
        0x2f => OpEntry { kind: OpKind::Xxx, mode: Mode::Imp, cycles: 6 },
        0x30 => OpEntry { kind: OpKind::Bmi, mode: Mode::Rel, cycles: 2 },
        0x31 => OpEntry { kind: OpKind::And, mode: Mode::Izy, cycles: 5 },
        0x32 => OpEntry { kind: OpKind::Xxx, mode: Mode::Imp, cycles: 2 },
        0x33 => OpEntry { kind: OpKind::Xxx, mode: Mode::Imp, cycles: 8 },
        0x34 => OpEntry { kind: OpKind::Nop, mode: Mode::Imp, cycles: 4 },
        0x35 => OpEntry { kind: OpKind::And, mode: Mode::Zpx, cycles: 4 },
        0x36 => OpEntry { kind: OpKind::Rol, mode: Mode::Zpx, cycles: 6 },
        0x37 => OpEntry { kind: OpKind::Xxx, mode: Mode::Imp, cycles: 6 },
        0x38 => OpEntry { kind: OpKind::Sec, mode: Mode::Imp, cycles: 2 },
        0x39 => OpEntry { kind: OpKind::And, mode: Mode::Aby, cycles: 4 },
        0x3a => OpEntry { kind: OpKind::Nop, mode: Mode::Imp, cycles: 2 },
        0x3b => OpEntry { kind: OpKind::Xxx, mode: Mode::Imp, cycles: 7 },
        0x3c => OpEntry { kind: OpKind::Nop, mode: Mode::Imp, cycles: 4 },
        0x3d => OpEntry { kind: OpKind::And, mode: Mode::Abx, cycles: 4 },
        0x3e => OpEntry { kind: OpKind::Rol, mode: Mode::Abx, cycles: 7 },
        0x3f => OpEntry { kind: OpKind::Xxx, mode: Mode::Imp, cycles: 7 },
        0x40 => OpEntry { kind: OpKind::Rti, mode: Mode::Imp, cycles: 6 },
        0x41 => OpEntry { kind: OpKind::Eor, mode: Mode::Izx, cycles: 6 },
        0x42 => OpEntry { kind: OpKind::Xxx, mode: Mode::Imp, cycles: 2 },
        0x43 => OpEntry { kind: OpKind::Xxx, mode: Mode::Imp, cycles: 8 },
        0x44 => OpEntry { kind: OpKind::Nop, mode: Mode::Imp, cycles: 3 },
        0x45 => OpEntry { kind: OpKind::Eor, mode: Mode::Zp0, cycles: 3 },
        0x46 => OpEntry { kind: OpKind::Lsr, mode: Mode::Zp0, cycles: 5 },
        0x47 => OpEntry { kind: OpKind::Xxx, mode: Mode::Imp, cycles: 5 },
        0x48 => OpEntry { kind: OpKind::Pha, mode: Mode::Imp, cycles: 3 },
        0x49 => OpEntry { kind: OpKind::Eor, mode: Mode::Imm, cycles: 2 },
        0x4a => OpEntry { kind: OpKind::Lsr, mode: Mode::Imp, cycles: 2 },
        0x4b => OpEntry { kind: OpKind::Xxx, mode: Mode::Imp, cycles: 2 },
        0x4c => OpEntry { kind: OpKind::Jmp, mode: Mode::Abs, cycles: 3 },
        0x4d => OpEntry { kind: OpKind::Eor, mode: Mode::Abs, cycles: 4 },
        0x4e => OpEntry { kind: OpKind::Lsr, mode: Mode::Abs, cycles: 6 },
        0x4f => OpEntry { kind: OpKind::Xxx, mode: Mode::Imp, cycles: 6 },
        0x50 => OpEntry { kind: OpKind::Bvc, mode: Mode::Rel, cycles: 2 },
        0x51 => OpEntry { kind: OpKind::Eor, mode: Mode::Izy, cycles: 5 },
        0x52 => OpEntry { kind: OpKind::Xxx, mode: Mode::Imp, cycles: 2 },
        0x53 => OpEntry { kind: OpKind::Xxx, mode: Mode::Imp, cycles: 8 },
        0x54 => OpEntry { kind: OpKind::Nop, mode: Mode::Imp, cycles: 4 },
        0x55 => OpEntry { kind: OpKind::Eor, mode: Mode::Zpx, cycles: 4 },
        0x56 => OpEntry { kind: OpKind::Lsr, mode: Mode::Zpx, cycles: 6 },
        0x57 => OpEntry { kind: OpKind::Xxx, mode: Mode::Imp, cycles: 6 },
        0x58 => OpEntry { kind: OpKind::Cli, mode: Mode::Imp, cycles: 2 },
        0x59 => OpEntry { kind: OpKind::Eor, mode: Mode::Aby, cycles: 4 },
        0x5a => OpEntry { kind: OpKind::Nop, mode: Mode::Imp, cycles: 2 },
        0x5b => OpEntry { kind: OpKind::Xxx, mode: Mode::Imp, cycles: 7 },
        0x5c => OpEntry { kind: OpKind::Nop, mode: Mode::Imp, cycles: 4 },
        0x5d => OpEntry { kind: OpKind::Eor, mode: Mode::Abx, cycles: 4 },
        0x5e => OpEntry { kind: OpKind::Lsr, mode: Mode::Abx, cycles: 7 },
        0x5f => OpEntry { kind: OpKind::Xxx, mode: Mode::Imp, cycles: 7 },
        0x60 => OpEntry { kind: OpKind::Rts, mode: Mode::Imp, cycles: 6 },
        0x61 => OpEntry { kind: OpKind::Adc, mode: Mode::Izx, cycles: 6 },
        0x62 => OpEntry { kind: OpKind::Xxx, mode: Mode::Imp, cycles: 2 },
        0x63 => OpEntry { kind: OpKind::Xxx, mode: Mode::Imp, cycles: 8 },
        0x64 => OpEntry { kind: OpKind::Nop, mode: Mode::Imp, cycles: 3 },
        0x65 => OpEntry { kind: OpKind::Adc, mode: Mode::Zp0, cycles: 3 },
        0x66 => OpEntry { kind: OpKind::Ror, mode: Mode::Zp0, cycles: 5 },
        0x67 => OpEntry { kind: OpKind::Xxx, mode: Mode::Imp, cycles: 5 },
        0x68 => OpEntry { kind: OpKind::Pla, mode: Mode::Imp, cycles: 4 },
        0x69 => OpEntry { kind: OpKind::Adc, mode: Mode::Imm, cycles: 2 },
        0x6a => OpEntry { kind: OpKind::Ror, mode: Mode::Imp, cycles: 2 },
        0x6b => OpEntry { kind: OpKind::Xxx, mode: Mode::Imp, cycles: 2 },
        0x6c => OpEntry { kind: OpKind::Jmp, mode: Mode::Ind, cycles: 5 },
        0x6d => OpEntry { kind: OpKind::Adc, mode: Mode::Abs, cycles: 4 },
        0x6e => OpEntry { kind: OpKind::Ror, mode: Mode::Abs, cycles: 6 },
        0x6f => OpEntry { kind: OpKind::Xxx, mode: Mode::Imp, cycles: 6 },
        0x70 => OpEntry { kind: OpKind::Bvs, mode: Mode::Rel, cycles: 2 },
        0x71 => OpEntry { kind: OpKind::Adc, mode: Mode::Izy, cycles: 5 },
        0x72 => OpEntry { kind: OpKind::Xxx, mode: Mode::Imp, cycles: 2 },
        0x73 => OpEntry { kind: OpKind::Xxx, mode: Mode::Imp, cycles: 8 },
        0x74 => OpEntry { kind: OpKind::Nop, mode: Mode::Imp, cycles: 4 },
        0x75 => OpEntry { kind: OpKind::Adc, mode: Mode::Zpx, cycles: 4 },
        0x76 => OpEntry { kind: OpKind::Ror, mode: Mode::Zpx, cycles: 6 },
        0x77 => OpEntry { kind: OpKind::Xxx, mode: Mode::Imp, cycles: 6 },
        0x78 => OpEntry { kind: OpKind::Sei, mode: Mode::Imp, cycles: 2 },
        0x79 => OpEntry { kind: OpKind::Adc, mode: Mode::Aby, cycles: 4 },
        0x7a => OpEntry { kind: OpKind::Nop, mode: Mode::Imp, cycles: 2 },
        0x7b => OpEntry { kind: OpKind::Xxx, mode: Mode::Imp, cycles: 7 },
        0x7c => OpEntry { kind: OpKind::Nop, mode: Mode::Imp, cycles: 4 },
        0x7d => OpEntry { kind: OpKind::Adc, mode: Mode::Abx, cycles: 4 },
        0x7e => OpEntry { kind: OpKind::Ror, mode: Mode::Abx, cycles: 7 },
        0x7f => OpEntry { kind: OpKind::Xxx, mode: Mode::Imp, cycles: 7 },
        0x80 => OpEntry { kind: OpKind::Nop, mode: Mode::Imp, cycles: 2 },
        0x81 => OpEntry { kind: OpKind::Sta, mode: Mode::Izx, cycles: 6 },
        0x82 => OpEntry { kind: OpKind::Nop, mode: Mode::Imp, cycles: 2 },
        0x83 => OpEntry { kind: OpKind::Xxx, mode: Mode::Imp, cycles: 6 },
        0x84 => OpEntry { kind: OpKind::Sty, mode: Mode::Zp0, cycles: 3 },
        0x85 => OpEntry { kind: OpKind::Sta, mode: Mode::Zp0, cycles: 3 },
        0x86 => OpEntry { kind: OpKind::Stx, mode: Mode::Zp0, cycles: 3 },
        0x87 => OpEntry { kind: OpKind::Xxx, mode: Mode::Imp, cycles: 3 },
        0x88 => OpEntry { kind: OpKind::Dey, mode: Mode::Imp, cycles: 2 },
        0x89 => OpEntry { kind: OpKind::Nop, mode: Mode::Imp, cycles: 2 },
        0x8a => OpEntry { kind: OpKind::Txa, mode: Mode::Imp, cycles: 2 },
        0x8b => OpEntry { kind: OpKind::Xxx, mode: Mode::Imp, cycles: 2 },
        0x8c => OpEntry { kind: OpKind::Sty, mode: Mode::Abs, cycles: 4 },
        0x8d => OpEntry { kind: OpKind::Sta, mode: Mode::Abs, cycles: 4 },
        0x8e => OpEntry { kind: OpKind::Stx, mode: Mode::Abs, cycles: 4 },
        0x8f => OpEntry { kind: OpKind::Xxx, mode: Mode::Imp, cycles: 4 },
        0x90 => OpEntry { kind: OpKind::Bcc, mode: Mode::Rel, cycles: 2 },
        0x91 => OpEntry { kind: OpKind::Sta, mode: Mode::Izy, cycles: 6 },
        0x92 => OpEntry { kind: OpKind::Xxx, mode: Mode::Imp, cycles: 2 },
        0x93 => OpEntry { kind: OpKind::Xxx, mode: Mode::Imp, cycles: 6 },
        0x94 => OpEntry { kind: OpKind::Sty, mode: Mode::Zpx, cycles: 4 },
        0x95 => OpEntry { kind: OpKind::Sta, mode: Mode::Zpx, cycles: 4 },
        0x96 => OpEntry { kind: OpKind::Stx, mode: Mode::Zpy, cycles: 4 },
        0x97 => OpEntry { kind: OpKind::Xxx, mode: Mode::Imp, cycles: 4 },
        0x98 => OpEntry { kind: OpKind::Tya, mode: Mode::Imp, cycles: 2 },
        0x99 => OpEntry { kind: OpKind::Sta, mode: Mode::Aby, cycles: 5 },
        0x9a => OpEntry { kind: OpKind::Txs, mode: Mode::Imp, cycles: 2 },
        0x9b => OpEntry { kind: OpKind::Xxx, mode: Mode::Imp, cycles: 5 },
        0x9c => OpEntry { kind: OpKind::Nop, mode: Mode::Imp, cycles: 5 },
        0x9d => OpEntry { kind: OpKind::Sta, mode: Mode::Abx, cycles: 5 },
        0x9e => OpEntry { kind: OpKind::Xxx, mode: Mode::Imp, cycles: 5 },
        0x9f => OpEntry { kind: OpKind::Xxx, mode: Mode::Imp, cycles: 5 },
        0xa0 => OpEntry { kind: OpKind::Ldy, mode: Mode::Imm, cycles: 2 },
        0xa1 => OpEntry { kind: OpKind::Lda, mode: Mode::Izx, cycles: 6 },
        0xa2 => OpEntry { kind: OpKind::Ldx, mode: Mode::Imm, cycles: 2 },
        0xa3 => OpEntry { kind: OpKind::Xxx, mode: Mode::Imp, cycles: 6 },
        0xa4 => OpEntry { kind: OpKind::Ldy, mode: Mode::Zp0, cycles: 3 },
        0xa5 => OpEntry { kind: OpKind::Lda, mode: Mode::Zp0, cycles: 3 },
        0xa6 => OpEntry { kind: OpKind::Ldx, mode: Mode::Zp0, cycles: 3 },
        0xa7 => OpEntry { kind: OpKind::Xxx, mode: Mode::Imp, cycles: 3 },
        0xa8 => OpEntry { kind: OpKind::Tay, mode: Mode::Imp, cycles: 2 },
        0xa9 => OpEntry { kind: OpKind::Lda, mode: Mode::Imm, cycles: 2 },
        0xaa => OpEntry { kind: OpKind::Tax, mode: Mode::Imp, cycles: 2 },
        0xab => OpEntry { kind: OpKind::Xxx, mode: Mode::Imp, cycles: 2 },
        0xac => OpEntry { kind: OpKind::Ldy, mode: Mode::Abs, cycles: 4 },
        0xad => OpEntry { kind: OpKind::Lda, mode: Mode::Abs, cycles: 4 },
        0xae => OpEntry { kind: OpKind::Ldx, mode: Mode::Abs, cycles: 4 },
        0xaf => OpEntry { kind: OpKind::Xxx, mode: Mode::Imp, cycles: 4 },
        0xb0 => OpEntry { kind: OpKind::Bcs, mode: Mode::Rel, cycles: 2 },
        0xb1 => OpEntry { kind: OpKind::Lda, mode: Mode::Izy, cycles: 5 },
        0xb2 => OpEntry { kind: OpKind::Xxx, mode: Mode::Imp, cycles: 2 },
        0xb3 => OpEntry { kind: OpKind::Xxx, mode: Mode::Imp, cycles: 5 },
        0xb4 => OpEntry { kind: OpKind::Ldy, mode: Mode::Zpx, cycles: 4 },
        0xb5 => OpEntry { kind: OpKind::Lda, mode: Mode::Zpx, cycles: 4 },
        0xb6 => OpEntry { kind: OpKind::Ldx, mode: Mode::Zpy, cycles: 4 },
        0xb7 => OpEntry { kind: OpKind::Xxx, mode: Mode::Imp, cycles: 4 },
        0xb8 => OpEntry { kind: OpKind::Clv, mode: Mode::Imp, cycles: 2 },
        0xb9 => OpEntry { kind: OpKind::Lda, mode: Mode::Aby, cycles: 4 },
        0xba => OpEntry { kind: OpKind::Tsx, mode: Mode::Imp, cycles: 2 },
        0xbb => OpEntry { kind: OpKind::Xxx, mode: Mode::Imp, cycles: 4 },
        0xbc => OpEntry { kind: OpKind::Ldy, mode: Mode::Abx, cycles: 4 },
        0xbd => OpEntry { kind: OpKind::Lda, mode: Mode::Abx, cycles: 4 },
        0xbe => OpEntry { kind: OpKind::Ldx, mode: Mode::Aby, cycles: 4 },
        0xbf => OpEntry { kind: OpKind::Xxx, mode: Mode::Imp, cycles: 4 },
        0xc0 => OpEntry { kind: OpKind::Cpy, mode: Mode::Imm, cycles: 2 },
        0xc1 => OpEntry { kind: OpKind::Cmp, mode: Mode::Izx, cycles: 6 },
        0xc2 => OpEntry { kind: OpKind::Nop, mode: Mode::Imp, cycles: 2 },
        0xc3 => OpEntry { kind: OpKind::Xxx, mode: Mode::Imp, cycles: 8 },
        0xc4 => OpEntry { kind: OpKind::Cpy, mode: Mode::Zp0, cycles: 3 },
        0xc5 => OpEntry { kind: OpKind::Cmp, mode: Mode::Zp0, cycles: 3 },
        0xc6 => OpEntry { kind: OpKind::Dec, mode: Mode::Zp0, cycles: 5 },
        0xc7 => OpEntry { kind: OpKind::Xxx, mode: Mode::Imp, cycles: 5 },
        0xc8 => OpEntry { kind: OpKind::Iny, mode: Mode::Imp, cycles: 2 },
        0xc9 => OpEntry { kind: OpKind::Cmp, mode: Mode::Imm, cycles: 2 },
        0xca => OpEntry { kind: OpKind::Dex, mode: Mode::Imp, cycles: 2 },
        0xcb => OpEntry { kind: OpKind::Xxx, mode: Mode::Imp, cycles: 2 },
        0xcc => OpEntry { kind: OpKind::Cpy, mode: Mode::Abs, cycles: 4 },
        0xcd => OpEntry { kind: OpKind::Cmp, mode: Mode::Abs, cycles: 4 },
        0xce => OpEntry { kind: OpKind::Dec, mode: Mode::Abs, cycles: 6 },
        0xcf => OpEntry { kind: OpKind::Xxx, mode: Mode::Imp, cycles: 6 },
        0xd0 => OpEntry { kind: OpKind::Bne, mode: Mode::Rel, cycles: 2 },
        0xd1 => OpEntry { kind: OpKind::Cmp, mode: Mode::Izy, cycles: 5 },
        0xd2 => OpEntry { kind: OpKind::Xxx, mode: Mode::Imp, cycles: 2 },
        0xd3 => OpEntry { kind: OpKind::Xxx, mode: Mode::Imp, cycles: 8 },
        0xd4 => OpEntry { kind: OpKind::Nop, mode: Mode::Imp, cycles: 4 },
        0xd5 => OpEntry { kind: OpKind::Cmp, mode: Mode::Zpx, cycles: 4 },
        0xd6 => OpEntry { kind: OpKind::Dec, mode: Mode::Zpx, cycles: 6 },
        0xd7 => OpEntry { kind: OpKind::Xxx, mode: Mode::Imp, cycles: 6 },
        0xd8 => OpEntry { kind: OpKind::Cld, mode: Mode::Imp, cycles: 2 },
        0xd9 => OpEntry { kind: OpKind::Cmp, mode: Mode::Aby, cycles: 4 },
        0xda => OpEntry { kind: OpKind::Nop, mode: Mode::Imp, cycles: 2 },
        0xdb => OpEntry { kind: OpKind::Xxx, mode: Mode::Imp, cycles: 7 },
        0xdc => OpEntry { kind: OpKind::Nop, mode: Mode::Imp, cycles: 4 },
        0xdd => OpEntry { kind: OpKind::Cmp, mode: Mode::Abx, cycles: 4 },
        0xde => OpEntry { kind: OpKind::Dec, mode: Mode::Abx, cycles: 7 },
        0xdf => OpEntry { kind: OpKind::Xxx, mode: Mode::Imp, cycles: 7 },
        0xe0 => OpEntry { kind: OpKind::Cpx, mode: Mode::Imm, cycles: 2 },
        0xe1 => OpEntry { kind: OpKind::Sbc, mode: Mode::Izx, cycles: 6 },
        0xe2 => OpEntry { kind: OpKind::Nop, mode: Mode::Imp, cycles: 2 },
        0xe3 => OpEntry { kind: OpKind::Xxx, mode: Mode::Imp, cycles: 8 },
        0xe4 => OpEntry { kind: OpKind::Cpx, mode: Mode::Zp0, cycles: 3 },
        0xe5 => OpEntry { kind: OpKind::Sbc, mode: Mode::Zp0, cycles: 3 },
        0xe6 => OpEntry { kind: OpKind::Inc, mode: Mode::Zp0, cycles: 5 },
        0xe7 => OpEntry { kind: OpKind::Xxx, mode: Mode::Imp, cycles: 5 },
        0xe8 => OpEntry { kind: OpKind::Inx, mode: Mode::Imp, cycles: 2 },
        0xe9 => OpEntry { kind: OpKind::Sbc, mode: Mode::Imm, cycles: 2 },
        0xea => OpEntry { kind: OpKind::Nop, mode: Mode::Imp, cycles: 2 },
        0xeb => OpEntry { kind: OpKind::Sbc, mode: Mode::Imp, cycles: 2 },
        0xec => OpEntry { kind: OpKind::Cpx, mode: Mode::Abs, cycles: 4 },
        0xed => OpEntry { kind: OpKind::Sbc, mode: Mode::Abs, cycles: 4 },
        0xee => OpEntry { kind: OpKind::Inc, mode: Mode::Abs, cycles: 6 },
        0xef => OpEntry { kind: OpKind::Xxx, mode: Mode::Imp, cycles: 6 },
        0xf0 => OpEntry { kind: OpKind::Beq, mode: Mode::Rel, cycles: 2 },
        0xf1 => OpEntry { kind: OpKind::Sbc, mode: Mode::Izy, cycles: 5 },
        0xf2 => OpEntry { kind: OpKind::Xxx, mode: Mode::Imp, cycles: 2 },
        0xf3 => OpEntry { kind: OpKind::Xxx, mode: Mode::Imp, cycles: 8 },
        0xf4 => OpEntry { kind: OpKind::Nop, mode: Mode::Imp, cycles: 4 },
        0xf5 => OpEntry { kind: OpKind::Sbc, mode: Mode::Zpx, cycles: 4 },
        0xf6 => OpEntry { kind: OpKind::Inc, mode: Mode::Zpx, cycles: 6 },
        0xf7 => OpEntry { kind: OpKind::Xxx, mode: Mode::Imp, cycles: 6 },
        0xf8 => OpEntry { kind: OpKind::Sed, mode: Mode::Imp, cycles: 2 },
        0xf9 => OpEntry { kind: OpKind::Sbc, mode: Mode::Aby, cycles: 4 },
        0xfa => OpEntry { kind: OpKind::Nop, mode: Mode::Imp, cycles: 2 },
        0xfb => OpEntry { kind: OpKind::Xxx, mode: Mode::Imp, cycles: 7 },
        0xfc => OpEntry { kind: OpKind::Nop, mode: Mode::Imp, cycles: 4 },
        0xfd => OpEntry { kind: OpKind::Sbc, mode: Mode::Abx, cycles: 4 },
        0xfe => OpEntry { kind: OpKind::Inc, mode: Mode::Abx, cycles: 7 },
        _ => OpEntry { kind: OpKind::Xxx, mode: Mode::Imp, cycles: 7 },
    }
}

/// The executable decoder, equal to `op_entry` on every opcode; every base
/// cycle count in the table lies between 2 and 8.
pub fn lookup(opcode: u8) -> (e: OpEntry)
    ensures
        e == op_entry(opcode),
        2 <= e.cycles <= 8,
{
    match opcode {
        0x00 => OpEntry { kind: OpKind::Brk, mode: Mode::Imm, cycles: 7 },
        0x01 => OpEntry { kind: OpKind::Ora, mode: Mode::Izx, cycles: 6 },
        0x02 => OpEntry { kind: OpKind::Xxx, mode: Mode::Imp, cycles: 2 },
        0x03 => OpEntry { kind: OpKind::Xxx, mode: Mode::Imp, cycles: 8 },
        0x04 => OpEntry { kind: OpKind::Nop, mode: Mode::Imp, cycles: 3 },
        0x05 => OpEntry { kind: OpKind::Ora, mode: Mode::Zp0, cycles: 3 },
        0x06 => OpEntry { kind: OpKind::Asl, mode: Mode::Zp0, cycles: 5 },
        0x07 => OpEntry { kind: OpKind::Xxx, mode: Mode::Imp, cycles: 5 },
        0x08 => OpEntry { kind: OpKind::Php, mode: Mode::Imp, cycles: 3 },
        0x09 => OpEntry { kind: OpKind::Ora, mode: Mode::Imm, cycles: 2 },
        0x0a => OpEntry { kind: OpKind::Asl, mode: Mode::Imp, cycles: 2 },
        0x0b => OpEntry { kind: OpKind::Xxx, mode: Mode::Imp, cycles: 2 },
        0x0c => OpEntry { kind: OpKind::Nop, mode: Mode::Imp, cycles: 4 },
        0x0d => OpEntry { kind: OpKind::Ora, mode: Mode::Abs, cycles: 4 },
        0x0e => OpEntry { kind: OpKind::Asl, mode: Mode::Abs, cycles: 6 },
        0x0f => OpEntry { kind: OpKind::Xxx, mode: Mode::Imp, cycles: 6 },
        0x10 => OpEntry { kind: OpKind::Bpl, mode: Mode::Rel, cycles: 2 },
        0x11 => OpEntry { kind: OpKind::Ora, mode: Mode::Izy, cycles: 5 },
        0x12 => OpEntry { kind: OpKind::Xxx, mode: Mode::Imp, cycles: 2 },
        0x13 => OpEntry { kind: OpKind::Xxx, mode: Mode::Imp, cycles: 8 },
        0x14 => OpEntry { kind: OpKind::Nop, mode: Mode::Imp, cycles: 4 },
        0x15 => OpEntry { kind: OpKind::Ora, mode: Mode::Zpx, cycles: 4 },
        0x16 => OpEntry { kind: OpKind::Asl, mode: Mode::Zpx, cycles: 6 },
        0x17 => OpEntry { kind: OpKind::Xxx, mode: Mode::Imp, cycles: 6 },
        0x18 => OpEntry { kind: OpKind::Clc, mode: Mode::Imp, cycles: 2 },
        0x19 => OpEntry { kind: OpKind::Ora, mode: Mode::Aby, cycles: 4 },
        0x1a => OpEntry { kind: OpKind::Nop, mode: Mode::Imp, cycles: 2 },
        0x1b => OpEntry { kind: OpKind::Xxx, mode: Mode::Imp, cycles: 7 },
        0x1c => OpEntry { kind: OpKind::Nop, mode: Mode::Imp, cycles: 4 },
        0x1d => OpEntry { kind: OpKind::Ora, mode: Mode::Abx, cycles: 4 },
        0x1e => OpEntry { kind: OpKind::Asl, mode: Mode::Abx, cycles: 7 },
        0x1f => OpEntry { kind: OpKind::Xxx, mode: Mode::Imp, cycles: 7 },
        0x20 => OpEntry { kind: OpKind::Jsr, mode: Mode::Abs, cycles: 6 },
        0x21 => OpEntry { kind: OpKind::And, mode: Mode::Izx, cycles: 6 },
        0x22 => OpEntry { kind: OpKind::Xxx, mode: Mode::Imp, cycles: 2 },
        0x23 => OpEntry { kind: OpKind::Xxx, mode: Mode::Imp, cycles: 8 },
        0x24 => OpEntry { kind: OpKind::Bit, mode: Mode::Zp0, cycles: 3 },
        0x25 => OpEntry { kind: OpKind::And, mode: Mode::Zp0, cycles: 3 },
        0x26 => OpEntry { kind: OpKind::Rol, mode: Mode::Zp0, cycles: 5 },
        0x27 => OpEntry { kind: OpKind::Xxx, mode: Mode::Imp, cycles: 5 },
        0x28 => OpEntry { kind: OpKind::Plp, mode: Mode::Imp, cycles: 4 },
        0x29 => OpEntry { kind: OpKind::And, mode: Mode::Imm, cycles: 2 },
        0x2a => OpEntry { kind: OpKind::Rol, mode: Mode::Imp, cycles: 2 },
        0x2b => OpEntry { kind: OpKind::Xxx, mode: Mode::Imp, cycles: 2 },
        0x2c => OpEntry { kind: OpKind::Bit, mode: Mode::Abs, cycles: 4 },
        0x2d => OpEntry { kind: OpKind::And, mode: Mode::Abs, cycles: 4 },
        0x2e => OpEntry { kind: OpKind::Rol, mode: Mode::Abs, cycles: 6 },
        0x2f => OpEntry { kind: OpKind::Xxx, mode: Mode::Imp, cycles: 6 },
        0x30 => OpEntry { kind: OpKind::Bmi, mode: Mode::Rel, cycles: 2 },
        0x31 => OpEntry { kind: OpKind::And, mode: Mode::Izy, cycles: 5 },
        0x32 => OpEntry { kind: OpKind::Xxx, mode: Mode::Imp, cycles: 2 },
        0x33 => OpEntry { kind: OpKind::Xxx, mode: Mode::Imp, cycles: 8 },
        0x34 => OpEntry { kind: OpKind::Nop, mode: Mode::Imp, cycles: 4 },
        0x35 => OpEntry { kind: OpKind::And, mode: Mode::Zpx, cycles: 4 },
        0x36 => OpEntry { kind: OpKind::Rol, mode: Mode::Zpx, cycles: 6 },
        0x37 => OpEntry { kind: OpKind::Xxx, mode: Mode::Imp, cycles: 6 },
        0x38 => OpEntry { kind: OpKind::Sec, mode: Mode::Imp, cycles: 2 },
        0x39 => OpEntry { kind: OpKind::And, mode: Mode::Aby, cycles: 4 },
        0x3a => OpEntry { kind: OpKind::Nop, mode: Mode::Imp, cycles: 2 },
        0x3b => OpEntry { kind: OpKind::Xxx, mode: Mode::Imp, cycles: 7 },
        0x3c => OpEntry { kind: OpKind::Nop, mode: Mode::Imp, cycles: 4 },
        0x3d => OpEntry { kind: OpKind::And, mode: Mode::Abx, cycles: 4 },
        0x3e => OpEntry { kind: OpKind::Rol, mode: Mode::Abx, cycles: 7 },
        0x3f => OpEntry { kind: OpKind::Xxx, mode: Mode::Imp, cycles: 7 },
        0x40 => OpEntry { kind: OpKind::Rti, mode: Mode::Imp, cycles: 6 },
        0x41 => OpEntry { kind: OpKind::Eor, mode: Mode::Izx, cycles: 6 },
        0x42 => OpEntry { kind: OpKind::Xxx, mode: Mode::Imp, cycles: 2 },
        0x43 => OpEntry { kind: OpKind::Xxx, mode: Mode::Imp, cycles: 8 },
        0x44 => OpEntry { kind: OpKind::Nop, mode: Mode::Imp, cycles: 3 },
        0x45 => OpEntry { kind: OpKind::Eor, mode: Mode::Zp0, cycles: 3 },
        0x46 => OpEntry { kind: OpKind::Lsr, mode: Mode::Zp0, cycles: 5 },
        0x47 => OpEntry { kind: OpKind::Xxx, mode: Mode::Imp, cycles: 5 },
        0x48 => OpEntry { kind: OpKind::Pha, mode: Mode::Imp, cycles: 3 },
        0x49 => OpEntry { kind: OpKind::Eor, mode: Mode::Imm, cycles: 2 },
        0x4a => OpEntry { kind: OpKind::Lsr, mode: Mode::Imp, cycles: 2 },
        0x4b => OpEntry { kind: OpKind::Xxx, mode: Mode::Imp, cycles: 2 },
        0x4c => OpEntry { kind: OpKind::Jmp, mode: Mode::Abs, cycles: 3 },
        0x4d => OpEntry { kind: OpKind::Eor, mode: Mode::Abs, cycles: 4 },
        0x4e => OpEntry { kind: OpKind::Lsr, mode: Mode::Abs, cycles: 6 },
        0x4f => OpEntry { kind: OpKind::Xxx, mode: Mode::Imp, cycles: 6 },
        0x50 => OpEntry { kind: OpKind::Bvc, mode: Mode::Rel, cycles: 2 },
        0x51 => OpEntry { kind: OpKind::Eor, mode: Mode::Izy, cycles: 5 },
        0x52 => OpEntry { kind: OpKind::Xxx, mode: Mode::Imp, cycles: 2 },
        0x53 => OpEntry { kind: OpKind::Xxx, mode: Mode::Imp, cycles: 8 },
        0x54 => OpEntry { kind: OpKind::Nop, mode: Mode::Imp, cycles: 4 },
        0x55 => OpEntry { kind: OpKind::Eor, mode: Mode::Zpx, cycles: 4 },
        0x56 => OpEntry { kind: OpKind::Lsr, mode: Mode::Zpx, cycles: 6 },
        0x57 => OpEntry { kind: OpKind::Xxx, mode: Mode::Imp, cycles: 6 },
        0x58 => OpEntry { kind: OpKind::Cli, mode: Mode::Imp, cycles: 2 },
        0x59 => OpEntry { kind: OpKind::Eor, mode: Mode::Aby, cycles: 4 },
        0x5a => OpEntry { kind: OpKind::Nop, mode: Mode::Imp, cycles: 2 },
        0x5b => OpEntry { kind: OpKind::Xxx, mode: Mode::Imp, cycles: 7 },
        0x5c => OpEntry { kind: OpKind::Nop, mode: Mode::Imp, cycles: 4 },
        0x5d => OpEntry { kind: OpKind::Eor, mode: Mode::Abx, cycles: 4 },
        0x5e => OpEntry { kind: OpKind::Lsr, mode: Mode::Abx, cycles: 7 },
        0x5f => OpEntry { kind: OpKind::Xxx, mode: Mode::Imp, cycles: 7 },
        0x60 => OpEntry { kind: OpKind::Rts, mode: Mode::Imp, cycles: 6 },
        0x61 => OpEntry { kind: OpKind::Adc, mode: Mode::Izx, cycles: 6 },
        0x62 => OpEntry { kind: OpKind::Xxx, mode: Mode::Imp, cycles: 2 },
        0x63 => OpEntry { kind: OpKind::Xxx, mode: Mode::Imp, cycles: 8 },
        0x64 => OpEntry { kind: OpKind::Nop, mode: Mode::Imp, cycles: 3 },
        0x65 => OpEntry { kind: OpKind::Adc, mode: Mode::Zp0, cycles: 3 },
        0x66 => OpEntry { kind: OpKind::Ror, mode: Mode::Zp0, cycles: 5 },
        0x67 => OpEntry { kind: OpKind::Xxx, mode: Mode::Imp, cycles: 5 },
        0x68 => OpEntry { kind: OpKind::Pla, mode: Mode::Imp, cycles: 4 },
        0x69 => OpEntry { kind: OpKind::Adc, mode: Mode::Imm, cycles: 2 },
        0x6a => OpEntry { kind: OpKind::Ror, mode: Mode::Imp, cycles: 2 },
        0x6b => OpEntry { kind: OpKind::Xxx, mode: Mode::Imp, cycles: 2 },
        0x6c => OpEntry { kind: OpKind::Jmp, mode: Mode::Ind, cycles: 5 },
        0x6d => OpEntry { kind: OpKind::Adc, mode: Mode::Abs, cycles: 4 },
        0x6e => OpEntry { kind: OpKind::Ror, mode: Mode::Abs, cycles: 6 },
        0x6f => OpEntry { kind: OpKind::Xxx, mode: Mode::Imp, cycles: 6 },
        0x70 => OpEntry { kind: OpKind::Bvs, mode: Mode::Rel, cycles: 2 },
        0x71 => OpEntry { kind: OpKind::Adc, mode: Mode::Izy, cycles: 5 },
        0x72 => OpEntry { kind: OpKind::Xxx, mode: Mode::Imp, cycles: 2 },
        0x73 => OpEntry { kind: OpKind::Xxx, mode: Mode::Imp, cycles: 8 },
        0x74 => OpEntry { kind: OpKind::Nop, mode: Mode::Imp, cycles: 4 },
        0x75 => OpEntry { kind: OpKind::Adc, mode: Mode::Zpx, cycles: 4 },
        0x76 => OpEntry { kind: OpKind::Ror, mode: Mode::Zpx, cycles: 6 },
        0x77 => OpEntry { kind: OpKind::Xxx, mode: Mode::Imp, cycles: 6 },
        0x78 => OpEntry { kind: OpKind::Sei, mode: Mode::Imp, cycles: 2 },
        0x79 => OpEntry { kind: OpKind::Adc, mode: Mode::Aby, cycles: 4 },
        0x7a => OpEntry { kind: OpKind::Nop, mode: Mode::Imp, cycles: 2 },
        0x7b => OpEntry { kind: OpKind::Xxx, mode: Mode::Imp, cycles: 7 },
        0x7c => OpEntry { kind: OpKind::Nop, mode: Mode::Imp, cycles: 4 },
        0x7d => OpEntry { kind: OpKind::Adc, mode: Mode::Abx, cycles: 4 },
        0x7e => OpEntry { kind: OpKind::Ror, mode: Mode::Abx, cycles: 7 },
        0x7f => OpEntry { kind: OpKind::Xxx, mode: Mode::Imp, cycles: 7 },
        0x80 => OpEntry { kind: OpKind::Nop, mode: Mode::Imp, cycles: 2 },
        0x81 => OpEntry { kind: OpKind::Sta, mode: Mode::Izx, cycles: 6 },
        0x82 => OpEntry { kind: OpKind::Nop, mode: Mode::Imp, cycles: 2 },
        0x83 => OpEntry { kind: OpKind::Xxx, mode: Mode::Imp, cycles: 6 },
        0x84 => OpEntry { kind: OpKind::Sty, mode: Mode::Zp0, cycles: 3 },
        0x85 => OpEntry { kind: OpKind::Sta, mode: Mode::Zp0, cycles: 3 },
        0x86 => OpEntry { kind: OpKind::Stx, mode: Mode::Zp0, cycles: 3 },
        0x87 => OpEntry { kind: OpKind::Xxx, mode: Mode::Imp, cycles: 3 },
        0x88 => OpEntry { kind: OpKind::Dey, mode: Mode::Imp, cycles: 2 },
        0x89 => OpEntry { kind: OpKind::Nop, mode: Mode::Imp, cycles: 2 },
        0x8a => OpEntry { kind: OpKind::Txa, mode: Mode::Imp, cycles: 2 },
        0x8b => OpEntry { kind: OpKind::Xxx, mode: Mode::Imp, cycles: 2 },
        0x8c => OpEntry { kind: OpKind::Sty, mode: Mode::Abs, cycles: 4 },
        0x8d => OpEntry { kind: OpKind::Sta, mode: Mode::Abs, cycles: 4 },
        0x8e => OpEntry { kind: OpKind::Stx, mode: Mode::Abs, cycles: 4 },
        0x8f => OpEntry { kind: OpKind::Xxx, mode: Mode::Imp, cycles: 4 },
        0x90 => OpEntry { kind: OpKind::Bcc, mode: Mode::Rel, cycles: 2 },
        0x91 => OpEntry { kind: OpKind::Sta, mode: Mode::Izy, cycles: 6 },
        0x92 => OpEntry { kind: OpKind::Xxx, mode: Mode::Imp, cycles: 2 },
        0x93 => OpEntry { kind: OpKind::Xxx, mode: Mode::Imp, cycles: 6 },
        0x94 => OpEntry { kind: OpKind::Sty, mode: Mode::Zpx, cycles: 4 },
        0x95 => OpEntry { kind: OpKind::Sta, mode: Mode::Zpx, cycles: 4 },
        0x96 => OpEntry { kind: OpKind::Stx, mode: Mode::Zpy, cycles: 4 },
        0x97 => OpEntry { kind: OpKind::Xxx, mode: Mode::Imp, cycles: 4 },
        0x98 => OpEntry { kind: OpKind::Tya, mode: Mode::Imp, cycles: 2 },
        0x99 => OpEntry { kind: OpKind::Sta, mode: Mode::Aby, cycles: 5 },
        0x9a => OpEntry { kind: OpKind::Txs, mode: Mode::Imp, cycles: 2 },
        0x9b => OpEntry { kind: OpKind::Xxx, mode: Mode::Imp, cycles: 5 },
        0x9c => OpEntry { kind: OpKind::Nop, mode: Mode::Imp, cycles: 5 },
        0x9d => OpEntry { kind: OpKind::Sta, mode: Mode::Abx, cycles: 5 },
        0x9e => OpEntry { kind: OpKind::Xxx, mode: Mode::Imp, cycles: 5 },
        0x9f => OpEntry { kind: OpKind::Xxx, mode: Mode::Imp, cycles: 5 },
        0xa0 => OpEntry { kind: OpKind::Ldy, mode: Mode::Imm, cycles: 2 },
        0xa1 => OpEntry { kind: OpKind::Lda, mode: Mode::Izx, cycles: 6 },
        0xa2 => OpEntry { kind: OpKind::Ldx, mode: Mode::Imm, cycles: 2 },
        0xa3 => OpEntry { kind: OpKind::Xxx, mode: Mode::Imp, cycles: 6 },
        0xa4 => OpEntry { kind: OpKind::Ldy, mode: Mode::Zp0, cycles: 3 },
        0xa5 => OpEntry { kind: OpKind::Lda, mode: Mode::Zp0, cycles: 3 },
        0xa6 => OpEntry { kind: OpKind::Ldx, mode: Mode::Zp0, cycles: 3 },
        0xa7 => OpEntry { kind: OpKind::Xxx, mode: Mode::Imp, cycles: 3 },
        0xa8 => OpEntry { kind: OpKind::Tay, mode: Mode::Imp, cycles: 2 },
        0xa9 => OpEntry { kind: OpKind::Lda, mode: Mode::Imm, cycles: 2 },
        0xaa => OpEntry { kind: OpKind::Tax, mode: Mode::Imp, cycles: 2 },
        0xab => OpEntry { kind: OpKind::Xxx, mode: Mode::Imp, cycles: 2 },
        0xac => OpEntry { kind: OpKind::Ldy, mode: Mode::Abs, cycles: 4 },
        0xad => OpEntry { kind: OpKind::Lda, mode: Mode::Abs, cycles: 4 },
        0xae => OpEntry { kind: OpKind::Ldx, mode: Mode::Abs, cycles: 4 },
        0xaf => OpEntry { kind: OpKind::Xxx, mode: Mode::Imp, cycles: 4 },
        0xb0 => OpEntry { kind: OpKind::Bcs, mode: Mode::Rel, cycles: 2 },
        0xb1 => OpEntry { kind: OpKind::Lda, mode: Mode::Izy, cycles: 5 },
        0xb2 => OpEntry { kind: OpKind::Xxx, mode: Mode::Imp, cycles: 2 },
        0xb3 => OpEntry { kind: OpKind::Xxx, mode: Mode::Imp, cycles: 5 },
        0xb4 => OpEntry { kind: OpKind::Ldy, mode: Mode::Zpx, cycles: 4 },
        0xb5 => OpEntry { kind: OpKind::Lda, mode: Mode::Zpx, cycles: 4 },
        0xb6 => OpEntry { kind: OpKind::Ldx, mode: Mode::Zpy, cycles: 4 },
        0xb7 => OpEntry { kind: OpKind::Xxx, mode: Mode::Imp, cycles: 4 },
        0xb8 => OpEntry { kind: OpKind::Clv, mode: Mode::Imp, cycles: 2 },
        0xb9 => OpEntry { kind: OpKind::Lda, mode: Mode::Aby, cycles: 4 },
        0xba => OpEntry { kind: OpKind::Tsx, mode: Mode::Imp, cycles: 2 },
        0xbb => OpEntry { kind: OpKind::Xxx, mode: Mode::Imp, cycles: 4 },
        0xbc => OpEntry { kind: OpKind::Ldy, mode: Mode::Abx, cycles: 4 },
        0xbd => OpEntry { kind: OpKind::Lda, mode: Mode::Abx, cycles: 4 },
        0xbe => OpEntry { kind: OpKind::Ldx, mode: Mode::Aby, cycles: 4 },
        0xbf => OpEntry { kind: OpKind::Xxx, mode: Mode::Imp, cycles: 4 },
        0xc0 => OpEntry { kind: OpKind::Cpy, mode: Mode::Imm, cycles: 2 },
        0xc1 => OpEntry { kind: OpKind::Cmp, mode: Mode::Izx, cycles: 6 },
        0xc2 => OpEntry { kind: OpKind::Nop, mode: Mode::Imp, cycles: 2 },
        0xc3 => OpEntry { kind: OpKind::Xxx, mode: Mode::Imp, cycles: 8 },
        0xc4 => OpEntry { kind: OpKind::Cpy, mode: Mode::Zp0, cycles: 3 },
        0xc5 => OpEntry { kind: OpKind::Cmp, mode: Mode::Zp0, cycles: 3 },
        0xc6 => OpEntry { kind: OpKind::Dec, mode: Mode::Zp0, cycles: 5 },
        0xc7 => OpEntry { kind: OpKind::Xxx, mode: Mode::Imp, cycles: 5 },
        0xc8 => OpEntry { kind: OpKind::Iny, mode: Mode::Imp, cycles: 2 },
        0xc9 => OpEntry { kind: OpKind::Cmp, mode: Mode::Imm, cycles: 2 },
        0xca => OpEntry { kind: OpKind::Dex, mode: Mode::Imp, cycles: 2 },
        0xcb => OpEntry { kind: OpKind::Xxx, mode: Mode::Imp, cycles: 2 },
        0xcc => OpEntry { kind: OpKind::Cpy, mode: Mode::Abs, cycles: 4 },
        0xcd => OpEntry { kind: OpKind::Cmp, mode: Mode::Abs, cycles: 4 },
        0xce => OpEntry { kind: OpKind::Dec, mode: Mode::Abs, cycles: 6 },
        0xcf => OpEntry { kind: OpKind::Xxx, mode: Mode::Imp, cycles: 6 },
        0xd0 => OpEntry { kind: OpKind::Bne, mode: Mode::Rel, cycles: 2 },
        0xd1 => OpEntry { kind: OpKind::Cmp, mode: Mode::Izy, cycles: 5 },
        0xd2 => OpEntry { kind: OpKind::Xxx, mode: Mode::Imp, cycles: 2 },
        0xd3 => OpEntry { kind: OpKind::Xxx, mode: Mode::Imp, cycles: 8 },
        0xd4 => OpEntry { kind: OpKind::Nop, mode: Mode::Imp, cycles: 4 },
        0xd5 => OpEntry { kind: OpKind::Cmp, mode: Mode::Zpx, cycles: 4 },
        0xd6 => OpEntry { kind: OpKind::Dec, mode: Mode::Zpx, cycles: 6 },
        0xd7 => OpEntry { kind: OpKind::Xxx, mode: Mode::Imp, cycles: 6 },
        0xd8 => OpEntry { kind: OpKind::Cld, mode: Mode::Imp, cycles: 2 },
        0xd9 => OpEntry { kind: OpKind::Cmp, mode: Mode::Aby, cycles: 4 },
        0xda => OpEntry { kind: OpKind::Nop, mode: Mode::Imp, cycles: 2 },
        0xdb => OpEntry { kind: OpKind::Xxx, mode: Mode::Imp, cycles: 7 },
        0xdc => OpEntry { kind: OpKind::Nop, mode: Mode::Imp, cycles: 4 },
        0xdd => OpEntry { kind: OpKind::Cmp, mode: Mode::Abx, cycles: 4 },
        0xde => OpEntry { kind: OpKind::Dec, mode: Mode::Abx, cycles: 7 },
        0xdf => OpEntry { kind: OpKind::Xxx, mode: Mode::Imp, cycles: 7 },
        0xe0 => OpEntry { kind: OpKind::Cpx, mode: Mode::Imm, cycles: 2 },
        0xe1 => OpEntry { kind: OpKind::Sbc, mode: Mode::Izx, cycles: 6 },
        0xe2 => OpEntry { kind: OpKind::Nop, mode: Mode::Imp, cycles: 2 },
        0xe3 => OpEntry { kind: OpKind::Xxx, mode: Mode::Imp, cycles: 8 },
        0xe4 => OpEntry { kind: OpKind::Cpx, mode: Mode::Zp0, cycles: 3 },
        0xe5 => OpEntry { kind: OpKind::Sbc, mode: Mode::Zp0, cycles: 3 },
        0xe6 => OpEntry { kind: OpKind::Inc, mode: Mode::Zp0, cycles: 5 },
        0xe7 => OpEntry { kind: OpKind::Xxx, mode: Mode::Imp, cycles: 5 },
        0xe8 => OpEntry { kind: OpKind::Inx, mode: Mode::Imp, cycles: 2 },
        0xe9 => OpEntry { kind: OpKind::Sbc, mode: Mode::Imm, cycles: 2 },
        0xea => OpEntry { kind: OpKind::Nop, mode: Mode::Imp, cycles: 2 },
        0xeb => OpEntry { kind: OpKind::Sbc, mode: Mode::Imp, cycles: 2 },
        0xec => OpEntry { kind: OpKind::Cpx, mode: Mode::Abs, cycles: 4 },
        0xed => OpEntry { kind: OpKind::Sbc, mode: Mode::Abs, cycles: 4 },
        0xee => OpEntry { kind: OpKind::Inc, mode: Mode::Abs, cycles: 6 },
        0xef => OpEntry { kind: OpKind::Xxx, mode: Mode::Imp, cycles: 6 },
        0xf0 => OpEntry { kind: OpKind::Beq, mode: Mode::Rel, cycles: 2 },
        0xf1 => OpEntry { kind: OpKind::Sbc, mode: Mode::Izy, cycles: 5 },
        0xf2 => OpEntry { kind: OpKind::Xxx, mode: Mode::Imp, cycles: 2 },
        0xf3 => OpEntry { kind: OpKind::Xxx, mode: Mode::Imp, cycles: 8 },
        0xf4 => OpEntry { kind: OpKind::Nop, mode: Mode::Imp, cycles: 4 },
        0xf5 => OpEntry { kind: OpKind::Sbc, mode: Mode::Zpx, cycles: 4 },
        0xf6 => OpEntry { kind: OpKind::Inc, mode: Mode::Zpx, cycles: 6 },
        0xf7 => OpEntry { kind: OpKind::Xxx, mode: Mode::Imp, cycles: 6 },
        0xf8 => OpEntry { kind: OpKind::Sed, mode: Mode::Imp, cycles: 2 },
        0xf9 => OpEntry { kind: OpKind::Sbc, mode: Mode::Aby, cycles: 4 },
        0xfa => OpEntry { kind: OpKind::Nop, mode: Mode::Imp, cycles: 2 },
        0xfb => OpEntry { kind: OpKind::Xxx, mode: Mode::Imp, cycles: 7 },
        0xfc => OpEntry { kind: OpKind::Nop, mode: Mode::Imp, cycles: 4 },
        0xfd => OpEntry { kind: OpKind::Sbc, mode: Mode::Abx, cycles: 4 },
        0xfe => OpEntry { kind: OpKind::Inc, mode: Mode::Abx, cycles: 7 },
        _ => OpEntry { kind: OpKind::Xxx, mode: Mode::Imp, cycles: 7 },
    }
}

} // verus!
