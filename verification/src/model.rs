//! The mathematical semantics of the 6502 core: wrapping arithmetic, the
//! packed status byte, the thirteen addressing modes, the fifty-six
//! operations, and the one-instruction step function. Every executable CPU
//! method is proved equal to the corresponding function here.

use vstd::prelude::*;
use crate::bus::DeviceView;
use crate::bus::bus_read;
use crate::bus::bus_write;
use crate::mos6502::AddrModeResult;
use crate::mos6502::Cpu;
use crate::mos6502::FLAG_B;
use crate::mos6502::FLAG_C;
use crate::mos6502::FLAG_I;
use crate::mos6502::FLAG_N;
use crate::mos6502::FLAG_U;
use crate::mos6502::FLAG_V;
use crate::mos6502::FLAG_Z;
use crate::mos6502::Mode;
use crate::mos6502::OpEntry;
use crate::mos6502::OpKind;
use crate::optable::op_entry;

verus! {

/// Addition modulo 256.
pub open spec fn wadd8(a: u8, b: u8) -> u8 {
    ((a + b) % 256) as u8
}

/// Subtraction modulo 256.
pub open spec fn wsub8(a: u8, b: u8) -> u8 {
    ((a + 256 - b) % 256) as u8
}

/// Addition modulo 2^16.
pub open spec fn wadd16(a: u16, b: u16) -> u16 {
    ((a + b) % 0x10000) as u16
}

/// Subtraction modulo 2^16.
pub open spec fn wsub16(a: u16, b: u16) -> u16 {
    ((a + 0x10000 - b) % 0x10000) as u16
}

/// The status byte with the flags in `mask` forced to `on`.
pub open spec fn flag_set(p: u8, mask: u8, on: bool) -> u8 {
    if on {
        p | mask
    } else {
        p & !mask
    }
}

/// Whether any flag in `mask` is set.
pub open spec fn flag_get(p: u8, mask: u8) -> bool {
    p & mask != 0
}

/// The status byte with `Z` set iff `v` is zero and `N` set iff bit 7 of `v`
/// is set; no other flag changes.
pub open spec fn with_zn(p: u8, v: u8) -> u8 {
    flag_set(flag_set(p, FLAG_Z, v == 0), FLAG_N, v & 0x80u8 != 0)
}

/// The carry flag as the number it contributes to additions.
pub open spec fn carry_bit(p: u8) -> u8 {
    if flag_get(p, FLAG_C) {
        1
    } else {
        0
    }
}

/// Where the stack pointer points: page 1, offset `sp`.
pub open spec fn stack_addr(sp: u8) -> u16 {
    (0x0100 + sp) as u16
}

/// A push: the value is written at the stack pointer, which then decrements
/// (wrapping within page 1).
pub open spec fn push_spec(sp: u8, devs: Seq<DeviceView>, v: u8) -> (u8, Seq<DeviceView>) {
    (wsub8(sp, 1), bus_write(devs, stack_addr(sp), v))
}

/// A pop: the stack pointer increments (wrapping), then the value is read at
/// it.
pub open spec fn pop_spec(sp: u8, devs: Seq<DeviceView>) -> (u8, u8) {
    let sp1 = wadd8(sp, 1);
    (sp1, bus_read(devs, stack_addr(sp1)))
}

/// A 16-bit push: high byte first, then low byte.
pub open spec fn push16_spec(sp: u8, devs: Seq<DeviceView>, v: u16) -> (u8, Seq<DeviceView>) {
    let hi = push_spec(sp, devs, (v / 256) as u8);
    push_spec(hi.0, hi.1, (v % 256) as u8)
}

/// A 16-bit pop: low byte first, then high byte.
pub open spec fn pop16_spec(sp: u8, devs: Seq<DeviceView>) -> (u8, u16) {
    let lo = pop_spec(sp, devs);
    let hi = pop_spec(lo.0, devs);
    (hi.0, (hi.1 * 256 + lo.1) as u16)
}

/// One operand byte consumed at the program counter.
pub open spec fn fetch_byte(cpu: Cpu, devs: Seq<DeviceView>) -> (Cpu, u8) {
    (Cpu { pc: wadd16(cpu.pc, 1), ..cpu }, bus_read(devs, cpu.pc))
}

/// The operand value an operation works on: the accumulator in implied
/// mode, the byte at the effective address in memory modes; a relative
/// result is never fetched.
pub open spec fn fetch_spec(cpu: Cpu, devs: Seq<DeviceView>, amr: AddrModeResult) -> u8 {
    match amr {
        AddrModeResult::Imp => cpu.a,
        AddrModeResult::Mem { addr, crossed } => bus_read(devs, addr),
        AddrModeResult::Rel { delta } => 0,
    }
}

/// The page-crossing penalty: one cycle, paid only by page-cross-sensitive
/// operations in a memory mode that crossed a page.
pub open spec fn extra_cycles(amr: AddrModeResult, page_sensitive: bool) -> u8 {
    match amr {
        AddrModeResult::Mem { addr, crossed } => if crossed && page_sensitive {
            1
        } else {
            0
        },
        _ => 0,
    }
}

/// The thirteen addressing modes of the 6502: each consumes
/// its operand bytes at the program counter and yields the addressing-mode
/// result the operation consumes.
pub open spec fn run_mode(m: Mode, cpu: Cpu, devs: Seq<DeviceView>) -> (Cpu, AddrModeResult) {
    match m {
        Mode::Imp => (cpu, AddrModeResult::Imp),
        Mode::Imm => (
            Cpu { pc: wadd16(cpu.pc, 1), ..cpu },
            AddrModeResult::Mem { addr: cpu.pc, crossed: false },
        ),
        Mode::Zp0 => {
            let s = fetch_byte(cpu, devs);
            (s.0, AddrModeResult::Mem { addr: s.1 as u16, crossed: false })
        },
        Mode::Zpx => {
            let s = fetch_byte(cpu, devs);
            (s.0, AddrModeResult::Mem { addr: wadd8(s.1, cpu.x) as u16, crossed: false })
        },
        Mode::Zpy => {
            let s = fetch_byte(cpu, devs);
            (s.0, AddrModeResult::Mem { addr: wadd8(s.1, cpu.y) as u16, crossed: false })
        },
        Mode::Abs => {
            let l = fetch_byte(cpu, devs);
            let h = fetch_byte(l.0, devs);
            (h.0, AddrModeResult::Mem { addr: (h.1 * 256 + l.1) as u16, crossed: false })
        },
        Mode::Abx => {
            let l = fetch_byte(cpu, devs);
            let h = fetch_byte(l.0, devs);
            let base = (h.1 * 256 + l.1) as u16;
            let addr = wadd16(base, cpu.x as u16);
            (
                h.0,
                AddrModeResult::Mem { addr, crossed: (addr & 0xff00) != (base & 0xff00) },
            )
        },
        Mode::Aby => {
            let l = fetch_byte(cpu, devs);
            let h = fetch_byte(l.0, devs);
            let base = (h.1 * 256 + l.1) as u16;
            let addr = wadd16(base, cpu.y as u16);
            (
                h.0,
                AddrModeResult::Mem { addr, crossed: (addr & 0xff00) != (base & 0xff00) },
            )
        },
        Mode::Ind => {
            let l = fetch_byte(cpu, devs);
            let h = fetch_byte(l.0, devs);
            let ptr = (h.1 * 256 + l.1) as u16;
            let lo = bus_read(devs, ptr);
            // The hardware bug: a pointer ending in 0xFF takes its high byte
            // from the start of the same page, not from the next page.
            let hi = if l.1 == 0xff {
                bus_read(devs, ptr & 0xff00)
            } else {
                bus_read(devs, wadd16(ptr, 1))
            };
            (h.0, AddrModeResult::Mem { addr: (hi * 256 + lo) as u16, crossed: false })
        },
        Mode::Izx => {
            let s = fetch_byte(cpu, devs);
            let p = wadd8(s.1, cpu.x);
            let lo = bus_read(devs, p as u16);
            let hi = bus_read(devs, wadd8(p, 1) as u16);
            (s.0, AddrModeResult::Mem { addr: (hi * 256 + lo) as u16, crossed: false })
        },
        Mode::Izy => {
            let s = fetch_byte(cpu, devs);
            let lo = bus_read(devs, s.1 as u16);
            let hi = bus_read(devs, wadd8(s.1, 1) as u16);
            let base = (hi * 256 + lo) as u16;
            let addr = wadd16(base, cpu.y as u16);
            (
                s.0,
                AddrModeResult::Mem { addr, crossed: (addr & 0xff00) != (base & 0xff00) },
            )
        },
        Mode::Rel => {
            let s = fetch_byte(cpu, devs);
            let delta: u16 = if s.1 & 0x80u8 != 0 {
                (s.1 as u16) | 0xff00u16
            } else {
                s.1 as u16
            };
            (s.0, AddrModeResult::Rel { delta })
        },
    }
}

/// Add with carry: `A + M + C`, with carry-out, zero, negative and signed
/// overflow flags.
pub open spec fn adc_core(cpu: Cpu, m: u8) -> Cpu {
    let sum = cpu.a + m + carry_bit(cpu.status);
    let result = (sum % 256) as u8;
    let p1 = flag_set(cpu.status, FLAG_C, sum > 255);
    let p2 = with_zn(p1, result);
    let p3 = flag_set(p2, FLAG_V, ((!(cpu.a ^ m)) & (cpu.a ^ result)) & 0x80u8 != 0);
    Cpu { a: result, status: p3, ..cpu }
}

/// Subtract with borrow: add-with-carry of the bitwise-inverted operand.
pub open spec fn sbc_core(cpu: Cpu, m: u8) -> Cpu {
    adc_core(cpu, m ^ 0xffu8)
}

/// A compare: carry iff the register is at least the operand, zero iff they
/// are equal, negative from bit 7 of the wrapping difference.
pub open spec fn cmp_core(p: u8, reg: u8, m: u8) -> u8 {
    let diff = wsub8(reg, m);
    flag_set(flag_set(flag_set(p, FLAG_C, reg >= m), FLAG_Z, reg == m), FLAG_N, diff & 0x80u8 != 0)
}

/// A branch: when taken, the sign-extended displacement is added to the
/// post-increment program counter, at one extra cycle, or two when the
/// target lies on another page.
pub open spec fn branch_spec(cpu: Cpu, take: bool, amr: AddrModeResult) -> (Cpu, u8) {
    match amr {
        AddrModeResult::Rel { delta } => {
            if take {
                let target = wadd16(cpu.pc, delta);
                let extra: u8 = if (target & 0xff00) != (cpu.pc & 0xff00) {
                    2
                } else {
                    1
                };
                (Cpu { pc: target, ..cpu }, extra)
            } else {
                (cpu, 0)
            }
        },
        _ => (cpu, 0),
    }
}

/// Where a read-modify-write result lands: the accumulator in implied mode,
/// memory in a memory mode.
pub open spec fn rmw_result(
    cpu: Cpu,
    devs: Seq<DeviceView>,
    amr: AddrModeResult,
    res: u8,
    p: u8,
) -> (Cpu, Seq<DeviceView>, u8) {
    match amr {
        AddrModeResult::Imp => (Cpu { a: res, status: p, ..cpu }, devs, 0),
        AddrModeResult::Mem { addr, crossed } => (
            Cpu { status: p, ..cpu },
            bus_write(devs, addr, res),
            0,
        ),
        AddrModeResult::Rel { delta } => (cpu, devs, 0),
    }
}

/// The fifty-six documented operations of the 6502. Given the state
/// after addressing, the bus at instruction start and the addressing-mode
/// result, yields the next CPU state, the next bus state, and the extra
/// cycles the operation pays.
pub open spec fn run_op(
    k: OpKind,
    cpu: Cpu,
    devs: Seq<DeviceView>,
    amr: AddrModeResult,
) -> (Cpu, Seq<DeviceView>, u8) {
    match k {
        OpKind::Lda => {
            let v = fetch_spec(cpu, devs, amr);
            (Cpu { a: v, status: with_zn(cpu.status, v), ..cpu }, devs, extra_cycles(amr, true))
        },
        OpKind::Ldx => {
            let v = fetch_spec(cpu, devs, amr);
            (Cpu { x: v, status: with_zn(cpu.status, v), ..cpu }, devs, extra_cycles(amr, true))
        },
        OpKind::Ldy => {
            let v = fetch_spec(cpu, devs, amr);
            (Cpu { y: v, status: with_zn(cpu.status, v), ..cpu }, devs, extra_cycles(amr, true))
        },
        OpKind::Sta => {
            match amr {
                AddrModeResult::Mem { addr, crossed } => (cpu, bus_write(devs, addr, cpu.a), 0),
                _ => (cpu, devs, 0),
            }
        },
        OpKind::Stx => {
            match amr {
                AddrModeResult::Mem { addr, crossed } => (cpu, bus_write(devs, addr, cpu.x), 0),
                _ => (cpu, devs, 0),
            }
        },
        OpKind::Sty => {
            match amr {
                AddrModeResult::Mem { addr, crossed } => (cpu, bus_write(devs, addr, cpu.y), 0),
                _ => (cpu, devs, 0),
            }
        },
        OpKind::Tax => (
            Cpu { x: cpu.a, status: with_zn(cpu.status, cpu.a), ..cpu },
            devs,
            0,
        ),
        OpKind::Tay => (
            Cpu { y: cpu.a, status: with_zn(cpu.status, cpu.a), ..cpu },
            devs,
            0,
        ),
        OpKind::Tsx => (
            Cpu { x: cpu.sp, status: with_zn(cpu.status, cpu.sp), ..cpu },
            devs,
            0,
        ),
        OpKind::Txa => (
            Cpu { a: cpu.x, status: with_zn(cpu.status, cpu.x), ..cpu },
            devs,
            0,
        ),
        OpKind::Txs => (Cpu { sp: cpu.x, ..cpu }, devs, 0),
        OpKind::Tya => (
            Cpu { a: cpu.y, status: with_zn(cpu.status, cpu.y), ..cpu },
            devs,
            0,
        ),
        OpKind::Pha => {
            let s = push_spec(cpu.sp, devs, cpu.a);
            (Cpu { sp: s.0, ..cpu }, s.1, 0)
        },
        OpKind::Php => {
            let s = push_spec(cpu.sp, devs, cpu.status | FLAG_B | FLAG_U);
            let p = flag_set(flag_set(cpu.status, FLAG_B, false), FLAG_U, false);
            (Cpu { sp: s.0, status: p, ..cpu }, s.1, 0)
        },
        OpKind::Pla => {
            let s = pop_spec(cpu.sp, devs);
            (Cpu { a: s.1, sp: s.0, status: with_zn(cpu.status, s.1), ..cpu }, devs, 0)
        },
        OpKind::Plp => {
            let s = pop_spec(cpu.sp, devs);
            (Cpu { sp: s.0, status: flag_set(s.1, FLAG_U, true), ..cpu }, devs, 0)
        },
        OpKind::Adc => (
            adc_core(cpu, fetch_spec(cpu, devs, amr)),
            devs,
            extra_cycles(amr, true),
        ),
        OpKind::Sbc => (
            sbc_core(cpu, fetch_spec(cpu, devs, amr)),
            devs,
            extra_cycles(amr, true),
        ),
        OpKind::Cmp => (
            Cpu { status: cmp_core(cpu.status, cpu.a, fetch_spec(cpu, devs, amr)), ..cpu },
            devs,
            extra_cycles(amr, true),
        ),
        OpKind::Cpx => (
            Cpu { status: cmp_core(cpu.status, cpu.x, fetch_spec(cpu, devs, amr)), ..cpu },
            devs,
            extra_cycles(amr, true),
        ),
        OpKind::Cpy => (
            Cpu { status: cmp_core(cpu.status, cpu.y, fetch_spec(cpu, devs, amr)), ..cpu },
            devs,
            extra_cycles(amr, true),
        ),
        OpKind::Inc => {
            match amr {
                AddrModeResult::Mem { addr, crossed } => {
                    let v = wadd8(fetch_spec(cpu, devs, amr), 1);
                    (
                        Cpu { status: with_zn(cpu.status, v), ..cpu },
                        bus_write(devs, addr, v),
                        0,
                    )
                },
                _ => (cpu, devs, 0),
            }
        },
        OpKind::Dec => {
            match amr {
                AddrModeResult::Mem { addr, crossed } => {
                    let v = wsub8(fetch_spec(cpu, devs, amr), 1);
                    (
                        Cpu { status: with_zn(cpu.status, v), ..cpu },
                        bus_write(devs, addr, v),
                        0,
                    )
                },
                _ => (cpu, devs, 0),
            }
        },
        OpKind::Inx => {
            let v = wadd8(cpu.x, 1);
            (Cpu { x: v, status: with_zn(cpu.status, v), ..cpu }, devs, 0)
        },
        OpKind::Iny => {
            let v = wadd8(cpu.y, 1);
            (Cpu { y: v, status: with_zn(cpu.status, v), ..cpu }, devs, 0)
        },
        OpKind::Dex => {
            let v = wsub8(cpu.x, 1);
            (Cpu { x: v, status: with_zn(cpu.status, v), ..cpu }, devs, 0)
        },
        OpKind::Dey => {
            let v = wsub8(cpu.y, 1);
            (Cpu { y: v, status: with_zn(cpu.status, v), ..cpu }, devs, 0)
        },
        OpKind::And => {
            let v = cpu.a & fetch_spec(cpu, devs, amr);
            (Cpu { a: v, status: with_zn(cpu.status, v), ..cpu }, devs, extra_cycles(amr, true))
        },
        OpKind::Ora => {
            let v = cpu.a | fetch_spec(cpu, devs, amr);
            (Cpu { a: v, status: with_zn(cpu.status, v), ..cpu }, devs, extra_cycles(amr, true))
        },
        OpKind::Eor => {
            let v = cpu.a ^ fetch_spec(cpu, devs, amr);
            (Cpu { a: v, status: with_zn(cpu.status, v), ..cpu }, devs, extra_cycles(amr, true))
        },
        OpKind::Bit => {
            let m = fetch_spec(cpu, devs, amr);
            let t = cpu.a & m;
            let p = flag_set(
                flag_set(flag_set(cpu.status, FLAG_Z, t == 0), FLAG_N, m & 0x80u8 != 0),
                FLAG_V,
                m & 0x40u8 != 0,
            );
            (Cpu { status: p, ..cpu }, devs, 0)
        },
        OpKind::Asl => {
            match amr {
                AddrModeResult::Rel { delta } => (cpu, devs, 0),
                _ => {
                    let v = fetch_spec(cpu, devs, amr);
                    let res = ((v * 2) % 256) as u8;
                    let p = with_zn(flag_set(cpu.status, FLAG_C, v & 0x80u8 != 0), res);
                    rmw_result(cpu, devs, amr, res, p)
                },
            }
        },
        OpKind::Lsr => {
            match amr {
                AddrModeResult::Rel { delta } => (cpu, devs, 0),
                _ => {
                    let v = fetch_spec(cpu, devs, amr);
                    let res = v / 2;
                    let p = with_zn(flag_set(cpu.status, FLAG_C, v & 0x01u8 != 0), res);
                    rmw_result(cpu, devs, amr, res, p)
                },
            }
        },
        OpKind::Rol => {
            match amr {
                AddrModeResult::Rel { delta } => (cpu, devs, 0),
                _ => {
                    let v = fetch_spec(cpu, devs, amr);
                    let res = ((v * 2 + carry_bit(cpu.status)) % 256) as u8;
                    let p = with_zn(flag_set(cpu.status, FLAG_C, v & 0x80u8 != 0), res);
                    rmw_result(cpu, devs, amr, res, p)
                },
            }
        },
        OpKind::Ror => {
            match amr {
                AddrModeResult::Rel { delta } => (cpu, devs, 0),
                _ => {
                    let v = fetch_spec(cpu, devs, amr);
                    let res = (v / 2 + carry_bit(cpu.status) * 128) as u8;
                    let p = with_zn(flag_set(cpu.status, FLAG_C, v & 0x01u8 != 0), res);
                    rmw_result(cpu, devs, amr, res, p)
                },
            }
        },
        OpKind::Jmp => {
            match amr {
                AddrModeResult::Mem { addr, crossed } => (Cpu { pc: addr, ..cpu }, devs, 0),
                _ => (cpu, devs, 0),
            }
        },
        OpKind::Jsr => {
            match amr {
                AddrModeResult::Mem { addr, crossed } => {
                    let ret = wsub16(cpu.pc, 1);
                    let s = push16_spec(cpu.sp, devs, ret);
                    (Cpu { pc: addr, sp: s.0, ..cpu }, s.1, 0)
                },
                _ => (cpu, devs, 0),
            }
        },
        OpKind::Rts => {
            let s = pop16_spec(cpu.sp, devs);
            (Cpu { pc: wadd16(s.1, 1), sp: s.0, ..cpu }, devs, 0)
        },
        OpKind::Brk => {
            let pc1 = wadd16(cpu.pc, 1);
            let s = push16_spec(cpu.sp, devs, pc1);
            let pb = flag_set(cpu.status, FLAG_B, true);
            let s2 = push_spec(s.0, s.1, pb);
            let p = flag_set(flag_set(pb, FLAG_B, false), FLAG_I, true);
            let lo = bus_read(s2.1, 0xfffe);
            let hi = bus_read(s2.1, 0xffff);
            (Cpu { pc: (hi * 256 + lo) as u16, sp: s2.0, status: p, ..cpu }, s2.1, 0)
        },
        OpKind::Rti => {
            let s = pop_spec(cpu.sp, devs);
            let p = flag_set(flag_set(s.1, FLAG_B, false), FLAG_U, false);
            let s2 = pop16_spec(s.0, devs);
            (Cpu { pc: s2.1, sp: s2.0, status: p, ..cpu }, devs, 0)
        },
        OpKind::Bcc => {
            let b = branch_spec(cpu, !flag_get(cpu.status, FLAG_C), amr);
            (b.0, devs, b.1)
        },
        OpKind::Bcs => {
            let b = branch_spec(cpu, flag_get(cpu.status, FLAG_C), amr);
            (b.0, devs, b.1)
        },
        OpKind::Beq => {
            let b = branch_spec(cpu, flag_get(cpu.status, FLAG_Z), amr);
            (b.0, devs, b.1)
        },
        OpKind::Bne => {
            let b = branch_spec(cpu, !flag_get(cpu.status, FLAG_Z), amr);
            (b.0, devs, b.1)
        },
        OpKind::Bmi => {
            let b = branch_spec(cpu, flag_get(cpu.status, FLAG_N), amr);
            (b.0, devs, b.1)
        },
        OpKind::Bpl => {
            let b = branch_spec(cpu, !flag_get(cpu.status, FLAG_N), amr);
            (b.0, devs, b.1)
        },
        OpKind::Bvc => {
            let b = branch_spec(cpu, !flag_get(cpu.status, FLAG_V), amr);
            (b.0, devs, b.1)
        },
        OpKind::Bvs => {
            let b = branch_spec(cpu, flag_get(cpu.status, FLAG_V), amr);
            (b.0, devs, b.1)
        },
        OpKind::Clc => (Cpu { status: flag_set(cpu.status, FLAG_C, false), ..cpu }, devs, 0),
        OpKind::Cld => (
            Cpu { status: flag_set(cpu.status, crate::mos6502::FLAG_D, false), ..cpu },
            devs,
            0,
        ),
        OpKind::Cli => (Cpu { status: flag_set(cpu.status, FLAG_I, false), ..cpu }, devs, 0),
        OpKind::Clv => (Cpu { status: flag_set(cpu.status, FLAG_V, false), ..cpu }, devs, 0),
        OpKind::Sec => (Cpu { status: flag_set(cpu.status, FLAG_C, true), ..cpu }, devs, 0),
        OpKind::Sed => (
            Cpu { status: flag_set(cpu.status, crate::mos6502::FLAG_D, true), ..cpu },
            devs,
            0,
        ),
        OpKind::Sei => (Cpu { status: flag_set(cpu.status, FLAG_I, true), ..cpu }, devs, 0),
        OpKind::Nop => (cpu, devs, 0),
        OpKind::Xxx => (cpu, devs, 0),
    }
}

/// One whole instruction: fetch the opcode, decode it, run the addressing
/// mode, run the operation, and charge the remaining cycle budget
/// (`base + extra - 1`; the fetch tick itself is the first cycle).
#[verifier::opaque]
pub open spec fn instr_step(cpu: Cpu, devs: Seq<DeviceView>) -> (Cpu, Seq<DeviceView>) {
    let opcode = bus_read(devs, cpu.pc);
    let e = op_entry(opcode);
    let cpu1 = Cpu { pc: wadd16(cpu.pc, 1), ..cpu };
    let m = run_mode(e.mode, cpu1, devs);
    let o = run_op(e.kind, m.0, devs, m.1);
    (Cpu { wait: (e.cycles + o.2 - 1) as u8, ..o.0 }, o.1)
}

/// The extra cycles the instruction at the program counter pays, along the
/// same decoding as `instr_step`.
pub open spec fn instr_extra(cpu: Cpu, devs: Seq<DeviceView>) -> u8 {
    let opcode = bus_read(devs, cpu.pc);
    let e = op_entry(opcode);
    let cpu1 = Cpu { pc: wadd16(cpu.pc, 1), ..cpu };
    let m = run_mode(e.mode, cpu1, devs);
    run_op(e.kind, m.0, devs, m.1).2
}

/// One machine cycle: an in-flight instruction pays one wait cycle;
/// otherwise the next instruction executes in full.
pub open spec fn cpu_clock_spec(cpu: Cpu, devs: Seq<DeviceView>) -> (Cpu, Seq<DeviceView>) {
    if cpu.wait > 0 {
        (Cpu { wait: (cpu.wait - 1) as u8, ..cpu }, devs)
    } else {
        instr_step(cpu, devs)
    }
}

/// The state after a reset: registers cleared, stack pointer `0xFD`, only
/// `U` set in the status byte, the program counter loaded from the reset
/// vector, and 8 cycles charged.
pub open spec fn reset_spec(cpu: Cpu, devs: Seq<DeviceView>) -> Cpu {
    let lo = bus_read(devs, 0xfffc);
    let hi = bus_read(devs, 0xfffd);
    Cpu { a: 0, x: 0, y: 0, pc: (hi * 256 + lo) as u16, sp: 0xfd, status: 0x20, wait: 8 }
}

/// An interrupt: the program counter and the status byte (`B` clear, `U`
/// set, `I` set) are pushed, and the program counter is loaded from the
/// handler vector.
pub open spec fn interrupt_spec(cpu: Cpu, devs: Seq<DeviceView>, vector: u16, wait: u8) -> (
    Cpu,
    Seq<DeviceView>,
) {
    let s = push16_spec(cpu.sp, devs, cpu.pc);
    let pushed = flag_set(flag_set(cpu.status, FLAG_B, false), FLAG_U, true);
    let s2 = push_spec(s.0, s.1, pushed);
    let p = flag_set(pushed, FLAG_I, true);
    let lo = bus_read(s2.1, vector);
    let hi = bus_read(s2.1, wadd16(vector, 1));
    (Cpu { pc: (hi * 256 + lo) as u16, sp: s2.0, status: p, wait, ..cpu }, s2.1)
}

/// A maskable interrupt: taken through `0xFFFE/0xFFFF` at 7 cycles unless
/// the `I` flag masks it.
pub open spec fn irq_spec(cpu: Cpu, devs: Seq<DeviceView>) -> (Cpu, Seq<DeviceView>) {
    if flag_get(cpu.status, FLAG_I) {
        (cpu, devs)
    } else {
        interrupt_spec(cpu, devs, 0xfffe, 7)
    }
}

/// The non-maskable interrupt: unconditional, through `0xFFFA/0xFFFB`, at 8
/// cycles.
pub open spec fn nmi_spec(cpu: Cpu, devs: Seq<DeviceView>) -> (Cpu, Seq<DeviceView>) {
    interrupt_spec(cpu, devs, 0xfffa, 8)
}

} // verus!
