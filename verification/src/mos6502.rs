//! The MOS 6502 CPU interpreter. `clock` advances exactly one machine
//! cycle: an in-flight instruction pays down its wait counter; otherwise the
//! next opcode is fetched, decoded through the 256-entry table, and executed
//! in full, with the remaining cycle budget charged to the wait counter.
//! Every method is proved equal to its counterpart in the semantic model.

use vstd::prelude::*;
use crate::bus::Bus;
use crate::bus::bus_wf;
use crate::model::adc_core;
use crate::model::branch_spec;
use crate::model::carry_bit;
use crate::model::cmp_core;
use crate::model::cpu_clock_spec;
use crate::model::extra_cycles;
use crate::model::fetch_spec;
use crate::model::flag_get;
use crate::model::flag_set;
use crate::model::instr_step;
use crate::model::irq_spec;
use crate::model::nmi_spec;
use crate::model::pop16_spec;
use crate::model::pop_spec;
use crate::model::push16_spec;
use crate::model::push_spec;
use crate::model::reset_spec;
use crate::model::run_mode;
use crate::model::run_op;
use crate::model::sbc_core;
use crate::model::wadd16;
use crate::model::wadd8;
use crate::model::with_zn;
use crate::model::wsub16;
use crate::model::wsub8;
use crate::optable::lookup;
use crate::optable::op_entry;

verus! {

/// Carry.
pub const FLAG_C: u8 = 0x01;

/// Zero.
pub const FLAG_Z: u8 = 0x02;

/// Interrupt disable.
pub const FLAG_I: u8 = 0x04;

/// Decimal mode; settable, but arithmetic ignores it on this hardware.
pub const FLAG_D: u8 = 0x08;

/// Break.
pub const FLAG_B: u8 = 0x10;

/// Unused; forced to one when the status byte is consulted architecturally.
pub const FLAG_U: u8 = 0x20;

/// Signed overflow.
pub const FLAG_V: u8 = 0x40;

/// Negative.
pub const FLAG_N: u8 = 0x80;

/// What an addressing mode hands the operation.
#[derive(Clone, Copy, PartialEq, Eq, Structural, Debug)]
pub enum AddrModeResult {
    /// No operand: the operation, if it needs a value, works on `A`.
    Imp,
    /// A 16-bit effective address, with the page-crossed penalty marker.
    Mem { addr: u16, crossed: bool },
    /// A signed 8-bit displacement sign-extended to 16 bits; consumed only
    /// by branches.
    Rel { delta: u16 },
}

/// An addressing mode of the dispatch table.
#[derive(Clone, Copy, PartialEq, Eq, Structural, Debug)]
pub enum Mode {
    Imp,
    Imm,
    Zp0,
    Zpx,
    Zpy,
    Abs,
    Abx,
    Aby,
    Ind,
    Izx,
    Izy,
    Rel,
}

/// An operation of the dispatch table; `Xxx` is the halt-proof filler for
/// undocumented slots.
#[derive(Clone, Copy, PartialEq, Eq, Structural, Debug)]
pub enum OpKind {
    Adc,
    And,
    Asl,
    Bcc,
    Bcs,
    Beq,
    Bit,
    Bmi,
    Bne,
    Bpl,
    Brk,
    Bvc,
    Bvs,
    Clc,
    Cld,
    Cli,
    Clv,
    Cmp,
    Cpx,
    Cpy,
    Dec,
    Dex,
    Dey,
    Eor,
    Inc,
    Inx,
    Iny,
    Jmp,
    Jsr,
    Lda,
    Ldx,
    Ldy,
    Lsr,
    Nop,
    Ora,
    Pha,
    Php,
    Pla,
    Plp,
    Rol,
    Ror,
    Rti,
    Rts,
    Sbc,
    Sec,
    Sed,
    Sei,
    Sta,
    Stx,
    Sty,
    Tax,
    Tay,
    Tsx,
    Txa,
    Txs,
    Tya,
    Xxx,
}

/// One slot of the dispatch table.
#[derive(Clone, Copy, PartialEq, Eq, Structural, Debug)]
pub struct OpEntry {
    pub kind: OpKind,
    pub mode: Mode,
    pub cycles: u8,
}

/// The architectural state of the 6502.
#[derive(Clone, Copy, PartialEq, Eq, Structural, Debug)]
pub struct Cpu {
    pub a: u8,
    pub x: u8,
    pub y: u8,
    pub pc: u16,
    pub sp: u8,
    pub status: u8,
    pub wait: u8,
}

/// Addition modulo 256.
pub fn wrapping_add8(a: u8, b: u8) -> (r: u8)
    ensures
        r == wadd8(a, b),
{
    (((a as u16) + (b as u16)) % 256) as u8
}

/// Subtraction modulo 256.
pub fn wrapping_sub8(a: u8, b: u8) -> (r: u8)
    ensures
        r == wsub8(a, b),
{
    (((a as u16) + 256 - (b as u16)) % 256) as u8
}

/// Addition modulo 2^16.
pub fn wrapping_add16(a: u16, b: u16) -> (r: u16)
    ensures
        r == wadd16(a, b),
{
    (((a as u32) + (b as u32)) % 0x10000) as u16
}

/// Subtraction modulo 2^16.
pub fn wrapping_sub16(a: u16, b: u16) -> (r: u16)
    ensures
        r == wsub16(a, b),
{
    (((a as u32) + 0x10000 - (b as u32)) % 0x10000) as u16
}

impl Cpu {
    /// A freshly constructed CPU: registers zeroed, stack pointer `0xFD`,
    /// status cleared, no cycles owed.
    pub fn new() -> (c: Cpu)
        ensures
            c == (Cpu { a: 0, x: 0, y: 0, pc: 0, sp: 0xfd, status: 0, wait: 0 }),
    {
        Cpu { a: 0, x: 0, y: 0, pc: 0, sp: 0xfd, status: 0, wait: 0 }
    }

    /// Clocks through the in-flight instruction's remaining wait cycles,
    /// then executes one whole instruction.
    pub fn next_inst(&mut self, bus: &mut Bus)
        requires
            bus_wf(old(bus)@),
        ensures
            bus_wf(final(bus)@),
            *final(self) == instr_step((Cpu { wait: 0, ..*old(self) }), old(bus)@).0,
            final(bus)@ == instr_step((Cpu { wait: 0, ..*old(self) }), old(bus)@).1,
    {
        while self.wait > 0
            invariant
                bus_wf(bus@),
                bus@ == old(bus)@,
                *self == (Cpu { wait: self.wait, ..*old(self) }),
            decreases self.wait,
        {
            self.clock(bus);
        }
        self.clock(bus);
    }

    /// Advances exactly one machine cycle, as `cpu_clock_spec` describes: an
    /// in-flight instruction pays one wait cycle; otherwise the next
    /// instruction is fetched through the dispatch table and executed, and
    /// `wait` becomes `baseCycles + extraCycles - 1`.
    pub fn clock(&mut self, bus: &mut Bus)
        requires
            bus_wf(old(bus)@),
        ensures
            bus_wf(final(bus)@),
            *final(self) == cpu_clock_spec(*old(self), old(bus)@).0,
            final(bus)@ == cpu_clock_spec(*old(self), old(bus)@).1,
    {
        proof {
            reveal(instr_step);
        }
        if self.wait > 0 {
            self.wait = self.wait - 1;
        } else {
            let opcode = bus.read(self.pc);
            self.pc = wrapping_add16(self.pc, 1);
            let e = lookup(opcode);
            let amr = self.run_mode_exec(bus, e.mode);
            let extra = self.run_op_exec(bus, e.kind, amr);
            self.wait = e.cycles + extra - 1;
        }
    }

    /// Re-initializes the architectural state and loads the program counter
    /// from the reset vector at `0xFFFC/0xFFFD`; callable at any time.
    pub fn reset(&mut self, bus: &Bus)
        requires
            bus_wf(bus@),
        ensures
            *final(self) == reset_spec(*old(self), bus@),
    {
        let lo = bus.read(0xfffc);
        let hi = bus.read(0xfffd);
        self.pc = (hi as u16) * 256 + (lo as u16);
        self.a = 0;
        self.x = 0;
        self.y = 0;
        self.sp = 0xfd;
        self.status = 0x00;
        self.set_flag(FLAG_U, true);
        self.wait = 8;
        assert(0x00u8 | 0x20u8 == 0x20u8) by (bit_vector);
    }

    /// A maskable interrupt: a no-op while `I` is set; otherwise the program
    /// counter and status are saved and the handler at `0xFFFE/0xFFFF` is
    /// entered, at 7 cycles.
    pub fn irq(&mut self, bus: &mut Bus)
        requires
            bus_wf(old(bus)@),
        ensures
            bus_wf(final(bus)@),
            *final(self) == irq_spec(*old(self), old(bus)@).0,
            final(bus)@ == irq_spec(*old(self), old(bus)@).1,
    {
        if !self.get_flag(FLAG_I) {
            let pc = self.pc;
            self.push16(bus, pc);

            self.set_flag(FLAG_B, false);
            self.set_flag(FLAG_U, true);
            let st = self.status;
            self.push(bus, st);
            self.set_flag(FLAG_I, true);

            let lo = bus.read(0xfffe);
            let hi = bus.read(0xffff);
            self.pc = (hi as u16) * 256 + (lo as u16);
            self.wait = 7;
        }
    }

    /// The non-maskable interrupt: like `irq`, but unconditional, through
    /// `0xFFFA/0xFFFB`, at 8 cycles.
    pub fn nmi(&mut self, bus: &mut Bus)
        requires
            bus_wf(old(bus)@),
        ensures
            bus_wf(final(bus)@),
            *final(self) == nmi_spec(*old(self), old(bus)@).0,
            final(bus)@ == nmi_spec(*old(self), old(bus)@).1,
    {
        let pc = self.pc;
        self.push16(bus, pc);

        self.set_flag(FLAG_B, false);
        self.set_flag(FLAG_U, true);
        let st = self.status;
        self.push(bus, st);
        self.set_flag(FLAG_I, true);

        let lo = bus.read(0xfffa);
        let hi = bus.read(0xfffb);
        self.pc = (hi as u16) * 256 + (lo as u16);
        self.wait = 8;
    }

    /// Writes the value at the stack pointer in page 1, then decrements the
    /// stack pointer, wrapping within the page.
    fn push(&mut self, bus: &mut Bus, value: u8)
        requires
            bus_wf(old(bus)@),
        ensures
            bus_wf(final(bus)@),
            *final(self) == (Cpu { sp: push_spec(old(self).sp, old(bus)@, value).0, ..*old(self) }),
            final(bus)@ == push_spec(old(self).sp, old(bus)@, value).1,
    {
        bus.write(0x0100 + (self.sp as u16), value);
        self.sp = wrapping_sub8(self.sp, 1);
    }

    /// Increments the stack pointer, wrapping within page 1, then reads the
    /// value there.
    fn pop(&mut self, bus: &Bus) -> (v: u8)
        requires
            bus_wf(bus@),
        ensures
            *final(self) == (Cpu { sp: pop_spec(old(self).sp, bus@).0, ..*old(self) }),
            v == pop_spec(old(self).sp, bus@).1,
    {
        self.sp = wrapping_add8(self.sp, 1);
        bus.read(0x0100 + (self.sp as u16))
    }

    /// Pushes a 16-bit value, high byte first.
    fn push16(&mut self, bus: &mut Bus, value: u16)
        requires
            bus_wf(old(bus)@),
        ensures
            bus_wf(final(bus)@),
            *final(self) == (Cpu {
                sp: push16_spec(old(self).sp, old(bus)@, value).0,
                ..*old(self)
            }),
            final(bus)@ == push16_spec(old(self).sp, old(bus)@, value).1,
    {
        self.push(bus, (value / 256) as u8);
        self.push(bus, (value % 256) as u8);
    }

    /// Pops a 16-bit value, low byte first.
    fn pop16(&mut self, bus: &Bus) -> (v: u16)
        requires
            bus_wf(bus@),
        ensures
            *final(self) == (Cpu { sp: pop16_spec(old(self).sp, bus@).0, ..*old(self) }),
            v == pop16_spec(old(self).sp, bus@).1,
    {
        let lo = self.pop(bus);
        let hi = self.pop(bus);
        (hi as u16) * 256 + (lo as u16)
    }

    /// Forces the flags in `mask` to `value`.
    fn set_flag(&mut self, mask: u8, value: bool)
        ensures
            *final(self) == (Cpu { status: flag_set(old(self).status, mask, value), ..*old(self) }),
    {
        if value {
            self.status = self.status | mask;
        } else {
            self.status = self.status & !mask;
        }
    }

    /// Whether any flag in `mask` is set.
    fn get_flag(&self, mask: u8) -> (r: bool)
        ensures
            r == flag_get(self.status, mask),
    {
        self.status & mask != 0
    }

    /// The operand value for an operation, per the fetch rule: `A` in
    /// implied mode, the byte at the effective address in memory modes.
    fn fetch(&self, bus: &Bus, amr: AddrModeResult) -> (v: u8)
        requires
            bus_wf(bus@),
        ensures
            v == fetch_spec(*self, bus@, amr),
    {
        match amr {
            AddrModeResult::Imp => self.a,
            AddrModeResult::Mem { addr, crossed } => bus.read(addr),
            AddrModeResult::Rel { delta } => 0,
        }
    }

    /// The page-crossing penalty this operation pays for this addressing
    /// result.
    fn additional_cycles(&self, amr: AddrModeResult, page_sensitive: bool) -> (r: u8)
        ensures
            r == extra_cycles(amr, page_sensitive),
            r <= 1,
    {
        match amr {
            AddrModeResult::Mem { addr, crossed } => {
                if crossed && page_sensitive {
                    1
                } else {
                    0
                }
            },
            _ => 0,
        }
    }

    /// Dispatches to the addressing-mode handler named by the table.
    fn run_mode_exec(&mut self, bus: &Bus, m: Mode) -> (r: AddrModeResult)
        requires
            bus_wf(bus@),
        ensures
            *final(self) == run_mode(m, *old(self), bus@).0,
            r == run_mode(m, *old(self), bus@).1,
    {
        match m {
            Mode::Imp => self.imp(),
            Mode::Imm => self.imm(),
            Mode::Zp0 => self.zp0(bus),
            Mode::Zpx => self.zpx(bus),
            Mode::Zpy => self.zpy(bus),
            Mode::Abs => self.abs(bus),
            Mode::Abx => self.abx(bus),
            Mode::Aby => self.aby(bus),
            Mode::Ind => self.ind(bus),
            Mode::Izx => self.izx(bus),
            Mode::Izy => self.izy(bus),
            Mode::Rel => self.rel(bus),
        }
    }

    /// Implied or accumulator addressing: no operand.
    fn imp(&mut self) -> (r: AddrModeResult)
        ensures
            *final(self) == *old(self),
            r == AddrModeResult::Imp,
    {
        AddrModeResult::Imp
    }

    /// Immediate addressing: the operand byte itself, at the program
    /// counter.
    fn imm(&mut self) -> (r: AddrModeResult)
        ensures
            *final(self) == (Cpu { pc: wadd16(old(self).pc, 1), ..*old(self) }),
            r == (AddrModeResult::Mem { addr: old(self).pc, crossed: false }),
    {
        let r = AddrModeResult::Mem { addr: self.pc, crossed: false };
        self.pc = wrapping_add16(self.pc, 1);
        r
    }

    /// Zero-page addressing: one operand byte names the address.
    fn zp0(&mut self, bus: &Bus) -> (r: AddrModeResult)
        requires
            bus_wf(bus@),
        ensures
            *final(self) == run_mode(Mode::Zp0, *old(self), bus@).0,
            r == run_mode(Mode::Zp0, *old(self), bus@).1,
    {
        let addr = bus.read(self.pc);
        self.pc = wrapping_add16(self.pc, 1);
        AddrModeResult::Mem { addr: addr as u16, crossed: false }
    }

    /// Zero-page addressing indexed by `X`, wrapping within the page.
    fn zpx(&mut self, bus: &Bus) -> (r: AddrModeResult)
        requires
            bus_wf(bus@),
        ensures
            *final(self) == run_mode(Mode::Zpx, *old(self), bus@).0,
            r == run_mode(Mode::Zpx, *old(self), bus@).1,
    {
        let operand = bus.read(self.pc);
        self.pc = wrapping_add16(self.pc, 1);
        AddrModeResult::Mem { addr: wrapping_add8(operand, self.x) as u16, crossed: false }
    }

    /// Zero-page addressing indexed by `Y`, wrapping within the page.
    fn zpy(&mut self, bus: &Bus) -> (r: AddrModeResult)
        requires
            bus_wf(bus@),
        ensures
            *final(self) == run_mode(Mode::Zpy, *old(self), bus@).0,
            r == run_mode(Mode::Zpy, *old(self), bus@).1,
    {
        let operand = bus.read(self.pc);
        self.pc = wrapping_add16(self.pc, 1);
        AddrModeResult::Mem { addr: wrapping_add8(operand, self.y) as u16, crossed: false }
    }

    /// Absolute addressing: a little-endian 16-bit address.
    fn abs(&mut self, bus: &Bus) -> (r: AddrModeResult)
        requires
            bus_wf(bus@),
        ensures
            *final(self) == run_mode(Mode::Abs, *old(self), bus@).0,
            r == run_mode(Mode::Abs, *old(self), bus@).1,
    {
        let lo = bus.read(self.pc);
        self.pc = wrapping_add16(self.pc, 1);
        let hi = bus.read(self.pc);
        self.pc = wrapping_add16(self.pc, 1);
        AddrModeResult::Mem { addr: (hi as u16) * 256 + (lo as u16), crossed: false }
    }

    /// Absolute addressing indexed by `X`; crossing a page costs the
    /// page-cross-sensitive operations one cycle.
    fn abx(&mut self, bus: &Bus) -> (r: AddrModeResult)
        requires
            bus_wf(bus@),
        ensures
            *final(self) == run_mode(Mode::Abx, *old(self), bus@).0,
            r == run_mode(Mode::Abx, *old(self), bus@).1,
    {
        let lo = bus.read(self.pc);
        self.pc = wrapping_add16(self.pc, 1);
        let hi = bus.read(self.pc);
        self.pc = wrapping_add16(self.pc, 1);
        let base = (hi as u16) * 256 + (lo as u16);
        let addr = wrapping_add16(base, self.x as u16);
        AddrModeResult::Mem { addr, crossed: (addr & 0xff00) != (base & 0xff00) }
    }

    /// Absolute addressing indexed by `Y`; crossing a page costs the
    /// page-cross-sensitive operations one cycle.
    fn aby(&mut self, bus: &Bus) -> (r: AddrModeResult)
        requires
            bus_wf(bus@),
        ensures
            *final(self) == run_mode(Mode::Aby, *old(self), bus@).0,
            r == run_mode(Mode::Aby, *old(self), bus@).1,
    {
        let lo = bus.read(self.pc);
        self.pc = wrapping_add16(self.pc, 1);
        let hi = bus.read(self.pc);
        self.pc = wrapping_add16(self.pc, 1);
        let base = (hi as u16) * 256 + (lo as u16);
        let addr = wrapping_add16(base, self.y as u16);
        AddrModeResult::Mem { addr, crossed: (addr & 0xff00) != (base & 0xff00) }
    }

    /// Indirect addressing, with the hardware bug: a pointer whose low byte
    /// is `0xFF` takes its high byte from the start of the same page.
    fn ind(&mut self, bus: &Bus) -> (r: AddrModeResult)
        requires
            bus_wf(bus@),
        ensures
            *final(self) == run_mode(Mode::Ind, *old(self), bus@).0,
            r == run_mode(Mode::Ind, *old(self), bus@).1,
    {
        let ptr_lo = bus.read(self.pc);
        self.pc = wrapping_add16(self.pc, 1);
        let ptr_hi = bus.read(self.pc);
        self.pc = wrapping_add16(self.pc, 1);
        let ptr = (ptr_hi as u16) * 256 + (ptr_lo as u16);
        let lo = bus.read(ptr);
        let hi = if ptr_lo == 0xff {
            bus.read(ptr & 0xff00)
        } else {
            bus.read(wrapping_add16(ptr, 1))
        };
        AddrModeResult::Mem { addr: (hi as u16) * 256 + (lo as u16), crossed: false }
    }

    /// Indexed indirect addressing: the operand plus `X` names a zero-page
    /// pointer, wrapping within the page.
    fn izx(&mut self, bus: &Bus) -> (r: AddrModeResult)
        requires
            bus_wf(bus@),
        ensures
            *final(self) == run_mode(Mode::Izx, *old(self), bus@).0,
            r == run_mode(Mode::Izx, *old(self), bus@).1,
    {
        let operand = bus.read(self.pc);
        self.pc = wrapping_add16(self.pc, 1);
        let p = wrapping_add8(operand, self.x);
        let lo = bus.read(p as u16);
        let hi = bus.read(wrapping_add8(p, 1) as u16);
        AddrModeResult::Mem { addr: (hi as u16) * 256 + (lo as u16), crossed: false }
    }

    /// Indirect indexed addressing: the operand names a zero-page pointer
    /// and `Y` is added to the address found there; crossing a page costs
    /// one cycle.
    fn izy(&mut self, bus: &Bus) -> (r: AddrModeResult)
        requires
            bus_wf(bus@),
        ensures
            *final(self) == run_mode(Mode::Izy, *old(self), bus@).0,
            r == run_mode(Mode::Izy, *old(self), bus@).1,
    {
        let operand = bus.read(self.pc);
        self.pc = wrapping_add16(self.pc, 1);
        let lo = bus.read(operand as u16);
        let hi = bus.read(wrapping_add8(operand, 1) as u16);
        let base = (hi as u16) * 256 + (lo as u16);
        let addr = wrapping_add16(base, self.y as u16);
        AddrModeResult::Mem { addr, crossed: (addr & 0xff00) != (base & 0xff00) }
    }

    /// Relative addressing: one operand byte, sign-extended to a 16-bit
    /// displacement for branches.
    fn rel(&mut self, bus: &Bus) -> (r: AddrModeResult)
        requires
            bus_wf(bus@),
        ensures
            *final(self) == run_mode(Mode::Rel, *old(self), bus@).0,
            r == run_mode(Mode::Rel, *old(self), bus@).1,
    {
        let v = bus.read(self.pc);
        self.pc = wrapping_add16(self.pc, 1);
        let delta: u16 = if v & 0x80 != 0 {
            (v as u16) | 0xff00
        } else {
            v as u16
        };
        AddrModeResult::Rel { delta }
    }

    /// A branch: taken when `take` holds, at one extra cycle, or two when
    /// the target lies on another page than the post-increment program
    /// counter.
    fn branch_on(&mut self, take: bool, amr: AddrModeResult) -> (extra: u8)
        ensures
            *final(self) == branch_spec(*old(self), take, amr).0,
            extra == branch_spec(*old(self), take, amr).1,
            extra <= 2,
    {
        match amr {
            AddrModeResult::Rel { delta } => {
                if take {
                    let target = wrapping_add16(self.pc, delta);
                    let extra: u8 = if (target & 0xff00) != (self.pc & 0xff00) {
                        2
                    } else {
                        1
                    };
                    self.pc = target;
                    extra
                } else {
                    0
                }
            },
            _ => 0,
        }
    }

    /// Dispatches to the operation handler named by the table.
    fn run_op_exec(&mut self, bus: &mut Bus, k: OpKind, amr: AddrModeResult) -> (extra: u8)
        requires
            bus_wf(old(bus)@),
        ensures
            bus_wf(final(bus)@),
            *final(self) == run_op(k, *old(self), old(bus)@, amr).0,
            final(bus)@ == run_op(k, *old(self), old(bus)@, amr).1,
            extra == run_op(k, *old(self), old(bus)@, amr).2,
            extra <= 2,
    {
        match k {
            OpKind::Lda => self.lda(bus, amr),
            OpKind::Ldx => self.ldx(bus, amr),
            OpKind::Ldy => self.ldy(bus, amr),
            OpKind::Sta => self.sta(bus, amr),
            OpKind::Stx => self.stx(bus, amr),
            OpKind::Sty => self.sty(bus, amr),
            OpKind::Tax => self.tax(bus, amr),
            OpKind::Tay => self.tay(bus, amr),
            OpKind::Tsx => self.tsx(bus, amr),
            OpKind::Txa => self.txa(bus, amr),
            OpKind::Txs => self.txs(bus, amr),
            OpKind::Tya => self.tya(bus, amr),
            OpKind::Pha => self.pha(bus, amr),
            OpKind::Php => self.php(bus, amr),
            OpKind::Pla => self.pla(bus, amr),
            OpKind::Plp => self.plp(bus, amr),
            OpKind::Adc => self.adc(bus, amr),
            OpKind::Sbc => self.sbc(bus, amr),
            OpKind::Cmp => self.cmp(bus, amr),
            OpKind::Cpx => self.cpx(bus, amr),
            OpKind::Cpy => self.cpy(bus, amr),
            OpKind::Inc => self.inc(bus, amr),
            OpKind::Dec => self.dec(bus, amr),
            OpKind::Inx => self.inx(bus, amr),
            OpKind::Iny => self.iny(bus, amr),
            OpKind::Dex => self.dex(bus, amr),
            OpKind::Dey => self.dey(bus, amr),
            OpKind::And => self.and(bus, amr),
            OpKind::Ora => self.ora(bus, amr),
            OpKind::Eor => self.eor(bus, amr),
            OpKind::Bit => self.bit(bus, amr),
            OpKind::Asl => self.asl(bus, amr),
            OpKind::Lsr => self.lsr(bus, amr),
            OpKind::Rol => self.rol(bus, amr),
            OpKind::Ror => self.ror(bus, amr),
            OpKind::Jmp => self.jmp(bus, amr),
            OpKind::Jsr => self.jsr(bus, amr),
            OpKind::Rts => self.rts(bus, amr),
            OpKind::Brk => self.brk(bus, amr),
            OpKind::Rti => self.rti(bus, amr),
            OpKind::Bcc => self.bcc(bus, amr),
            OpKind::Bcs => self.bcs(bus, amr),
            OpKind::Beq => self.beq(bus, amr),
            OpKind::Bne => self.bne(bus, amr),
            OpKind::Bmi => self.bmi(bus, amr),
            OpKind::Bpl => self.bpl(bus, amr),
            OpKind::Bvc => self.bvc(bus, amr),
            OpKind::Bvs => self.bvs(bus, amr),
            OpKind::Clc => self.clc(bus, amr),
            OpKind::Cld => self.cld(bus, amr),
            OpKind::Cli => self.cli(bus, amr),
            OpKind::Clv => self.clv(bus, amr),
            OpKind::Sec => self.sec(bus, amr),
            OpKind::Sed => self.sed(bus, amr),
            OpKind::Sei => self.sei(bus, amr),
            OpKind::Nop => self.nop(bus, amr),
            OpKind::Xxx => self.xxx(bus, amr),
        }
    }


    /// Loads the accumulator; sets `Z` and `N`.
    fn lda(&mut self, bus: &mut Bus, amr: AddrModeResult) -> (extra: u8)
        requires
            bus_wf(old(bus)@),
        ensures
            bus_wf(final(bus)@),
            *final(self) == run_op(OpKind::Lda, *old(self), old(bus)@, amr).0,
            final(bus)@ == run_op(OpKind::Lda, *old(self), old(bus)@, amr).1,
            extra == run_op(OpKind::Lda, *old(self), old(bus)@, amr).2,
            extra <= 2,
    {
        let v = self.fetch(bus, amr);
        self.a = v;
        self.set_flag(FLAG_Z, v == 0);
        self.set_flag(FLAG_N, v & 0x80 != 0);
        self.additional_cycles(amr, true)
    }

    /// Loads `X`; sets `Z` and `N`.
    fn ldx(&mut self, bus: &mut Bus, amr: AddrModeResult) -> (extra: u8)
        requires
            bus_wf(old(bus)@),
        ensures
            bus_wf(final(bus)@),
            *final(self) == run_op(OpKind::Ldx, *old(self), old(bus)@, amr).0,
            final(bus)@ == run_op(OpKind::Ldx, *old(self), old(bus)@, amr).1,
            extra == run_op(OpKind::Ldx, *old(self), old(bus)@, amr).2,
            extra <= 2,
    {
        let v = self.fetch(bus, amr);
        self.x = v;
        self.set_flag(FLAG_Z, v == 0);
        self.set_flag(FLAG_N, v & 0x80 != 0);
        self.additional_cycles(amr, true)
    }

    /// Loads `Y`; sets `Z` and `N`.
    fn ldy(&mut self, bus: &mut Bus, amr: AddrModeResult) -> (extra: u8)
        requires
            bus_wf(old(bus)@),
        ensures
            bus_wf(final(bus)@),
            *final(self) == run_op(OpKind::Ldy, *old(self), old(bus)@, amr).0,
            final(bus)@ == run_op(OpKind::Ldy, *old(self), old(bus)@, amr).1,
            extra == run_op(OpKind::Ldy, *old(self), old(bus)@, amr).2,
            extra <= 2,
    {
        let v = self.fetch(bus, amr);
        self.y = v;
        self.set_flag(FLAG_Z, v == 0);
        self.set_flag(FLAG_N, v & 0x80 != 0);
        self.additional_cycles(amr, true)
    }

    /// Stores the accumulator; no flag effects.
    fn sta(&mut self, bus: &mut Bus, amr: AddrModeResult) -> (extra: u8)
        requires
            bus_wf(old(bus)@),
        ensures
            bus_wf(final(bus)@),
            *final(self) == run_op(OpKind::Sta, *old(self), old(bus)@, amr).0,
            final(bus)@ == run_op(OpKind::Sta, *old(self), old(bus)@, amr).1,
            extra == run_op(OpKind::Sta, *old(self), old(bus)@, amr).2,
            extra <= 2,
    {
        match amr {
            AddrModeResult::Mem { addr, crossed } => {
                bus.write(addr, self.a);
            },
            _ => {},
        }
        0
    }

    /// Stores `X`; no flag effects.
    fn stx(&mut self, bus: &mut Bus, amr: AddrModeResult) -> (extra: u8)
        requires
            bus_wf(old(bus)@),
        ensures
            bus_wf(final(bus)@),
            *final(self) == run_op(OpKind::Stx, *old(self), old(bus)@, amr).0,
            final(bus)@ == run_op(OpKind::Stx, *old(self), old(bus)@, amr).1,
            extra == run_op(OpKind::Stx, *old(self), old(bus)@, amr).2,
            extra <= 2,
    {
        match amr {
            AddrModeResult::Mem { addr, crossed } => {
                bus.write(addr, self.x);
            },
            _ => {},
        }
        0
    }

    /// Stores `Y`; no flag effects.
    fn sty(&mut self, bus: &mut Bus, amr: AddrModeResult) -> (extra: u8)
        requires
            bus_wf(old(bus)@),
        ensures
            bus_wf(final(bus)@),
            *final(self) == run_op(OpKind::Sty, *old(self), old(bus)@, amr).0,
            final(bus)@ == run_op(OpKind::Sty, *old(self), old(bus)@, amr).1,
            extra == run_op(OpKind::Sty, *old(self), old(bus)@, amr).2,
            extra <= 2,
    {
        match amr {
            AddrModeResult::Mem { addr, crossed } => {
                bus.write(addr, self.y);
            },
            _ => {},
        }
        0
    }

    /// Transfers `A` to `X`; sets `Z` and `N`.
    fn tax(&mut self, bus: &mut Bus, amr: AddrModeResult) -> (extra: u8)
        requires
            bus_wf(old(bus)@),
        ensures
            bus_wf(final(bus)@),
            *final(self) == run_op(OpKind::Tax, *old(self), old(bus)@, amr).0,
            final(bus)@ == run_op(OpKind::Tax, *old(self), old(bus)@, amr).1,
            extra == run_op(OpKind::Tax, *old(self), old(bus)@, amr).2,
            extra <= 2,
    {
        let v = self.a;
        self.x = v;
        self.set_flag(FLAG_Z, v == 0);
        self.set_flag(FLAG_N, v & 0x80 != 0);
        0
    }

    /// Transfers `A` to `Y`; sets `Z` and `N`.
    fn tay(&mut self, bus: &mut Bus, amr: AddrModeResult) -> (extra: u8)
        requires
            bus_wf(old(bus)@),
        ensures
            bus_wf(final(bus)@),
            *final(self) == run_op(OpKind::Tay, *old(self), old(bus)@, amr).0,
            final(bus)@ == run_op(OpKind::Tay, *old(self), old(bus)@, amr).1,
            extra == run_op(OpKind::Tay, *old(self), old(bus)@, amr).2,
            extra <= 2,
    {
        let v = self.a;
        self.y = v;
        self.set_flag(FLAG_Z, v == 0);
        self.set_flag(FLAG_N, v & 0x80 != 0);
        0
    }

    /// Transfers the stack pointer to `X`; sets `Z` and `N`.
    fn tsx(&mut self, bus: &mut Bus, amr: AddrModeResult) -> (extra: u8)
        requires
            bus_wf(old(bus)@),
        ensures
            bus_wf(final(bus)@),
            *final(self) == run_op(OpKind::Tsx, *old(self), old(bus)@, amr).0,
            final(bus)@ == run_op(OpKind::Tsx, *old(self), old(bus)@, amr).1,
            extra == run_op(OpKind::Tsx, *old(self), old(bus)@, amr).2,
            extra <= 2,
    {
        let v = self.sp;
        self.x = v;
        self.set_flag(FLAG_Z, v == 0);
        self.set_flag(FLAG_N, v & 0x80 != 0);
        0
    }

    /// Transfers `X` to `A`; sets `Z` and `N`.
    fn txa(&mut self, bus: &mut Bus, amr: AddrModeResult) -> (extra: u8)
        requires
            bus_wf(old(bus)@),
        ensures
            bus_wf(final(bus)@),
            *final(self) == run_op(OpKind::Txa, *old(self), old(bus)@, amr).0,
            final(bus)@ == run_op(OpKind::Txa, *old(self), old(bus)@, amr).1,
            extra == run_op(OpKind::Txa, *old(self), old(bus)@, amr).2,
            extra <= 2,
    {
        let v = self.x;
        self.a = v;
        self.set_flag(FLAG_Z, v == 0);
        self.set_flag(FLAG_N, v & 0x80 != 0);
        0
    }

    /// Transfers `X` to the stack pointer; touches no flags.
    fn txs(&mut self, bus: &mut Bus, amr: AddrModeResult) -> (extra: u8)
        requires
            bus_wf(old(bus)@),
        ensures
            bus_wf(final(bus)@),
            *final(self) == run_op(OpKind::Txs, *old(self), old(bus)@, amr).0,
            final(bus)@ == run_op(OpKind::Txs, *old(self), old(bus)@, amr).1,
            extra == run_op(OpKind::Txs, *old(self), old(bus)@, amr).2,
            extra <= 2,
    {
        let v = self.x;
        self.sp = v;
        0
    }

    /// Transfers `Y` to `A`; sets `Z` and `N`.
    fn tya(&mut self, bus: &mut Bus, amr: AddrModeResult) -> (extra: u8)
        requires
            bus_wf(old(bus)@),
        ensures
            bus_wf(final(bus)@),
            *final(self) == run_op(OpKind::Tya, *old(self), old(bus)@, amr).0,
            final(bus)@ == run_op(OpKind::Tya, *old(self), old(bus)@, amr).1,
            extra == run_op(OpKind::Tya, *old(self), old(bus)@, amr).2,
            extra <= 2,
    {
        let v = self.y;
        self.a = v;
        self.set_flag(FLAG_Z, v == 0);
        self.set_flag(FLAG_N, v & 0x80 != 0);
        0
    }

    /// Pushes the accumulator.
    fn pha(&mut self, bus: &mut Bus, amr: AddrModeResult) -> (extra: u8)
        requires
            bus_wf(old(bus)@),
        ensures
            bus_wf(final(bus)@),
            *final(self) == run_op(OpKind::Pha, *old(self), old(bus)@, amr).0,
            final(bus)@ == run_op(OpKind::Pha, *old(self), old(bus)@, amr).1,
            extra == run_op(OpKind::Pha, *old(self), old(bus)@, amr).2,
            extra <= 2,
    {
        let a = self.a;
        self.push(bus, a);
        0
    }

    /// Pushes the status byte with `B` and `U` set in the pushed copy, then clears both in the live register.
    fn php(&mut self, bus: &mut Bus, amr: AddrModeResult) -> (extra: u8)
        requires
            bus_wf(old(bus)@),
        ensures
            bus_wf(final(bus)@),
            *final(self) == run_op(OpKind::Php, *old(self), old(bus)@, amr).0,
            final(bus)@ == run_op(OpKind::Php, *old(self), old(bus)@, amr).1,
            extra == run_op(OpKind::Php, *old(self), old(bus)@, amr).2,
            extra <= 2,
    {
        let st = self.status | FLAG_B | FLAG_U;
        self.push(bus, st);
        self.set_flag(FLAG_B, false);
        self.set_flag(FLAG_U, false);
        0
    }

    /// Pops into the accumulator; sets `Z` and `N`.
    fn pla(&mut self, bus: &mut Bus, amr: AddrModeResult) -> (extra: u8)
        requires
            bus_wf(old(bus)@),
        ensures
            bus_wf(final(bus)@),
            *final(self) == run_op(OpKind::Pla, *old(self), old(bus)@, amr).0,
            final(bus)@ == run_op(OpKind::Pla, *old(self), old(bus)@, amr).1,
            extra == run_op(OpKind::Pla, *old(self), old(bus)@, amr).2,
            extra <= 2,
    {
        let v = self.pop(bus);
        self.a = v;
        self.set_flag(FLAG_Z, v == 0);
        self.set_flag(FLAG_N, v & 0x80 != 0);
        0
    }

    /// Pops into the status byte, then forces `U` on.
    fn plp(&mut self, bus: &mut Bus, amr: AddrModeResult) -> (extra: u8)
        requires
            bus_wf(old(bus)@),
        ensures
            bus_wf(final(bus)@),
            *final(self) == run_op(OpKind::Plp, *old(self), old(bus)@, amr).0,
            final(bus)@ == run_op(OpKind::Plp, *old(self), old(bus)@, amr).1,
            extra == run_op(OpKind::Plp, *old(self), old(bus)@, amr).2,
            extra <= 2,
    {
        let v = self.pop(bus);
        self.status = v;
        self.set_flag(FLAG_U, true);
        0
    }

    /// Add with carry: `A + M + C`; sets `C`, `Z`, `N` and signed overflow `V`.
    fn adc(&mut self, bus: &mut Bus, amr: AddrModeResult) -> (extra: u8)
        requires
            bus_wf(old(bus)@),
        ensures
            bus_wf(final(bus)@),
            *final(self) == run_op(OpKind::Adc, *old(self), old(bus)@, amr).0,
            final(bus)@ == run_op(OpKind::Adc, *old(self), old(bus)@, amr).1,
            extra == run_op(OpKind::Adc, *old(self), old(bus)@, amr).2,
            extra <= 2,
    {
        let m = self.fetch(bus, amr);
        let c: u8 = if self.get_flag(FLAG_C) {
            1
        } else {
            0
        };
        let a_old = self.a;
        let sum: u16 = (a_old as u16) + (m as u16) + (c as u16);
        let result: u8 = (sum % 256) as u8;
        self.set_flag(FLAG_C, sum > 255);
        self.set_flag(FLAG_Z, result == 0);
        self.set_flag(FLAG_N, result & 0x80 != 0);
        self.set_flag(FLAG_V, ((!(a_old ^ m)) & (a_old ^ result)) & 0x80 != 0);
        self.a = result;
        self.additional_cycles(amr, true)
    }

    /// Subtract with borrow: add-with-carry of the inverted operand.
    fn sbc(&mut self, bus: &mut Bus, amr: AddrModeResult) -> (extra: u8)
        requires
            bus_wf(old(bus)@),
        ensures
            bus_wf(final(bus)@),
            *final(self) == run_op(OpKind::Sbc, *old(self), old(bus)@, amr).0,
            final(bus)@ == run_op(OpKind::Sbc, *old(self), old(bus)@, amr).1,
            extra == run_op(OpKind::Sbc, *old(self), old(bus)@, amr).2,
            extra <= 2,
    {
        let m = self.fetch(bus, amr) ^ 0xff;
        let c: u8 = if self.get_flag(FLAG_C) {
            1
        } else {
            0
        };
        let a_old = self.a;
        let sum: u16 = (a_old as u16) + (m as u16) + (c as u16);
        let result: u8 = (sum % 256) as u8;
        self.set_flag(FLAG_C, sum > 255);
        self.set_flag(FLAG_Z, result == 0);
        self.set_flag(FLAG_N, result & 0x80 != 0);
        self.set_flag(FLAG_V, ((!(a_old ^ m)) & (a_old ^ result)) & 0x80 != 0);
        self.a = result;
        self.additional_cycles(amr, true)
    }

    /// Compares the accumulator with the operand.
    fn cmp(&mut self, bus: &mut Bus, amr: AddrModeResult) -> (extra: u8)
        requires
            bus_wf(old(bus)@),
        ensures
            bus_wf(final(bus)@),
            *final(self) == run_op(OpKind::Cmp, *old(self), old(bus)@, amr).0,
            final(bus)@ == run_op(OpKind::Cmp, *old(self), old(bus)@, amr).1,
            extra == run_op(OpKind::Cmp, *old(self), old(bus)@, amr).2,
            extra <= 2,
    {
        let m = self.fetch(bus, amr);
        let r = self.a;
        let diff = wrapping_sub8(r, m);
        self.set_flag(FLAG_C, r >= m);
        self.set_flag(FLAG_Z, r == m);
        self.set_flag(FLAG_N, diff & 0x80 != 0);
        self.additional_cycles(amr, true)
    }

    /// Compares `X` with the operand.
    fn cpx(&mut self, bus: &mut Bus, amr: AddrModeResult) -> (extra: u8)
        requires
            bus_wf(old(bus)@),
        ensures
            bus_wf(final(bus)@),
            *final(self) == run_op(OpKind::Cpx, *old(self), old(bus)@, amr).0,
            final(bus)@ == run_op(OpKind::Cpx, *old(self), old(bus)@, amr).1,
            extra == run_op(OpKind::Cpx, *old(self), old(bus)@, amr).2,
            extra <= 2,
    {
        let m = self.fetch(bus, amr);
        let r = self.x;
        let diff = wrapping_sub8(r, m);
        self.set_flag(FLAG_C, r >= m);
        self.set_flag(FLAG_Z, r == m);
        self.set_flag(FLAG_N, diff & 0x80 != 0);
        self.additional_cycles(amr, true)
    }

    /// Compares `Y` with the operand.
    fn cpy(&mut self, bus: &mut Bus, amr: AddrModeResult) -> (extra: u8)
        requires
            bus_wf(old(bus)@),
        ensures
            bus_wf(final(bus)@),
            *final(self) == run_op(OpKind::Cpy, *old(self), old(bus)@, amr).0,
            final(bus)@ == run_op(OpKind::Cpy, *old(self), old(bus)@, amr).1,
            extra == run_op(OpKind::Cpy, *old(self), old(bus)@, amr).2,
            extra <= 2,
    {
        let m = self.fetch(bus, amr);
        let r = self.y;
        let diff = wrapping_sub8(r, m);
        self.set_flag(FLAG_C, r >= m);
        self.set_flag(FLAG_Z, r == m);
        self.set_flag(FLAG_N, diff & 0x80 != 0);
        self.additional_cycles(amr, true)
    }

    /// Increments memory; sets `Z` and `N`.
    fn inc(&mut self, bus: &mut Bus, amr: AddrModeResult) -> (extra: u8)
        requires
            bus_wf(old(bus)@),
        ensures
            bus_wf(final(bus)@),
            *final(self) == run_op(OpKind::Inc, *old(self), old(bus)@, amr).0,
            final(bus)@ == run_op(OpKind::Inc, *old(self), old(bus)@, amr).1,
            extra == run_op(OpKind::Inc, *old(self), old(bus)@, amr).2,
            extra <= 2,
    {
        match amr {
            AddrModeResult::Mem { addr, crossed } => {
                let v = wrapping_add8(self.fetch(bus, amr), 1);
                self.set_flag(FLAG_Z, v == 0);
                self.set_flag(FLAG_N, v & 0x80 != 0);
                bus.write(addr, v);
            },
            _ => {},
        }
        0
    }

    /// Decrements memory; sets `Z` and `N`.
    fn dec(&mut self, bus: &mut Bus, amr: AddrModeResult) -> (extra: u8)
        requires
            bus_wf(old(bus)@),
        ensures
            bus_wf(final(bus)@),
            *final(self) == run_op(OpKind::Dec, *old(self), old(bus)@, amr).0,
            final(bus)@ == run_op(OpKind::Dec, *old(self), old(bus)@, amr).1,
            extra == run_op(OpKind::Dec, *old(self), old(bus)@, amr).2,
            extra <= 2,
    {
        match amr {
            AddrModeResult::Mem { addr, crossed } => {
                let v = wrapping_sub8(self.fetch(bus, amr), 1);
                self.set_flag(FLAG_Z, v == 0);
                self.set_flag(FLAG_N, v & 0x80 != 0);
                bus.write(addr, v);
            },
            _ => {},
        }
        0
    }

    /// Increments `X`; sets `Z` and `N`.
    fn inx(&mut self, bus: &mut Bus, amr: AddrModeResult) -> (extra: u8)
        requires
            bus_wf(old(bus)@),
        ensures
            bus_wf(final(bus)@),
            *final(self) == run_op(OpKind::Inx, *old(self), old(bus)@, amr).0,
            final(bus)@ == run_op(OpKind::Inx, *old(self), old(bus)@, amr).1,
            extra == run_op(OpKind::Inx, *old(self), old(bus)@, amr).2,
            extra <= 2,
    {
        let v = wrapping_add8(self.x, 1);
        self.x = v;
        self.set_flag(FLAG_Z, v == 0);
        self.set_flag(FLAG_N, v & 0x80 != 0);
        0
    }

    /// Increments `Y`; sets `Z` and `N`.
    fn iny(&mut self, bus: &mut Bus, amr: AddrModeResult) -> (extra: u8)
        requires
            bus_wf(old(bus)@),
        ensures
            bus_wf(final(bus)@),
            *final(self) == run_op(OpKind::Iny, *old(self), old(bus)@, amr).0,
            final(bus)@ == run_op(OpKind::Iny, *old(self), old(bus)@, amr).1,
            extra == run_op(OpKind::Iny, *old(self), old(bus)@, amr).2,
            extra <= 2,
    {
        let v = wrapping_add8(self.y, 1);
        self.y = v;
        self.set_flag(FLAG_Z, v == 0);
        self.set_flag(FLAG_N, v & 0x80 != 0);
        0
    }

    /// Decrements `X`; sets `Z` and `N`.
    fn dex(&mut self, bus: &mut Bus, amr: AddrModeResult) -> (extra: u8)
        requires
            bus_wf(old(bus)@),
        ensures
            bus_wf(final(bus)@),
            *final(self) == run_op(OpKind::Dex, *old(self), old(bus)@, amr).0,
            final(bus)@ == run_op(OpKind::Dex, *old(self), old(bus)@, amr).1,
            extra == run_op(OpKind::Dex, *old(self), old(bus)@, amr).2,
            extra <= 2,
    {
        let v = wrapping_sub8(self.x, 1);
        self.x = v;
        self.set_flag(FLAG_Z, v == 0);
        self.set_flag(FLAG_N, v & 0x80 != 0);
        0
    }

    /// Decrements `Y`; sets `Z` and `N`.
    fn dey(&mut self, bus: &mut Bus, amr: AddrModeResult) -> (extra: u8)
        requires
            bus_wf(old(bus)@),
        ensures
            bus_wf(final(bus)@),
            *final(self) == run_op(OpKind::Dey, *old(self), old(bus)@, amr).0,
            final(bus)@ == run_op(OpKind::Dey, *old(self), old(bus)@, amr).1,
            extra == run_op(OpKind::Dey, *old(self), old(bus)@, amr).2,
            extra <= 2,
    {
        let v = wrapping_sub8(self.y, 1);
        self.y = v;
        self.set_flag(FLAG_Z, v == 0);
        self.set_flag(FLAG_N, v & 0x80 != 0);
        0
    }

    /// Bitwise and into the accumulator; sets `Z` and `N`.
    fn and(&mut self, bus: &mut Bus, amr: AddrModeResult) -> (extra: u8)
        requires
            bus_wf(old(bus)@),
        ensures
            bus_wf(final(bus)@),
            *final(self) == run_op(OpKind::And, *old(self), old(bus)@, amr).0,
            final(bus)@ == run_op(OpKind::And, *old(self), old(bus)@, amr).1,
            extra == run_op(OpKind::And, *old(self), old(bus)@, amr).2,
            extra <= 2,
    {
        let v = self.a & self.fetch(bus, amr);
        self.a = v;
        self.set_flag(FLAG_Z, v == 0);
        self.set_flag(FLAG_N, v & 0x80 != 0);
        self.additional_cycles(amr, true)
    }

    /// Bitwise or into the accumulator; sets `Z` and `N`.
    fn ora(&mut self, bus: &mut Bus, amr: AddrModeResult) -> (extra: u8)
        requires
            bus_wf(old(bus)@),
        ensures
            bus_wf(final(bus)@),
            *final(self) == run_op(OpKind::Ora, *old(self), old(bus)@, amr).0,
            final(bus)@ == run_op(OpKind::Ora, *old(self), old(bus)@, amr).1,
            extra == run_op(OpKind::Ora, *old(self), old(bus)@, amr).2,
            extra <= 2,
    {
        let v = self.a | self.fetch(bus, amr);
        self.a = v;
        self.set_flag(FLAG_Z, v == 0);
        self.set_flag(FLAG_N, v & 0x80 != 0);
        self.additional_cycles(amr, true)
    }

    /// Bitwise exclusive or into the accumulator; sets `Z` and `N`.
    fn eor(&mut self, bus: &mut Bus, amr: AddrModeResult) -> (extra: u8)
        requires
            bus_wf(old(bus)@),
        ensures
            bus_wf(final(bus)@),
            *final(self) == run_op(OpKind::Eor, *old(self), old(bus)@, amr).0,
            final(bus)@ == run_op(OpKind::Eor, *old(self), old(bus)@, amr).1,
            extra == run_op(OpKind::Eor, *old(self), old(bus)@, amr).2,
            extra <= 2,
    {
        let v = self.a ^ self.fetch(bus, amr);
        self.a = v;
        self.set_flag(FLAG_Z, v == 0);
        self.set_flag(FLAG_N, v & 0x80 != 0);
        self.additional_cycles(amr, true)
    }

    /// Bit test: `Z` from `A & M`, `N` and `V` from bits 7 and 6 of the operand.
    fn bit(&mut self, bus: &mut Bus, amr: AddrModeResult) -> (extra: u8)
        requires
            bus_wf(old(bus)@),
        ensures
            bus_wf(final(bus)@),
            *final(self) == run_op(OpKind::Bit, *old(self), old(bus)@, amr).0,
            final(bus)@ == run_op(OpKind::Bit, *old(self), old(bus)@, amr).1,
            extra == run_op(OpKind::Bit, *old(self), old(bus)@, amr).2,
            extra <= 2,
    {
        let m = self.fetch(bus, amr);
        let t = self.a & m;
        self.set_flag(FLAG_Z, t == 0);
        self.set_flag(FLAG_N, m & 0x80 != 0);
        self.set_flag(FLAG_V, m & 0x40 != 0);
        0
    }

    /// Arithmetic shift left; the carry takes bit 7.
    fn asl(&mut self, bus: &mut Bus, amr: AddrModeResult) -> (extra: u8)
        requires
            bus_wf(old(bus)@),
        ensures
            bus_wf(final(bus)@),
            *final(self) == run_op(OpKind::Asl, *old(self), old(bus)@, amr).0,
            final(bus)@ == run_op(OpKind::Asl, *old(self), old(bus)@, amr).1,
            extra == run_op(OpKind::Asl, *old(self), old(bus)@, amr).2,
            extra <= 2,
    {
        match amr {
            AddrModeResult::Rel { delta } => 0,
            _ => {
                let v = self.fetch(bus, amr);
                let res: u8 = (((v as u16) * 2) % 256) as u8;
                self.set_flag(FLAG_C, v & 0x80 != 0);
                self.set_flag(FLAG_Z, res == 0);
                self.set_flag(FLAG_N, res & 0x80 != 0);
                match amr {
                    AddrModeResult::Imp => {
                        self.a = res;
                    },
                    AddrModeResult::Mem { addr, crossed } => {
                        bus.write(addr, res);
                    },
                    AddrModeResult::Rel { delta } => {},
                }
                0
            },
        }
    }

    /// Logical shift right; the carry takes bit 0.
    fn lsr(&mut self, bus: &mut Bus, amr: AddrModeResult) -> (extra: u8)
        requires
            bus_wf(old(bus)@),
        ensures
            bus_wf(final(bus)@),
            *final(self) == run_op(OpKind::Lsr, *old(self), old(bus)@, amr).0,
            final(bus)@ == run_op(OpKind::Lsr, *old(self), old(bus)@, amr).1,
            extra == run_op(OpKind::Lsr, *old(self), old(bus)@, amr).2,
            extra <= 2,
    {
        match amr {
            AddrModeResult::Rel { delta } => 0,
            _ => {
                let v = self.fetch(bus, amr);
                let res: u8 = v / 2;
                self.set_flag(FLAG_C, v & 0x01 != 0);
                self.set_flag(FLAG_Z, res == 0);
                self.set_flag(FLAG_N, res & 0x80 != 0);
                match amr {
                    AddrModeResult::Imp => {
                        self.a = res;
                    },
                    AddrModeResult::Mem { addr, crossed } => {
                        bus.write(addr, res);
                    },
                    AddrModeResult::Rel { delta } => {},
                }
                0
            },
        }
    }

    /// Rotate left through the carry.
    fn rol(&mut self, bus: &mut Bus, amr: AddrModeResult) -> (extra: u8)
        requires
            bus_wf(old(bus)@),
        ensures
            bus_wf(final(bus)@),
            *final(self) == run_op(OpKind::Rol, *old(self), old(bus)@, amr).0,
            final(bus)@ == run_op(OpKind::Rol, *old(self), old(bus)@, amr).1,
            extra == run_op(OpKind::Rol, *old(self), old(bus)@, amr).2,
            extra <= 2,
    {
        match amr {
            AddrModeResult::Rel { delta } => 0,
            _ => {
                let v = self.fetch(bus, amr);
                let c: u8 = if self.get_flag(FLAG_C) {
                    1
                } else {
                    0
                };
                let res: u8 = (((v as u16) * 2 + (c as u16)) % 256) as u8;
                self.set_flag(FLAG_C, v & 0x80 != 0);
                self.set_flag(FLAG_Z, res == 0);
                self.set_flag(FLAG_N, res & 0x80 != 0);
                match amr {
                    AddrModeResult::Imp => {
                        self.a = res;
                    },
                    AddrModeResult::Mem { addr, crossed } => {
                        bus.write(addr, res);
                    },
                    AddrModeResult::Rel { delta } => {},
                }
                0
            },
        }
    }

    /// Rotate right through the carry.
    fn ror(&mut self, bus: &mut Bus, amr: AddrModeResult) -> (extra: u8)
        requires
            bus_wf(old(bus)@),
        ensures
            bus_wf(final(bus)@),
            *final(self) == run_op(OpKind::Ror, *old(self), old(bus)@, amr).0,
            final(bus)@ == run_op(OpKind::Ror, *old(self), old(bus)@, amr).1,
            extra == run_op(OpKind::Ror, *old(self), old(bus)@, amr).2,
            extra <= 2,
    {
        match amr {
            AddrModeResult::Rel { delta } => 0,
            _ => {
                let v = self.fetch(bus, amr);
                let c: u8 = if self.get_flag(FLAG_C) {
                    1
                } else {
                    0
                };
                let res: u8 = v / 2 + c * 128;
                self.set_flag(FLAG_C, v & 0x01 != 0);
                self.set_flag(FLAG_Z, res == 0);
                self.set_flag(FLAG_N, res & 0x80 != 0);
                match amr {
                    AddrModeResult::Imp => {
                        self.a = res;
                    },
                    AddrModeResult::Mem { addr, crossed } => {
                        bus.write(addr, res);
                    },
                    AddrModeResult::Rel { delta } => {},
                }
                0
            },
        }
    }

    /// Jumps to the effective address.
    fn jmp(&mut self, bus: &mut Bus, amr: AddrModeResult) -> (extra: u8)
        requires
            bus_wf(old(bus)@),
        ensures
            bus_wf(final(bus)@),
            *final(self) == run_op(OpKind::Jmp, *old(self), old(bus)@, amr).0,
            final(bus)@ == run_op(OpKind::Jmp, *old(self), old(bus)@, amr).1,
            extra == run_op(OpKind::Jmp, *old(self), old(bus)@, amr).2,
            extra <= 2,
    {
        match amr {
            AddrModeResult::Mem { addr, crossed } => {
                self.pc = addr;
            },
            _ => {},
        }
        0
    }

    /// Pushes the return address minus one, high byte first, then jumps.
    fn jsr(&mut self, bus: &mut Bus, amr: AddrModeResult) -> (extra: u8)
        requires
            bus_wf(old(bus)@),
        ensures
            bus_wf(final(bus)@),
            *final(self) == run_op(OpKind::Jsr, *old(self), old(bus)@, amr).0,
            final(bus)@ == run_op(OpKind::Jsr, *old(self), old(bus)@, amr).1,
            extra == run_op(OpKind::Jsr, *old(self), old(bus)@, amr).2,
            extra <= 2,
    {
        match amr {
            AddrModeResult::Mem { addr, crossed } => {
                let ret = wrapping_sub16(self.pc, 1);
                self.push16(bus, ret);
                self.pc = addr;
            },
            _ => {},
        }
        0
    }

    /// Pops the return address and resumes one byte past it.
    fn rts(&mut self, bus: &mut Bus, amr: AddrModeResult) -> (extra: u8)
        requires
            bus_wf(old(bus)@),
        ensures
            bus_wf(final(bus)@),
            *final(self) == run_op(OpKind::Rts, *old(self), old(bus)@, amr).0,
            final(bus)@ == run_op(OpKind::Rts, *old(self), old(bus)@, amr).1,
            extra == run_op(OpKind::Rts, *old(self), old(bus)@, amr).2,
            extra <= 2,
    {
        let v = self.pop16(bus);
        self.pc = wrapping_add16(v, 1);
        0
    }

    /// Software interrupt: pushes the advanced program counter and the status byte with `B` set, then enters the handler at `0xFFFE/0xFFFF` with `B` clear and `I` set.
    fn brk(&mut self, bus: &mut Bus, amr: AddrModeResult) -> (extra: u8)
        requires
            bus_wf(old(bus)@),
        ensures
            bus_wf(final(bus)@),
            *final(self) == run_op(OpKind::Brk, *old(self), old(bus)@, amr).0,
            final(bus)@ == run_op(OpKind::Brk, *old(self), old(bus)@, amr).1,
            extra == run_op(OpKind::Brk, *old(self), old(bus)@, amr).2,
            extra <= 2,
    {
        self.pc = wrapping_add16(self.pc, 1);
        let pc = self.pc;
        self.push16(bus, pc);
        self.set_flag(FLAG_B, true);
        let st = self.status;
        self.push(bus, st);
        self.set_flag(FLAG_B, false);
        self.set_flag(FLAG_I, true);
        let lo = bus.read(0xfffe);
        let hi = bus.read(0xffff);
        self.pc = (hi as u16) * 256 + (lo as u16);
        0
    }

    /// Returns from an interrupt: pops the status byte, clearing `B` and `U` in it, then pops the program counter.
    fn rti(&mut self, bus: &mut Bus, amr: AddrModeResult) -> (extra: u8)
        requires
            bus_wf(old(bus)@),
        ensures
            bus_wf(final(bus)@),
            *final(self) == run_op(OpKind::Rti, *old(self), old(bus)@, amr).0,
            final(bus)@ == run_op(OpKind::Rti, *old(self), old(bus)@, amr).1,
            extra == run_op(OpKind::Rti, *old(self), old(bus)@, amr).2,
            extra <= 2,
    {
        let p = self.pop(bus);
        self.status = p;
        self.set_flag(FLAG_B, false);
        self.set_flag(FLAG_U, false);
        let v = self.pop16(bus);
        self.pc = v;
        0
    }

    /// Branch when the carry is clear.
    fn bcc(&mut self, bus: &mut Bus, amr: AddrModeResult) -> (extra: u8)
        requires
            bus_wf(old(bus)@),
        ensures
            bus_wf(final(bus)@),
            *final(self) == run_op(OpKind::Bcc, *old(self), old(bus)@, amr).0,
            final(bus)@ == run_op(OpKind::Bcc, *old(self), old(bus)@, amr).1,
            extra == run_op(OpKind::Bcc, *old(self), old(bus)@, amr).2,
            extra <= 2,
    {
        let take = !self.get_flag(FLAG_C);
        self.branch_on(take, amr)
    }

    /// Branch when the carry is set.
    fn bcs(&mut self, bus: &mut Bus, amr: AddrModeResult) -> (extra: u8)
        requires
            bus_wf(old(bus)@),
        ensures
            bus_wf(final(bus)@),
            *final(self) == run_op(OpKind::Bcs, *old(self), old(bus)@, amr).0,
            final(bus)@ == run_op(OpKind::Bcs, *old(self), old(bus)@, amr).1,
            extra == run_op(OpKind::Bcs, *old(self), old(bus)@, amr).2,
            extra <= 2,
    {
        let take = self.get_flag(FLAG_C);
        self.branch_on(take, amr)
    }

    /// Branch when the zero flag is set.
    fn beq(&mut self, bus: &mut Bus, amr: AddrModeResult) -> (extra: u8)
        requires
            bus_wf(old(bus)@),
        ensures
            bus_wf(final(bus)@),
            *final(self) == run_op(OpKind::Beq, *old(self), old(bus)@, amr).0,
            final(bus)@ == run_op(OpKind::Beq, *old(self), old(bus)@, amr).1,
            extra == run_op(OpKind::Beq, *old(self), old(bus)@, amr).2,
            extra <= 2,
    {
        let take = self.get_flag(FLAG_Z);
        self.branch_on(take, amr)
    }

    /// Branch when the zero flag is clear.
    fn bne(&mut self, bus: &mut Bus, amr: AddrModeResult) -> (extra: u8)
        requires
            bus_wf(old(bus)@),
        ensures
            bus_wf(final(bus)@),
            *final(self) == run_op(OpKind::Bne, *old(self), old(bus)@, amr).0,
            final(bus)@ == run_op(OpKind::Bne, *old(self), old(bus)@, amr).1,
            extra == run_op(OpKind::Bne, *old(self), old(bus)@, amr).2,
            extra <= 2,
    {
        let take = !self.get_flag(FLAG_Z);
        self.branch_on(take, amr)
    }

    /// Branch when the negative flag is set.
    fn bmi(&mut self, bus: &mut Bus, amr: AddrModeResult) -> (extra: u8)
        requires
            bus_wf(old(bus)@),
        ensures
            bus_wf(final(bus)@),
            *final(self) == run_op(OpKind::Bmi, *old(self), old(bus)@, amr).0,
            final(bus)@ == run_op(OpKind::Bmi, *old(self), old(bus)@, amr).1,
            extra == run_op(OpKind::Bmi, *old(self), old(bus)@, amr).2,
            extra <= 2,
    {
        let take = self.get_flag(FLAG_N);
        self.branch_on(take, amr)
    }

    /// Branch when the negative flag is clear.
    fn bpl(&mut self, bus: &mut Bus, amr: AddrModeResult) -> (extra: u8)
        requires
            bus_wf(old(bus)@),
        ensures
            bus_wf(final(bus)@),
            *final(self) == run_op(OpKind::Bpl, *old(self), old(bus)@, amr).0,
            final(bus)@ == run_op(OpKind::Bpl, *old(self), old(bus)@, amr).1,
            extra == run_op(OpKind::Bpl, *old(self), old(bus)@, amr).2,
            extra <= 2,
    {
        let take = !self.get_flag(FLAG_N);
        self.branch_on(take, amr)
    }

    /// Branch when the overflow flag is clear.
    fn bvc(&mut self, bus: &mut Bus, amr: AddrModeResult) -> (extra: u8)
        requires
            bus_wf(old(bus)@),
        ensures
            bus_wf(final(bus)@),
            *final(self) == run_op(OpKind::Bvc, *old(self), old(bus)@, amr).0,
            final(bus)@ == run_op(OpKind::Bvc, *old(self), old(bus)@, amr).1,
            extra == run_op(OpKind::Bvc, *old(self), old(bus)@, amr).2,
            extra <= 2,
    {
        let take = !self.get_flag(FLAG_V);
        self.branch_on(take, amr)
    }

    /// Branch when the overflow flag is set.
    fn bvs(&mut self, bus: &mut Bus, amr: AddrModeResult) -> (extra: u8)
        requires
            bus_wf(old(bus)@),
        ensures
            bus_wf(final(bus)@),
            *final(self) == run_op(OpKind::Bvs, *old(self), old(bus)@, amr).0,
            final(bus)@ == run_op(OpKind::Bvs, *old(self), old(bus)@, amr).1,
            extra == run_op(OpKind::Bvs, *old(self), old(bus)@, amr).2,
            extra <= 2,
    {
        let take = self.get_flag(FLAG_V);
        self.branch_on(take, amr)
    }

    /// Clears the carry flag.
    fn clc(&mut self, bus: &mut Bus, amr: AddrModeResult) -> (extra: u8)
        requires
            bus_wf(old(bus)@),
        ensures
            bus_wf(final(bus)@),
            *final(self) == run_op(OpKind::Clc, *old(self), old(bus)@, amr).0,
            final(bus)@ == run_op(OpKind::Clc, *old(self), old(bus)@, amr).1,
            extra == run_op(OpKind::Clc, *old(self), old(bus)@, amr).2,
            extra <= 2,
    {
        self.set_flag(FLAG_C, false);
        0
    }

    /// Clears the decimal flag (arithmetic ignores it).
    fn cld(&mut self, bus: &mut Bus, amr: AddrModeResult) -> (extra: u8)
        requires
            bus_wf(old(bus)@),
        ensures
            bus_wf(final(bus)@),
            *final(self) == run_op(OpKind::Cld, *old(self), old(bus)@, amr).0,
            final(bus)@ == run_op(OpKind::Cld, *old(self), old(bus)@, amr).1,
            extra == run_op(OpKind::Cld, *old(self), old(bus)@, amr).2,
            extra <= 2,
    {
        self.set_flag(FLAG_D, false);
        0
    }

    /// Clears the interrupt-disable flag.
    fn cli(&mut self, bus: &mut Bus, amr: AddrModeResult) -> (extra: u8)
        requires
            bus_wf(old(bus)@),
        ensures
            bus_wf(final(bus)@),
            *final(self) == run_op(OpKind::Cli, *old(self), old(bus)@, amr).0,
            final(bus)@ == run_op(OpKind::Cli, *old(self), old(bus)@, amr).1,
            extra == run_op(OpKind::Cli, *old(self), old(bus)@, amr).2,
            extra <= 2,
    {
        self.set_flag(FLAG_I, false);
        0
    }

    /// Clears the overflow flag.
    fn clv(&mut self, bus: &mut Bus, amr: AddrModeResult) -> (extra: u8)
        requires
            bus_wf(old(bus)@),
        ensures
            bus_wf(final(bus)@),
            *final(self) == run_op(OpKind::Clv, *old(self), old(bus)@, amr).0,
            final(bus)@ == run_op(OpKind::Clv, *old(self), old(bus)@, amr).1,
            extra == run_op(OpKind::Clv, *old(self), old(bus)@, amr).2,
            extra <= 2,
    {
        self.set_flag(FLAG_V, false);
        0
    }

    /// Sets the carry flag.
    fn sec(&mut self, bus: &mut Bus, amr: AddrModeResult) -> (extra: u8)
        requires
            bus_wf(old(bus)@),
        ensures
            bus_wf(final(bus)@),
            *final(self) == run_op(OpKind::Sec, *old(self), old(bus)@, amr).0,
            final(bus)@ == run_op(OpKind::Sec, *old(self), old(bus)@, amr).1,
            extra == run_op(OpKind::Sec, *old(self), old(bus)@, amr).2,
            extra <= 2,
    {
        self.set_flag(FLAG_C, true);
        0
    }

    /// Sets the decimal flag (arithmetic ignores it).
    fn sed(&mut self, bus: &mut Bus, amr: AddrModeResult) -> (extra: u8)
        requires
            bus_wf(old(bus)@),
        ensures
            bus_wf(final(bus)@),
            *final(self) == run_op(OpKind::Sed, *old(self), old(bus)@, amr).0,
            final(bus)@ == run_op(OpKind::Sed, *old(self), old(bus)@, amr).1,
            extra == run_op(OpKind::Sed, *old(self), old(bus)@, amr).2,
            extra <= 2,
    {
        self.set_flag(FLAG_D, true);
        0
    }

    /// Sets the interrupt-disable flag.
    fn sei(&mut self, bus: &mut Bus, amr: AddrModeResult) -> (extra: u8)
        requires
            bus_wf(old(bus)@),
        ensures
            bus_wf(final(bus)@),
            *final(self) == run_op(OpKind::Sei, *old(self), old(bus)@, amr).0,
            final(bus)@ == run_op(OpKind::Sei, *old(self), old(bus)@, amr).1,
            extra == run_op(OpKind::Sei, *old(self), old(bus)@, amr).2,
            extra <= 2,
    {
        self.set_flag(FLAG_I, true);
        0
    }

    /// No operation.
    fn nop(&mut self, bus: &mut Bus, amr: AddrModeResult) -> (extra: u8)
        requires
            bus_wf(old(bus)@),
        ensures
            bus_wf(final(bus)@),
            *final(self) == run_op(OpKind::Nop, *old(self), old(bus)@, amr).0,
            final(bus)@ == run_op(OpKind::Nop, *old(self), old(bus)@, amr).1,
            extra == run_op(OpKind::Nop, *old(self), old(bus)@, amr).2,
            extra <= 2,
    {
        0
    }

    /// The filler for undocumented opcodes: changes nothing.
    fn xxx(&mut self, bus: &mut Bus, amr: AddrModeResult) -> (extra: u8)
        requires
            bus_wf(old(bus)@),
        ensures
            bus_wf(final(bus)@),
            *final(self) == run_op(OpKind::Xxx, *old(self), old(bus)@, amr).0,
            final(bus)@ == run_op(OpKind::Xxx, *old(self), old(bus)@, amr).1,
            extra == run_op(OpKind::Xxx, *old(self), old(bus)@, amr).2,
            extra <= 2,
    {
        0
    }
}

} // verus!
