//! The laws of the core, each proved from the semantic model: stack
//! discipline, bus broadcast, reset idempotence, the stack-pointer and
//! register-width invariants, the push/pop and call/return round trips, the
//! status-byte round trip, the add/subtract round trip, the indirect-jump
//! page-wrap quirk, branch cycle costs, cycle accounting, and flag locality.

use vstd::prelude::*;
use crate::bus::DeviceView;
use crate::bus::bus_read;
use crate::bus::bus_wf;
use crate::bus::bus_write;
use crate::bus::view_read;
use crate::bus::view_wf;
use crate::bus::view_write;
use crate::model::adc_core;
use crate::model::branch_spec;
use crate::model::fetch_spec;
use crate::model::carry_bit;
use crate::model::flag_get;
use crate::model::flag_set;
use crate::model::instr_extra;
use crate::model::instr_step;
use crate::model::run_mode;
use crate::model::run_op;
use crate::model::sbc_core;
use crate::model::wadd16;
use crate::model::with_zn;
use crate::model::pop16_spec;
use crate::model::pop_spec;
use crate::model::push16_spec;
use crate::model::push_spec;
use crate::model::reset_spec;
use crate::model::stack_addr;
use crate::model::wadd8;
use crate::model::wsub8;
use crate::mos6502::AddrModeResult;
use crate::mos6502::Cpu;
use crate::mos6502::FLAG_B;
use crate::mos6502::FLAG_C;
use crate::mos6502::FLAG_N;
use crate::mos6502::FLAG_U;
use crate::mos6502::FLAG_V;
use crate::mos6502::FLAG_Z;
use crate::mos6502::Mode;
use crate::mos6502::OpKind;
use crate::optable::op_entry;

verus! {

/// Some registered device is the internal RAM.
pub open spec fn has_ram(devs: Seq<DeviceView>) -> bool {
    exists|i: int| 0 <= i < devs.len() && devs[i] is Ram
}

/// A write keeps the whole bus well formed, every device in place, and the
/// RAM registered.
pub proof fn lemma_bus_write_wf(devs: Seq<DeviceView>, addr: u16, data: u8)
    requires
        bus_wf(devs),
    ensures
        bus_wf(bus_write(devs, addr, data)),
        bus_write(devs, addr, data).len() == devs.len(),
        has_ram(devs) ==> has_ram(bus_write(devs, addr, data)),
{
    let w = bus_write(devs, addr, data);
    assert forall|i: int| 0 <= i < w.len() implies view_wf(#[trigger] w[i]) by {
        assert(w[i] == view_write(devs[i], addr, data));
    }
    if has_ram(devs) {
        let i = choose|i: int| 0 <= i < devs.len() && devs[i] is Ram;
        assert(w[i] == view_write(devs[i], addr, data));
        assert(w[i] is Ram);
    }
}

/// Reading back a just-written RAM address returns the written value: the
/// devices registered before the RAM do not claim addresses below `0x2000`,
/// and the RAM itself stores the byte in the mirrored cell.
pub proof fn lemma_read_after_write(devs: Seq<DeviceView>, addr: u16, data: u8)
    requires
        bus_wf(devs),
        has_ram(devs),
        addr < 0x2000,
    ensures
        bus_read(bus_write(devs, addr, data), addr) == data,
    decreases devs.len(),
{
    let i = choose|i: int| 0 <= i < devs.len() && devs[i] is Ram;
    let w = bus_write(devs, addr, data);
    assert(w[0] == view_write(devs[0], addr, data));
    match devs[0] {
        DeviceView::Ram { mem } => {
            assert(view_read(w[0], addr) == Some(data));
        },
        _ => {
            assert(view_read(w[0], addr) is None);
            assert(devs.skip(1)[i - 1] is Ram);
            assert(bus_wf(devs.skip(1))) by {
                assert(forall|j: int|
                    0 <= j < devs.skip(1).len() ==> #[trigger] devs.skip(1)[j] == devs[j + 1]);
            }
            lemma_read_after_write(devs.skip(1), addr, data);
            assert(w.skip(1) =~= bus_write(devs.skip(1), addr, data));
        },
    }
}

/// A write to a RAM address leaves every read of a different RAM cell, and
/// every read outside the RAM window, unchanged.
pub proof fn lemma_write_frame(devs: Seq<DeviceView>, waddr: u16, data: u8, raddr: u16)
    requires
        bus_wf(devs),
        waddr < 0x2000,
        raddr >= 0x2000 || raddr as int % 0x800 != waddr as int % 0x800,
    ensures
        bus_read(bus_write(devs, waddr, data), raddr) == bus_read(devs, raddr),
    decreases devs.len(),
{
    if devs.len() > 0 {
        let w = bus_write(devs, waddr, data);
        assert(w[0] == view_write(devs[0], waddr, data));
        assert(view_read(w[0], raddr) == view_read(devs[0], raddr));
        assert(bus_wf(devs.skip(1))) by {
            assert(forall|j: int|
                0 <= j < devs.skip(1).len() ==> #[trigger] devs.skip(1)[j] == devs[j + 1]);
        }
        lemma_write_frame(devs.skip(1), waddr, data, raddr);
        assert(w.skip(1) =~= bus_write(devs.skip(1), waddr, data));
    }
}

/// Decrementing then incrementing the stack pointer restores it, modulo 256.
pub proof fn lemma_wrap_dec_inc(x: u8)
    ensures
        wadd8(wsub8(x, 1), 1) == x,
{
    if x == 0 {
        assert(wsub8(0, 1) == 255);
        assert(wadd8(255, 1) == 0);
    }
}

/// Stack discipline: for a balanced push/pop pair the popped value equals
/// the pushed value and the stack pointer returns to its starting value,
/// modulo 256.
pub proof fn lemma_stack_discipline(sp: u8, devs: Seq<DeviceView>, v: u8)
    requires
        bus_wf(devs),
        has_ram(devs),
    ensures
        ({
            let pushed = push_spec(sp, devs, v);
            let popped = pop_spec(pushed.0, pushed.1);
            popped.1 == v && popped.0 == sp
        }),
{
    lemma_wrap_dec_inc(sp);
    lemma_read_after_write(devs, stack_addr(sp), v);
}

/// Stack-pointer wraparound: a push with `SP = 0x00` wraps to `0xFF`, and a
/// pop with `SP = 0xFF` wraps to `0x00`.
pub proof fn lemma_sp_wraparound(devs: Seq<DeviceView>, v: u8)
    ensures
        push_spec(0x00, devs, v).0 == 0xff,
        pop_spec(0xff, devs).0 == 0x00,
{
}

/// A 16-bit push/pop round trip restores both the value and the stack
/// pointer.
pub proof fn lemma_push16_pop16(sp: u8, devs: Seq<DeviceView>, v: u16)
    requires
        bus_wf(devs),
        has_ram(devs),
    ensures
        ({
            let pushed = push16_spec(sp, devs, v);
            let popped = pop16_spec(pushed.0, pushed.1);
            popped.1 == v && popped.0 == sp
        }),
{
    let hi = (v / 256) as u8;
    let lo = (v % 256) as u8;
    let sp1 = wsub8(sp, 1);
    let d1 = bus_write(devs, stack_addr(sp), hi);
    let sp2 = wsub8(sp1, 1);
    let d2 = bus_write(d1, stack_addr(sp1), lo);
    lemma_bus_write_wf(devs, stack_addr(sp), hi);
    lemma_bus_write_wf(d1, stack_addr(sp1), lo);
    lemma_wrap_dec_inc(sp1);
    lemma_wrap_dec_inc(sp);
    // the low byte is read back from where it was just pushed
    lemma_read_after_write(d1, stack_addr(sp1), lo);
    // the high byte's cell is distinct from the low byte's cell
    assert(sp1 != sp);
    lemma_write_frame(d1, stack_addr(sp1), lo, stack_addr(sp));
    lemma_read_after_write(devs, stack_addr(sp), hi);
    assert(pop16_spec(sp2, d2).1 == hi * 256 + lo);
    assert(hi * 256 + lo == v);
}

/// Register width: the architectural registers cannot leave their hardware
/// ranges.
pub proof fn lemma_register_width(cpu: Cpu)
    ensures
        0 <= cpu.a <= 255,
        0 <= cpu.x <= 255,
        0 <= cpu.y <= 255,
        0 <= cpu.sp <= 255,
        0 <= cpu.pc <= 65535,
{
}

/// Reset idempotence: two resets in a row leave the same architectural
/// state as one.
pub proof fn lemma_reset_idempotent(cpu: Cpu, devs: Seq<DeviceView>)
    ensures
        reset_spec(reset_spec(cpu, devs), devs) == reset_spec(cpu, devs),
{
}

/// Bus broadcast: one write is delivered to every registered device exactly
/// once, in place.
pub proof fn lemma_bus_broadcast(devs: Seq<DeviceView>, addr: u16, data: u8)
    ensures
        bus_write(devs, addr, data).len() == devs.len(),
        forall|i: int|
            0 <= i < devs.len() ==> #[trigger] bus_write(devs, addr, data)[i] == view_write(
                devs[i],
                addr,
                data,
            ),
{
}

/// A push of the accumulator followed by a pop into it restores `A` and
/// every other register; the flags reflect the restored accumulator through
/// `Z` and `N` and are otherwise unchanged.
pub proof fn lemma_pha_pla(cpu: Cpu, devs: Seq<DeviceView>)
    requires
        bus_wf(devs),
        has_ram(devs),
    ensures
        ({
            let step1 = run_op(OpKind::Pha, cpu, devs, AddrModeResult::Imp);
            let step2 = run_op(OpKind::Pla, step1.0, step1.1, AddrModeResult::Imp);
            &&& step2.0.a == cpu.a
            &&& step2.0.x == cpu.x
            &&& step2.0.y == cpu.y
            &&& step2.0.pc == cpu.pc
            &&& step2.0.sp == cpu.sp
            &&& step2.0.status == with_zn(cpu.status, cpu.a)
        }),
{
    lemma_stack_discipline(cpu.sp, devs, cpu.a);
}

/// A push of the status byte followed by a pop into it restores `P` modulo
/// the defined handling of `B` and `U`: both are set in the result, and
/// every register is back where it started.
pub proof fn lemma_php_plp(cpu: Cpu, devs: Seq<DeviceView>)
    requires
        bus_wf(devs),
        has_ram(devs),
    ensures
        ({
            let step1 = run_op(OpKind::Php, cpu, devs, AddrModeResult::Imp);
            let step2 = run_op(OpKind::Plp, step1.0, step1.1, AddrModeResult::Imp);
            &&& step2.0.status == cpu.status | FLAG_B | FLAG_U
            &&& step2.0.a == cpu.a
            &&& step2.0.x == cpu.x
            &&& step2.0.y == cpu.y
            &&& step2.0.pc == cpu.pc
            &&& step2.0.sp == cpu.sp
        }),
{
    lemma_stack_discipline(cpu.sp, devs, cpu.status | FLAG_B | FLAG_U);
    let p = cpu.status;
    assert((p | 0x10u8 | 0x20u8) | 0x20u8 == p | 0x10u8 | 0x20u8) by (bit_vector);
}

/// Incrementing twice after decrementing twice restores the wrapped value.
pub proof fn lemma_wrap16_dec_inc(x: u16)
    ensures
        wadd16(crate::model::wsub16(x, 1), 1) == x,
{
    if x == 0 {
        assert(crate::model::wsub16(0, 1) == 0xffff);
        assert(wadd16(0xffff, 1) == 0);
    }
}

/// A subroutine call followed by a return: `JSR target` jumps to `target`
/// after saving the return address, and `RTS` restores the program counter
/// to the instruction after the call, with the stack pointer back where it
/// started.
pub proof fn lemma_jsr_rts(cpu: Cpu, devs: Seq<DeviceView>, target: u16)
    requires
        bus_wf(devs),
        has_ram(devs),
    ensures
        ({
            let call = run_op(
                OpKind::Jsr,
                cpu,
                devs,
                AddrModeResult::Mem { addr: target, crossed: false },
            );
            let ret = run_op(OpKind::Rts, call.0, call.1, AddrModeResult::Imp);
            &&& call.0.pc == target
            &&& ret.0.pc == cpu.pc
            &&& ret.0.sp == cpu.sp
            &&& ret.0.a == cpu.a
            &&& ret.0.status == cpu.status
        }),
{
    let saved = crate::model::wsub16(cpu.pc, 1);
    lemma_push16_pop16(cpu.sp, devs, saved);
    lemma_wrap16_dec_inc(cpu.pc);
}

/// Bits outside `mask` are untouched by a flag update.
pub proof fn lemma_flag_set_other(p: u8, mask: u8, on: bool, k: u8)
    by (bit_vector)
    requires
        mask & k == 0,
    ensures
        flag_set(p, mask, on) & k == p & k,
{
}

/// The add/subtract round trip: with the carry clear and no carry-out from
/// the addition, adding an operand and then subtracting it with the carry
/// set (borrow clear, as a programmer arranges before `SBC`) restores the
/// accumulator and leaves the carry set.
pub proof fn lemma_adc_sbc_round_trip(cpu: Cpu, m: u8)
    requires
        !flag_get(cpu.status, FLAG_C),
        cpu.a + m < 256,
    ensures
        ({
            let added = adc_core(cpu, m);
            let entry = Cpu { status: flag_set(added.status, FLAG_C, true), ..added };
            let subtracted = sbc_core(entry, m);
            &&& subtracted.a == cpu.a
            &&& flag_get(subtracted.status, FLAG_C)
        }),
{
    let added = adc_core(cpu, m);
    let entry = Cpu { status: flag_set(added.status, FLAG_C, true), ..added };
    let pa: u8 = added.status;
    let s0: u8 = entry.status;
    // the carry into the subtraction is the one just set
    assert((pa | 0x01u8) & 0x01u8 != 0) by (bit_vector);
    assert(carry_bit(entry.status) == 1);
    // the inverted operand is the nine's-complement byte
    assert(m ^ 0xffu8 == 255 - m) by (bit_vector);
    assert(added.a == cpu.a + m);
    let minv = m ^ 0xffu8;
    let sum2 = entry.a + minv + carry_bit(entry.status);
    assert(sum2 == cpu.a + 256);
    let result: u8 = (sum2 % 256) as u8;
    assert(result == cpu.a);
    // the carry-out of the subtraction survives the later flag updates
    let p1 = flag_set(entry.status, FLAG_C, sum2 > 255);
    assert((s0 | 0x01u8) & 0x01u8 != 0) by (bit_vector);
    assert(0x02u8 & 0x01u8 == 0 && 0x80u8 & 0x01u8 == 0 && 0x40u8 & 0x01u8 == 0) by (bit_vector);
    let p2 = flag_set(p1, FLAG_Z, result == 0);
    let p3 = flag_set(p2, FLAG_N, result & 0x80u8 != 0);
    lemma_flag_set_other(p1, FLAG_Z, result == 0, FLAG_C);
    lemma_flag_set_other(p2, FLAG_N, result & 0x80u8 != 0, FLAG_C);
    lemma_flag_set_other(
        p3,
        FLAG_V,
        ((!(entry.a ^ minv)) & (entry.a ^ result)) & 0x80u8 != 0,
        FLAG_C,
    );
}

/// The indirect-jump quirk: a pointer whose low byte is `0xFF` takes its
/// high byte from the start of its own page (`$xx00`), not from the next
/// page.
pub proof fn lemma_jmp_indirect_bug(cpu: Cpu, devs: Seq<DeviceView>)
    requires
        bus_read(devs, cpu.pc) == 0xff,
    ensures
        ({
            let h = bus_read(devs, wadd16(cpu.pc, 1));
            let ptr = ((h as u16) * 256 + 0xff) as u16;
            run_mode(Mode::Ind, cpu, devs).1 == (AddrModeResult::Mem {
                addr: ((bus_read(devs, ((h as u16) * 256) as u16) as u16) * 256 + (bus_read(
                    devs,
                    ptr,
                ) as u16)) as u16,
                crossed: false,
            })
        }),
{
    let h = bus_read(devs, wadd16(cpu.pc, 1));
    let ptr: u16 = ((h as u16) * 256 + 0xff) as u16;
    assert(ptr & 0xff00u16 == (h as u16) * 256) by (bit_vector)
        requires
            ptr == (h as u16) * 256 + 0xff,
    ;
}

/// Branch cycle costs: a branch not taken pays nothing; a taken branch pays
/// exactly one extra cycle on its own page and exactly two when the target
/// lies on another page than the post-increment program counter.
pub proof fn lemma_branch_cycles(cpu: Cpu, delta: u16)
    ensures
        branch_spec(cpu, false, AddrModeResult::Rel { delta }).1 == 0,
        ({
            let taken = branch_spec(cpu, true, AddrModeResult::Rel { delta });
            let target = wadd16(cpu.pc, delta);
            &&& taken.0.pc == target
            &&& taken.1 == (if (target & 0xff00) != (cpu.pc & 0xff00) {
                2u8
            } else {
                1u8
            })
        }),
{
}

/// Cycle accounting: an instruction fetched with `wait == 0` leaves `wait`
/// equal to its base cycle count plus its extra cycles, minus the one cycle
/// the fetch tick itself consumed; the extra cycles never exceed 2.
pub proof fn lemma_cycle_accounting(cpu: Cpu, devs: Seq<DeviceView>)
    requires
        cpu.wait == 0,
    ensures
        ({
            let opcode = bus_read(devs, cpu.pc);
            let extra = instr_extra(cpu, devs);
            &&& extra <= 2
            &&& instr_step(cpu, devs).0.wait + 1 == op_entry(opcode).cycles + extra
        }),
{
    reveal(instr_step);
    let opcode = bus_read(devs, cpu.pc);
    let e = op_entry(opcode);
    lemma_op_entry_cycles(opcode);
    let cpu1 = Cpu { pc: wadd16(cpu.pc, 1), ..cpu };
    let m = run_mode(e.mode, cpu1, devs);
    assert(run_op(e.kind, m.0, devs, m.1).2 <= 2);
}

/// Every base cycle count in the dispatch table lies between 2 and 8.
pub proof fn lemma_op_entry_cycles(opcode: u8)
    ensures
        2 <= op_entry(opcode).cycles <= 8,
{
}

/// The status bits each operation is documented to modify. `PLP` and `RTI`
/// replace the whole byte; `BRK` forces `B` clear and `I` set in the live
/// register.
pub open spec fn flags_written(k: OpKind) -> u8 {
    match k {
        OpKind::Lda => 0x82u8,
        OpKind::Ldx => 0x82u8,
        OpKind::Ldy => 0x82u8,
        OpKind::Tax => 0x82u8,
        OpKind::Tay => 0x82u8,
        OpKind::Tsx => 0x82u8,
        OpKind::Txa => 0x82u8,
        OpKind::Tya => 0x82u8,
        OpKind::Inx => 0x82u8,
        OpKind::Iny => 0x82u8,
        OpKind::Dex => 0x82u8,
        OpKind::Dey => 0x82u8,
        OpKind::Inc => 0x82u8,
        OpKind::Dec => 0x82u8,
        OpKind::And => 0x82u8,
        OpKind::Ora => 0x82u8,
        OpKind::Eor => 0x82u8,
        OpKind::Pla => 0x82u8,
        OpKind::Adc => 0xc3u8,
        OpKind::Sbc => 0xc3u8,
        OpKind::Cmp => 0x83u8,
        OpKind::Cpx => 0x83u8,
        OpKind::Cpy => 0x83u8,
        OpKind::Asl => 0x83u8,
        OpKind::Lsr => 0x83u8,
        OpKind::Rol => 0x83u8,
        OpKind::Ror => 0x83u8,
        OpKind::Bit => 0xc2u8,
        OpKind::Clc => 0x01u8,
        OpKind::Sec => 0x01u8,
        OpKind::Cld => 0x08u8,
        OpKind::Sed => 0x08u8,
        OpKind::Cli => 0x04u8,
        OpKind::Sei => 0x04u8,
        OpKind::Clv => 0x40u8,
        OpKind::Php => 0x30u8,
        OpKind::Plp => 0xffu8,
        OpKind::Rti => 0xffu8,
        OpKind::Brk => 0x14u8,
        _ => 0x00u8,
    }
}

/// A flag update inside `w` leaves the bits outside `w` alone.
pub proof fn lemma_flag_set_within(p: u8, mask: u8, on: bool, w: u8)
    by (bit_vector)
    requires
        mask & !w == 0,
    ensures
        flag_set(p, mask, on) & !w == p & !w,
{
}

/// Nothing lies outside the full mask.
pub proof fn lemma_and_not_ff(a: u8, b: u8)
    by (bit_vector)
    ensures
        a & !0xffu8 == b & !0xffu8,
{
}

/// A zero/negative update leaves all bits outside `Z` and `N` alone.
pub proof fn lemma_with_zn_within(p: u8, v: u8)
    ensures
        with_zn(p, v) & !0x82u8 == p & !0x82u8,
{
    assert(0x02u8 & !0x82u8 == 0 && 0x80u8 & !0x82u8 == 0) by (bit_vector);
    lemma_flag_set_within(p, FLAG_Z, v == 0, 0x82u8);
    lemma_flag_set_within(flag_set(p, FLAG_Z, v == 0), FLAG_N, v & 0x80u8 != 0, 0x82u8);
}

/// Add-with-carry touches only `C`, `Z`, `N` and `V`.
pub proof fn lemma_adc_flags_within(cpu: Cpu, m: u8)
    ensures
        adc_core(cpu, m).status & !0xc3u8 == cpu.status & !0xc3u8,
{
    assert(0x01u8 & !0xc3u8 == 0 && 0x02u8 & !0xc3u8 == 0 && 0x80u8 & !0xc3u8 == 0 && 0x40u8
        & !0xc3u8 == 0) by (bit_vector);
    let sum = cpu.a + m + carry_bit(cpu.status);
    let result = (sum % 256) as u8;
    let p1 = flag_set(cpu.status, FLAG_C, sum > 255);
    let p2 = flag_set(p1, FLAG_Z, result == 0);
    let p3 = flag_set(p2, FLAG_N, result & 0x80u8 != 0);
    lemma_flag_set_within(cpu.status, FLAG_C, sum > 255, 0xc3u8);
    lemma_flag_set_within(p1, FLAG_Z, result == 0, 0xc3u8);
    lemma_flag_set_within(p2, FLAG_N, result & 0x80u8 != 0, 0xc3u8);
    lemma_flag_set_within(
        p3,
        FLAG_V,
        ((!(cpu.a ^ m)) & (cpu.a ^ result)) & 0x80u8 != 0,
        0xc3u8,
    );
}

/// A compare touches only `C`, `Z` and `N`.
pub proof fn lemma_cmp_flags_within(p: u8, reg: u8, m: u8)
    ensures
        crate::model::cmp_core(p, reg, m) & !0x83u8 == p & !0x83u8,
{
    assert(0x01u8 & !0x83u8 == 0 && 0x02u8 & !0x83u8 == 0 && 0x80u8 & !0x83u8 == 0) by (bit_vector);
    let diff = wsub8(reg, m);
    let p1 = flag_set(p, FLAG_C, reg >= m);
    let p2 = flag_set(p1, FLAG_Z, reg == m);
    lemma_flag_set_within(p, FLAG_C, reg >= m, 0x83u8);
    lemma_flag_set_within(p1, FLAG_Z, reg == m, 0x83u8);
    lemma_flag_set_within(p2, FLAG_N, diff & 0x80u8 != 0, 0x83u8);
}

/// A shift or rotate touches only `C`, `Z` and `N`.
pub proof fn lemma_shift_flags_within(p: u8, cbit: bool, res: u8)
    ensures
        with_zn(flag_set(p, FLAG_C, cbit), res) & !0x83u8 == p & !0x83u8,
{
    assert(0x01u8 & !0x83u8 == 0 && 0x02u8 & !0x83u8 == 0 && 0x80u8 & !0x83u8 == 0) by (bit_vector);
    let p1 = flag_set(p, FLAG_C, cbit);
    let p2 = flag_set(p1, FLAG_Z, res == 0);
    lemma_flag_set_within(p, FLAG_C, cbit, 0x83u8);
    lemma_flag_set_within(p1, FLAG_Z, res == 0, 0x83u8);
    lemma_flag_set_within(p2, FLAG_N, res & 0x80u8 != 0, 0x83u8);
}

/// Flag locality: an operation modifies only its documented flags;
/// every status bit outside `flags_written` is preserved.
pub proof fn lemma_flag_locality(k: OpKind, cpu: Cpu, devs: Seq<DeviceView>, amr: AddrModeResult)
    ensures
        ({
            let w = flags_written(k);
            run_op(k, cpu, devs, amr).0.status & !w == cpu.status & !w
        }),
{
    let v = fetch_spec(cpu, devs, amr);
    match k {
        OpKind::Lda => lemma_with_zn_within(cpu.status, v),
        OpKind::Ldx => lemma_with_zn_within(cpu.status, v),
        OpKind::Ldy => lemma_with_zn_within(cpu.status, v),
        OpKind::Tax => lemma_with_zn_within(cpu.status, cpu.a),
        OpKind::Tay => lemma_with_zn_within(cpu.status, cpu.a),
        OpKind::Tsx => lemma_with_zn_within(cpu.status, cpu.sp),
        OpKind::Txa => lemma_with_zn_within(cpu.status, cpu.x),
        OpKind::Tya => lemma_with_zn_within(cpu.status, cpu.y),
        OpKind::Inx => lemma_with_zn_within(cpu.status, wadd8(cpu.x, 1)),
        OpKind::Iny => lemma_with_zn_within(cpu.status, wadd8(cpu.y, 1)),
        OpKind::Dex => lemma_with_zn_within(cpu.status, wsub8(cpu.x, 1)),
        OpKind::Dey => lemma_with_zn_within(cpu.status, wsub8(cpu.y, 1)),
        OpKind::Inc => lemma_with_zn_within(cpu.status, wadd8(v, 1)),
        OpKind::Dec => lemma_with_zn_within(cpu.status, wsub8(v, 1)),
        OpKind::And => lemma_with_zn_within(cpu.status, cpu.a & v),
        OpKind::Ora => lemma_with_zn_within(cpu.status, cpu.a | v),
        OpKind::Eor => lemma_with_zn_within(cpu.status, cpu.a ^ v),
        OpKind::Pla => lemma_with_zn_within(cpu.status, pop_spec(cpu.sp, devs).1),
        OpKind::Adc => lemma_adc_flags_within(cpu, v),
        OpKind::Sbc => lemma_adc_flags_within(cpu, v ^ 0xffu8),
        OpKind::Cmp => lemma_cmp_flags_within(cpu.status, cpu.a, v),
        OpKind::Cpx => lemma_cmp_flags_within(cpu.status, cpu.x, v),
        OpKind::Cpy => lemma_cmp_flags_within(cpu.status, cpu.y, v),
        OpKind::Asl => lemma_shift_flags_within(cpu.status, v & 0x80u8 != 0, ((v * 2) % 256) as u8),
        OpKind::Lsr => lemma_shift_flags_within(cpu.status, v & 0x01u8 != 0, v / 2),
        OpKind::Rol => lemma_shift_flags_within(
            cpu.status,
            v & 0x80u8 != 0,
            ((v * 2 + carry_bit(cpu.status)) % 256) as u8,
        ),
        OpKind::Ror => lemma_shift_flags_within(
            cpu.status,
            v & 0x01u8 != 0,
            (v / 2 + carry_bit(cpu.status) * 128) as u8,
        ),
        OpKind::Bit => {
            assert(0x02u8 & !0xc2u8 == 0 && 0x80u8 & !0xc2u8 == 0 && 0x40u8 & !0xc2u8 == 0)
                by (bit_vector);
            let p1 = flag_set(cpu.status, FLAG_Z, (cpu.a & v) == 0);
            let p2 = flag_set(p1, FLAG_N, v & 0x80u8 != 0);
            lemma_flag_set_within(cpu.status, FLAG_Z, (cpu.a & v) == 0, 0xc2u8);
            lemma_flag_set_within(p1, FLAG_N, v & 0x80u8 != 0, 0xc2u8);
            lemma_flag_set_within(p2, FLAG_V, v & 0x40u8 != 0, 0xc2u8);
        },
        OpKind::Clc => {
            assert(0x01u8 & !0x01u8 == 0) by (bit_vector);
            lemma_flag_set_within(cpu.status, FLAG_C, false, 0x01u8);
        },
        OpKind::Sec => {
            assert(0x01u8 & !0x01u8 == 0) by (bit_vector);
            lemma_flag_set_within(cpu.status, FLAG_C, true, 0x01u8);
        },
        OpKind::Cld => {
            assert(0x08u8 & !0x08u8 == 0) by (bit_vector);
            lemma_flag_set_within(cpu.status, crate::mos6502::FLAG_D, false, 0x08u8);
        },
        OpKind::Sed => {
            assert(0x08u8 & !0x08u8 == 0) by (bit_vector);
            lemma_flag_set_within(cpu.status, crate::mos6502::FLAG_D, true, 0x08u8);
        },
        OpKind::Cli => {
            assert(0x04u8 & !0x04u8 == 0) by (bit_vector);
            lemma_flag_set_within(cpu.status, crate::mos6502::FLAG_I, false, 0x04u8);
        },
        OpKind::Sei => {
            assert(0x04u8 & !0x04u8 == 0) by (bit_vector);
            lemma_flag_set_within(cpu.status, crate::mos6502::FLAG_I, true, 0x04u8);
        },
        OpKind::Clv => {
            assert(0x40u8 & !0x40u8 == 0) by (bit_vector);
            lemma_flag_set_within(cpu.status, FLAG_V, false, 0x40u8);
        },
        OpKind::Php => {
            assert(0x10u8 & !0x30u8 == 0 && 0x20u8 & !0x30u8 == 0) by (bit_vector);
            let p1 = flag_set(cpu.status, FLAG_B, false);
            lemma_flag_set_within(cpu.status, FLAG_B, false, 0x30u8);
            lemma_flag_set_within(p1, FLAG_U, false, 0x30u8);
        },
        OpKind::Plp => {
            lemma_and_not_ff(run_op(k, cpu, devs, amr).0.status, cpu.status);
        },
        OpKind::Rti => {
            lemma_and_not_ff(run_op(k, cpu, devs, amr).0.status, cpu.status);
        },
        OpKind::Brk => {
            assert(0x10u8 & !0x14u8 == 0 && 0x04u8 & !0x14u8 == 0) by (bit_vector);
            let p1 = flag_set(cpu.status, FLAG_B, true);
            let p2 = flag_set(p1, FLAG_B, false);
            lemma_flag_set_within(cpu.status, FLAG_B, true, 0x14u8);
            lemma_flag_set_within(p1, FLAG_B, false, 0x14u8);
            lemma_flag_set_within(p2, crate::mos6502::FLAG_I, true, 0x14u8);
        },
        _ => {},
    }
}

} // verus!
