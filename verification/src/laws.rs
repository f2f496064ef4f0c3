//! What holds of the interpreter, whatever program runs: stack round
//! trips, the delay of `EI`, the service of interrupts, and how a
//! conditional branch follows its flag.

use vstd::prelude::*;
use crate::alu::{alu8, lemma_add_sub_inverse, sub8, wrap16, wrap8};
use crate::bits::lowered;
use crate::bus::{lemma_ram, next, Bus, BusView};
use crate::cpu::{
    after_store, cycle_allowed, fetched, idles, opcode_at, pending, retire, services, spec_cycle,
    store_allowed, Flags, CPU,
};
use crate::isa;
use crate::GBView;

verus! {

/// A word written to plain memory is read back.
pub proof fn lemma_word_round_trip(bus: Bus, addr: u16, data: u16)
    requires
        BusView::is_ram(addr),
        BusView::is_ram(next(addr)),
    ensures
        bus@.poke16_allowed(addr, data),
        bus@.poke16(addr, data).peek16(addr) == data,
        bus@.poke16(addr, data).io == bus@.io,
{
    reveal(BusView::poke);
    let low = (data % 256) as u8;
    let high = (data / 256) as u8;
    let first = bus@.poke(addr, low);
    lemma_ram(bus, addr, low, addr);
    assert(first.vram.len() == 2 && first.wram.len() == 8 && first.oam.len() == 0xA0
        && first.hram.len() == 0x7F);
    lemma_ram_view(first, next(addr), high, addr);
    lemma_ram_view(first, next(addr), high, next(addr));
}

/// The law of plain memory, for any bus content of the right shape.
proof fn lemma_ram_view(bus: BusView, addr: u16, v: u8, other: u16)
    requires
        BusView::is_ram(addr),
        bus.vram.len() == 2,
        bus.vram[0].len() == 0x2000,
        bus.vram[1].len() == 0x2000,
        bus.wram.len() == 8,
        forall|b: int| 0 <= b < 8 ==> (#[trigger] bus.wram[b]).len() == 0x1000,
        bus.oam.len() == 0xA0,
        bus.hram.len() == 0x7F,
    ensures
        bus.poke(addr, v).peek(addr) == v,
        BusView::is_ram(other) && other != addr ==> bus.poke(addr, v).peek(other) == bus.peek(
            other,
        ),
        bus.poke(addr, v).io == bus.io,
{
    reveal(BusView::peek);
    reveal(BusView::poke);
}

/// `PUSH r16` followed by `POP r16` restores every register bit for
/// bit, the stack pointer and the flags included, where the two bytes
/// below the stack pointer are plain memory.
pub proof fn lemma_push_pop(cpu: CPU, bus: Bus, r: int)
    requires
        0 <= r < 4,
        BusView::is_ram(wrap16(cpu.sp - 2)),
        BusView::is_ram(wrap16(cpu.sp - 1)),
    ensures
        store_allowed(bus@, isa::push(cpu, r).store),
        isa::pop(isa::push(cpu, r).cpu, after_store(bus@, isa::push(cpu, r).store), r).cpu == cpu,
{
    reveal(isa::push);
    reveal(isa::pop);
    let sp = wrap16(cpu.sp - 2);
    assert(next(sp) == wrap16(cpu.sp - 1));
    lemma_word_round_trip(bus, sp, cpu.r16stk(r));
    let pushed = isa::push(cpu, r);
    let memory = after_store(bus@, pushed.store);
    assert(memory.peek16(sp) == cpu.r16stk(r));
    let back = pushed.cpu.with_r16stk(r, cpu.r16stk(r));
    if r == 3 {
        assert(cpu.af() / 256 == cpu.a);
        assert(cpu.af() % 256 == cpu.f.packed());
        assert(Flags::unpacked((cpu.af() % 256) as u8) == cpu.f);
    } else if r == 0 {
        assert(cpu.bc() / 256 == cpu.b && cpu.bc() % 256 == cpu.c);
    } else if r == 1 {
        assert(cpu.de() / 256 == cpu.d && cpu.de() % 256 == cpu.e);
    } else {
        assert(cpu.hl() / 256 == cpu.h && cpu.hl() % 256 == cpu.l);
    }
    assert(back.a == cpu.a && back.f == cpu.f);
    assert(wrap16(sp + 2) == cpu.sp);
}

/// The round trip through the stack as two steps of the CPU: with
/// `PUSH r16` at PC and `POP r16` behind it in ROM, the stack in plain
/// memory, and no interrupt in between, two steps restore every
/// register and leave PC behind the two instructions.
pub proof fn lemma_push_pop_steps(gb: crate::GB, r: int)
    requires
        0 <= r < 4,
        !gb@.cpu.halt,
        !gb@.cpu.ime,
        !gb@.cpu.ime_soon,
        opcode_at(gb@) == 0xC5 + 16 * r,
        gb@.bus.peek(next(gb@.cpu.pc)) == 0xC1 + 16 * r,
        BusView::is_ram(wrap16(gb@.cpu.sp - 2)),
        BusView::is_ram(wrap16(gb@.cpu.sp - 1)),
        !(0x8000 <= next(gb@.cpu.pc) <= 0xFDFF) && !(0xFE00 <= next(gb@.cpu.pc) <= 0xFFFE),
    ensures
        cycle_allowed(gb@),
        cycle_allowed(spec_cycle(gb@).0),
        spec_cycle(spec_cycle(gb@).0).0.cpu == (CPU {
            pc: wrap16(wrap16(gb@.cpu.pc + 1) + 1),
            ..gb@.cpu
        }),
        spec_cycle(gb@).1 == 4,
        spec_cycle(spec_cycle(gb@).0).1 == 3,
{
    let g = gb@;
    let cpu = g.cpu;
    let sp = wrap16(cpu.sp - 2);
    assert(next(sp) == wrap16(cpu.sp - 1));
    reveal(isa::table3);
    lemma_push_pop(cpu, gb.bus, r);
    lemma_word_round_trip(gb.bus, sp, cpu.r16stk(r));
    reveal(isa::push);
    reveal(isa::pop);
    assert(!idles(g) && !services(g));
    let op = opcode_at(g);
    assert(op == 0xC5 || op == 0xD5 || op == 0xE5 || op == 0xF5);
    let pushed = fetched(g);
    assert(pushed == isa::push(cpu, r));
    let one = spec_cycle(g).0;
    assert(one.bus == g.bus.poke16(sp, cpu.r16stk(r)));
    assert(one.cpu == CPU { pc: wrap16(cpu.pc + 1), sp, ..cpu });
    assert(pending(one.bus.io) == pending(g.bus.io));
    assert(!idles(one) && !services(one));
    lemma_code_stays(gb.bus, sp, cpu.r16stk(r), next(cpu.pc));
    assert(next(cpu.pc) == wrap16(cpu.pc + 1));
    let second = opcode_at(one);
    assert(second == 0xC1 + 16 * r);
    assert(second == 0xC1 || second == 0xD1 || second == 0xE1 || second == 0xF1);
    let popped = fetched(one);
    assert(popped == isa::pop(one.cpu, one.bus, r));
    assert(isa::pop(one.cpu, one.bus, r).cpu == CPU {
        pc: one.cpu.pc,
        ..isa::pop(pushed.cpu, one.bus, r).cpu
    });
}

/// A word written to plain memory leaves what is read outside of
/// memory that can be written as it was.
proof fn lemma_code_stays(bus: Bus, addr: u16, data: u16, code: u16)
    requires
        BusView::is_ram(addr),
        BusView::is_ram(next(addr)),
        !(0x8000 <= code <= 0xFDFF) && !(0xFE00 <= code <= 0xFFFE),
    ensures
        bus@.poke16(addr, data).peek(code) == bus@.peek(code),
{
    reveal(BusView::peek);
    reveal(BusView::poke);
}

/// `ADD A, n` followed by `SUB A, n` leaves A as it was, with the flags
/// that the subtraction alone gives.
pub proof fn lemma_add_then_sub(cpu: CPU, n: u8)
    ensures
        isa::alu_imm(isa::alu_imm(cpu, 0, n).cpu, 2, n).cpu.a == cpu.a,
        isa::alu_imm(isa::alu_imm(cpu, 0, n).cpu, 2, n).cpu.f == sub8(
            wrap8(cpu.a + n),
            n,
            false,
        ).1,
        isa::alu_imm(isa::alu_imm(cpu, 2, n).cpu, 0, n).cpu.a == cpu.a,
{
    reveal(isa::alu_imm);
    lemma_add_sub_inverse(cpu.a, n, cpu.f, alu8(0, cpu.a, n, cpu.f).1);
    lemma_add_sub_inverse(cpu.a, n, cpu.f, alu8(2, cpu.a, n, cpu.f).1);
}

/// The inverse in A as two steps of the CPU: with `ADD A, n` at PC and
/// `SUB A, n` behind it, and no interrupt in between, two steps leave A
/// as it was, with the flags that the subtraction alone gives, and
/// memory untouched.
pub proof fn lemma_add_sub_steps(gb: GBView, n: u8)
    requires
        !gb.cpu.halt,
        !gb.cpu.ime,
        !gb.cpu.ime_soon,
        opcode_at(gb) == 0xC6,
        gb.bus.peek(next(gb.cpu.pc)) == n,
        gb.bus.peek(next(next(gb.cpu.pc))) == 0xD6,
        gb.bus.peek(next(next(next(gb.cpu.pc)))) == n,
    ensures
        cycle_allowed(gb),
        cycle_allowed(spec_cycle(gb).0),
        spec_cycle(spec_cycle(gb).0).0.cpu == (CPU {
            pc: next(next(next(next(gb.cpu.pc)))),
            f: sub8(wrap8(gb.cpu.a + n), n, false).1,
            ..gb.cpu
        }),
        spec_cycle(spec_cycle(gb).0).0.bus == gb.bus,
{
    reveal(isa::table3);
    reveal(isa::alu_imm);
    lemma_add_then_sub(gb.cpu, n);
    let added = fetched(gb);
    assert(added == isa::alu_imm(gb.cpu, 0, n));
    let one = spec_cycle(gb).0;
    assert(one.bus == gb.bus);
    assert(one.cpu.pc == next(next(gb.cpu.pc)));
    assert(!idles(one) && !services(one));
    let taken = fetched(one);
    assert(taken == isa::alu_imm(one.cpu, 2, n));
    lemma_add_sub_inverse(gb.cpu.a, n, gb.cpu.f, alu8(0, gb.cpu.a, n, gb.cpu.f).1);
}

/// A conditional branch follows its flag: it is taken exactly when the
/// condition holds, and turning the flag over turns the branch over.
pub proof fn lemma_branch_follows_flag(cpu: CPU, bus: BusView, cond: int, imm8: u8, imm16: u16)
    requires
        0 <= cond < 4,
    ensures
        isa::jp_cond(cpu, cond, imm16).cpu.pc == (if cpu.f.holds(cond) {
            imm16
        } else {
            cpu.pc
        }),
        isa::jp_cond(cpu, cond, imm16).mcycles == (if cpu.f.holds(cond) {
            4u64
        } else {
            3u64
        }),
        isa::jr(cpu, imm8, cpu.f.holds(cond)).mcycles == (if cpu.f.holds(cond) {
            3u64
        } else {
            2u64
        }),
        isa::call_cond(cpu, cond, imm16).cpu.pc == (if cpu.f.holds(cond) {
            imm16
        } else {
            cpu.pc
        }),
        isa::ret_cond(cpu, bus, cond).cpu.sp == (if cpu.f.holds(cond) {
            wrap16(cpu.sp + 2)
        } else {
            cpu.sp
        }),
        cond <= 1 ==> (Flags { z: !cpu.f.z, ..cpu.f }).holds(cond) == !cpu.f.holds(cond),
        cond >= 2 ==> (Flags { c: !cpu.f.c, ..cpu.f }).holds(cond) == !cpu.f.holds(cond),
{
    reveal(isa::jp_cond);
    reveal(isa::jr);
    reveal(isa::call_cond);
    reveal(isa::ret_cond);
}

/// `EI` does not enable interrupts at once: after it, the flag is as
/// it was and the enabling is pending.
pub proof fn lemma_ei_is_delayed(gb: GBView)
    requires
        !idles(gb),
        !services(gb),
        opcode_at(gb) == 0xFB,
        !gb.cpu.ime_soon,
    ensures
        cycle_allowed(gb),
        spec_cycle(gb).0.cpu.ime == gb.cpu.ime,
        spec_cycle(gb).0.cpu.ime_soon,
        spec_cycle(gb).0.cpu.pc == wrap16(gb.cpu.pc + 1),
        spec_cycle(gb).0.bus == gb.bus,
        spec_cycle(gb).1 == 1,
{
    reveal(isa::table3);
    reveal(isa::ei);
}

/// While the enabling is pending, no interrupt is serviced: the next
/// instruction is executed, and with its end interrupts are enabled,
/// unless that instruction is `DI`.
pub proof fn lemma_ei_takes_effect(gb: GBView)
    requires
        !idles(gb),
        !gb.cpu.ime,
        gb.cpu.ime_soon,
    ensures
        !services(gb),
        spec_cycle(gb).0.cpu == retire(fetched(gb)),
        opcode_at(gb) != 0xF3 ==> spec_cycle(gb).0.cpu.ime && !spec_cycle(gb).0.cpu.ime_soon,
        opcode_at(gb) == 0xF3 ==> !spec_cycle(gb).0.cpu.ime && !spec_cycle(gb).0.cpu.ime_soon,
{
    let cpu = CPU { halt: false, ..gb.cpu };
    let out = fetched(gb);
    let op = opcode_at(gb);
    isa::lemma_keeps_ime();
    reveal(isa::table0);
    reveal(isa::table1);
    reveal(isa::table2);
    reveal(isa::table3);
    reveal(isa::di);
    reveal(isa::reti);
    if op < 0x40 {
        assert(out.cpu.ime_soon);
    } else if op < 0x80 {
        assert(out.cpu.ime_soon);
    } else if op < 0xC0 {
        assert(out.cpu.ime_soon);
    } else if op == 0xF3 {
        assert(!out.cpu.ime && !out.cpu.ime_soon && !out.ei);
    } else if op == 0xD9 {
        assert(out.cpu.ime);
    } else {
        assert(out.cpu.ime || out.cpu.ime_soon);
    }
}

/// With interrupts enabled, a flagged and enabled interrupt is serviced
/// before any instruction: in five M-cycles PC is pushed, interrupts
/// are disabled, the flag of the interrupt is lowered and PC is at its
/// handler.
pub proof fn lemma_interrupt_is_serviced(gb: GBView)
    requires
        gb.cpu.ime,
        pending(gb.bus.io) is Some,
    ensures
        services(gb),
        spec_cycle(gb).1 == 5,
        spec_cycle(gb).0.cpu.pc == 0x40 + 8 * pending(gb.bus.io).unwrap(),
        spec_cycle(gb).0.cpu.sp == wrap16(gb.cpu.sp - 2),
        !spec_cycle(gb).0.cpu.ime,
        !spec_cycle(gb).0.cpu.halt,
        spec_cycle(gb).0.bus.io.interrupt == lowered(
            gb.bus.poke16(wrap16(gb.cpu.sp - 2), gb.cpu.pc).io.interrupt,
            pending(gb.bus.io).unwrap(),
        ),
{
}

/// A halted CPU stays halted for one M-cycle at a time, and nothing
/// changes, until an enabled interrupt is flagged.
pub proof fn lemma_halt_waits(gb: GBView)
    requires
        gb.cpu.halt,
    ensures
        pending(gb.bus.io) is None ==> spec_cycle(gb) == (gb, 1u64),
        pending(gb.bus.io) is Some ==> !spec_cycle(gb).0.cpu.halt || fetched(gb).cpu.halt,
{
}

} // verus!
