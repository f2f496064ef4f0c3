//! The instructions as code: each function carries out one instruction
//! on a copy of the registers and is proved against its definition in
//! the instruction set.

use vstd::prelude::*;
use crate::alu::{
    alu, alu_add16, alu_add_signed, alu_bit, alu_cpl, alu_daa, alu_dec, alu_inc, alu_res,
    alu_set, alu_shift,
};
use crate::bits::{lemma_high_fields, lemma_low_bits};
use crate::bus::Bus;
use crate::cpu::{
    get_cond, get_r16, get_r16mem, get_r16stk, get_r8, set_r16, set_r16mem, set_r16stk, set_r8,
    Flags, Store, CPU,
};
use crate::isa;
use crate::isa::Outcome;

verus! {

/// An instruction that only changes registers.
pub fn done(cpu: CPU, bytes: u16, mcycles: u64) -> (out: Outcome)
    ensures
        out == isa::done(cpu, bytes, mcycles),
{
    Outcome { cpu, store: Store::Skip, bytes, mcycles, ei: false, stop: false, legal: true }
}

/// An instruction that writes to memory.
pub fn stored(cpu: CPU, store: Store, bytes: u16, mcycles: u64) -> (out: Outcome)
    ensures
        out == isa::stored(cpu, store, bytes, mcycles),
{
    Outcome { cpu, store, bytes, mcycles, ei: false, stop: false, legal: true }
}

/// An opcode that the CPU does not have.
pub fn illegal(cpu: CPU) -> (out: Outcome)
    ensures
        out == isa::illegal(cpu),
{
    Outcome { cpu, store: Store::Skip, bytes: 0, mcycles: 0, ei: false, stop: false, legal: false }
}

/// `LD r16, imm16`.
pub fn ld_r16_imm(cpu: CPU, r: u8, imm16: u16) -> (out: Outcome)
    requires
        r < 4,
    ensures
        out == isa::ld_r16_imm(cpu, r as int, imm16),
{
    proof {
        reveal(isa::ld_r16_imm);
    }
    let mut cpu = cpu;
    set_r16(&mut cpu, r, imm16);
    done(cpu, 3, 3)
}

/// `LD [imm16], SP`.
pub fn ld_mem_sp(cpu: CPU, imm16: u16) -> (out: Outcome)
    ensures
        out == isa::ld_mem_sp(cpu, imm16),
{
    proof {
        reveal(isa::ld_mem_sp);
    }
    stored(cpu, Store::Word(imm16, cpu.sp), 3, 5)
}

/// `STOP`: the CPU stops until woken, and an armed speed switch is carried out.
pub fn stop(cpu: CPU) -> (out: Outcome)
    ensures
        out == isa::stop(cpu),
{
    proof {
        reveal(isa::stop);
    }
    let mut cpu = cpu;
    cpu.halt = true;
    Outcome { cpu, store: Store::Skip, bytes: 2, mcycles: 1, ei: false, stop: true, legal: true }
}

/// `JR imm8` and `JR cond, imm8`: a taken branch adds the signed offset
/// to the address of the next instruction.
pub fn jr(cpu: CPU, imm8: u8, taken: bool) -> (out: Outcome)
    ensures
        out == isa::jr(cpu, imm8, taken),
{
    proof {
        reveal(isa::jr);
    }
    let mut cpu = cpu;
    if taken {
        cpu.pc = alu_add_signed(cpu.pc, imm8).0;
        done(cpu, 2, 3)
    } else {
        done(cpu, 2, 2)
    }
}

/// `ADD HL, r16`.
pub fn add_hl(cpu: CPU, r: u8) -> (out: Outcome)
    requires
        r < 4,
    ensures
        out == isa::add_hl(cpu, r as int),
{
    proof {
        reveal(isa::add_hl);
    }
    let mut cpu = cpu;
    let value: u16 = get_r16(&cpu, r);
    let sum: (u16, Flags) = alu_add16(cpu.get_hl(), value, cpu.f);
    cpu.set_hl(sum.0);
    cpu.f = sum.1;
    done(cpu, 1, 2)
}

/// `LD [r16mem], A`.
pub fn ld_mem_a(cpu: CPU, r: u8) -> (out: Outcome)
    requires
        r < 4,
    ensures
        out == isa::ld_mem_a(cpu, r as int),
{
    proof {
        reveal(isa::ld_mem_a);
    }
    let mut cpu = cpu;
    let store = set_r16mem(&mut cpu, r);
    stored(cpu, store, 1, 2)
}

/// `LD A, [r16mem]`.
pub fn ld_a_mem(cpu: CPU, bus: &Bus, r: u8) -> (out: Outcome)
    requires
        r < 4,
    ensures
        out == isa::ld_a_mem(cpu, bus@, r as int),
{
    proof {
        reveal(isa::ld_a_mem);
    }
    let mut cpu = cpu;
    get_r16mem(&mut cpu, bus, r);
    done(cpu, 1, 2)
}

/// `INC r16`.
pub fn inc_r16(cpu: CPU, r: u8) -> (out: Outcome)
    requires
        r < 4,
    ensures
        out == isa::inc_r16(cpu, r as int),
{
    proof {
        reveal(isa::inc_r16);
    }
    let mut cpu = cpu;
    let value: u16 = get_r16(&cpu, r).wrapping_add(1);
    set_r16(&mut cpu, r, value);
    done(cpu, 1, 2)
}

/// `DEC r16`.
pub fn dec_r16(cpu: CPU, r: u8) -> (out: Outcome)
    requires
        r < 4,
    ensures
        out == isa::dec_r16(cpu, r as int),
{
    proof {
        reveal(isa::dec_r16);
    }
    let mut cpu = cpu;
    let value: u16 = get_r16(&cpu, r).wrapping_sub(1);
    set_r16(&mut cpu, r, value);
    done(cpu, 1, 2)
}

/// `INC r8`.
pub fn inc_r8(cpu: CPU, bus: &Bus, r: u8) -> (out: Outcome)
    requires
        r < 8,
    ensures
        out == isa::inc_r8(cpu, bus@, r as int),
{
    proof {
        reveal(isa::inc_r8);
    }
    let mut cpu = cpu;
    let got: (u8, u64) = get_r8(&cpu, bus, r);
    let v: (u8, Flags) = alu_inc(got.0, cpu.f);
    let put: (Store, u64) = set_r8(&mut cpu, r, v.0);
    cpu.f = v.1;
    stored(cpu, put.0, 1, 1 + got.1 + put.1)
}

/// `DEC r8`.
pub fn dec_r8(cpu: CPU, bus: &Bus, r: u8) -> (out: Outcome)
    requires
        r < 8,
    ensures
        out == isa::dec_r8(cpu, bus@, r as int),
{
    proof {
        reveal(isa::dec_r8);
    }
    let mut cpu = cpu;
    let got: (u8, u64) = get_r8(&cpu, bus, r);
    let v: (u8, Flags) = alu_dec(got.0, cpu.f);
    let put: (Store, u64) = set_r8(&mut cpu, r, v.0);
    cpu.f = v.1;
    stored(cpu, put.0, 1, 1 + got.1 + put.1)
}

/// `LD r8, imm8`.
pub fn ld_r8_imm(cpu: CPU, r: u8, imm8: u8) -> (out: Outcome)
    requires
        r < 8,
    ensures
        out == isa::ld_r8_imm(cpu, r as int, imm8),
{
    proof {
        reveal(isa::ld_r8_imm);
    }
    let mut cpu = cpu;
    let put: (Store, u64) = set_r8(&mut cpu, r, imm8);
    stored(cpu, put.0, 2, 2 + put.1)
}

/// `RLCA`, `RRCA`, `RLA`, `RRA`.
pub fn rotate_acc(cpu: CPU, select: u8) -> (out: Outcome)
    requires
        select < 4,
    ensures
        out == isa::rotate_acc(cpu, select as int),
{
    proof {
        reveal(isa::rotate_acc);
    }
    let mut cpu = cpu;
    let v: (u8, bool) = alu_shift(select, cpu.a, cpu.f.c);
    cpu.a = v.0;
    cpu.f = Flags { z: false, n: false, h: false, c: v.1 };
    done(cpu, 1, 1)
}

/// `DAA`.
pub fn decimal_adjust(cpu: CPU) -> (out: Outcome)
    ensures
        out == isa::decimal_adjust(cpu),
{
    proof {
        reveal(isa::decimal_adjust);
    }
    let mut cpu = cpu;
    let v: (u8, Flags) = alu_daa(cpu.a, cpu.f);
    cpu.a = v.0;
    cpu.f = v.1;
    done(cpu, 1, 1)
}

/// `CPL`.
pub fn complement(cpu: CPU) -> (out: Outcome)
    ensures
        out == isa::complement(cpu),
{
    proof {
        reveal(isa::complement);
    }
    let mut cpu = cpu;
    let v: (u8, Flags) = alu_cpl(cpu.a, cpu.f);
    cpu.a = v.0;
    cpu.f = v.1;
    done(cpu, 1, 1)
}

/// `SCF`.
pub fn set_carry(cpu: CPU) -> (out: Outcome)
    ensures
        out == isa::set_carry(cpu),
{
    proof {
        reveal(isa::set_carry);
    }
    let mut cpu = cpu;
    cpu.f.n = false;
    cpu.f.h = false;
    cpu.f.c = true;
    done(cpu, 1, 1)
}

/// `CCF`.
pub fn flip_carry(cpu: CPU) -> (out: Outcome)
    ensures
        out == isa::flip_carry(cpu),
{
    proof {
        reveal(isa::flip_carry);
    }
    let mut cpu = cpu;
    cpu.f.n = false;
    cpu.f.h = false;
    cpu.f.c = !cpu.f.c;
    done(cpu, 1, 1)
}

/// `HALT`.
pub fn halt(cpu: CPU) -> (out: Outcome)
    ensures
        out == isa::halt(cpu),
{
    proof {
        reveal(isa::halt);
    }
    let mut cpu = cpu;
    cpu.halt = true;
    done(cpu, 1, 1)
}

/// `LD r8, r8`.
pub fn ld_r8_r8(cpu: CPU, bus: &Bus, dst: u8, src: u8) -> (out: Outcome)
    requires
        dst < 8,
        src < 8,
    ensures
        out == isa::ld_r8_r8(cpu, bus@, dst as int, src as int),
{
    proof {
        reveal(isa::ld_r8_r8);
    }
    let mut cpu = cpu;
    let got: (u8, u64) = get_r8(&cpu, bus, src);
    let put: (Store, u64) = set_r8(&mut cpu, dst, got.0);
    stored(cpu, put.0, 1, 1 + got.1 + put.1)
}

/// An accumulator operation on an 8-bit operand.
pub fn alu_r8(cpu: CPU, bus: &Bus, select: u8, src: u8) -> (out: Outcome)
    requires
        select < 8,
        src < 8,
    ensures
        out == isa::alu_r8(cpu, bus@, select as int, src as int),
{
    proof {
        reveal(isa::alu_r8);
    }
    let mut cpu = cpu;
    let got: (u8, u64) = get_r8(&cpu, bus, src);
    let v: (u8, Flags) = alu(select, cpu.a, got.0, cpu.f);
    cpu.a = v.0;
    cpu.f = v.1;
    done(cpu, 1, 1 + got.1)
}

/// An accumulator operation on the byte after the opcode.
pub fn alu_imm(cpu: CPU, select: u8, imm8: u8) -> (out: Outcome)
    requires
        select < 8,
    ensures
        out == isa::alu_imm(cpu, select as int, imm8),
{
    proof {
        reveal(isa::alu_imm);
    }
    let mut cpu = cpu;
    let v: (u8, Flags) = alu(select, cpu.a, imm8, cpu.f);
    cpu.a = v.0;
    cpu.f = v.1;
    done(cpu, 2, 2)
}

/// Pops the return address into PC.
fn returned(cpu: CPU, bus: &Bus) -> (r: CPU)
    ensures
        r == isa::returned(cpu, bus@),
{
    let mut cpu = cpu;
    cpu.pc = bus.peek16(cpu.sp);
    cpu.sp = cpu.sp.wrapping_add(2);
    cpu
}

/// `RET`.
pub fn ret(cpu: CPU, bus: &Bus) -> (out: Outcome)
    ensures
        out == isa::ret(cpu, bus@),
{
    proof {
        reveal(isa::ret);
    }
    done(returned(cpu, bus), 0, 4)
}

/// `RETI`: returns and enables interrupts at once.
pub fn reti(cpu: CPU, bus: &Bus) -> (out: Outcome)
    ensures
        out == isa::reti(cpu, bus@),
{
    proof {
        reveal(isa::reti);
    }
    let mut cpu = returned(cpu, bus);
    cpu.ime = true;
    cpu.ime_soon = false;
    done(cpu, 0, 4)
}

/// `RET cond`.
pub fn ret_cond(cpu: CPU, bus: &Bus, cond: u8) -> (out: Outcome)
    requires
        cond < 4,
    ensures
        out == isa::ret_cond(cpu, bus@, cond as int),
{
    proof {
        reveal(isa::ret_cond);
    }
    if get_cond(&cpu.f, cond) {
        done(returned(cpu, bus), 0, 5)
    } else {
        done(cpu, 1, 2)
    }
}

/// `JP imm16`.
pub fn jp(cpu: CPU, imm16: u16) -> (out: Outcome)
    ensures
        out == isa::jp(cpu, imm16),
{
    proof {
        reveal(isa::jp);
    }
    let mut cpu = cpu;
    cpu.pc = imm16;
    done(cpu, 0, 4)
}

/// `JP HL`.
pub fn jp_hl(cpu: CPU) -> (out: Outcome)
    ensures
        out == isa::jp_hl(cpu),
{
    proof {
        reveal(isa::jp_hl);
    }
    let mut cpu = cpu;
    cpu.pc = cpu.get_hl();
    done(cpu, 0, 1)
}

/// `JP cond, imm16`.
pub fn jp_cond(cpu: CPU, cond: u8, imm16: u16) -> (out: Outcome)
    requires
        cond < 4,
    ensures
        out == isa::jp_cond(cpu, cond as int, imm16),
{
    proof {
        reveal(isa::jp_cond);
    }
    let mut cpu = cpu;
    if get_cond(&cpu.f, cond) {
        cpu.pc = imm16;
        done(cpu, 0, 4)
    } else {
        done(cpu, 3, 3)
    }
}

/// Pushes the address `after` bytes past PC and jumps to `target`.
fn called(cpu: CPU, after: u16, target: u16, mcycles: u64) -> (out: Outcome)
    requires
        after <= 3,
    ensures
        out == isa::called(cpu, after as int, target, mcycles),
{
    let mut cpu = cpu;
    let back: u16 = cpu.pc.wrapping_add(after);
    cpu.sp = cpu.sp.wrapping_sub(2);
    cpu.pc = target;
    stored(cpu, Store::Word(cpu.sp, back), 0, mcycles)
}

/// `CALL imm16`.
pub fn call(cpu: CPU, imm16: u16) -> (out: Outcome)
    ensures
        out == isa::call(cpu, imm16),
{
    proof {
        reveal(isa::call);
    }
    called(cpu, 3, imm16, 6)
}

/// `CALL cond, imm16`.
pub fn call_cond(cpu: CPU, cond: u8, imm16: u16) -> (out: Outcome)
    requires
        cond < 4,
    ensures
        out == isa::call_cond(cpu, cond as int, imm16),
{
    proof {
        reveal(isa::call_cond);
    }
    if get_cond(&cpu.f, cond) {
        called(cpu, 3, imm16, 6)
    } else {
        done(cpu, 3, 3)
    }
}

/// `RST target`.
pub fn rst(cpu: CPU, target: u16) -> (out: Outcome)
    ensures
        out == isa::rst(cpu, target),
{
    proof {
        reveal(isa::rst);
    }
    called(cpu, 1, target, 4)
}

/// `POP r16stk`.
pub fn pop(cpu: CPU, bus: &Bus, r: u8) -> (out: Outcome)
    requires
        r < 4,
    ensures
        out == isa::pop(cpu, bus@, r as int),
{
    proof {
        reveal(isa::pop);
    }
    let mut cpu = cpu;
    let value: u16 = bus.peek16(cpu.sp);
    set_r16stk(&mut cpu, r, value);
    cpu.sp = cpu.sp.wrapping_add(2);
    done(cpu, 1, 3)
}

/// `PUSH r16stk`.
pub fn push(cpu: CPU, r: u8) -> (out: Outcome)
    requires
        r < 4,
    ensures
        out == isa::push(cpu, r as int),
{
    proof {
        reveal(isa::push);
    }
    let mut cpu = cpu;
    let value: u16 = get_r16stk(&cpu, r);
    cpu.sp = cpu.sp.wrapping_sub(2);
    stored(cpu, Store::Word(cpu.sp, value), 1, 4)
}

/// The instructions behind the `CB` prefix, by the byte that follows it:
/// rotates and shifts, `BIT`, `RES`, `SET`, each on an 8-bit operand.
pub fn prefixed(cpu: CPU, bus: &Bus, imm8: u8) -> (out: Outcome)
    ensures
        out == isa::prefixed(cpu, bus@, imm8),
{
    proof {
        reveal(isa::prefixed);
    }
    let mut cpu = cpu;
    proof {
        lemma_low_bits(imm8);
        lemma_high_fields(imm8);
    }
    let b3_id: u8 = (imm8 >> 3) & 0b111;
    let r8_id: u8 = imm8 & 0b111;
    let got: (u8, u64) = get_r8(&cpu, bus, r8_id);
    match imm8 >> 6 {
        1 => {
            cpu.f = alu_bit(b3_id, got.0, cpu.f);
            done(cpu, 2, 2 + got.1)
        },
        2 => {
            let put: (Store, u64) = set_r8(&mut cpu, r8_id, alu_res(b3_id, got.0));
            stored(cpu, put.0, 2, 2 + got.1 + put.1)
        },
        3 => {
            let put: (Store, u64) = set_r8(&mut cpu, r8_id, alu_set(b3_id, got.0));
            stored(cpu, put.0, 2, 2 + got.1 + put.1)
        },
        _ => {
            let v: (u8, bool) = alu_shift(b3_id, got.0, cpu.f.c);
            let put: (Store, u64) = set_r8(&mut cpu, r8_id, v.0);
            cpu.f = Flags { z: v.0 == 0, n: false, h: false, c: v.1 };
            stored(cpu, put.0, 2, 2 + got.1 + put.1)
        },
    }
}

/// A store of A into the page `FF00..=FFFF`.
pub fn ldh_mem_a(cpu: CPU, low: u8, bytes: u16, mcycles: u64) -> (out: Outcome)
    ensures
        out == isa::ldh_mem_a(cpu, low, bytes, mcycles),
{
    proof {
        reveal(isa::ldh_mem_a);
    }
    stored(cpu, Store::Byte(0xFF00 + low as u16, cpu.a), bytes, mcycles)
}

/// A load of A from the page `FF00..=FFFF`.
pub fn ldh_a_mem(cpu: CPU, bus: &Bus, low: u8, bytes: u16, mcycles: u64) -> (out: Outcome)
    ensures
        out == isa::ldh_a_mem(cpu, bus@, low, bytes, mcycles),
{
    proof {
        reveal(isa::ldh_a_mem);
    }
    let mut cpu = cpu;
    cpu.a = bus.peek(0xFF00 + low as u16);
    done(cpu, bytes, mcycles)
}

/// `LD [imm16], A`.
pub fn ld_mem16_a(cpu: CPU, imm16: u16) -> (out: Outcome)
    ensures
        out == isa::stored(cpu, Store::Byte(imm16, cpu.a), 3, 4),
{
    stored(cpu, Store::Byte(imm16, cpu.a), 3, 4)
}

/// `LD A, [imm16]`.
pub fn ld_a_mem16(cpu: CPU, bus: &Bus, imm16: u16) -> (out: Outcome)
    ensures
        out == isa::done(CPU { a: bus@.peek(imm16), ..cpu }, 3, 4),
{
    let mut cpu = cpu;
    cpu.a = bus.peek(imm16);
    done(cpu, 3, 4)
}

/// `ADD SP, imm8`.
pub fn add_sp(cpu: CPU, imm8: u8) -> (out: Outcome)
    ensures
        out == isa::add_sp(cpu, imm8),
{
    proof {
        reveal(isa::add_sp);
    }
    let mut cpu = cpu;
    let v: (u16, Flags) = alu_add_signed(cpu.sp, imm8);
    cpu.sp = v.0;
    cpu.f = v.1;
    done(cpu, 2, 4)
}

/// `LD HL, SP + imm8`.
pub fn ld_hl_sp(cpu: CPU, imm8: u8) -> (out: Outcome)
    ensures
        out == isa::ld_hl_sp(cpu, imm8),
{
    proof {
        reveal(isa::ld_hl_sp);
    }
    let mut cpu = cpu;
    let v: (u16, Flags) = alu_add_signed(cpu.sp, imm8);
    cpu.set_hl(v.0);
    cpu.f = v.1;
    done(cpu, 2, 3)
}

/// `LD SP, HL`.
pub fn ld_sp_hl(cpu: CPU) -> (out: Outcome)
    ensures
        out == isa::done(CPU { sp: cpu.hl(), ..cpu }, 1, 2),
{
    let mut cpu = cpu;
    cpu.sp = cpu.get_hl();
    done(cpu, 1, 2)
}

/// `DI`: interrupts are disabled at once, a pending `EI` included.
pub fn di(cpu: CPU) -> (out: Outcome)
    ensures
        out == isa::di(cpu),
{
    proof {
        reveal(isa::di);
    }
    let mut cpu = cpu;
    cpu.ime = false;
    cpu.ime_soon = false;
    done(cpu, 1, 1)
}

/// `EI`: interrupts become enabled after the instruction that follows.
pub fn ei(cpu: CPU) -> (out: Outcome)
    ensures
        out == isa::ei(cpu),
{
    proof {
        reveal(isa::ei);
    }
    Outcome { cpu, store: Store::Skip, bytes: 1, mcycles: 1, ei: true, stop: false, legal: true }
}

} // verus!
