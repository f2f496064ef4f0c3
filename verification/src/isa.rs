//! The instruction set: for every opcode, what it does to the registers,
//! what it writes to memory, how long it is and how many M-cycles it takes.

use vstd::prelude::*;
use crate::alu::{
    add16, add_signed, alu8, cpl, daa, dec8, inc8, rotate_a, shift8, signed, test_bit, wrap16,
};
use crate::bits::{lowered, raised};
use crate::bus::{next, BusView};
use crate::cpu::{Flags, Store, CPU};

verus! {

/// What one instruction comes to, before anything is written to memory.
#[derive(Clone, Copy, Debug, PartialEq, Eq, Structural)]
pub struct Outcome {
    /// The registers after the instruction; PC is not yet moved past it.
    pub cpu: CPU,
    /// The memory write that the instruction makes.
    pub store: Store,
    /// By how much PC moves on: the length of the instruction, or 0 where
    /// the instruction has set PC itself.
    pub bytes: u16,
    /// M-cycles taken.
    pub mcycles: u64,
    /// The instruction was EI.
    pub ei: bool,
    /// The instruction was STOP.
    pub stop: bool,
    /// The opcode exists.
    pub legal: bool,
}

/// An instruction that only changes registers.
pub open spec fn done(cpu: CPU, bytes: u16, mcycles: u64) -> Outcome {
    Outcome { cpu, store: Store::Skip, bytes, mcycles, ei: false, stop: false, legal: true }
}

/// An instruction that writes to memory.
pub open spec fn stored(cpu: CPU, store: Store, bytes: u16, mcycles: u64) -> Outcome {
    Outcome { cpu, store, bytes, mcycles, ei: false, stop: false, legal: true }
}

/// One of the eleven opcodes that the CPU does not have.
pub open spec fn illegal(cpu: CPU) -> Outcome {
    Outcome { cpu, store: Store::Skip, bytes: 0, mcycles: 0, ei: false, stop: false, legal: false }
}

/// `LD r16, imm16`.
#[verifier::opaque]
pub open spec fn ld_r16_imm(cpu: CPU, r: int, imm16: u16) -> Outcome {
    done(cpu.with_r16(r, imm16), 3, 3)
}

/// `LD [imm16], SP`.
#[verifier::opaque]
pub open spec fn ld_mem_sp(cpu: CPU, imm16: u16) -> Outcome {
    stored(cpu, Store::Word(imm16, cpu.sp), 3, 5)
}

/// `STOP`: the CPU stops until woken, and an armed speed switch is carried out.
#[verifier::opaque]
pub open spec fn stop(cpu: CPU) -> Outcome {
    Outcome {
        cpu: CPU { halt: true, ..cpu },
        store: Store::Skip,
        bytes: 2,
        mcycles: 1,
        ei: false,
        stop: true,
        legal: true,
    }
}

/// `JR imm8` and `JR cond, imm8`: a taken branch adds the signed offset
/// to the address of the next instruction.
#[verifier::opaque]
pub open spec fn jr(cpu: CPU, imm8: u8, taken: bool) -> Outcome {
    if taken {
        done(CPU { pc: add_signed(cpu.pc, imm8).0, ..cpu }, 2, 3)
    } else {
        done(cpu, 2, 2)
    }
}

/// `ADD HL, r16`.
#[verifier::opaque]
pub open spec fn add_hl(cpu: CPU, r: int) -> Outcome {
    let sum = add16(cpu.hl(), cpu.r16(r), cpu.f);
    done(CPU { f: sum.1, ..cpu.with_hl(sum.0) }, 1, 2)
}

/// `LD [r16mem], A`.
#[verifier::opaque]
pub open spec fn ld_mem_a(cpu: CPU, r: int) -> Outcome {
    stored(cpu.after_r16mem(r), Store::Byte(cpu.r16mem(r), cpu.a), 1, 2)
}

/// `LD A, [r16mem]`.
#[verifier::opaque]
pub open spec fn ld_a_mem(cpu: CPU, bus: BusView, r: int) -> Outcome {
    done((CPU { a: bus.peek(cpu.r16mem(r)), ..cpu }).after_r16mem(r), 1, 2)
}

/// `INC r16`.
#[verifier::opaque]
pub open spec fn inc_r16(cpu: CPU, r: int) -> Outcome {
    done(cpu.with_r16(r, wrap16(cpu.r16(r) + 1)), 1, 2)
}

/// `DEC r16`.
#[verifier::opaque]
pub open spec fn dec_r16(cpu: CPU, r: int) -> Outcome {
    done(cpu.with_r16(r, wrap16(cpu.r16(r) - 1)), 1, 2)
}

/// `INC r8`.
#[verifier::opaque]
pub open spec fn inc_r8(cpu: CPU, bus: BusView, r: int) -> Outcome {
    let v = inc8(cpu.r8(bus, r), cpu.f);
    stored(
        CPU { f: v.1, ..cpu.with_r8(r, v.0) },
        cpu.store_r8(r, v.0),
        1,
        (1 + 2 * CPU::cost_r8(r)) as u64,
    )
}

/// `DEC r8`.
#[verifier::opaque]
pub open spec fn dec_r8(cpu: CPU, bus: BusView, r: int) -> Outcome {
    let v = dec8(cpu.r8(bus, r), cpu.f);
    stored(
        CPU { f: v.1, ..cpu.with_r8(r, v.0) },
        cpu.store_r8(r, v.0),
        1,
        (1 + 2 * CPU::cost_r8(r)) as u64,
    )
}

/// `LD r8, imm8`.
#[verifier::opaque]
pub open spec fn ld_r8_imm(cpu: CPU, r: int, imm8: u8) -> Outcome {
    stored(cpu.with_r8(r, imm8), cpu.store_r8(r, imm8), 2, (2 + CPU::cost_r8(r)) as u64)
}

/// `RLCA`, `RRCA`, `RLA`, `RRA`.
#[verifier::opaque]
pub open spec fn rotate_acc(cpu: CPU, select: int) -> Outcome {
    let v = rotate_a(select, cpu.a, cpu.f);
    done(CPU { a: v.0, f: v.1, ..cpu }, 1, 1)
}

/// `DAA`.
#[verifier::opaque]
pub open spec fn decimal_adjust(cpu: CPU) -> Outcome {
    let v = daa(cpu.a, cpu.f);
    done(CPU { a: v.0, f: v.1, ..cpu }, 1, 1)
}

/// `CPL`.
#[verifier::opaque]
pub open spec fn complement(cpu: CPU) -> Outcome {
    let v = cpl(cpu.a, cpu.f);
    done(CPU { a: v.0, f: v.1, ..cpu }, 1, 1)
}

/// `SCF`.
#[verifier::opaque]
pub open spec fn set_carry(cpu: CPU) -> Outcome {
    done(CPU { f: Flags { z: cpu.f.z, n: false, h: false, c: true }, ..cpu }, 1, 1)
}

/// `CCF`.
#[verifier::opaque]
pub open spec fn flip_carry(cpu: CPU) -> Outcome {
    done(CPU { f: Flags { z: cpu.f.z, n: false, h: false, c: !cpu.f.c }, ..cpu }, 1, 1)
}

/// `HALT`.
#[verifier::opaque]
pub open spec fn halt(cpu: CPU) -> Outcome {
    done(CPU { halt: true, ..cpu }, 1, 1)
}

/// `LD r8, r8`.
#[verifier::opaque]
pub open spec fn ld_r8_r8(cpu: CPU, bus: BusView, dst: int, src: int) -> Outcome {
    let v = cpu.r8(bus, src);
    stored(
        cpu.with_r8(dst, v),
        cpu.store_r8(dst, v),
        1,
        (1 + CPU::cost_r8(src) + CPU::cost_r8(dst)) as u64,
    )
}

/// An accumulator operation on an 8-bit operand.
#[verifier::opaque]
pub open spec fn alu_r8(cpu: CPU, bus: BusView, select: int, src: int) -> Outcome {
    let v = alu8(select, cpu.a, cpu.r8(bus, src), cpu.f);
    done(CPU { a: v.0, f: v.1, ..cpu }, 1, (1 + CPU::cost_r8(src)) as u64)
}

/// An accumulator operation on the byte after the opcode.
#[verifier::opaque]
pub open spec fn alu_imm(cpu: CPU, select: int, imm8: u8) -> Outcome {
    let v = alu8(select, cpu.a, imm8, cpu.f);
    done(CPU { a: v.0, f: v.1, ..cpu }, 2, 2)
}

/// The CPU after the return address is popped into PC.
pub open spec fn returned(cpu: CPU, bus: BusView) -> CPU {
    CPU { pc: bus.peek16(cpu.sp), sp: wrap16(cpu.sp + 2), ..cpu }
}

/// `RET`.
#[verifier::opaque]
pub open spec fn ret(cpu: CPU, bus: BusView) -> Outcome {
    done(returned(cpu, bus), 0, 4)
}

/// `RETI`: returns and enables interrupts at once.
#[verifier::opaque]
pub open spec fn reti(cpu: CPU, bus: BusView) -> Outcome {
    done(CPU { ime: true, ime_soon: false, ..returned(cpu, bus) }, 0, 4)
}

/// `RET cond`.
#[verifier::opaque]
pub open spec fn ret_cond(cpu: CPU, bus: BusView, cond: int) -> Outcome {
    if cpu.f.holds(cond) {
        done(returned(cpu, bus), 0, 5)
    } else {
        done(cpu, 1, 2)
    }
}

/// `JP imm16`.
#[verifier::opaque]
pub open spec fn jp(cpu: CPU, imm16: u16) -> Outcome {
    done(CPU { pc: imm16, ..cpu }, 0, 4)
}

/// `JP HL`.
#[verifier::opaque]
pub open spec fn jp_hl(cpu: CPU) -> Outcome {
    done(CPU { pc: cpu.hl(), ..cpu }, 0, 1)
}

/// `JP cond, imm16`.
#[verifier::opaque]
pub open spec fn jp_cond(cpu: CPU, cond: int, imm16: u16) -> Outcome {
    if cpu.f.holds(cond) {
        done(CPU { pc: imm16, ..cpu }, 0, 4)
    } else {
        done(cpu, 3, 3)
    }
}

/// A call: the return address goes on the stack and PC to the target.
pub open spec fn called(cpu: CPU, after: int, target: u16, mcycles: u64) -> Outcome {
    stored(
        CPU { sp: wrap16(cpu.sp - 2), pc: target, ..cpu },
        Store::Word(wrap16(cpu.sp - 2), wrap16(cpu.pc + after)),
        0,
        mcycles,
    )
}

/// `CALL imm16`.
#[verifier::opaque]
pub open spec fn call(cpu: CPU, imm16: u16) -> Outcome {
    called(cpu, 3, imm16, 6)
}

/// `CALL cond, imm16`.
#[verifier::opaque]
pub open spec fn call_cond(cpu: CPU, cond: int, imm16: u16) -> Outcome {
    if cpu.f.holds(cond) {
        called(cpu, 3, imm16, 6)
    } else {
        done(cpu, 3, 3)
    }
}

/// `RST target`.
#[verifier::opaque]
pub open spec fn rst(cpu: CPU, target: u16) -> Outcome {
    called(cpu, 1, target, 4)
}

/// `POP r16stk`.
#[verifier::opaque]
pub open spec fn pop(cpu: CPU, bus: BusView, r: int) -> Outcome {
    done(CPU { sp: wrap16(cpu.sp + 2), ..cpu.with_r16stk(r, bus.peek16(cpu.sp)) }, 1, 3)
}

/// `PUSH r16stk`.
#[verifier::opaque]
pub open spec fn push(cpu: CPU, r: int) -> Outcome {
    stored(
        CPU { sp: wrap16(cpu.sp - 2), ..cpu },
        Store::Word(wrap16(cpu.sp - 2), cpu.r16stk(r)),
        1,
        4,
    )
}

/// The instructions behind the `CB` prefix, by the byte that follows it:
/// rotates and shifts, `BIT`, `RES`, `SET`, each on an 8-bit operand.
#[verifier::opaque]
pub open spec fn prefixed(cpu: CPU, bus: BusView, imm8: u8) -> Outcome {
    let r = (imm8 % 8) as int;
    let i = ((imm8 / 8) % 8) as int;
    let x = cpu.r8(bus, r);
    if imm8 < 0x40 {
        let v = shift8(i, x, cpu.f);
        stored(
            CPU { f: v.1, ..cpu.with_r8(r, v.0) },
            cpu.store_r8(r, v.0),
            2,
            (2 + 2 * CPU::cost_r8(r)) as u64,
        )
    } else if imm8 < 0x80 {
        done(CPU { f: test_bit(i, x, cpu.f), ..cpu }, 2, (2 + CPU::cost_r8(r)) as u64)
    } else if imm8 < 0xC0 {
        stored(
            cpu.with_r8(r, lowered(x, i)),
            cpu.store_r8(r, lowered(x, i)),
            2,
            (2 + 2 * CPU::cost_r8(r)) as u64,
        )
    } else {
        stored(
            cpu.with_r8(r, raised(x, i)),
            cpu.store_r8(r, raised(x, i)),
            2,
            (2 + 2 * CPU::cost_r8(r)) as u64,
        )
    }
}

/// A store of A into the page `FF00..=FFFF`.
#[verifier::opaque]
pub open spec fn ldh_mem_a(cpu: CPU, low: u8, bytes: u16, mcycles: u64) -> Outcome {
    stored(cpu, Store::Byte((0xFF00 + low) as u16, cpu.a), bytes, mcycles)
}

/// A load of A from the page `FF00..=FFFF`.
#[verifier::opaque]
pub open spec fn ldh_a_mem(cpu: CPU, bus: BusView, low: u8, bytes: u16, mcycles: u64) -> Outcome {
    done(CPU { a: bus.peek((0xFF00 + low) as u16), ..cpu }, bytes, mcycles)
}

/// `ADD SP, imm8`.
#[verifier::opaque]
pub open spec fn add_sp(cpu: CPU, imm8: u8) -> Outcome {
    let v = add_signed(cpu.sp, imm8);
    done(CPU { sp: v.0, f: v.1, ..cpu }, 2, 4)
}

/// `LD HL, SP + imm8`.
#[verifier::opaque]
pub open spec fn ld_hl_sp(cpu: CPU, imm8: u8) -> Outcome {
    let v = add_signed(cpu.sp, imm8);
    done(CPU { f: v.1, ..cpu.with_hl(v.0) }, 2, 3)
}

/// `DI`: interrupts are disabled at once, a pending `EI` included.
#[verifier::opaque]
pub open spec fn di(cpu: CPU) -> Outcome {
    done(CPU { ime: false, ime_soon: false, ..cpu }, 1, 1)
}

/// `EI`: interrupts become enabled after the instruction that follows.
#[verifier::opaque]
pub open spec fn ei(cpu: CPU) -> Outcome {
    Outcome { cpu, store: Store::Skip, bytes: 1, mcycles: 1, ei: true, stop: false, legal: true }
}

/// Opcodes `00..=3F`.
#[verifier::opaque]
pub open spec fn table0(cpu: CPU, bus: BusView, op: u8, imm8: u8, imm16: u16) -> Outcome {
    match op {
        0x00 => done(cpu, 1, 1),
        0x01 | 0x11 | 0x21 | 0x31 => ld_r16_imm(cpu, op as int / 16, imm16),
        0x02 | 0x12 | 0x22 | 0x32 => ld_mem_a(cpu, op as int / 16),
        0x03 | 0x13 | 0x23 | 0x33 => inc_r16(cpu, op as int / 16),
        0x04 | 0x0C | 0x14 | 0x1C | 0x24 | 0x2C | 0x34 | 0x3C => inc_r8(cpu, bus, op as int / 8),
        0x05 | 0x0D | 0x15 | 0x1D | 0x25 | 0x2D | 0x35 | 0x3D => dec_r8(cpu, bus, op as int / 8),
        0x06 | 0x0E | 0x16 | 0x1E | 0x26 | 0x2E | 0x36 | 0x3E => ld_r8_imm(
            cpu,
            op as int / 8,
            imm8,
        ),
        0x07 => rotate_acc(cpu, 0),
        0x08 => ld_mem_sp(cpu, imm16),
        0x09 | 0x19 | 0x29 | 0x39 => add_hl(cpu, op as int / 16),
        0x0A | 0x1A | 0x2A | 0x3A => ld_a_mem(cpu, bus, op as int / 16),
        0x0B | 0x1B | 0x2B | 0x3B => dec_r16(cpu, op as int / 16),
        0x0F => rotate_acc(cpu, 1),
        0x10 => stop(cpu),
        0x17 => rotate_acc(cpu, 2),
        0x18 => jr(cpu, imm8, true),
        0x1F => rotate_acc(cpu, 3),
        0x20 => jr(cpu, imm8, !cpu.f.z),
        0x27 => decimal_adjust(cpu),
        0x28 => jr(cpu, imm8, cpu.f.z),
        0x2F => complement(cpu),
        0x30 => jr(cpu, imm8, !cpu.f.c),
        0x37 => set_carry(cpu),
        0x38 => jr(cpu, imm8, cpu.f.c),
        _ => flip_carry(cpu),
    }
}

/// Opcodes `40..=7F`: the register-to-register loads, and `HALT` at `76`.
#[verifier::opaque]
pub open spec fn table1(cpu: CPU, bus: BusView, op: u8) -> Outcome {
    if op == 0x76 {
        halt(cpu)
    } else {
        ld_r8_r8(cpu, bus, (op as int / 8) % 8, op as int % 8)
    }
}

/// Opcodes `80..=BF`: the accumulator operations on an 8-bit operand.
#[verifier::opaque]
pub open spec fn table2(cpu: CPU, bus: BusView, op: u8) -> Outcome {
    alu_r8(cpu, bus, (op as int / 8) % 8, op as int % 8)
}

/// Opcodes `C0..=FF`.
#[verifier::opaque]
pub open spec fn table3(cpu: CPU, bus: BusView, op: u8, imm8: u8, imm16: u16) -> Outcome {
    match op {
        0xC0 => ret_cond(cpu, bus, 0),
        0xC8 => ret_cond(cpu, bus, 1),
        0xD0 => ret_cond(cpu, bus, 2),
        0xD8 => ret_cond(cpu, bus, 3),
        0xC1 => pop(cpu, bus, 0),
        0xD1 => pop(cpu, bus, 1),
        0xE1 => pop(cpu, bus, 2),
        0xF1 => pop(cpu, bus, 3),
        0xC2 => jp_cond(cpu, 0, imm16),
        0xCA => jp_cond(cpu, 1, imm16),
        0xD2 => jp_cond(cpu, 2, imm16),
        0xDA => jp_cond(cpu, 3, imm16),
        0xC3 => jp(cpu, imm16),
        0xC4 => call_cond(cpu, 0, imm16),
        0xCC => call_cond(cpu, 1, imm16),
        0xD4 => call_cond(cpu, 2, imm16),
        0xDC => call_cond(cpu, 3, imm16),
        0xC5 => push(cpu, 0),
        0xD5 => push(cpu, 1),
        0xE5 => push(cpu, 2),
        0xF5 => push(cpu, 3),
        0xC6 | 0xCE | 0xD6 | 0xDE | 0xE6 | 0xEE | 0xF6 | 0xFE => alu_imm(
            cpu,
            (op as int / 8) % 8,
            imm8,
        ),
        0xC7 | 0xCF | 0xD7 | 0xDF | 0xE7 | 0xEF | 0xF7 | 0xFF => rst(cpu, (op - 0xC7) as u16),
        0xC9 => ret(cpu, bus),
        0xCB => prefixed(cpu, bus, imm8),
        0xCD => call(cpu, imm16),
        0xD9 => reti(cpu, bus),
        0xE0 => ldh_mem_a(cpu, imm8, 2, 3),
        0xE2 => ldh_mem_a(cpu, cpu.c, 1, 2),
        0xE8 => add_sp(cpu, imm8),
        0xE9 => jp_hl(cpu),
        0xEA => stored(cpu, Store::Byte(imm16, cpu.a), 3, 4),
        0xF0 => ldh_a_mem(cpu, bus, imm8, 2, 3),
        0xF2 => ldh_a_mem(cpu, bus, cpu.c, 1, 2),
        0xF3 => di(cpu),
        0xF8 => ld_hl_sp(cpu, imm8),
        0xF9 => done(CPU { sp: cpu.hl(), ..cpu }, 1, 2),
        0xFA => done(CPU { a: bus.peek(imm16), ..cpu }, 3, 4),
        0xFB => ei(cpu),
        _ => illegal(cpu),
    }
}

/// What the instruction with opcode `op` comes to. `imm8` is the byte
/// after the opcode and `imm16` the two bytes after it, low byte first.
pub open spec fn execute(cpu: CPU, bus: BusView, op: u8, imm8: u8, imm16: u16) -> Outcome {
    if op < 0x40 {
        table0(cpu, bus, op, imm8, imm16)
    } else if op < 0x80 {
        table1(cpu, bus, op)
    } else if op < 0xC0 {
        table2(cpu, bus, op)
    } else {
        table3(cpu, bus, op, imm8, imm16)
    }
}

/// Whether the CPU has an instruction for this opcode.
pub open spec fn is_legal(op: u8) -> bool {
    !(op == 0xD3 || op == 0xDB || op == 0xDD || op == 0xE3 || op == 0xE4 || op == 0xEB || op
        == 0xEC || op == 0xED || op == 0xF4 || op == 0xFC || op == 0xFD)
}

/// The M-cycles of the instructions behind the `CB` prefix: 2 on a
/// register; on `[HL]` 3 for `BIT` and 4 for the others.
pub open spec fn prefixed_mcycles(second: u8) -> int {
    if second % 8 != 6 {
        2
    } else if 0x40 <= second < 0x80 {
        3
    } else {
        4
    }
}

/// The timing table: the M-cycles of each opcode, and for a conditional
/// branch those of the path not taken and of the path taken. `second` is
/// the byte after a `CB` prefix.
pub open spec fn mcycles_of(op: u8, second: u8) -> (int, int) {
    if 0x40 <= op < 0xC0 {
        if op == 0x76 {
            (1, 1)
        } else if op % 8 == 6 || (0x70 <= op < 0x78) {
            (2, 2)
        } else {
            (1, 1)
        }
    } else {
        match op {
            0x00 | 0x07 | 0x0F | 0x10 | 0x17 | 0x1F | 0x27 | 0x2F | 0x37 | 0x3F => (1, 1),
            0x04 | 0x05 | 0x0C | 0x0D | 0x14 | 0x15 | 0x1C | 0x1D | 0x24 | 0x25 | 0x2C | 0x2D
            | 0x3C | 0x3D => (1, 1),
            0x01 | 0x11 | 0x21 | 0x31 => (3, 3),
            0x02 | 0x12 | 0x22 | 0x32 | 0x0A | 0x1A | 0x2A | 0x3A => (2, 2),
            0x03 | 0x13 | 0x23 | 0x33 | 0x0B | 0x1B | 0x2B | 0x3B => (2, 2),
            0x09 | 0x19 | 0x29 | 0x39 => (2, 2),
            0x06 | 0x0E | 0x16 | 0x1E | 0x26 | 0x2E | 0x3E => (2, 2),
            0x34 | 0x35 | 0x36 => (3, 3),
            0x08 => (5, 5),
            0x18 => (3, 3),
            0x20 | 0x28 | 0x30 | 0x38 => (2, 3),
            0xC0 | 0xC8 | 0xD0 | 0xD8 => (2, 5),
            0xC1 | 0xD1 | 0xE1 | 0xF1 => (3, 3),
            0xC2 | 0xCA | 0xD2 | 0xDA => (3, 4),
            0xC4 | 0xCC | 0xD4 | 0xDC => (3, 6),
            0xC5 | 0xD5 | 0xE5 | 0xF5 => (4, 4),
            0xC6 | 0xCE | 0xD6 | 0xDE | 0xE6 | 0xEE | 0xF6 | 0xFE => (2, 2),
            0xC7 | 0xCF | 0xD7 | 0xDF | 0xE7 | 0xEF | 0xF7 | 0xFF => (4, 4),
            0xC3 | 0xC9 | 0xD9 | 0xE8 | 0xEA | 0xFA => (4, 4),
            0xCB => (prefixed_mcycles(second), prefixed_mcycles(second)),
            0xCD => (6, 6),
            0xE0 | 0xF0 | 0xF8 => (3, 3),
            0xE2 | 0xF2 | 0xF9 => (2, 2),
            0xE9 | 0xF3 | 0xFB => (1, 1),
            _ => (0, 0),
        }
    }
}

/// The M-cycles of every instruction, and that it is one.
proof fn lemma_costs()
    ensures
        forall|cpu: CPU, r: int, imm16: u16|
            #![trigger ld_r16_imm(cpu, r, imm16)]
            ld_r16_imm(cpu, r, imm16).mcycles == 3 && ld_r16_imm(cpu, r, imm16).legal,
        forall|cpu: CPU, imm16: u16|
            #![trigger ld_mem_sp(cpu, imm16)]
            ld_mem_sp(cpu, imm16).mcycles == 5 && ld_mem_sp(cpu, imm16).legal,
        forall|cpu: CPU|
            #![trigger stop(cpu)]
            stop(cpu).mcycles == 1 && stop(cpu).legal,
        forall|cpu: CPU, imm8: u8, taken: bool|
            #![trigger jr(cpu, imm8, taken)]
            jr(cpu, imm8, taken).mcycles == (if taken {
                3u64
            } else {
                2u64
            }) && jr(cpu, imm8, taken).legal,
        forall|cpu: CPU, r: int|
            #![trigger add_hl(cpu, r)]
            add_hl(cpu, r).mcycles == 2 && add_hl(cpu, r).legal,
        forall|cpu: CPU, r: int|
            #![trigger ld_mem_a(cpu, r)]
            ld_mem_a(cpu, r).mcycles == 2 && ld_mem_a(cpu, r).legal,
        forall|cpu: CPU, bus: BusView, r: int|
            #![trigger ld_a_mem(cpu, bus, r)]
            ld_a_mem(cpu, bus, r).mcycles == 2 && ld_a_mem(cpu, bus, r).legal,
        forall|cpu: CPU, r: int|
            #![trigger inc_r16(cpu, r)]
            inc_r16(cpu, r).mcycles == 2 && inc_r16(cpu, r).legal,
        forall|cpu: CPU, r: int|
            #![trigger dec_r16(cpu, r)]
            dec_r16(cpu, r).mcycles == 2 && dec_r16(cpu, r).legal,
        forall|cpu: CPU, bus: BusView, r: int|
            #![trigger inc_r8(cpu, bus, r)]
            inc_r8(cpu, bus, r).mcycles == 1 + 2 * CPU::cost_r8(r) && inc_r8(cpu, bus, r).legal,
        forall|cpu: CPU, bus: BusView, r: int|
            #![trigger dec_r8(cpu, bus, r)]
            dec_r8(cpu, bus, r).mcycles == 1 + 2 * CPU::cost_r8(r) && dec_r8(cpu, bus, r).legal,
        forall|cpu: CPU, r: int, imm8: u8|
            #![trigger ld_r8_imm(cpu, r, imm8)]
            ld_r8_imm(cpu, r, imm8).mcycles == 2 + CPU::cost_r8(r) && ld_r8_imm(
                cpu,
                r,
                imm8,
            ).legal,
        forall|cpu: CPU, k: int|
            #![trigger rotate_acc(cpu, k)]
            rotate_acc(cpu, k).mcycles == 1 && rotate_acc(cpu, k).legal,
        forall|cpu: CPU|
            #![trigger decimal_adjust(cpu)]
            decimal_adjust(cpu).mcycles == 1 && decimal_adjust(cpu).legal,
        forall|cpu: CPU|
            #![trigger complement(cpu)]
            complement(cpu).mcycles == 1 && complement(cpu).legal,
        forall|cpu: CPU|
            #![trigger set_carry(cpu)]
            set_carry(cpu).mcycles == 1 && set_carry(cpu).legal,
        forall|cpu: CPU|
            #![trigger flip_carry(cpu)]
            flip_carry(cpu).mcycles == 1 && flip_carry(cpu).legal,
        forall|cpu: CPU|
            #![trigger halt(cpu)]
            halt(cpu).mcycles == 1 && halt(cpu).legal,
        forall|cpu: CPU, bus: BusView, dst: int, src: int|
            #![trigger ld_r8_r8(cpu, bus, dst, src)]
            ld_r8_r8(cpu, bus, dst, src).mcycles == 1 + CPU::cost_r8(src) + CPU::cost_r8(dst)
                && ld_r8_r8(cpu, bus, dst, src).legal,
        forall|cpu: CPU, bus: BusView, k: int, src: int|
            #![trigger alu_r8(cpu, bus, k, src)]
            alu_r8(cpu, bus, k, src).mcycles == 1 + CPU::cost_r8(src) && alu_r8(
                cpu,
                bus,
                k,
                src,
            ).legal,
        forall|cpu: CPU, k: int, imm8: u8|
            #![trigger alu_imm(cpu, k, imm8)]
            alu_imm(cpu, k, imm8).mcycles == 2 && alu_imm(cpu, k, imm8).legal,
        forall|cpu: CPU, bus: BusView|
            #![trigger ret(cpu, bus)]
            ret(cpu, bus).mcycles == 4 && ret(cpu, bus).legal,
        forall|cpu: CPU, bus: BusView|
            #![trigger reti(cpu, bus)]
            reti(cpu, bus).mcycles == 4 && reti(cpu, bus).legal,
        forall|cpu: CPU, bus: BusView, cond: int|
            #![trigger ret_cond(cpu, bus, cond)]
            ret_cond(cpu, bus, cond).legal && (ret_cond(cpu, bus, cond).mcycles == 2 || ret_cond(
                cpu,
                bus,
                cond,
            ).mcycles == 5),
        forall|cpu: CPU, imm16: u16|
            #![trigger jp(cpu, imm16)]
            jp(cpu, imm16).mcycles == 4 && jp(cpu, imm16).legal,
        forall|cpu: CPU|
            #![trigger jp_hl(cpu)]
            jp_hl(cpu).mcycles == 1 && jp_hl(cpu).legal,
        forall|cpu: CPU, cond: int, imm16: u16|
            #![trigger jp_cond(cpu, cond, imm16)]
            jp_cond(cpu, cond, imm16).legal && (jp_cond(cpu, cond, imm16).mcycles == 3 || jp_cond(
                cpu,
                cond,
                imm16,
            ).mcycles == 4),
        forall|cpu: CPU, imm16: u16|
            #![trigger call(cpu, imm16)]
            call(cpu, imm16).mcycles == 6 && call(cpu, imm16).legal,
        forall|cpu: CPU, cond: int, imm16: u16|
            #![trigger call_cond(cpu, cond, imm16)]
            call_cond(cpu, cond, imm16).legal && (call_cond(cpu, cond, imm16).mcycles == 3
                || call_cond(cpu, cond, imm16).mcycles == 6),
        forall|cpu: CPU, target: u16|
            #![trigger rst(cpu, target)]
            rst(cpu, target).mcycles == 4 && rst(cpu, target).legal,
        forall|cpu: CPU, bus: BusView, r: int|
            #![trigger pop(cpu, bus, r)]
            pop(cpu, bus, r).mcycles == 3 && pop(cpu, bus, r).legal,
        forall|cpu: CPU, r: int|
            #![trigger push(cpu, r)]
            push(cpu, r).mcycles == 4 && push(cpu, r).legal,
        forall|cpu: CPU, bus: BusView, imm8: u8|
            #![trigger prefixed(cpu, bus, imm8)]
            prefixed(cpu, bus, imm8).mcycles == prefixed_mcycles(imm8) && prefixed(
                cpu,
                bus,
                imm8,
            ).legal,
        forall|cpu: CPU, low: u8, bytes: u16, mcycles: u64|
            #![trigger ldh_mem_a(cpu, low, bytes, mcycles)]
            ldh_mem_a(cpu, low, bytes, mcycles).mcycles == mcycles && ldh_mem_a(
                cpu,
                low,
                bytes,
                mcycles,
            ).legal,
        forall|cpu: CPU, bus: BusView, low: u8, bytes: u16, mcycles: u64|
            #![trigger ldh_a_mem(cpu, bus, low, bytes, mcycles)]
            ldh_a_mem(cpu, bus, low, bytes, mcycles).mcycles == mcycles && ldh_a_mem(
                cpu,
                bus,
                low,
                bytes,
                mcycles,
            ).legal,
        forall|cpu: CPU, imm8: u8|
            #![trigger add_sp(cpu, imm8)]
            add_sp(cpu, imm8).mcycles == 4 && add_sp(cpu, imm8).legal,
        forall|cpu: CPU, imm8: u8|
            #![trigger ld_hl_sp(cpu, imm8)]
            ld_hl_sp(cpu, imm8).mcycles == 3 && ld_hl_sp(cpu, imm8).legal,
        forall|cpu: CPU|
            #![trigger di(cpu)]
            di(cpu).mcycles == 1 && di(cpu).legal,
        forall|cpu: CPU|
            #![trigger ei(cpu)]
            ei(cpu).mcycles == 1 && ei(cpu).legal,
{
    reveal(ld_r16_imm);
    reveal(ld_mem_sp);
    reveal(stop);
    reveal(jr);
    reveal(add_hl);
    reveal(ld_mem_a);
    reveal(ld_a_mem);
    reveal(inc_r16);
    reveal(dec_r16);
    reveal(inc_r8);
    reveal(dec_r8);
    reveal(ld_r8_imm);
    reveal(rotate_acc);
    reveal(decimal_adjust);
    reveal(complement);
    reveal(set_carry);
    reveal(flip_carry);
    reveal(halt);
    reveal(ld_r8_r8);
    reveal(alu_r8);
    reveal(alu_imm);
    reveal(ret);
    reveal(reti);
    reveal(ret_cond);
    reveal(jp);
    reveal(jp_hl);
    reveal(jp_cond);
    reveal(call);
    reveal(call_cond);
    reveal(rst);
    reveal(pop);
    reveal(push);
    reveal(prefixed);
    reveal(ldh_mem_a);
    reveal(ldh_a_mem);
    reveal(add_sp);
    reveal(ld_hl_sp);
    reveal(di);
    reveal(ei);
}

/// Whether an outcome leaves the interrupt master flag and a pending `EI` as they were.
pub open spec fn keeps_ime(cpu: CPU, out: Outcome) -> bool {
    out.cpu.ime == cpu.ime && out.cpu.ime_soon == cpu.ime_soon
}

/// No instruction but `DI` and `RETI` touches the interrupt master flag
/// or a pending `EI`.
pub proof fn lemma_keeps_ime()
    ensures
        forall|cpu: CPU, r: int, imm16: u16|
            #![trigger ld_r16_imm(cpu, r, imm16)]
            keeps_ime(cpu, ld_r16_imm(cpu, r, imm16)),
        forall|cpu: CPU, imm16: u16|
            #![trigger ld_mem_sp(cpu, imm16)]
            keeps_ime(cpu, ld_mem_sp(cpu, imm16)),
        forall|cpu: CPU|
            #![trigger stop(cpu)]
            keeps_ime(cpu, stop(cpu)),
        forall|cpu: CPU, imm8: u8, taken: bool|
            #![trigger jr(cpu, imm8, taken)]
            keeps_ime(cpu, jr(cpu, imm8, taken)),
        forall|cpu: CPU, r: int|
            #![trigger add_hl(cpu, r)]
            keeps_ime(cpu, add_hl(cpu, r)),
        forall|cpu: CPU, r: int|
            #![trigger ld_mem_a(cpu, r)]
            keeps_ime(cpu, ld_mem_a(cpu, r)),
        forall|cpu: CPU, bus: BusView, r: int|
            #![trigger ld_a_mem(cpu, bus, r)]
            keeps_ime(cpu, ld_a_mem(cpu, bus, r)),
        forall|cpu: CPU, r: int|
            #![trigger inc_r16(cpu, r)]
            keeps_ime(cpu, inc_r16(cpu, r)),
        forall|cpu: CPU, r: int|
            #![trigger dec_r16(cpu, r)]
            keeps_ime(cpu, dec_r16(cpu, r)),
        forall|cpu: CPU, bus: BusView, r: int|
            #![trigger inc_r8(cpu, bus, r)]
            keeps_ime(cpu, inc_r8(cpu, bus, r)),
        forall|cpu: CPU, bus: BusView, r: int|
            #![trigger dec_r8(cpu, bus, r)]
            keeps_ime(cpu, dec_r8(cpu, bus, r)),
        forall|cpu: CPU, r: int, imm8: u8|
            #![trigger ld_r8_imm(cpu, r, imm8)]
            keeps_ime(cpu, ld_r8_imm(cpu, r, imm8)),
        forall|cpu: CPU, k: int|
            #![trigger rotate_acc(cpu, k)]
            keeps_ime(cpu, rotate_acc(cpu, k)),
        forall|cpu: CPU|
            #![trigger decimal_adjust(cpu)]
            keeps_ime(cpu, decimal_adjust(cpu)),
        forall|cpu: CPU|
            #![trigger complement(cpu)]
            keeps_ime(cpu, complement(cpu)),
        forall|cpu: CPU|
            #![trigger set_carry(cpu)]
            keeps_ime(cpu, set_carry(cpu)),
        forall|cpu: CPU|
            #![trigger flip_carry(cpu)]
            keeps_ime(cpu, flip_carry(cpu)),
        forall|cpu: CPU|
            #![trigger halt(cpu)]
            keeps_ime(cpu, halt(cpu)),
        forall|cpu: CPU, bus: BusView, dst: int, src: int|
            #![trigger ld_r8_r8(cpu, bus, dst, src)]
            keeps_ime(cpu, ld_r8_r8(cpu, bus, dst, src)),
        forall|cpu: CPU, bus: BusView, k: int, src: int|
            #![trigger alu_r8(cpu, bus, k, src)]
            keeps_ime(cpu, alu_r8(cpu, bus, k, src)),
        forall|cpu: CPU, k: int, imm8: u8|
            #![trigger alu_imm(cpu, k, imm8)]
            keeps_ime(cpu, alu_imm(cpu, k, imm8)),
        forall|cpu: CPU, bus: BusView|
            #![trigger ret(cpu, bus)]
            keeps_ime(cpu, ret(cpu, bus)),
        forall|cpu: CPU, bus: BusView, cond: int|
            #![trigger ret_cond(cpu, bus, cond)]
            keeps_ime(cpu, ret_cond(cpu, bus, cond)),
        forall|cpu: CPU, imm16: u16|
            #![trigger jp(cpu, imm16)]
            keeps_ime(cpu, jp(cpu, imm16)),
        forall|cpu: CPU|
            #![trigger jp_hl(cpu)]
            keeps_ime(cpu, jp_hl(cpu)),
        forall|cpu: CPU, cond: int, imm16: u16|
            #![trigger jp_cond(cpu, cond, imm16)]
            keeps_ime(cpu, jp_cond(cpu, cond, imm16)),
        forall|cpu: CPU, imm16: u16|
            #![trigger call(cpu, imm16)]
            keeps_ime(cpu, call(cpu, imm16)),
        forall|cpu: CPU, cond: int, imm16: u16|
            #![trigger call_cond(cpu, cond, imm16)]
            keeps_ime(cpu, call_cond(cpu, cond, imm16)),
        forall|cpu: CPU, target: u16|
            #![trigger rst(cpu, target)]
            keeps_ime(cpu, rst(cpu, target)),
        forall|cpu: CPU, bus: BusView, r: int|
            #![trigger pop(cpu, bus, r)]
            keeps_ime(cpu, pop(cpu, bus, r)),
        forall|cpu: CPU, r: int|
            #![trigger push(cpu, r)]
            keeps_ime(cpu, push(cpu, r)),
        forall|cpu: CPU, bus: BusView, imm8: u8|
            #![trigger prefixed(cpu, bus, imm8)]
            keeps_ime(cpu, prefixed(cpu, bus, imm8)),
        forall|cpu: CPU, low: u8, bytes: u16, mcycles: u64|
            #![trigger ldh_mem_a(cpu, low, bytes, mcycles)]
            keeps_ime(cpu, ldh_mem_a(cpu, low, bytes, mcycles)),
        forall|cpu: CPU, bus: BusView, low: u8, bytes: u16, mcycles: u64|
            #![trigger ldh_a_mem(cpu, bus, low, bytes, mcycles)]
            keeps_ime(cpu, ldh_a_mem(cpu, bus, low, bytes, mcycles)),
        forall|cpu: CPU, imm8: u8|
            #![trigger add_sp(cpu, imm8)]
            keeps_ime(cpu, add_sp(cpu, imm8)),
        forall|cpu: CPU, imm8: u8|
            #![trigger ld_hl_sp(cpu, imm8)]
            keeps_ime(cpu, ld_hl_sp(cpu, imm8)),
        forall|cpu: CPU|
            #![trigger ei(cpu)]
            keeps_ime(cpu, ei(cpu)),
{
    reveal(ld_r16_imm);
    reveal(ld_mem_sp);
    reveal(stop);
    reveal(jr);
    reveal(add_hl);
    reveal(ld_mem_a);
    reveal(ld_a_mem);
    reveal(inc_r16);
    reveal(dec_r16);
    reveal(inc_r8);
    reveal(dec_r8);
    reveal(ld_r8_imm);
    reveal(rotate_acc);
    reveal(decimal_adjust);
    reveal(complement);
    reveal(set_carry);
    reveal(flip_carry);
    reveal(halt);
    reveal(ld_r8_r8);
    reveal(alu_r8);
    reveal(alu_imm);
    reveal(ret);
    reveal(ret_cond);
    reveal(jp);
    reveal(jp_hl);
    reveal(jp_cond);
    reveal(call);
    reveal(call_cond);
    reveal(rst);
    reveal(pop);
    reveal(push);
    reveal(prefixed);
    reveal(ldh_mem_a);
    reveal(ldh_a_mem);
    reveal(add_sp);
    reveal(ld_hl_sp);
    reveal(ei);
}

/// The timing table holds of the opcodes `00..=3F`.
proof fn lemma_timing0(cpu: CPU, bus: BusView, op: u8, imm8: u8, imm16: u16)
    requires
        op < 0x40,
    ensures
        table0(cpu, bus, op, imm8, imm16).legal,
        table0(cpu, bus, op, imm8, imm16).mcycles == mcycles_of(op, imm8).0 || table0(
            cpu,
            bus,
            op,
            imm8,
            imm16,
        ).mcycles == mcycles_of(op, imm8).1,
{
    reveal(table0);
    lemma_costs();
}

/// The timing table holds of the opcodes `40..=BF`.
proof fn lemma_timing12(cpu: CPU, bus: BusView, op: u8)
    requires
        0x40 <= op < 0xC0,
    ensures
        op < 0x80 ==> table1(cpu, bus, op).legal && table1(cpu, bus, op).mcycles == mcycles_of(
            op,
            0,
        ).0,
        op >= 0x80 ==> table2(cpu, bus, op).legal && table2(cpu, bus, op).mcycles == mcycles_of(
            op,
            0,
        ).0,
{
    reveal(table1);
    reveal(table2);
    lemma_costs();
}

/// The timing table holds of the opcodes `C0..=FF`.
proof fn lemma_timing3(cpu: CPU, bus: BusView, op: u8, imm8: u8, imm16: u16)
    requires
        op >= 0xC0,
    ensures
        table3(cpu, bus, op, imm8, imm16).legal == is_legal(op),
        is_legal(op) ==> table3(cpu, bus, op, imm8, imm16).mcycles == mcycles_of(op, imm8).0
            || table3(cpu, bus, op, imm8, imm16).mcycles == mcycles_of(op, imm8).1,
{
    reveal(table3);
    lemma_costs();
}

/// Every instruction takes as many M-cycles as the timing table gives for
/// its opcode: for a conditional branch one of the two entries, for
/// every other instruction the only one.
pub proof fn lemma_timing(cpu: CPU, bus: BusView, op: u8, imm8: u8, imm16: u16)
    ensures
        execute(cpu, bus, op, imm8, imm16).legal == is_legal(op),
        is_legal(op) ==> execute(cpu, bus, op, imm8, imm16).mcycles == mcycles_of(op, imm8).0
            || execute(cpu, bus, op, imm8, imm16).mcycles == mcycles_of(op, imm8).1,
        is_legal(op) ==> 1 <= execute(cpu, bus, op, imm8, imm16).mcycles <= 6,
{
    if op < 0x40 {
        lemma_timing0(cpu, bus, op, imm8, imm16);
    } else if op < 0xC0 {
        lemma_timing12(cpu, bus, op);
    } else {
        lemma_timing3(cpu, bus, op, imm8, imm16);
    }
}

} // verus!
