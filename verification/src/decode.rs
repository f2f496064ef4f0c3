//! The decoder: it splits an opcode into its fields, as the hardware
//! does, and hands it to the instruction that the opcode table names.

use vstd::prelude::*;
use crate::bits::{lemma_decode, lemma_high_fields, lemma_low_bits};
use crate::bus::Bus;
use crate::cpu::{get_cond, CPU};
use crate::isa;
use crate::isa::Outcome;
use crate::ops;

verus! {

/// Decodes and executes an opcode of the block `00..=3F`.
fn block0(cpu: CPU, bus: &Bus, op: u8, imm8: u8, imm16: u16) -> (out: Outcome)
    requires
        op < 0x40,
    ensures
        out == isa::table0(cpu, bus@, op, imm8, imm16),
{
    proof {
        reveal(isa::table0);
        lemma_decode(op);
        lemma_high_fields(op);
    }
    let column: u8 = op & 0b111;
    let row: u8 = op >> 3;
    let pair: u8 = op >> 4;
    let second: bool = op & 0b1000 != 0;
    match column {
        0 => {
            if row == 0 {
                ops::done(cpu, 1, 1)
            } else if row == 1 {
                ops::ld_mem_sp(cpu, imm16)
            } else if row == 2 {
                ops::stop(cpu)
            } else if row == 3 {
                ops::jr(cpu, imm8, true)
            } else {
                ops::jr(cpu, imm8, get_cond(&cpu.f, row & 0b11))
            }
        },
        1 => {
            if !second {
                ops::ld_r16_imm(cpu, pair, imm16)
            } else {
                ops::add_hl(cpu, pair)
            }
        },
        2 => {
            if !second {
                ops::ld_mem_a(cpu, pair)
            } else {
                ops::ld_a_mem(cpu, bus, pair)
            }
        },
        3 => {
            if !second {
                ops::inc_r16(cpu, pair)
            } else {
                ops::dec_r16(cpu, pair)
            }
        },
        4 => ops::inc_r8(cpu, bus, row),
        5 => ops::dec_r8(cpu, bus, row),
        6 => ops::ld_r8_imm(cpu, row, imm8),
        _ => {
            if row < 4 {
                ops::rotate_acc(cpu, row)
            } else if row == 4 {
                ops::decimal_adjust(cpu)
            } else if row == 5 {
                ops::complement(cpu)
            } else if row == 6 {
                ops::set_carry(cpu)
            } else {
                ops::flip_carry(cpu)
            }
        },
    }
}

/// Decodes and executes an opcode of the block `40..=7F`.
fn block1(cpu: CPU, bus: &Bus, op: u8) -> (out: Outcome)
    requires
        0x40 <= op < 0x80,
    ensures
        out == isa::table1(cpu, bus@, op),
{
    proof {
        reveal(isa::table1);
        lemma_low_bits(op);
        lemma_high_fields(op);
    }
    if op == 0x76 {
        ops::halt(cpu)
    } else {
        ops::ld_r8_r8(cpu, bus, (op >> 3) & 0b111, op & 0b111)
    }
}

/// Decodes and executes an opcode of the block `80..=BF`.
fn block2(cpu: CPU, bus: &Bus, op: u8) -> (out: Outcome)
    requires
        0x80 <= op < 0xC0,
    ensures
        out == isa::table2(cpu, bus@, op),
{
    proof {
        reveal(isa::table2);
        lemma_low_bits(op);
        lemma_high_fields(op);
    }
    ops::alu_r8(cpu, bus, (op >> 3) & 0b111, op & 0b111)
}

/// Columns 0 to 2 of the block `C0..=FF`: the conditional returns and
/// jumps, `POP`, `RET`, `RETI`, `JP HL`, and the loads and stores that
/// name their address.
fn block3_low(cpu: CPU, bus: &Bus, op: u8, imm8: u8, imm16: u16) -> (out: Outcome)
    requires
        op >= 0xC0,
        op % 8 <= 2,
    ensures
        out == isa::table3(cpu, bus@, op, imm8, imm16),
{
    proof {
        reveal(isa::table3);
        lemma_decode(op);
        lemma_high_fields(op);
    }
    let column: u8 = op & 0b111;
    let row: u8 = (op >> 3) & 0b111;
    let pair: u8 = (op >> 4) & 0b11;
    let second: bool = op & 0b1000 != 0;
    match column {
        0 => {
            if row < 4 {
                assert(op == 0xC0 || op == 0xC8 || op == 0xD0 || op == 0xD8);
                ops::ret_cond(cpu, bus, row)
            } else if row == 4 {
                assert(op == 0xE0);
                ops::ldh_mem_a(cpu, imm8, 2, 3)
            } else if row == 5 {
                assert(op == 0xE8);
                ops::add_sp(cpu, imm8)
            } else if row == 6 {
                assert(op == 0xF0);
                ops::ldh_a_mem(cpu, bus, imm8, 2, 3)
            } else {
                assert(op == 0xF8);
                ops::ld_hl_sp(cpu, imm8)
            }
        },
        1 => {
            if !second {
                assert(op == 0xC1 || op == 0xD1 || op == 0xE1 || op == 0xF1);
                ops::pop(cpu, bus, pair)
            } else if pair == 0 {
                assert(op == 0xC9);
                ops::ret(cpu, bus)
            } else if pair == 1 {
                assert(op == 0xD9);
                ops::reti(cpu, bus)
            } else if pair == 2 {
                assert(op == 0xE9);
                ops::jp_hl(cpu)
            } else {
                assert(op == 0xF9);
                ops::ld_sp_hl(cpu)
            }
        },
        _ => {
            if row < 4 {
                assert(op == 0xC2 || op == 0xCA || op == 0xD2 || op == 0xDA);
                ops::jp_cond(cpu, row, imm16)
            } else if row == 4 {
                assert(op == 0xE2);
                ops::ldh_mem_a(cpu, cpu.c, 1, 2)
            } else if row == 5 {
                assert(op == 0xEA);
                ops::ld_mem16_a(cpu, imm16)
            } else if row == 6 {
                assert(op == 0xF2);
                ops::ldh_a_mem(cpu, bus, cpu.c, 1, 2)
            } else {
                assert(op == 0xFA);
                ops::ld_a_mem16(cpu, bus, imm16)
            }
        },
    }
}

/// Columns 3 to 7 of the block `C0..=FF`: `JP`, the `CB` prefix, `DI`,
/// `EI`, the calls, `PUSH`, the accumulator operations on `imm8`, `RST`,
/// and the opcodes that do not exist.
fn block3_high(cpu: CPU, bus: &Bus, op: u8, imm8: u8, imm16: u16) -> (out: Outcome)
    requires
        op >= 0xC0,
        op % 8 >= 3,
    ensures
        out == isa::table3(cpu, bus@, op, imm8, imm16),
{
    proof {
        reveal(isa::table3);
        lemma_decode(op);
        lemma_high_fields(op);
    }
    let column: u8 = op & 0b111;
    let row: u8 = (op >> 3) & 0b111;
    let pair: u8 = (op >> 4) & 0b11;
    let second: bool = op & 0b1000 != 0;
    match column {
        3 => {
            if row == 0 {
                assert(op == 0xC3);
                ops::jp(cpu, imm16)
            } else if row == 1 {
                assert(op == 0xCB);
                ops::prefixed(cpu, bus, imm8)
            } else if row == 6 {
                assert(op == 0xF3);
                ops::di(cpu)
            } else if row == 7 {
                assert(op == 0xFB);
                ops::ei(cpu)
            } else {
                assert(op == 0xD3 || op == 0xDB || op == 0xE3 || op == 0xEB);
                ops::illegal(cpu)
            }
        },
        4 => {
            if row < 4 {
                assert(op == 0xC4 || op == 0xCC || op == 0xD4 || op == 0xDC);
                ops::call_cond(cpu, row, imm16)
            } else {
                assert(op == 0xE4 || op == 0xEC || op == 0xF4 || op == 0xFC);
                ops::illegal(cpu)
            }
        },
        5 => {
            if !second {
                assert(op == 0xC5 || op == 0xD5 || op == 0xE5 || op == 0xF5);
                ops::push(cpu, pair)
            } else if pair == 0 {
                assert(op == 0xCD);
                ops::call(cpu, imm16)
            } else {
                assert(op == 0xDD || op == 0xED || op == 0xFD);
                ops::illegal(cpu)
            }
        },
        6 => {
            assert(op == 0xC6 || op == 0xCE || op == 0xD6 || op == 0xDE || op == 0xE6 || op == 0xEE
                || op == 0xF6 || op == 0xFE);
            ops::alu_imm(cpu, row, imm8)
        },
        _ => {
            assert(op == 0xC7 || op == 0xCF || op == 0xD7 || op == 0xDF || op == 0xE7 || op == 0xEF
                || op == 0xF7 || op == 0xFF);
            assert(op & 0b111000 == op - 0xC7);
            ops::rst(cpu, (op & 0b111000) as u16)
        },
    }
}

/// Decodes and executes an opcode of the block `C0..=FF`.
fn block3(cpu: CPU, bus: &Bus, op: u8, imm8: u8, imm16: u16) -> (out: Outcome)
    requires
        op >= 0xC0,
    ensures
        out == isa::table3(cpu, bus@, op, imm8, imm16),
{
    proof {
        lemma_decode(op);
        lemma_low_bits(op);
    }
    if op & 0b111 <= 2 {
        block3_low(cpu, bus, op, imm8, imm16)
    } else {
        block3_high(cpu, bus, op, imm8, imm16)
    }
}

/// Executes the instruction with opcode `op` on a copy of the registers:
/// the memory write that it makes is returned, not made.
pub fn execute(cpu: CPU, bus: &Bus, op: u8, imm8: u8, imm16: u16) -> (out: Outcome)
    ensures
        out == isa::execute(cpu, bus@, op, imm8, imm16),
        out.legal == isa::is_legal(op),
        out.legal ==> out.mcycles == isa::mcycles_of(op, imm8).0 || out.mcycles
            == isa::mcycles_of(op, imm8).1,
{
    proof {
        isa::lemma_timing(cpu, bus@, op, imm8, imm16);
    }
    if op < 0x40 {
        block0(cpu, bus, op, imm8, imm16)
    } else if op < 0x80 {
        block1(cpu, bus, op)
    } else if op < 0xC0 {
        block2(cpu, bus, op)
    } else {
        block3(cpu, bus, op, imm8, imm16)
    }
}

} // verus!
