//! The arithmetic and logic unit: what each operation computes and how it
//! sets the flags, stated over integers, with the byte-level code that
//! implements it.

use vstd::prelude::*;
use crate::bits::{
    bit, lemma_bcd_difference, lemma_bcd_sum, lemma_bits, lemma_low_bits, lemma_one_bit,
    lemma_rotate, lemma_swap_twice, lemma_turn_left_right, lemma_turn_right_left,
    lemma_turn_through_left_right, lemma_turn_through_right_left, lemma_word, lowered, raised,
};
use crate::cpu::Flags;

verus! {

/// The value of a byte read as a two's complement number.
pub open spec fn signed(x: u8) -> int {
    if x >= 128 {
        x - 256
    } else {
        x as int
    }
}

/// An integer reduced to 8 bits, where it is less than 256 out of range.
pub open spec fn wrap8(v: int) -> u8 {
    if v > 0xFF {
        (v - 0x100) as u8
    } else if v < 0 {
        (v + 0x100) as u8
    } else {
        v as u8
    }
}

/// An integer reduced to 16 bits, where it is less than 65536 out of range.
pub open spec fn wrap16(v: int) -> u16 {
    if v > 0xFFFF {
        (v - 0x10000) as u16
    } else if v < 0 {
        (v + 0x10000) as u16
    } else {
        v as u16
    }
}

/// 0 or 1.
pub open spec fn digit(b: bool) -> int {
    if b {
        1
    } else {
        0
    }
}

/// `a + n + carry`: the sum modulo 256; H is the carry out of bit 3, C the
/// carry out of bit 7.
#[verifier::opaque]
pub open spec fn add8(a: u8, n: u8, carry: bool) -> (u8, Flags) {
    let sum = a + n + digit(carry);
    (
        wrap8(sum),
        Flags {
            z: wrap8(sum) == 0,
            n: false,
            h: a % 16 + n % 16 + digit(carry) > 15,
            c: sum > 255,
        },
    )
}

/// `a - n - borrow`: the difference modulo 256; H is the borrow into
/// bit 3, C the borrow into bit 7.
#[verifier::opaque]
pub open spec fn sub8(a: u8, n: u8, borrow: bool) -> (u8, Flags) {
    let diff = a - n - digit(borrow);
    (
        wrap8(diff),
        Flags {
            z: wrap8(diff) == 0,
            n: true,
            h: a % 16 < n % 16 + digit(borrow),
            c: a < n + digit(borrow),
        },
    )
}

/// Bitwise and.
pub open spec fn and8(a: u8, n: u8) -> (u8, Flags) {
    (a & n, Flags { z: a & n == 0, n: false, h: true, c: false })
}

/// Bitwise exclusive or.
pub open spec fn xor8(a: u8, n: u8) -> (u8, Flags) {
    (a ^ n, Flags { z: a ^ n == 0, n: false, h: false, c: false })
}

/// Bitwise or.
pub open spec fn or8(a: u8, n: u8) -> (u8, Flags) {
    (a | n, Flags { z: a | n == 0, n: false, h: false, c: false })
}

/// The eight accumulator operations, by their three-bit selector: ADD,
/// ADC, SUB, SBC, AND, XOR, OR, CP. CP subtracts for the flags and keeps A.
#[verifier::opaque]
pub open spec fn alu8(select: int, a: u8, n: u8, f: Flags) -> (u8, Flags) {
    if select == 0 {
        add8(a, n, false)
    } else if select == 1 {
        add8(a, n, f.c)
    } else if select == 2 {
        sub8(a, n, false)
    } else if select == 3 {
        sub8(a, n, f.c)
    } else if select == 4 {
        and8(a, n)
    } else if select == 5 {
        xor8(a, n)
    } else if select == 6 {
        or8(a, n)
    } else {
        (a, sub8(a, n, false).1)
    }
}

/// `x + 1` modulo 256; C is kept.
#[verifier::opaque]
pub open spec fn inc8(x: u8, f: Flags) -> (u8, Flags) {
    (wrap8(x + 1), Flags { z: x == 255, n: false, h: x % 16 == 15, c: f.c })
}

/// `x - 1` modulo 256; C is kept.
#[verifier::opaque]
pub open spec fn dec8(x: u8, f: Flags) -> (u8, Flags) {
    (wrap8(x - 1), Flags { z: x == 1, n: true, h: x % 16 == 0, c: f.c })
}

/// `hl + v` modulo 65536; H is the carry out of bit 11, C out of bit 15, Z is kept.
#[verifier::opaque]
pub open spec fn add16(hl: u16, v: u16, f: Flags) -> (u16, Flags) {
    (
        wrap16(hl + v),
        Flags { z: f.z, n: false, h: hl % 0x1000 + v % 0x1000 > 0xFFF, c: hl + v > 0xFFFF },
    )
}

/// `sp` plus a signed byte, modulo 65536; H and C are the carries out of
/// bit 3 and bit 7 of the unsigned addition of the low bytes.
#[verifier::opaque]
pub open spec fn add_signed(sp: u16, e: u8) -> (u16, Flags) {
    (
        wrap16(sp + signed(e)),
        Flags { z: false, n: false, h: sp % 16 + e % 16 > 15, c: sp % 256 + e > 255 },
    )
}

/// The eight rotate and shift operations, by their three-bit selector:
/// RLC, RRC, RL, RR, SLA, SRA, SWAP, SRL. The result and the carry out.
#[verifier::opaque]
pub open spec fn shifted(select: int, x: u8, carry: bool) -> (u8, bool) {
    if select == 0 {
        (((2 * x) % 256 + x / 128) as u8, x >= 128)
    } else if select == 1 {
        ((x / 2 + 128 * (x % 2)) as u8, x % 2 == 1)
    } else if select == 2 {
        (((2 * x) % 256 + digit(carry)) as u8, x >= 128)
    } else if select == 3 {
        ((x / 2 + 128 * digit(carry)) as u8, x % 2 == 1)
    } else if select == 4 {
        (((2 * x) % 256) as u8, x >= 128)
    } else if select == 5 {
        ((x / 2 + 128 * (x / 128)) as u8, x % 2 == 1)
    } else if select == 6 {
        (((x % 16) * 16 + x / 16) as u8, false)
    } else {
        ((x / 2) as u8, x % 2 == 1)
    }
}

/// A rotate or shift with the flags of the prefixed instructions: Z from the result.
pub open spec fn shift8(select: int, x: u8, f: Flags) -> (u8, Flags) {
    let r = shifted(select, x, f.c);
    (r.0, Flags { z: r.0 == 0, n: false, h: false, c: r.1 })
}

/// A rotate of the accumulator by the one-byte instructions: Z is cleared.
pub open spec fn rotate_a(select: int, a: u8, f: Flags) -> (u8, Flags) {
    let r = shifted(select, a, f.c);
    (r.0, Flags { z: false, n: false, h: false, c: r.1 })
}

/// Decimal adjust: corrects A after an addition or subtraction of two
/// packed decimal bytes, by the flags which that operation left.
#[verifier::opaque]
pub open spec fn daa(a: u8, f: Flags) -> (u8, Flags) {
    if f.n {
        let adjust = (if f.h {
            6int
        } else {
            0int
        }) + (if f.c {
            0x60int
        } else {
            0int
        });
        (wrap8(a - adjust), Flags { z: wrap8(a - adjust) == 0, n: true, h: false, c: f.c })
    } else {
        let high = f.c || a > 0x99;
        let adjust = (if f.h || a % 16 > 9 {
            6int
        } else {
            0int
        }) + (if high {
            0x60int
        } else {
            0int
        });
        (wrap8(a + adjust), Flags { z: wrap8(a + adjust) == 0, n: false, h: false, c: high })
    }
}

/// The complement of A; N and H are set.
pub open spec fn cpl(a: u8, f: Flags) -> (u8, Flags) {
    ((255 - a) as u8, Flags { z: f.z, n: true, h: true, c: f.c })
}

/// The flags after testing bit `i` of `x`.
pub open spec fn test_bit(i: int, x: u8, f: Flags) -> Flags {
    Flags { z: !bit(x, i), n: false, h: true, c: f.c }
}

/// Adds with carry in.
pub fn alu_add(a: u8, n: u8, carry: bool) -> (r: (u8, Flags))
    ensures
        r == add8(a, n, carry),
{
    proof {
        reveal(add8);
    }
    let c: u8 = if carry {
        1
    } else {
        0
    };
    let sum: u16 = a as u16 + n as u16 + c as u16;
    proof {
        lemma_word(sum);
        lemma_low_bits(a);
        lemma_low_bits(n);
    }
    let value: u8 = (sum & 0xff) as u8;
    (value, Flags { z: value == 0, n: false, h: (a & 0xf) + (n & 0xf) + c > 0xf, c: sum > 0xff })
}

/// Subtracts with borrow in.
pub fn alu_sub(a: u8, n: u8, borrow: bool) -> (r: (u8, Flags))
    ensures
        r == sub8(a, n, borrow),
{
    proof {
        reveal(sub8);
    }
    let b: u8 = if borrow {
        1
    } else {
        0
    };
    proof {
        lemma_low_bits(a);
        lemma_low_bits(n);
    }
    let value: u8 = a.wrapping_sub(n).wrapping_sub(b);
    (
        value,
        Flags {
            z: value == 0,
            n: true,
            h: (a & 0xf) < (n & 0xf) + b,
            c: (a as u16) < n as u16 + b as u16,
        },
    )
}

/// One of the eight accumulator operations.
pub fn alu(select: u8, a: u8, n: u8, f: Flags) -> (r: (u8, Flags))
    requires
        select < 8,
    ensures
        r == alu8(select as int, a, n, f),
{
    proof {
        reveal(alu8);
        reveal(sub8);
    }
    match select {
        0 => alu_add(a, n, false),
        1 => alu_add(a, n, f.c),
        2 => alu_sub(a, n, false),
        3 => alu_sub(a, n, f.c),
        4 => (a & n, Flags { z: a & n == 0, n: false, h: true, c: false }),
        5 => (a ^ n, Flags { z: a ^ n == 0, n: false, h: false, c: false }),
        6 => (a | n, Flags { z: a | n == 0, n: false, h: false, c: false }),
        _ => (a, alu_sub(a, n, false).1),
    }
}

/// Increments a byte.
pub fn alu_inc(x: u8, f: Flags) -> (r: (u8, Flags))
    ensures
        r == inc8(x, f),
{
    proof {
        reveal(inc8);
    }
    let n: u8 = x.wrapping_add(1);
    proof {
        lemma_low_bits(n);
    }
    (n, Flags { z: n == 0, n: false, h: n & 0xf == 0, c: f.c })
}

/// Decrements a byte.
pub fn alu_dec(x: u8, f: Flags) -> (r: (u8, Flags))
    ensures
        r == dec8(x, f),
{
    proof {
        reveal(dec8);
    }
    let n: u8 = x.wrapping_sub(1);
    proof {
        lemma_low_bits(n);
    }
    (n, Flags { z: n == 0, n: true, h: n & 0xf == 0xf, c: f.c })
}

/// Adds a 16-bit register to HL.
pub fn alu_add16(hl: u16, v: u16, f: Flags) -> (r: (u16, Flags))
    ensures
        r == add16(hl, v, f),
{
    proof {
        reveal(add16);
    }
    proof {
        lemma_word(hl);
        lemma_word(v);
    }
    let sum: u32 = hl as u32 + v as u32;
    (
        hl.wrapping_add(v),
        Flags { z: f.z, n: false, h: (hl & 0xfff) + (v & 0xfff) > 0xfff, c: sum > 0xffff },
    )
}

/// The 16-bit word that adds a signed byte when added modulo 65536.
pub fn u8_as_signed_ofs(ofs: u8) -> (r: u16)
    ensures
        r == wrap16(signed(ofs)),
        r == (if ofs >= 0x80 {
            0xFF00 + ofs
        } else {
            ofs as int
        }),
{
    if ofs >= 0x80 {
        0xff00 + ofs as u16
    } else {
        ofs as u16
    }
}

/// Adds a signed byte to the stack pointer.
pub fn alu_add_signed(sp: u16, e: u8) -> (r: (u16, Flags))
    ensures
        r == add_signed(sp, e),
{
    proof {
        reveal(add_signed);
    }
    let uadd: u16 = u8_as_signed_ofs(e);
    let value: u16 = sp.wrapping_add(uadd);
    let low: u16 = sp & 0xff;
    let nibble: u16 = sp & 0xf;
    let e_low: u16 = uadd & 0xff;
    let e_nibble: u16 = uadd & 0xf;
    proof {
        lemma_word(sp);
        lemma_word(uadd);
        assert(e_low == e && e_nibble == e % 16);
        assert(value == wrap16(sp + signed(e))) by {
            if e >= 0x80 {
                if sp + e >= 256 {
                    assert(value == sp + e - 256);
                } else {
                    assert(value == sp + e - 256 + 0x10000);
                }
            }
        }
    }
    (value, Flags { z: false, n: false, h: nibble + e_nibble > 0xf, c: low + e_low > 0xff })
}

/// One of the eight rotates and shifts: the result and the carry out.
pub fn alu_shift(select: u8, x: u8, carry: bool) -> (r: (u8, bool))
    requires
        select < 8,
    ensures
        r == shifted(select as int, x, carry),
{
    proof {
        reveal(shifted);
    }
    proof {
        lemma_rotate(x);
        lemma_bits(x);
    }
    let top: bool = x & 0x80 != 0;
    let bottom: bool = x & 1 != 0;
    match select {
        0 => ((x << 1) | (x >> 7), top),
        1 => ((x >> 1) | (x << 7), bottom),
        2 => (if carry {
            (x << 1) | 1
        } else {
            x << 1
        }, top),
        3 => (if carry {
            (x >> 1) | 0x80
        } else {
            x >> 1
        }, bottom),
        4 => (x << 1, top),
        5 => ((x >> 1) | (x & 0x80), bottom),
        6 => ((x >> 4) | (x << 4), false),
        _ => (x >> 1, bottom),
    }
}

/// Decimal adjust.
pub fn alu_daa(a: u8, f: Flags) -> (r: (u8, Flags))
    ensures
        r == daa(a, f),
{
    proof {
        reveal(daa);
    }
    proof {
        lemma_low_bits(a);
    }
    let mut adj: u8 = 0;
    let mut carry: bool = f.c;
    let value: u8;
    if f.n {
        if f.h {
            adj += 0x6;
        }
        if f.c {
            adj += 0x60;
        }
        value = a.wrapping_sub(adj);
    } else {
        if f.h || (a & 0xf) > 0x9 {
            adj += 0x6;
        }
        if f.c || a > 0x99 {
            adj += 0x60;
            carry = true;
        }
        value = a.wrapping_add(adj);
    }
    (value, Flags { z: value == 0, n: f.n, h: false, c: carry })
}

/// Complements the accumulator.
pub fn alu_cpl(a: u8, f: Flags) -> (r: (u8, Flags))
    ensures
        r == cpl(a, f),
{
    proof {
        lemma_rotate(a);
    }
    (!a, Flags { z: f.z, n: true, h: true, c: f.c })
}

/// Tests bit `i` of `x`.
pub fn alu_bit(i: u8, x: u8, f: Flags) -> (r: Flags)
    requires
        i < 8,
    ensures
        r == test_bit(i as int, x, f),
{
    proof {
        lemma_one_bit(x, i);
    }
    Flags { z: x & (1 << i) == 0, n: false, h: true, c: f.c }
}

/// Clears bit `i` of `x`.
pub fn alu_res(i: u8, x: u8) -> (r: u8)
    requires
        i < 8,
    ensures
        r == lowered(x, i as int),
{
    proof {
        lemma_one_bit(x, i);
    }
    x & !(1 << i)
}

/// Sets bit `i` of `x`.
pub fn alu_set(i: u8, x: u8) -> (r: u8)
    requires
        i < 8,
    ensures
        r == raised(x, i as int),
{
    proof {
        lemma_one_bit(x, i);
    }
    x | (1 << i)
}

/// An addition is undone by the subtraction of the same byte, and a
/// subtraction by the addition: A returns to its value. The flags after
/// the second operation are those which that operation alone gives for
/// its operands, whatever flags the first has left.
pub proof fn lemma_add_sub_inverse(a: u8, n: u8, f: Flags, g: Flags)
    ensures
        alu8(2, alu8(0, a, n, f).0, n, g).0 == a,
        alu8(0, alu8(2, a, n, f).0, n, g).0 == a,
        alu8(2, alu8(0, a, n, f).0, n, g).1 == sub8(wrap8(a + n), n, false).1,
        alu8(0, alu8(2, a, n, f).0, n, g).1 == add8(wrap8(a - n), n, false).1,
        alu8(2, alu8(0, a, n, f).0, n, g).1.z == (a == 0),
        alu8(2, alu8(0, a, n, f).0, n, g).1.c == (a + n > 255),
{
    reveal(alu8);
    reveal(add8);
    reveal(sub8);
}

/// With the carry that the first operation has left, an addition with
/// carry is undone by the subtraction with carry of the same byte, and
/// the other way round.
pub proof fn lemma_adc_sbc_inverse(a: u8, n: u8, carry: bool)
    ensures
        sub8(add8(a, n, carry).0, n, carry).0 == a,
        add8(sub8(a, n, carry).0, n, carry).0 == a,
{
    reveal(add8);
    reveal(sub8);
}

/// An exclusive or with the same byte twice restores A, and so does
/// complementing twice.
pub proof fn lemma_xor_cpl_inverse(a: u8, n: u8, f: Flags, g: Flags)
    ensures
        alu8(5, alu8(5, a, n, f).0, n, g).0 == a,
        alu8(5, alu8(5, a, n, f).0, n, g).1 == (Flags { z: a == 0, n: false, h: false, c: false }),
        cpl(cpl(a, f).0, g).0 == a,
{
    reveal(alu8);
    assert((a ^ n) ^ n == a) by (bit_vector);
}

/// An increment is undone by a decrement and the other way round; both
/// keep the carry flag.
pub proof fn lemma_inc_dec_inverse(x: u8, f: Flags, g: Flags)
    ensures
        dec8(inc8(x, f).0, g).0 == x,
        inc8(dec8(x, f).0, g).0 == x,
        dec8(inc8(x, f).0, g).1 == (Flags { z: x == 0, n: true, h: x % 16 == 15, c: g.c }),
        inc8(dec8(x, f).0, g).1 == (Flags { z: x == 0, n: false, h: x % 16 == 0, c: g.c }),
{
    reveal(inc8);
    reveal(dec8);
}

/// A circular rotation to the left is undone by the one to the right,
/// and the other way round.
pub proof fn lemma_rotate_inverse(x: u8, carry: bool, other: bool)
    ensures
        shifted(1, shifted(0, x, carry).0, other).0 == x,
        shifted(0, shifted(1, x, carry).0, other).0 == x,
{
    reveal(shifted);
    lemma_turn_left_right(x);
    lemma_turn_right_left(x);
}

/// A rotation to the left through the carry is undone by the one to
/// the right, done with the carry that the first has left; the carry
/// is restored too.
pub proof fn lemma_rotate_left_carry_inverse(x: u8, carry: bool)
    ensures
        shifted(3, shifted(2, x, carry).0, shifted(2, x, carry).1) == (x, carry),
{
    reveal(shifted);
    lemma_turn_through_left_right(x, carry);
}

/// A rotation to the right through the carry is undone by the one to
/// the left, done with the carry that the first has left; the carry
/// is restored too.
pub proof fn lemma_rotate_right_carry_inverse(x: u8, carry: bool)
    ensures
        shifted(2, shifted(3, x, carry).0, shifted(3, x, carry).1) == (x, carry),
{
    reveal(shifted);
    lemma_turn_through_right_left(x, carry);
}

/// Swapping the nibbles twice restores the byte.
pub proof fn lemma_swap_inverse(x: u8, carry: bool, other: bool)
    ensures
        shifted(6, shifted(6, x, carry).0, other).0 == x,
{
    reveal(shifted);
    lemma_swap_twice(x);
}

/// Whether a byte holds two decimal digits.
pub open spec fn is_bcd(x: u8) -> bool {
    x % 16 <= 9 && x / 16 <= 9
}

/// The number that a byte of two decimal digits stands for.
pub open spec fn bcd_value(x: u8) -> int {
    10 * (x / 16) + x % 16
}

/// Decimal adjust after the addition of two packed decimal bytes gives
/// the packed decimal sum: two decimal digits that stand for the sum
/// modulo 100, the carry flag for the hundred, and the zero flag exactly
/// when the byte is zero.
pub proof fn lemma_daa_after_add(a: u8, n: u8)
    requires
        is_bcd(a),
        is_bcd(n),
    ensures
        is_bcd(daa(add8(a, n, false).0, add8(a, n, false).1).0),
        bcd_value(daa(add8(a, n, false).0, add8(a, n, false).1).0) == (bcd_value(a) + bcd_value(
            n,
        )) % 100,
        daa(add8(a, n, false).0, add8(a, n, false).1).1.c == (bcd_value(a) + bcd_value(n) >= 100),
        daa(add8(a, n, false).0, add8(a, n, false).1).1.z == (daa(
            add8(a, n, false).0,
            add8(a, n, false).1,
        ).0 == 0),
{
    lemma_bcd_sum(a, n);
    let s: int = if a + n > 255 {
        a + n - 256
    } else {
        a + n
    };
    let high = a + n > 255 || s > 0x99;
    let adjust: int = (if a % 16 + n % 16 > 15 || s % 16 > 9 {
        6int
    } else {
        0int
    }) + (if high {
        0x60int
    } else {
        0int
    });
    let r: int = if s + adjust > 255 {
        s + adjust - 256
    } else {
        s + adjust
    };
    let total = bcd_value(a) + bcd_value(n);
    let sum = add8(a, n, false);
    assert(sum.0 == s && sum.1.h == (a % 16 + n % 16 > 15) && sum.1.c == (a + n > 255) && !sum.1.n)
        by {
        reveal(add8);
    }
    let adjusted = daa(sum.0, sum.1);
    assert(adjusted.0 == r && adjusted.1.c == high && adjusted.1.z == (r == 0)) by {
        reveal(daa);
    }
    if total < 100 {
        assert(total % 100 == total);
    } else {
        assert(total % 100 == total - 100);
    }
}

/// Decimal adjust after the subtraction of two packed decimal bytes
/// gives the packed decimal difference: two decimal digits that stand
/// for the difference modulo 100, and the zero flag exactly when the
/// byte is zero.
pub proof fn lemma_daa_after_sub(a: u8, n: u8)
    requires
        is_bcd(a),
        is_bcd(n),
    ensures
        is_bcd(daa(sub8(a, n, false).0, sub8(a, n, false).1).0),
        bcd_value(daa(sub8(a, n, false).0, sub8(a, n, false).1).0) == (bcd_value(a) - bcd_value(
            n,
        )) % 100,
        daa(sub8(a, n, false).0, sub8(a, n, false).1).1.z == (daa(
            sub8(a, n, false).0,
            sub8(a, n, false).1,
        ).0 == 0),
{
    reveal(sub8);
    reveal(daa);
    lemma_bcd_difference(a, n);
}

} // verus!
