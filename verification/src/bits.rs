//! Facts that tie the bit operators used by the executable code to the
//! arithmetic in which the contracts are stated.

use vstd::prelude::*;

verus! {

/// Bit `i` of a byte, bit 0 being the least significant.
pub open spec fn bit(x: u8, i: int) -> bool {
    if i == 0 {
        x % 2 == 1
    } else if i == 1 {
        (x / 2) % 2 == 1
    } else if i == 2 {
        (x / 4) % 2 == 1
    } else if i == 3 {
        (x / 8) % 2 == 1
    } else if i == 4 {
        (x / 16) % 2 == 1
    } else if i == 5 {
        (x / 32) % 2 == 1
    } else if i == 6 {
        (x / 64) % 2 == 1
    } else {
        x / 128 == 1
    }
}

/// The weight of bit `i` of a byte.
pub open spec fn weight(i: int) -> int {
    if i == 0 {
        1
    } else if i == 1 {
        2
    } else if i == 2 {
        4
    } else if i == 3 {
        8
    } else if i == 4 {
        16
    } else if i == 5 {
        32
    } else if i == 6 {
        64
    } else {
        128
    }
}

/// A byte with bit `i` set.
pub open spec fn raised(x: u8, i: int) -> u8 {
    if bit(x, i) {
        x
    } else {
        (x + weight(i)) as u8
    }
}

/// A byte with bit `i` cleared.
pub open spec fn lowered(x: u8, i: int) -> u8 {
    if bit(x, i) {
        (x - weight(i)) as u8
    } else {
        x
    }
}

/// Testing one bit with a mask is reading that binary digit.
pub proof fn lemma_bits(x: u8)
    by (bit_vector)
    ensures
        (x & 0x01 != 0) == (x % 2 == 1),
        (x & 0x02 != 0) == ((x / 2) % 2 == 1),
        (x & 0x04 != 0) == ((x / 4) % 2 == 1),
        (x & 0x08 != 0) == ((x / 8) % 2 == 1),
        (x & 0x10 != 0) == ((x / 16) % 2 == 1),
        (x & 0x20 != 0) == ((x / 32) % 2 == 1),
        (x & 0x40 != 0) == ((x / 64) % 2 == 1),
        (x & 0x80 != 0) == (x / 128 == 1),
        (x & (1u8 << 7) != 0) == (x >= 128),
        (x & 0x80 == 0) == (x < 128),
{
}

/// Shifting a byte right is dividing it, and a masked shift is a digit group.
pub proof fn lemma_high_fields(x: u8)
    by (bit_vector)
    ensures
        x >> 1 == x / 2,
        x >> 3 == x / 8,
        x >> 4 == x / 16,
        x >> 6 == x / 64,
        x >> 7 == x / 128,
        (x >> 3) & 7 == (x / 8) % 8,
        (x >> 3) & 3 == (x / 8) % 4,
        (x >> 4) & 3 == (x / 16) % 4,
        (x >> 4) & 7 == (x / 16) % 8,
{
}

/// Keeping the high bits of one byte and taking the low bits of another.
pub proof fn lemma_splice(x: u8, n: u8)
    by (bit_vector)
    ensures
        (x & 0xC0) | (0x3F & n) == (x / 64) * 64 + n % 64,
        (x & 0xF8) | (n & 7) == (x / 8) * 8 + n % 8,
        (x & 0x80) | (n & 1) == (x / 128) * 128 + n % 2,
{
}

/// Masking the low bits of a byte is taking a remainder.
pub proof fn lemma_low_bits(x: u8)
    by (bit_vector)
    ensures
        x & 1 == x % 2,
        x & 3 == x % 4,
        x & 7 == x % 8,
        x & 0xF == x % 16,
        x & 0x1F == x % 32,
        x & 0x3F == x % 64,
{
}

/// Doubling two `code` times, for every ROM size code in use.
pub proof fn lemma_bank_count(code: u8)
    by (bit_vector)
    requires
        code < 9,
    ensures
        code == 0 ==> 2u32 << (code as u32) == 2,
        code == 1 ==> 2u32 << (code as u32) == 4,
        code == 2 ==> 2u32 << (code as u32) == 8,
        code == 3 ==> 2u32 << (code as u32) == 16,
        code == 4 ==> 2u32 << (code as u32) == 32,
        code == 5 ==> 2u32 << (code as u32) == 64,
        code == 6 ==> 2u32 << (code as u32) == 128,
        code == 7 ==> 2u32 << (code as u32) == 256,
        code == 8 ==> 2u32 << (code as u32) == 512,
{
}

/// The joypad register: line selection and the active-low key nibble.
pub proof fn lemma_joypad(p: u8, b: u8, j: u8)
    by (bit_vector)
    ensures
        p & 0x30 == ((p / 16) % 4) * 16,
        (p & 0x30 == 0x30) == ((p / 16) % 4 == 3),
        (p & 0x30 == 0x10) == ((p / 16) % 4 == 1),
        (p & 0x30 == 0x20) == ((p / 16) % 4 == 2),
        (p & 0x30) | 0xF == ((p / 16) % 4) * 16 + 15,
        (p & 0x30) | (0xF & !b) == ((p / 16) % 4) * 16 + (15 - b % 16),
        (p & 0x30) | (0xF & !j) == ((p / 16) % 4) * 16 + (15 - j % 16),
        (p & 0x30) | ((0xF & !b) & (0xF & !j)) == ((p / 16) % 4) * 16 + (15 - (b | j) % 16),
{
}

/// The stored bits of the LCD status register, and a bank number under its fixed high bits.
pub proof fn lemma_status(x: u8)
    by (bit_vector)
    ensures
        x & 0x78 == ((x / 8) % 16) * 8,
        (x & 0x78) | 4 == ((x / 8) % 16) * 8 + 4,
        0xF8 | (x & 7) == 0xF8 + x % 8,
{
}

/// Setting one of the five interrupt bits adds its weight unless it is set already.
pub proof fn lemma_raise(x: u8)
    by (bit_vector)
    ensures
        x | 1 == (if x % 2 == 1 { x } else { (x + 1) as u8 }),
        x | 2 == (if (x / 2) % 2 == 1 { x } else { (x + 2) as u8 }),
        x | 4 == (if (x / 4) % 2 == 1 { x } else { (x + 4) as u8 }),
        x | 8 == (if (x / 8) % 2 == 1 { x } else { (x + 8) as u8 }),
        x | 16 == (if (x / 16) % 2 == 1 { x } else { (x + 16) as u8 }),
{
}

/// A 16-bit word and its two bytes, and the timer's divider taps.
pub proof fn lemma_word(w: u16)
    by (bit_vector)
    ensures
        w >> 8 == w / 256,
        (w >> 8) as u8 == w / 256,
        w & 0xFF == w % 256,
        (w & 0xFF) as u8 == w % 256,
        ((w & 0xFF00) >> 8) as u8 == w / 256,
        (w & 1023 == 0) == (w % 1024 == 0),
        (w & 15 == 0) == (w % 16 == 0),
        (w & 63 == 0) == (w % 64 == 0),
        (w & 255 == 0) == (w % 256 == 0),
        (w & 0x1000 != 0) == ((w / 0x1000) % 2 == 1),
        w & 0xFFF == w % 0x1000,
        w & 0xF == w % 16,
{
}

/// Rotating and shifting a byte by one place or by a nibble, and complementing it.
pub proof fn lemma_rotate(x: u8)
    by (bit_vector)
    ensures
        x < 128 ==> x << 1 == 2 * x,
        x >= 128 ==> x << 1 == 2 * x - 256,
        x < 128 ==> (x << 1) | (x >> 7) == 2 * x,
        x >= 128 ==> (x << 1) | (x >> 7) == 2 * x - 255,
        x < 128 ==> (x << 1) | 1 == 2 * x + 1,
        x >= 128 ==> (x << 1) | 1 == 2 * x - 255,
        (x >> 1) | (x << 7) == x / 2 + 128 * (x % 2),
        (x >> 1) | 0x80 == x / 2 + 128,
        x >> 1 == x / 2,
        (x >> 1) | (x & 0x80) == x / 2 + 128 * (x / 128),
        (x >> 4) | (x << 4) == (x % 16) * 16 + x / 16,
        !x == 255 - x,
{
}

/// Testing, clearing and setting the bit that a shifted one selects.
pub proof fn lemma_one_bit(x: u8, i: u8)
    by (bit_vector)
    requires
        i < 8,
    ensures
        i == 0 ==> (x & (1u8 << i) == 0) == (x % 2 == 0),
        i == 1 ==> (x & (1u8 << i) == 0) == ((x / 2) % 2 == 0),
        i == 2 ==> (x & (1u8 << i) == 0) == ((x / 4) % 2 == 0),
        i == 3 ==> (x & (1u8 << i) == 0) == ((x / 8) % 2 == 0),
        i == 4 ==> (x & (1u8 << i) == 0) == ((x / 16) % 2 == 0),
        i == 5 ==> (x & (1u8 << i) == 0) == ((x / 32) % 2 == 0),
        i == 6 ==> (x & (1u8 << i) == 0) == ((x / 64) % 2 == 0),
        i == 7 ==> (x & (1u8 << i) == 0) == (x / 128 == 0),
        i == 0 ==> x & !(1u8 << i) == (if x % 2 == 1 { (x - 1) as u8 } else { x }),
        i == 1 ==> x & !(1u8 << i) == (if (x / 2) % 2 == 1 { (x - 2) as u8 } else { x }),
        i == 2 ==> x & !(1u8 << i) == (if (x / 4) % 2 == 1 { (x - 4) as u8 } else { x }),
        i == 3 ==> x & !(1u8 << i) == (if (x / 8) % 2 == 1 { (x - 8) as u8 } else { x }),
        i == 4 ==> x & !(1u8 << i) == (if (x / 16) % 2 == 1 { (x - 16) as u8 } else { x }),
        i == 5 ==> x & !(1u8 << i) == (if (x / 32) % 2 == 1 { (x - 32) as u8 } else { x }),
        i == 6 ==> x & !(1u8 << i) == (if (x / 64) % 2 == 1 { (x - 64) as u8 } else { x }),
        i == 7 ==> x & !(1u8 << i) == (if x / 128 == 1 { (x - 128) as u8 } else { x }),
        i == 0 ==> x | (1u8 << i) == (if x % 2 == 1 { x } else { (x + 1) as u8 }),
        i == 1 ==> x | (1u8 << i) == (if (x / 2) % 2 == 1 { x } else { (x + 2) as u8 }),
        i == 2 ==> x | (1u8 << i) == (if (x / 4) % 2 == 1 { x } else { (x + 4) as u8 }),
        i == 3 ==> x | (1u8 << i) == (if (x / 8) % 2 == 1 { x } else { (x + 8) as u8 }),
        i == 4 ==> x | (1u8 << i) == (if (x / 16) % 2 == 1 { x } else { (x + 16) as u8 }),
        i == 5 ==> x | (1u8 << i) == (if (x / 32) % 2 == 1 { x } else { (x + 32) as u8 }),
        i == 6 ==> x | (1u8 << i) == (if (x / 64) % 2 == 1 { x } else { (x + 64) as u8 }),
        i == 7 ==> x | (1u8 << i) == (if x / 128 == 1 { x } else { (x + 128) as u8 }),
{
}

/// The accumulator and the four flags packed as the word AF.
pub proof fn lemma_pack(a: u8, z: bool, n: bool, h: bool, c: bool)
    by (bit_vector)
    ensures
        ((a as u16) << 8) | ((z as u16) << 7) | ((n as u16) << 6) | ((h as u16) << 5) | ((
        c as u16) << 4) == a * 256 + (if z {
            128int
        } else {
            0int
        }) + (if n {
            64int
        } else {
            0int
        }) + (if h {
            32int
        } else {
            0int
        }) + (if c {
            16int
        } else {
            0int
        }),
{
}

/// An opcode is made of a block, a row and a column, and a row of a
/// register pair and one more bit.
pub proof fn lemma_decode(op: u8)
    by (bit_vector)
    ensures
        op >> 6 <= 3,
        (op >> 3) & 7 <= 7,
        (op >> 4) & 3 <= 3,
        op & 7 <= 7,
        op == (op >> 6) * 64 + ((op >> 3) & 7) * 8 + (op & 7),
        op < 0x40 ==> op >> 6 == 0 && op >> 3 == (op >> 3) & 7 && op >> 4 == (op >> 4) & 3,
        0x40 <= op < 0x80 ==> op >> 6 == 1,
        0x80 <= op < 0xC0 ==> op >> 6 == 2,
        op >= 0xC0 ==> op >> 6 == 3,
        op & 8 != 0 ==> (op >> 3) & 7 == 2 * ((op >> 4) & 3) + 1,
        op & 8 == 0 ==> (op >> 3) & 7 == 2 * ((op >> 4) & 3),
        op & 0x38 == ((op >> 3) & 7) * 8,
{
}

/// The interrupts that are flagged and enabled, among the five that exist.
pub proof fn lemma_pending(f: u8, e: u8)
    by (bit_vector)
    ensures
        ((f & e & 0x1F) & 1 != 0) == (f % 2 == 1 && e % 2 == 1),
        ((f & e & 0x1F) & 2 != 0) == ((f / 2) % 2 == 1 && (e / 2) % 2 == 1),
        ((f & e & 0x1F) & 4 != 0) == ((f / 4) % 2 == 1 && (e / 4) % 2 == 1),
        ((f & e & 0x1F) & 8 != 0) == ((f / 8) % 2 == 1 && (e / 8) % 2 == 1),
        (f & e & 0x1F) & 15 == 0 && (f & e & 0x1F) != 0 ==> ((f / 16) % 2 == 1 && (e / 16) % 2
            == 1),
        (f & e & 0x1F == 0) == !((f % 2 == 1 && e % 2 == 1) || ((f / 2) % 2 == 1 && (e / 2) % 2
            == 1) || ((f / 4) % 2 == 1 && (e / 4) % 2 == 1) || ((f / 8) % 2 == 1 && (e / 8) % 2
            == 1) || ((f / 16) % 2 == 1 && (e / 16) % 2 == 1)),
{
}

/// Carrying out a speed switch clears bit 0 and flips bit 7.
pub proof fn lemma_switch(s: u8)
    by (bit_vector)
    ensures
        (s & 1 != 0) == (s % 2 == 1),
        s % 2 == 1 && s >= 128 ==> s ^ 0x81 == s - 129,
        s % 2 == 1 && s < 128 ==> s ^ 0x81 == s + 127,
{
}

/// A shift by twice the colour index brings a palette entry to the low two bits.
pub proof fn lemma_palette(p: u8, n: u8)
    by (bit_vector)
    requires
        n <= 3,
    ensures
        n == 0 ==> (p >> (n * 2)) & 3 == p % 4,
        n == 1 ==> (p >> (n * 2)) & 3 == (p / 4) % 4,
        n == 2 ==> (p >> (n * 2)) & 3 == (p / 16) % 4,
        n == 3 ==> (p >> (n * 2)) & 3 == p / 64,
        (p >> (n * 2)) & 3 <= 3,
{
}

/// Picking one bit out of each of two bytes and joining them into a two-bit number.
pub proof fn lemma_pick(low: u8, high: u8, s: u8)
    by (bit_vector)
    requires
        s < 8,
    ensures
        ((low >> s) & 1) | (((high >> s) & 1) << 1) <= 3,
        s == 0 ==> ((low >> s) & 1) | (((high >> s) & 1) << 1) == low % 2 + 2 * (high % 2),
        s == 1 ==> ((low >> s) & 1) | (((high >> s) & 1) << 1) == (low / 2) % 2 + 2 * ((high / 2)
            % 2),
        s == 2 ==> ((low >> s) & 1) | (((high >> s) & 1) << 1) == (low / 4) % 2 + 2 * ((high / 4)
            % 2),
        s == 3 ==> ((low >> s) & 1) | (((high >> s) & 1) << 1) == (low / 8) % 2 + 2 * ((high / 8)
            % 2),
        s == 4 ==> ((low >> s) & 1) | (((high >> s) & 1) << 1) == (low / 16) % 2 + 2 * ((high
            / 16) % 2),
        s == 5 ==> ((low >> s) & 1) | (((high >> s) & 1) << 1) == (low / 32) % 2 + 2 * ((high
            / 32) % 2),
        s == 6 ==> ((low >> s) & 1) | (((high >> s) & 1) << 1) == (low / 64) % 2 + 2 * ((high
            / 64) % 2),
        s == 7 ==> ((low >> s) & 1) | (((high >> s) & 1) << 1) == low / 128 + 2 * (high / 128),
{
}

/// Shifting an eleven-bit period right is dividing it by a power of two.
pub proof fn lemma_period_shift(v: u16, s: u8)
    by (bit_vector)
    requires
        s < 8,
    ensures
        s == 0 ==> v >> s == v,
        s == 1 ==> v >> s == v / 2,
        s == 2 ==> v >> s == v / 4,
        s == 3 ==> v >> s == v / 8,
        s == 4 ==> v >> s == v / 16,
        s == 5 ==> v >> s == v / 32,
        s == 6 ==> v >> s == v / 64,
        s == 7 ==> v >> s == v / 128,
{
}

/// Two bytes that agree in a group of binary digits agree under the mask of that group.
pub proof fn lemma_same_bits(x: u8, v: u8)
    by (bit_vector)
    ensures
        x & 0 == v & 0,
        x & 0xFF == x,
        v & 0xFF == v,
        x % 2 == v % 2 ==> x & 1 == v & 1,
        x % 8 == v % 8 ==> x & 7 == v & 7,
        (x / 4) % 2 == (v / 4) % 2 ==> x & 4 == v & 4,
        (x / 16) % 4 == (v / 16) % 4 ==> x & 0x30 == v & 0x30,
        (x / 8) % 16 == (v / 8) % 16 ==> x & 0x78 == v & 0x78,
{
}

/// Moving each bit of a byte to the opposite place.
pub proof fn lemma_reverse(x: u8)
    by (bit_vector)
    ensures
        ((x & 0x01) << 7) | ((x & 0x02) << 5) | ((x & 0x04) << 3) | ((x & 0x08) << 1) | ((x & 0x10)
            >> 1) | ((x & 0x20) >> 3) | ((x & 0x40) >> 5) | ((x & 0x80) >> 7) == 128 * (x % 2) + 64
            * ((x / 2) % 2) + 32 * ((x / 4) % 2) + 16 * ((x / 8) % 2) + 8 * ((x / 16) % 2) + 4 * ((x
            / 32) % 2) + 2 * ((x / 64) % 2) + x / 128,
{
}

/// Turning a byte one place to the left and then one to the right gives it back.
pub proof fn lemma_turn_left_right(x: u8)
    by (bit_vector)
    ensures
        ({
            let y = (2 * x) % 256 + x / 128;
            y / 2 + 128 * (y % 2) == x
        }),
{
}

/// Turning a byte one place to the right and then one to the left gives it back.
pub proof fn lemma_turn_right_left(x: u8)
    by (bit_vector)
    ensures
        ({
            let y = x / 2 + 128 * (x % 2);
            (2 * y) % 256 + y / 128 == x
        }),
{
}

/// Turning a byte and a carry bit one place to the left and then one
/// to the right gives both back.
pub proof fn lemma_turn_through_left_right(x: u8, c: bool)
    by (bit_vector)
    ensures
        ({
            let y = (2 * x) % 256 + (if c {
                1int
            } else {
                0int
            });
            y / 2 + 128 * (if x >= 128 {
                1int
            } else {
                0int
            }) == x && (y % 2 == 1) == c
        }),
{
}

/// Turning a byte and a carry bit one place to the right and then one
/// to the left gives both back.
pub proof fn lemma_turn_through_right_left(x: u8, c: bool)
    by (bit_vector)
    ensures
        ({
            let y = x / 2 + 128 * (if c {
                1int
            } else {
                0int
            });
            (2 * y) % 256 + (if x % 2 == 1 {
                1int
            } else {
                0int
            }) == x && (y >= 128) == c
        }),
{
}

/// Swapping the two nibbles of a byte twice gives it back.
pub proof fn lemma_swap_twice(x: u8)
    by (bit_vector)
    ensures
        ({
            let y = (x % 16) * 16 + x / 16;
            (y % 16) * 16 + y / 16 == x
        }),
{
}

/// The decimal adjustment of the sum of two bytes of two decimal
/// digits: `s` is the sum modulo 256 and `r` the adjusted byte. It holds
/// two decimal digits, and they stand for the decimal sum, less the
/// hundred that the carry stands for.
pub proof fn lemma_bcd_sum(a: u8, n: u8)
    by (bit_vector)
    requires
        a % 16 <= 9,
        a / 16 <= 9,
        n % 16 <= 9,
        n / 16 <= 9,
    ensures
        ({
            let s = if a + n > 255 {
                a + n - 256
            } else {
                a + n
            };
            let high = a + n > 255 || s > 0x99;
            let adjust = (if a % 16 + n % 16 > 15 || s % 16 > 9 {
                6int
            } else {
                0int
            }) + (if high {
                0x60int
            } else {
                0int
            });
            let r = if s + adjust > 255 {
                s + adjust - 256
            } else {
                s + adjust
            };
            let total = 10 * (a / 16) + a % 16 + 10 * (n / 16) + n % 16;
            r % 16 <= 9 && r / 16 <= 9 && (total < 100 ==> 10 * (r / 16) + r % 16 == total && !high)
                && (total >= 100 ==> 10 * (r / 16) + r % 16 == total - 100 && high)
        }),
{
}

/// The decimal adjustment of the difference of two bytes of two
/// decimal digits: `s` is the difference modulo 256 and `r` the
/// adjusted byte. It holds two decimal digits, and they stand for the
/// decimal difference, plus a hundred where that is negative.
pub proof fn lemma_bcd_difference(a: u8, n: u8)
    by (bit_vector)
    requires
        a % 16 <= 9,
        a / 16 <= 9,
        n % 16 <= 9,
        n / 16 <= 9,
    ensures
        ({
            let s = if a < n {
                a - n + 256
            } else {
                a - n
            };
            let adjust = (if a % 16 < n % 16 {
                6int
            } else {
                0int
            }) + (if a < n {
                0x60int
            } else {
                0int
            });
            let r = if s - adjust < 0 {
                s - adjust + 256
            } else {
                s - adjust
            };
            let total = 10 * (a / 16) + a % 16 - (10 * (n / 16) + n % 16);
            r % 16 <= 9 && r / 16 <= 9 && (total >= 0 ==> 10 * (r / 16) + r % 16 == total) && (total
                < 0 ==> 10 * (r / 16) + r % 16 == total + 100)
        }),
{
}

} // verus!
