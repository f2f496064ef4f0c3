use gameboy_core::alu::{
    alu, alu_add, alu_add16, alu_add_signed, alu_bit, alu_cpl, alu_daa, alu_dec, alu_inc,
    alu_res, alu_set, alu_shift, alu_sub, u8_as_signed_ofs,
};
use gameboy_core::cpu::Flags;

fn flags(z: bool, n: bool, h: bool, c: bool) -> Flags {
    Flags { z, n, h, c }
}

const CLEAR: Flags = Flags { z: false, n: false, h: false, c: false };

#[test]
fn add_sets_half_carry_and_carry() {
    assert_eq!(alu_add(0x0F, 0x01, false), (0x10, flags(false, false, true, false)));
    assert_eq!(alu_add(0xFF, 0x01, false), (0x00, flags(true, false, true, true)));
    assert_eq!(alu_add(0x80, 0x80, false), (0x00, flags(true, false, false, true)));
    assert_eq!(alu_add(0x12, 0x34, false), (0x46, CLEAR));
}

#[test]
fn adc_adds_the_carry_in() {
    assert_eq!(alu_add(0x0E, 0x01, true), (0x10, flags(false, false, true, false)));
    assert_eq!(alu_add(0x00, 0xFF, true), (0x00, flags(true, false, true, true)));
    assert_eq!(alu_add(0xFF, 0xFF, true), (0xFF, flags(false, false, true, true)));
}

#[test]
fn sub_sets_borrows() {
    assert_eq!(alu_sub(0x10, 0x01, false), (0x0F, flags(false, true, true, false)));
    assert_eq!(alu_sub(0x00, 0x01, false), (0xFF, flags(false, true, true, true)));
    assert_eq!(alu_sub(0x42, 0x42, false), (0x00, flags(true, true, false, false)));
}

#[test]
fn sbc_subtracts_the_borrow_in() {
    assert_eq!(alu_sub(0x10, 0x0F, true), (0x00, flags(true, true, true, false)));
    assert_eq!(alu_sub(0x00, 0xFF, true), (0x00, flags(true, true, true, true)));
    assert_eq!(alu_sub(0x05, 0x05, true), (0xFF, flags(false, true, true, true)));
}

#[test]
fn alu_selects_the_eight_operations() {
    let f = flags(false, false, false, true);
    assert_eq!(alu(0, 1, 2, f).0, 3);
    assert_eq!(alu(1, 1, 2, f).0, 4);
    assert_eq!(alu(2, 5, 2, f).0, 3);
    assert_eq!(alu(3, 5, 2, f).0, 2);
    assert_eq!(alu(4, 0b1100, 0b1010, f), (0b1000, flags(false, false, true, false)));
    assert_eq!(alu(5, 0b1100, 0b1010, f), (0b0110, CLEAR));
    assert_eq!(alu(6, 0b1100, 0b1010, f), (0b1110, CLEAR));
    assert_eq!(alu(5, 0x77, 0x77, f), (0, flags(true, false, false, false)));
    assert_eq!(alu(7, 5, 6, f), (5, flags(false, true, true, true)));
    assert_eq!(alu(7, 5, 5, f), (5, flags(true, true, false, false)));
}

#[test]
fn add_then_sub_restores_a() {
    for a in 0..=255u8 {
        for n in [0u8, 1, 0x0F, 0x10, 0x7F, 0x80, 0xFF] {
            let there = alu(0, a, n, CLEAR);
            let back = alu(2, there.0, n, there.1);
            assert_eq!(back.0, a);
            assert_eq!(back.1, alu_sub(a.wrapping_add(n), n, false).1);
            let down = alu(2, a, n, CLEAR);
            assert_eq!(alu(0, down.0, n, down.1).0, a);
        }
    }
}

#[test]
fn inc_and_dec_keep_the_carry() {
    let f = flags(true, true, true, true);
    assert_eq!(alu_inc(0x0F, f), (0x10, flags(false, false, true, true)));
    assert_eq!(alu_inc(0xFF, CLEAR), (0x00, flags(true, false, true, false)));
    assert_eq!(alu_dec(0x10, f), (0x0F, flags(false, true, true, true)));
    assert_eq!(alu_dec(0x01, CLEAR), (0x00, flags(true, true, false, false)));
    assert_eq!(alu_dec(0x00, CLEAR), (0xFF, flags(false, true, true, false)));
    for x in 0..=255u8 {
        assert_eq!(alu_dec(alu_inc(x, CLEAR).0, CLEAR).0, x);
    }
}

#[test]
fn add16_carries_out_of_bits_11_and_15() {
    let f = flags(true, true, false, false);
    assert_eq!(alu_add16(0x0FFF, 0x0001, f), (0x1000, flags(true, false, true, false)));
    assert_eq!(alu_add16(0xFFFF, 0x0001, f), (0x0000, flags(true, false, true, true)));
    assert_eq!(alu_add16(0x8000, 0x8000, CLEAR), (0x0000, flags(false, false, false, true)));
    assert_eq!(alu_add16(0x1234, 0x1111, CLEAR), (0x2345, CLEAR));
}

#[test]
fn signed_offsets_extend_the_sign() {
    assert_eq!(u8_as_signed_ofs(0x00), 0x0000);
    assert_eq!(u8_as_signed_ofs(0x7F), 0x007F);
    assert_eq!(u8_as_signed_ofs(0x80), 0xFF80);
    assert_eq!(u8_as_signed_ofs(0xFF), 0xFFFF);
}

#[test]
fn add_signed_takes_flags_from_the_low_byte() {
    assert_eq!(alu_add_signed(0xFFF8, 0x08), (0x0000, flags(false, false, true, true)));
    assert_eq!(alu_add_signed(0x0000, 0xFF), (0xFFFF, CLEAR));
    assert_eq!(alu_add_signed(0x0001, 0xFF), (0x0000, flags(false, false, true, true)));
    assert_eq!(alu_add_signed(0x1000, 0x7F), (0x107F, CLEAR));
    assert_eq!(alu_add_signed(0x100F, 0x01), (0x1010, flags(false, false, true, false)));
}

#[test]
fn shifts_and_rotates() {
    assert_eq!(alu_shift(0, 0x85, false), (0x0B, true));
    assert_eq!(alu_shift(1, 0x01, false), (0x80, true));
    assert_eq!(alu_shift(2, 0x80, true), (0x01, true));
    assert_eq!(alu_shift(2, 0x40, false), (0x80, false));
    assert_eq!(alu_shift(3, 0x01, true), (0x80, true));
    assert_eq!(alu_shift(3, 0x02, false), (0x01, false));
    assert_eq!(alu_shift(4, 0xC1, true), (0x82, true));
    assert_eq!(alu_shift(5, 0x81, false), (0xC0, true));
    assert_eq!(alu_shift(5, 0x42, true), (0x21, false));
    assert_eq!(alu_shift(6, 0xA5, true), (0x5A, false));
    assert_eq!(alu_shift(7, 0x81, true), (0x40, true));
}

#[test]
fn rotations_undo_each_other() {
    for x in 0..=255u8 {
        assert_eq!(alu_shift(1, alu_shift(0, x, false).0, false).0, x);
        assert_eq!(alu_shift(0, alu_shift(1, x, false).0, false).0, x);
        assert_eq!(alu_shift(6, alu_shift(6, x, false).0, false).0, x);
        for c in [false, true] {
            let l = alu_shift(2, x, c);
            assert_eq!(alu_shift(3, l.0, l.1), (x, c));
            let r = alu_shift(3, x, c);
            assert_eq!(alu_shift(2, r.0, r.1), (x, c));
        }
    }
}

#[test]
fn daa_after_add_of_decimals() {
    for a in 0..100u8 {
        for n in 0..100u8 {
            let pa = (a / 10) * 16 + a % 10;
            let pn = (n / 10) * 16 + n % 10;
            let sum = alu_add(pa, pn, false);
            let adjusted = alu_daa(sum.0, sum.1);
            let expected = (a as u16 + n as u16) % 100;
            assert_eq!(adjusted.0, ((expected / 10) * 16 + expected % 10) as u8);
            assert_eq!(adjusted.1.c, a as u16 + n as u16 >= 100);
            assert_eq!(adjusted.1.z, adjusted.0 == 0);
            assert!(!adjusted.1.h);
        }
    }
}

#[test]
fn daa_after_sub_of_decimals() {
    for a in 0..100u8 {
        for n in 0..100u8 {
            let pa = (a / 10) * 16 + a % 10;
            let pn = (n / 10) * 16 + n % 10;
            let diff = alu_sub(pa, pn, false);
            let adjusted = alu_daa(diff.0, diff.1);
            let expected = (100 + a as i16 - n as i16) % 100;
            assert_eq!(adjusted.0, ((expected / 10) * 16 + expected % 10) as u8);
            assert_eq!(adjusted.1.z, adjusted.0 == 0);
            assert!(adjusted.1.n);
        }
    }
}

#[test]
fn daa_known_values() {
    assert_eq!(alu_daa(0x7D, CLEAR), (0x83, CLEAR));
    assert_eq!(alu_daa(0x9A, CLEAR), (0x00, flags(true, false, false, true)));
    assert_eq!(alu_daa(0x00, flags(false, false, true, false)), (0x06, CLEAR));
    assert_eq!(alu_daa(0x4B, flags(false, true, true, false)), (0x45, flags(false, true, false, false)));
}

#[test]
fn cpl_and_bit_operations() {
    assert_eq!(alu_cpl(0x35, CLEAR), (0xCA, flags(false, true, true, false)));
    assert_eq!(alu_bit(7, 0x80, CLEAR), flags(false, false, true, false));
    assert_eq!(alu_bit(0, 0x80, flags(false, true, false, true)), flags(true, false, true, true));
    for i in 0..8u8 {
        assert_eq!(alu_res(i, 0xFF), 0xFF & !(1 << i));
        assert_eq!(alu_res(i, 0x00), 0x00);
        assert_eq!(alu_set(i, 0x00), 1 << i);
        assert_eq!(alu_set(i, 0xFF), 0xFF);
    }
}
