use gameboy_core::cpu::{
    cycle, get_cond, get_r16, get_r16mem, get_r16stk, get_r8, set_r16, set_r16mem, set_r16stk,
    set_r8, try_cycle, Flags, Store, CPU,
};
use gameboy_core::decode::execute;
use gameboy_core::GB;

fn rom_with(code: &[u8]) -> Vec<u8> {
    let mut image = vec![0u8; 0x8000];
    image[0x100..0x100 + code.len()].copy_from_slice(code);
    image
}

/// A console past the boot program, with `code` at `0100`.
fn booted(code: &[u8]) -> GB {
    let mut gb = GB::new();
    assert!(gb.bus.cart.load_rom(&rom_with(code)).is_ok());
    gb.bus.io.hide_boot_rom = true;
    gb.cpu.pc = 0x0100;
    gb.cpu.sp = 0xFFFE;
    gb
}

fn run(gb: &mut GB, steps: usize) -> u64 {
    let mut total = 0;
    for _ in 0..steps {
        total += cycle(gb);
    }
    total
}

#[test]
fn register_pairs_are_big_endian() {
    let mut cpu = CPU::new();
    cpu.b = 0x12;
    cpu.c = 0x34;
    cpu.d = 0x56;
    cpu.e = 0x78;
    cpu.set_hl(0x9ABC);
    assert_eq!(cpu.get_bc(), 0x1234);
    assert_eq!(cpu.get_de(), 0x5678);
    assert_eq!(cpu.get_hl(), 0x9ABC);
    assert_eq!((cpu.h, cpu.l), (0x9A, 0xBC));
}

#[test]
fn r8_operands_select_registers_and_memory() {
    let mut gb = booted(&[]);
    gb.cpu.set_hl(0xC000);
    gb.bus.poke(0xC000, 0x99);
    gb.cpu.a = 7;
    gb.cpu.b = 1;
    gb.cpu.l = 0;
    let expect = [1u8, 0, 0, 0, 0xC0, 0, 0x99, 7];
    for r in 0..8u8 {
        let got = get_r8(&gb.cpu, &gb.bus, r);
        assert_eq!(got, (expect[r as usize], if r == 6 { 1 } else { 0 }));
    }
    let mut cpu = gb.cpu;
    assert_eq!(set_r8(&mut cpu, 3, 0x55), (Store::Skip, 0));
    assert_eq!(cpu.e, 0x55);
    assert_eq!(set_r8(&mut cpu, 6, 0x66), (Store::Byte(0xC000, 0x66), 1));
    assert_eq!(set_r8(&mut cpu, 7, 0x77), (Store::Skip, 0));
    assert_eq!(cpu.a, 0x77);
}

#[test]
fn r16_operands() {
    let mut cpu = CPU::new();
    for r in 0..4u8 {
        set_r16(&mut cpu, r, 0x1000 + r as u16);
    }
    assert_eq!((cpu.b, cpu.c, cpu.d, cpu.e, cpu.h, cpu.l, cpu.sp), (0x10, 0, 0x10, 1, 0x10, 2, 0x1003));
    for r in 0..4u8 {
        assert_eq!(get_r16(&cpu, r), 0x1000 + r as u16);
    }
}

#[test]
fn r16mem_operands_step_hl() {
    let mut gb = booted(&[]);
    gb.bus.poke(0xC000, 0x11);
    gb.bus.poke(0xC001, 0x22);
    gb.cpu.set_hl(0xC000);
    get_r16mem(&mut gb.cpu, &gb.bus, 2);
    assert_eq!((gb.cpu.a, gb.cpu.get_hl()), (0x11, 0xC001));
    get_r16mem(&mut gb.cpu, &gb.bus, 3);
    assert_eq!((gb.cpu.a, gb.cpu.get_hl()), (0x22, 0xC000));
    gb.cpu.b = 0xC0;
    gb.cpu.c = 0x01;
    get_r16mem(&mut gb.cpu, &gb.bus, 0);
    assert_eq!((gb.cpu.a, gb.cpu.get_hl()), (0x22, 0xC000));
    gb.cpu.a = 0x5A;
    assert_eq!(set_r16mem(&mut gb.cpu, 2), Store::Byte(0xC000, 0x5A));
    assert_eq!(gb.cpu.get_hl(), 0xC001);
    gb.cpu.set_hl(0x0000);
    assert_eq!(set_r16mem(&mut gb.cpu, 3), Store::Byte(0x0000, 0x5A));
    assert_eq!(gb.cpu.get_hl(), 0xFFFF);
    gb.cpu.d = 0xD0;
    gb.cpu.e = 0x00;
    assert_eq!(set_r16mem(&mut gb.cpu, 1), Store::Byte(0xD000, 0x5A));
}

#[test]
fn af_packs_the_flags_in_the_high_nibble() {
    let mut cpu = CPU::new();
    cpu.a = 0x12;
    cpu.f = Flags { z: true, n: false, h: true, c: true };
    assert_eq!(get_r16stk(&cpu, 3), 0x12B0);
    set_r16stk(&mut cpu, 3, 0x34FF);
    assert_eq!(cpu.a, 0x34);
    assert_eq!(cpu.f, Flags { z: true, n: true, h: true, c: true });
    assert_eq!(get_r16stk(&cpu, 3), 0x34F0);
    set_r16stk(&mut cpu, 3, 0x000F);
    assert_eq!(cpu.f, Flags { z: false, n: false, h: false, c: false });
    set_r16stk(&mut cpu, 0, 0xBEEF);
    assert_eq!(get_r16stk(&cpu, 0), 0xBEEF);
}

#[test]
fn conditions_follow_the_flags() {
    let f = Flags { z: true, n: false, h: false, c: false };
    assert_eq!(
        [get_cond(&f, 0), get_cond(&f, 1), get_cond(&f, 2), get_cond(&f, 3)],
        [false, true, true, false]
    );
}

#[test]
fn load_nop_halt() {
    let mut gb = booted(&[0x3E, 0x42, 0x00, 0x76]);
    assert_eq!(run(&mut gb, 2), 3);
    assert_eq!(gb.cpu.a, 0x42);
    assert!(!gb.cpu.halt);
    assert_eq!(cycle(&mut gb), 1);
    assert!(gb.cpu.halt);
    assert_eq!(gb.cpu.pc, 0x0104);
    assert_eq!(run(&mut gb, 10), 10);
    assert!(gb.cpu.halt);
    assert_eq!(gb.cpu.pc, 0x0104);
    assert_eq!(gb.cpu.a, 0x42);
}

#[test]
fn boot_program_hands_over_at_0100() {
    let mut gb = GB::new();
    assert!(gb.bus.cart.load_rom(&rom_with(&[0x3E, 0x42, 0x00, 0x76])).is_ok());
    let mut steps = 0;
    while gb.cpu.pc != 0x0100 {
        cycle(&mut gb);
        steps += 1;
        assert!(steps < 1000);
    }
    assert!(gb.bus.io.hide_boot_rom);
    assert_eq!(gb.cpu.sp, 0xFFFE);
    assert_eq!(gb.bus.io.lcdc, 0x91);
    assert_eq!(run(&mut gb, 2), 3);
    assert_eq!(gb.cpu.a, 0x42);
    cycle(&mut gb);
    assert!(gb.cpu.halt);
}

#[test]
fn halt_wakes_on_enabled_interrupt_without_ime() {
    let mut gb = booted(&[0x76, 0x3C, 0x3C]);
    cycle(&mut gb);
    assert!(gb.cpu.halt);
    gb.bus.io.interrupt = 0x04;
    assert_eq!(cycle(&mut gb), 1);
    assert!(gb.cpu.halt);
    gb.bus.io.ie = 0x04;
    assert_eq!(cycle(&mut gb), 1);
    assert!(!gb.cpu.halt);
    assert_eq!(gb.cpu.a, 1);
    assert_eq!(gb.cpu.pc, 0x0102);
    assert_eq!(gb.bus.io.interrupt, 0x04);
}

#[test]
fn interrupt_service_pushes_pc_and_jumps() {
    let mut gb = booted(&[0x00, 0x00]);
    gb.cpu.ime = true;
    gb.bus.io.ie = 0x1F;
    gb.bus.io.interrupt = 0x14;
    assert_eq!(cycle(&mut gb), 5);
    assert_eq!(gb.cpu.pc, 0x0050);
    assert_eq!(gb.cpu.sp, 0xFFFC);
    assert_eq!(gb.bus.peek16(0xFFFC), 0x0100);
    assert!(!gb.cpu.ime);
    assert_eq!(gb.bus.io.interrupt, 0x10);
}

#[test]
fn interrupt_vectors() {
    for bit in 0..5u8 {
        let mut gb = booted(&[0x00]);
        gb.cpu.ime = true;
        gb.bus.io.ie = 0xFF;
        gb.bus.io.interrupt = 0xE0 | (1 << bit);
        assert_eq!(cycle(&mut gb), 5);
        assert_eq!(gb.cpu.pc, 0x40 + 8 * bit as u16);
        assert_eq!(gb.bus.io.interrupt, 0xE0);
    }
    let mut gb = booted(&[0x00]);
    gb.cpu.ime = true;
    gb.bus.io.ie = 0xFF;
    gb.bus.io.interrupt = 0xE0;
    assert_eq!(cycle(&mut gb), 1);
    assert_eq!(gb.cpu.pc, 0x0101);
}

#[test]
fn ei_takes_effect_after_the_next_instruction() {
    let mut gb = booted(&[0xFB, 0x3C, 0x3C]);
    gb.bus.io.ie = 0x01;
    gb.bus.io.interrupt = 0x01;
    assert_eq!(cycle(&mut gb), 1);
    assert!(!gb.cpu.ime);
    assert!(gb.cpu.ime_soon);
    assert_eq!(cycle(&mut gb), 1);
    assert_eq!(gb.cpu.a, 1);
    assert_eq!(gb.cpu.pc, 0x0102);
    assert!(gb.cpu.ime);
    assert!(!gb.cpu.ime_soon);
    assert_eq!(cycle(&mut gb), 5);
    assert_eq!(gb.cpu.pc, 0x0040);
    assert_eq!(gb.cpu.a, 1);
    assert_eq!(gb.bus.peek16(gb.cpu.sp), 0x0102);
}

#[test]
fn di_cancels_a_pending_ei() {
    let mut gb = booted(&[0xFB, 0xF3, 0x00]);
    run(&mut gb, 2);
    assert!(!gb.cpu.ime);
    assert!(!gb.cpu.ime_soon);
    cycle(&mut gb);
    assert!(!gb.cpu.ime);
}

#[test]
fn reti_enables_interrupts_at_once() {
    let mut gb = booted(&[0xD9]);
    gb.cpu.sp = 0xC000;
    gb.bus.poke16(0xC000, 0x0234);
    assert_eq!(cycle(&mut gb), 4);
    assert_eq!(gb.cpu.pc, 0x0234);
    assert_eq!(gb.cpu.sp, 0xC002);
    assert!(gb.cpu.ime);
}

#[test]
fn push_then_pop_restores_each_pair() {
    for r in 0..4u8 {
        let mut gb = booted(&[0xC5 | (r << 4), 0xC1 | (r << 4)]);
        gb.cpu.a = 0x12;
        gb.cpu.f = Flags { z: true, n: false, h: true, c: false };
        gb.cpu.b = 0x34;
        gb.cpu.c = 0x56;
        gb.cpu.d = 0x78;
        gb.cpu.e = 0x9A;
        gb.cpu.h = 0xBC;
        gb.cpu.l = 0xDE;
        let before = gb.cpu;
        assert_eq!(cycle(&mut gb), 4);
        assert_eq!(gb.cpu.sp, 0xFFFC);
        assert_eq!(cycle(&mut gb), 3);
        let mut expected = before;
        expected.pc = 0x0102;
        assert_eq!(gb.cpu, expected);
    }
}

#[test]
fn conditional_jumps_follow_z() {
    let mut gb = booted(&[0xC2, 0x00, 0x02]);
    gb.cpu.f.z = true;
    assert_eq!(cycle(&mut gb), 3);
    assert_eq!(gb.cpu.pc, 0x0103);
    let mut gb = booted(&[0xC2, 0x00, 0x02]);
    gb.cpu.f.z = false;
    assert_eq!(cycle(&mut gb), 4);
    assert_eq!(gb.cpu.pc, 0x0200);
    let mut gb = booted(&[0xCA, 0x00, 0x02]);
    gb.cpu.f.z = true;
    assert_eq!(cycle(&mut gb), 4);
    assert_eq!(gb.cpu.pc, 0x0200);
}

#[test]
fn relative_jumps() {
    let mut gb = booted(&[0x18, 0xFE]);
    assert_eq!(cycle(&mut gb), 3);
    assert_eq!(gb.cpu.pc, 0x0100);
    let mut gb = booted(&[0x20, 0x05]);
    gb.cpu.f.z = false;
    assert_eq!(cycle(&mut gb), 3);
    assert_eq!(gb.cpu.pc, 0x0107);
    let mut gb = booted(&[0x20, 0x05]);
    gb.cpu.f.z = true;
    assert_eq!(cycle(&mut gb), 2);
    assert_eq!(gb.cpu.pc, 0x0102);
    let mut gb = booted(&[0x38, 0x80]);
    gb.cpu.f.c = true;
    assert_eq!(cycle(&mut gb), 3);
    assert_eq!(gb.cpu.pc, 0x0082);
}

#[test]
fn call_and_ret() {
    let mut gb = booted(&[0xCD, 0x10, 0x01]);
    gb.bus.cart.rom[0][0x110] = 0xC9;
    assert_eq!(cycle(&mut gb), 6);
    assert_eq!(gb.cpu.pc, 0x0110);
    assert_eq!(gb.cpu.sp, 0xFFFC);
    assert_eq!(gb.bus.peek16(0xFFFC), 0x0103);
    assert_eq!(cycle(&mut gb), 4);
    assert_eq!(gb.cpu.pc, 0x0103);
    assert_eq!(gb.cpu.sp, 0xFFFE);
}

#[test]
fn conditional_call_and_return_timing() {
    let mut gb = booted(&[0xDC, 0x00, 0x02]);
    assert_eq!(cycle(&mut gb), 3);
    assert_eq!(gb.cpu.pc, 0x0103);
    let mut gb = booted(&[0xDC, 0x00, 0x02]);
    gb.cpu.f.c = true;
    assert_eq!(cycle(&mut gb), 6);
    assert_eq!(gb.cpu.pc, 0x0200);
    let mut gb = booted(&[0xC8]);
    assert_eq!(cycle(&mut gb), 2);
    assert_eq!(gb.cpu.pc, 0x0101);
    let mut gb = booted(&[0xC8]);
    gb.cpu.f.z = true;
    gb.cpu.sp = 0xC000;
    gb.bus.poke16(0xC000, 0x4321);
    assert_eq!(cycle(&mut gb), 5);
    assert_eq!(gb.cpu.pc, 0x4321);
}

#[test]
fn rst_pushes_the_next_address() {
    for n in 0..8u8 {
        let mut gb = booted(&[0xC7 | (n << 3)]);
        assert_eq!(cycle(&mut gb), 4);
        assert_eq!(gb.cpu.pc, 8 * n as u16);
        assert_eq!(gb.bus.peek16(gb.cpu.sp), 0x0101);
    }
}

#[test]
fn memory_operands_cost_an_extra_cycle() {
    let mut gb = booted(&[0x34, 0x35, 0x36, 0x7B, 0x46, 0x70, 0x86, 0x80, 0xCB, 0x46, 0xCB, 0x86, 0xCB, 0x40]);
    gb.cpu.set_hl(0xC000);
    gb.bus.poke(0xC000, 0x0F);
    assert_eq!(cycle(&mut gb), 3);
    assert_eq!(gb.bus.peek(0xC000), 0x10);
    assert!(gb.cpu.f.h);
    assert_eq!(cycle(&mut gb), 3);
    assert_eq!(gb.bus.peek(0xC000), 0x0F);
    assert_eq!(cycle(&mut gb), 3);
    assert_eq!(gb.bus.peek(0xC000), 0x7B);
    assert_eq!(cycle(&mut gb), 2);
    assert_eq!(gb.cpu.b, 0x7B);
    assert_eq!(cycle(&mut gb), 2);
    assert_eq!(cycle(&mut gb), 2);
    assert_eq!(cycle(&mut gb), 1);
    assert_eq!(cycle(&mut gb), 3);
    assert_eq!(cycle(&mut gb), 4);
    assert_eq!(gb.bus.peek(0xC000), 0x7A);
    assert_eq!(cycle(&mut gb), 2);
}

#[test]
fn sixteen_bit_loads_and_arithmetic() {
    let mut gb = booted(&[0x01, 0x34, 0x12, 0x21, 0xFF, 0x0F, 0x09, 0x03, 0x0B, 0x0B, 0x08, 0x00, 0xC0]);
    assert_eq!(cycle(&mut gb), 3);
    assert_eq!(gb.cpu.get_bc(), 0x1234);
    assert_eq!(cycle(&mut gb), 3);
    assert_eq!(cycle(&mut gb), 2);
    assert_eq!(gb.cpu.get_hl(), 0x2233);
    assert!(gb.cpu.f.h);
    assert!(!gb.cpu.f.c);
    assert_eq!(cycle(&mut gb), 2);
    assert_eq!(gb.cpu.get_bc(), 0x1235);
    run(&mut gb, 2);
    assert_eq!(gb.cpu.get_bc(), 0x1233);
    assert_eq!(cycle(&mut gb), 5);
    assert_eq!(gb.bus.peek16(0xC000), 0xFFFE);
}

#[test]
fn high_page_loads_and_stores() {
    let mut gb = booted(&[0xE0, 0x80, 0xF0, 0x80, 0xE2, 0xF2, 0xEA, 0x00, 0xC0, 0xFA, 0x00, 0xC0]);
    gb.cpu.a = 0x5A;
    assert_eq!(cycle(&mut gb), 3);
    assert_eq!(gb.bus.peek(0xFF80), 0x5A);
    gb.cpu.a = 0;
    assert_eq!(cycle(&mut gb), 3);
    assert_eq!(gb.cpu.a, 0x5A);
    gb.cpu.c = 0x81;
    assert_eq!(cycle(&mut gb), 2);
    assert_eq!(gb.bus.peek(0xFF81), 0x5A);
    gb.cpu.a = 1;
    assert_eq!(cycle(&mut gb), 2);
    assert_eq!(gb.cpu.a, 0x5A);
    assert_eq!(cycle(&mut gb), 4);
    assert_eq!(gb.bus.peek(0xC000), 0x5A);
    gb.cpu.a = 2;
    assert_eq!(cycle(&mut gb), 4);
    assert_eq!(gb.cpu.a, 0x5A);
}

#[test]
fn stack_pointer_arithmetic() {
    let mut gb = booted(&[0xE8, 0xFE, 0xF8, 0x02, 0xF9, 0xE9]);
    gb.cpu.sp = 0xC000;
    assert_eq!(cycle(&mut gb), 4);
    assert_eq!(gb.cpu.sp, 0xBFFE);
    assert_eq!(cycle(&mut gb), 3);
    assert_eq!(gb.cpu.get_hl(), 0xC000);
    assert!(gb.cpu.f.h && gb.cpu.f.c && !gb.cpu.f.z);
    gb.cpu.set_hl(0x0105);
    assert_eq!(cycle(&mut gb), 2);
    assert_eq!(gb.cpu.sp, 0x0105);
    assert_eq!(cycle(&mut gb), 1);
    assert_eq!(gb.cpu.pc, 0x0105);
}

#[test]
fn accumulator_rotates_clear_z() {
    let mut gb = booted(&[0x07, 0x0F, 0x17, 0x1F, 0x2F, 0x37, 0x3F, 0x27]);
    gb.cpu.a = 0x80;
    gb.cpu.f.z = true;
    cycle(&mut gb);
    assert_eq!(gb.cpu.a, 0x01);
    assert_eq!(gb.cpu.f, Flags { z: false, n: false, h: false, c: true });
    cycle(&mut gb);
    assert_eq!(gb.cpu.a, 0x80);
    assert!(gb.cpu.f.c);
    cycle(&mut gb);
    assert_eq!(gb.cpu.a, 0x01);
    assert!(gb.cpu.f.c);
    cycle(&mut gb);
    assert_eq!(gb.cpu.a, 0x80);
    assert!(gb.cpu.f.c);
    cycle(&mut gb);
    assert_eq!(gb.cpu.a, 0x7F);
    assert!(gb.cpu.f.n && gb.cpu.f.h);
    cycle(&mut gb);
    assert_eq!(gb.cpu.f, Flags { z: false, n: false, h: false, c: true });
    cycle(&mut gb);
    assert!(!gb.cpu.f.c);
    gb.cpu.a = 0x3C;
    assert_eq!(cycle(&mut gb), 1);
    assert_eq!(gb.cpu.a, 0x42);
}

#[test]
fn add_then_sub_immediate_restores_a() {
    let mut gb = booted(&[0xC6, 0x9C, 0xD6, 0x9C]);
    gb.cpu.a = 0x77;
    assert_eq!(run(&mut gb, 2), 4);
    assert_eq!(gb.cpu.a, 0x77);
    assert_eq!(gb.cpu.f, Flags { z: false, n: true, h: true, c: true });
}

#[test]
fn stop_halts_and_carries_out_an_armed_switch() {
    let mut gb = booted(&[0x10, 0x00]);
    gb.bus.io.speed_switch = 0x01;
    assert_eq!(cycle(&mut gb), 1);
    assert!(gb.cpu.halt);
    assert_eq!(gb.cpu.pc, 0x0102);
    assert_eq!(gb.bus.io.speed_switch, 0x80);
    let mut gb = booted(&[0x10, 0x00]);
    gb.bus.io.speed_switch = 0x80;
    cycle(&mut gb);
    assert_eq!(gb.bus.io.speed_switch, 0x80);
}

#[test]
fn unknown_opcodes_are_refused() {
    for op in [0xD3u8, 0xDB, 0xDD, 0xE3, 0xE4, 0xEB, 0xEC, 0xED, 0xF4, 0xFC, 0xFD] {
        let mut gb = booted(&[op]);
        let before = gb.cpu;
        assert_eq!(try_cycle(&mut gb), None);
        assert_eq!(gb.cpu, before);
        assert!(!execute(gb.cpu, &gb.bus, op, 0, 0).legal);
    }
}

#[test]
fn every_other_opcode_is_legal_and_takes_one_to_six_cycles() {
    let illegal = [0xD3u8, 0xDB, 0xDD, 0xE3, 0xE4, 0xEB, 0xEC, 0xED, 0xF4, 0xFC, 0xFD];
    for op in 0..=255u8 {
        if illegal.contains(&op) {
            continue;
        }
        let mut gb = booted(&[op, 0x00, 0xC0]);
        gb.cpu.sp = 0xD000;
        gb.cpu.set_hl(0xC100);
        gb.cpu.b = 0xC2;
        gb.cpu.d = 0xC3;
        let m = try_cycle(&mut gb).unwrap();
        assert!((1..=6).contains(&m), "opcode {op:02x} took {m}");
    }
}

#[test]
fn writes_to_the_mapped_boot_rom_are_refused() {
    let mut gb = GB::new();
    assert!(gb.bus.cart.load_rom(&rom_with(&[0x77])).is_ok());
    gb.cpu.pc = 0x0100;
    gb.cpu.set_hl(0x0010);
    assert_eq!(try_cycle(&mut gb), None);
    assert_eq!(gb.cpu.pc, 0x0100);
    gb.bus.io.hide_boot_rom = true;
    assert_eq!(try_cycle(&mut gb), Some(2));
    gb.bus.io.hide_boot_rom = false;
    gb.cpu.pc = 0x0100;
    gb.cpu.set_hl(0x0100);
    assert_eq!(try_cycle(&mut gb), Some(2));
    gb.cpu.pc = 0x0100;
    gb.cpu.sp = 0x0001;
    gb.cpu.ime = true;
    gb.bus.io.ie = 1;
    gb.bus.io.interrupt = 1;
    assert_eq!(try_cycle(&mut gb), None);
    assert!(gb.cpu.ime);
    assert_eq!(gb.bus.io.interrupt, 1);
}

#[test]
fn pc_wraps_at_the_top_of_memory() {
    let mut gb = booted(&[]);
    gb.cpu.pc = 0xFFFF;
    gb.bus.poke(0xFFFF, 0x00);
    assert_eq!(cycle(&mut gb), 1);
    assert_eq!(gb.cpu.pc, 0x0000);
}

#[test]
fn prefixed_instructions() {
    let mut gb = booted(&[0xCB, 0x37, 0xCB, 0x7F, 0xCB, 0xC0, 0xCB, 0x80, 0xCB, 0x11]);
    gb.cpu.a = 0xF0;
    assert_eq!(cycle(&mut gb), 2);
    assert_eq!(gb.cpu.a, 0x0F);
    assert_eq!(cycle(&mut gb), 2);
    assert!(gb.cpu.f.z && gb.cpu.f.h && !gb.cpu.f.n);
    cycle(&mut gb);
    assert_eq!(gb.cpu.b, 0x01);
    cycle(&mut gb);
    assert_eq!(gb.cpu.b, 0x00);
    gb.cpu.c = 0x80;
    gb.cpu.f.c = true;
    cycle(&mut gb);
    assert_eq!(gb.cpu.c, 0x01);
    assert!(gb.cpu.f.c);
    assert_eq!(gb.cpu.pc, 0x010A);
}
