use gameboy_core::clock::{Event, Scheduler};
use gameboy_core::cpu::cycle;
use gameboy_core::GB;

fn booted(code: &[u8]) -> GB {
    let mut image = vec![0u8; 0x8000];
    image[0x100..0x100 + code.len()].copy_from_slice(code);
    let mut gb = GB::new();
    assert!(gb.bus.cart.load_rom(&image).is_ok());
    gb.bus.io.hide_boot_rom = true;
    gb.cpu.pc = 0x0100;
    gb.cpu.sp = 0xFFFE;
    gb
}

fn run_until_halt(gb: &mut GB, limit: usize) -> u64 {
    let mut total = 0;
    for _ in 0..limit {
        if gb.cpu.halt {
            return total;
        }
        total += cycle(gb);
    }
    panic!("the program did not halt");
}

#[test]
fn a_loop_sums_the_numbers_to_ten() {
    // LD B,10 ; XOR A ; loop: ADD A,B ; DEC B ; JR NZ,loop ; HALT
    let mut gb = booted(&[0x06, 0x0A, 0xAF, 0x80, 0x05, 0x20, 0xFC, 0x76]);
    let cycles = run_until_halt(&mut gb, 100);
    assert_eq!(gb.cpu.a, 55);
    assert_eq!(gb.cpu.b, 0);
    assert!(gb.cpu.f.z);
    assert_eq!(cycles, 2 + 1 + 10 * (1 + 1) + 9 * 3 + 2 + 1);
}

#[test]
fn a_subroutine_fills_memory() {
    // LD HL,C000 ; LD B,8 ; LD A,1 ; loop: CALL put ; DEC B ; JR NZ,loop ; HALT
    // put: LD [HL+],A ; RLCA ; RET
    let mut gb = booted(&[
        0x21, 0x00, 0xC0, 0x06, 0x08, 0x3E, 0x01, 0xCD, 0x10, 0x01, 0x05, 0x20, 0xFA, 0x76, 0x00,
        0x00, 0x22, 0x07, 0xC9,
    ]);
    run_until_halt(&mut gb, 200);
    for i in 0..8u16 {
        assert_eq!(gb.bus.peek(0xC000 + i), 1 << i);
    }
    assert_eq!(gb.cpu.get_hl(), 0xC008);
    assert_eq!(gb.cpu.a, 1);
    assert_eq!(gb.cpu.sp, 0xFFFE);
}

#[test]
fn decimal_counter_counts_to_a_hundred() {
    // XOR A ; LD B,100 ; loop: ADD A,1 ; DAA ; DEC B ; JR NZ,loop ; HALT
    let mut gb = booted(&[0xAF, 0x06, 0x64, 0xC6, 0x01, 0x27, 0x05, 0x20, 0xFA, 0x76]);
    let mut seen = vec![];
    while !gb.cpu.halt {
        let at = gb.cpu.pc;
        cycle(&mut gb);
        if at == 0x0105 {
            seen.push(gb.cpu.a);
        }
    }
    assert_eq!(seen.len(), 100);
    for (i, v) in seen.iter().enumerate() {
        let n = (i + 1) % 100;
        assert_eq!(*v as usize, (n / 10) * 16 + n % 10);
    }
    assert_eq!(gb.cpu.a, 0x00);
}

#[test]
fn stack_and_sixteen_bit_registers_work_together() {
    // LD BC,1234 ; LD DE,5678 ; PUSH BC ; PUSH DE ; POP BC ; POP DE ; LD HL,0 ; ADD HL,BC ; ADD HL,DE ; HALT
    let mut gb = booted(&[
        0x01, 0x34, 0x12, 0x11, 0x78, 0x56, 0xC5, 0xD5, 0xC1, 0xD1, 0x21, 0x00, 0x00, 0x09, 0x19,
        0x76,
    ]);
    run_until_halt(&mut gb, 50);
    assert_eq!(gb.cpu.get_bc(), 0x5678);
    assert_eq!(gb.cpu.get_de(), 0x1234);
    assert_eq!(gb.cpu.get_hl(), 0x68AC);
    assert_eq!(gb.cpu.sp, 0xFFFE);
}

#[test]
fn a_program_draws_through_the_scheduler() {
    // LD A,FF ; LD [8000],A ; LD [8001],A ; LD A,E4 ; LDH [47],A ; LD A,91 ; LDH [40],A ; spin
    let mut gb = booted(&[
        0x3E, 0xFF, 0xEA, 0x00, 0x80, 0xEA, 0x01, 0x80, 0x3E, 0xE4, 0xE0, 0x47, 0x3E, 0x91, 0xE0,
        0x40, 0x18, 0xFE,
    ]);
    gb.bus.io.lyc = 200;
    let mut s = Scheduler::new(gb);
    let mut frames = 0;
    let mut steps = 0u64;
    while frames < 2 {
        match s.step() {
            Event::Frame => frames += 1,
            Event::Refused | Event::Expired => panic!("the console stopped"),
            _ => {}
        }
        steps += 1;
        assert!(steps < 1_000_000);
    }
    let px = |x: usize, y: usize| s.gb.framebuffer[3 * (x + 160 * y)];
    for x in 0..160 {
        assert_eq!(px(x, 0), 0x00, "column {x}");
        assert_eq!(px(x, 1), 0xFF, "column {x}");
        assert_eq!(px(x, 8), 0x00, "column {x}");
        assert_eq!(px(x, 143), 0xFF, "column {x}");
    }
    assert_eq!(s.gb.bus.io.interrupt & 1, 1);
}

#[test]
fn keys_reach_the_program() {
    // LD A,10 ; LDH [00],A ; LDH A,[00] ; HALT
    let mut gb = booted(&[0x3E, 0x10, 0xE0, 0x00, 0xF0, 0x00, 0x76]);
    gb.bus.io.set_key(false, 8, true);
    gb.bus.io.set_key(true, 1, true);
    run_until_halt(&mut gb, 10);
    assert_eq!(gb.cpu.a, 0x17);
}
