use gameboy_core::clock::{ppu_dot, slow_down, Event, Scheduler, DOTS_PER_FRAME};
use gameboy_core::GB;

fn rom_with(code: &[u8]) -> Vec<u8> {
    let mut image = vec![0u8; 0x8000];
    image[0x100..0x100 + code.len()].copy_from_slice(code);
    image
}

fn booted(code: &[u8]) -> GB {
    let mut gb = GB::new();
    assert!(gb.bus.cart.load_rom(&rom_with(code)).is_ok());
    gb.bus.io.hide_boot_rom = true;
    gb.bus.io.lcdc = 0x91;
    gb.bus.io.lyc = 200;
    gb.cpu.pc = 0x0100;
    gb.cpu.sp = 0xFFFE;
    gb
}

#[test]
fn a_frame_is_70224_dots() {
    let mut gb = booted(&[]);
    let mut sprites = vec![];
    let mut dots = 0u64;
    let mut frames = vec![];
    let mut wraps = 0;
    while frames.len() < 3 {
        let before = gb.bus.io.ly;
        dots += 1;
        if ppu_dot(&mut gb, &mut sprites) {
            frames.push(dots);
            assert_eq!(gb.bus.io.ly, 144);
            assert_eq!(gb.bus.io.interrupt & 1, 1);
        }
        if before == 153 && gb.bus.io.ly == 0 {
            wraps += 1;
        }
    }
    assert_eq!(frames[0], 144 * 456);
    assert_eq!(frames[1] - frames[0], 70224);
    assert_eq!(frames[2] - frames[1], DOTS_PER_FRAME);
    assert_eq!(wraps, 2);
}

#[test]
fn lyc_match_fires_once_per_frame() {
    let mut gb = booted(&[]);
    gb.bus.io.lyc = 40;
    gb.cpu.halt = true;
    let mut sprites = vec![];
    let mut fired = vec![];
    for dot in 1..=3 * 70224u64 {
        gb.bus.io.interrupt = 0;
        ppu_dot(&mut gb, &mut sprites);
        if gb.bus.io.interrupt & 2 != 0 {
            fired.push(dot);
            assert_eq!(gb.bus.io.ly, 40);
            assert_eq!(gb.bus.io.lx, 0);
            assert!(!gb.cpu.halt);
            gb.cpu.halt = true;
        }
    }
    assert_eq!(fired, vec![40 * 456, 40 * 456 + 70224, 40 * 456 + 2 * 70224]);
    gb.bus.io.lyc = 154;
    gb.bus.io.interrupt = 0;
    for _ in 0..70224 {
        ppu_dot(&mut gb, &mut sprites);
    }
    assert_eq!(gb.bus.io.interrupt & 2, 0);
    assert!(gb.cpu.halt);
}

#[test]
fn lcd_off_keeps_the_beam_still() {
    let mut gb = booted(&[]);
    gb.bus.io.lcdc = 0x11;
    let mut sprites = vec![];
    for _ in 0..1000 {
        assert!(!ppu_dot(&mut gb, &mut sprites));
    }
    assert_eq!((gb.bus.io.lx, gb.bus.io.ly), (0, 0));
    assert!(gb.framebuffer.iter().all(|b| *b == 30));
}

#[test]
fn sprites_are_chosen_at_dot_80() {
    let mut gb = booted(&[]);
    gb.bus.oam[0] = 16;
    gb.bus.oam[1] = 8;
    let mut sprites = vec![];
    for _ in 0..80 {
        ppu_dot(&mut gb, &mut sprites);
    }
    assert_eq!(sprites.len(), 0);
    ppu_dot(&mut gb, &mut sprites);
    assert_eq!(sprites.len(), 1);
    gb.bus.oam[0] = 0;
    for _ in 0..375 {
        ppu_dot(&mut gb, &mut sprites);
    }
    assert_eq!((gb.bus.io.lx, gb.bus.io.ly), (0, 1));
    assert_eq!(sprites.len(), 1);
    for _ in 0..81 {
        ppu_dot(&mut gb, &mut sprites);
    }
    assert_eq!(sprites.len(), 0);
}

#[test]
fn scheduler_alternates_cpu_and_dots() {
    let mut s = Scheduler::new(booted(&[0x00, 0x3E, 0x42, 0x18, 0xFE]));
    assert_eq!(s.step(), Event::Dot);
    assert_eq!((s.dots, s.dots_cpu), (1, 0));
    assert_eq!(s.step(), Event::Cpu(1));
    assert_eq!((s.dots, s.dots_cpu), (1, 4));
    for _ in 0..4 {
        assert_eq!(s.step(), Event::Dot);
    }
    assert_eq!(s.step(), Event::Cpu(2));
    assert_eq!((s.dots, s.dots_cpu), (5, 12));
    assert_eq!(s.gb.cpu.a, 0x42);
    assert_eq!(s.gb.bus.io.div, 12);
    assert_eq!(s.gb.bus.io.lx, 5);
}

#[test]
fn scheduler_reports_a_frame_at_the_vertical_blank() {
    let mut s = Scheduler::new(booted(&[0x18, 0xFE]));
    let mut frames = vec![];
    let mut cpu_cycles = 0u64;
    while frames.len() < 2 {
        match s.step() {
            Event::Frame => frames.push(s.dots),
            Event::Cpu(m) => cpu_cycles += m,
            Event::Dot => {}
            other => panic!("unexpected {other:?}"),
        }
    }
    assert_eq!(frames, vec![144 * 456, 144 * 456 + 70224]);
    assert!(s.dots_cpu >= s.dots - 1 && s.dots_cpu <= s.dots + 24);
    assert_eq!(s.dots_cpu, 4 * cpu_cycles);
    assert_eq!(s.gb.bus.io.div as u64, (4 * cpu_cycles) % 0x10000);
    assert_eq!(s.apu.queued() as u64, (s.dots - 1) * 48000 / 4194304 + 1);
}

#[test]
fn scheduler_yields_while_the_lcd_is_off() {
    let mut gb = booted(&[0x18, 0xFE]);
    gb.bus.io.lcdc = 0;
    let mut s = Scheduler::new(gb);
    let mut first = None;
    for _ in 0..200_000 {
        if s.step() == Event::Frame {
            first = Some(s.dots);
            break;
        }
    }
    assert_eq!(first, Some(0x10000));
}

#[test]
fn scheduler_refuses_unknown_opcodes() {
    let mut s = Scheduler::new(booted(&[0xD3]));
    assert_eq!(s.step(), Event::Dot);
    assert_eq!(s.step(), Event::Refused);
    assert_eq!(s.step(), Event::Refused);
    assert_eq!((s.dots, s.dots_cpu), (1, 0));
    assert_eq!(s.gb.cpu.pc, 0x0100);
}

#[test]
fn scheduler_stops_at_the_dot_limit() {
    let mut s = Scheduler::new(booted(&[0x18, 0xFE]));
    s.dots = 0xFFFF_FFFF_FFFF_FF00;
    s.dots_cpu = s.dots;
    assert_eq!(s.step(), Event::Expired);
    assert_eq!(s.dots, 0xFFFF_FFFF_FFFF_FF00);
    s.dots -= 1;
    s.dots_cpu = s.dots;
    assert_eq!(s.step(), Event::Dot);
    assert_eq!(s.step(), Event::Expired);
}

#[test]
fn timer_interrupt_wakes_and_is_serviced() {
    let mut gb = booted(&[0x76, 0x00, 0x18, 0xFD]);
    gb.bus.io.lcdc = 0;
    gb.bus.io.set(0xFF07, 0x04);
    gb.bus.io.set(0xFF05, 0xFE);
    gb.bus.io.set(0xFF06, 0x30);
    gb.bus.io.set(0xFFFF, 0x04);
    gb.cpu.ime = true;
    let mut s = Scheduler::new(gb);
    let mut cycles = 0u64;
    loop {
        if let Event::Cpu(m) = s.step() {
            cycles += 4 * m;
            if s.gb.bus.io.interrupt & 4 != 0 {
                break;
            }
        }
        assert!(cycles < 10_000);
    }
    assert_eq!(cycles, 2048);
    assert_eq!(s.gb.bus.peek(0xFF05), 0x30);
    assert!(!s.gb.cpu.halt);
    loop {
        if let Event::Cpu(m) = s.step() {
            assert_eq!(m, 5);
            break;
        }
    }
    assert_eq!(s.gb.cpu.pc, 0x0050);
    assert_eq!(s.gb.bus.io.interrupt & 4, 0);
}

#[test]
fn slow_down_waits_for_the_console_time() {
    assert_eq!(slow_down(0, 0), 0);
    assert_eq!(slow_down(0, 4_194_304), 1_000_000_000);
    assert_eq!(slow_down(400_000_000, 4_194_304), 600_000_000);
    assert_eq!(slow_down(1_000_000_001, 4_194_304), 0);
    assert_eq!(slow_down(0, 1), 238);
    assert_eq!(slow_down(0, u64::MAX), (u64::MAX as u128 * 1_000_000_000) >> 22);
}
