use gameboy_core::bus::{Bus, BOOT_ROM};

fn plain_rom() -> Vec<u8> {
    let mut image = vec![0u8; 0x8000];
    for (i, b) in image.iter_mut().enumerate() {
        *b = (i * 7 + 3) as u8;
    }
    image[0x147] = 0;
    image[0x148] = 0;
    image[0x149] = 0;
    image
}

fn booted_bus() -> Bus {
    let mut bus = Bus::new();
    bus.io.hide_boot_rom = true;
    bus
}

#[test]
fn boot_rom_overlays_the_first_page() {
    let mut bus = Bus::new();
    let image = plain_rom();
    assert!(bus.cart.load_rom(&image).is_ok());
    assert_eq!(bus.peek(0x0000), BOOT_ROM[0]);
    assert_eq!(bus.peek(0x00F5), 0x31);
    assert_eq!(bus.peek(0x00FF), 0x50);
    assert_eq!(bus.peek(0x0100), image[0x100]);
}

#[test]
fn peek_after_unmapping_reads_the_cartridge() {
    let mut bus = Bus::new();
    let image = plain_rom();
    assert!(bus.cart.load_rom(&image).is_ok());
    bus.poke(0xFF50, 0x20);
    assert_eq!(bus.peek(0x0000), BOOT_ROM[0]);
    bus.poke(0xFF50, 0x01);
    assert_eq!(bus.peek(0x0000), image[0]);
    assert_eq!(bus.peek(0x00F5), image[0xF5]);
    bus.poke(0xFF50, 0x00);
    assert_eq!(bus.peek(0x0000), image[0]);
    assert_eq!(bus.peek(0xFF50), 1);
}

#[test]
fn memory_regions_round_trip() {
    let mut bus = booted_bus();
    for (addr, value) in [
        (0x8000u16, 0x11u8),
        (0x9FFF, 0x22),
        (0xC000, 0x33),
        (0xCFFF, 0x44),
        (0xD000, 0x55),
        (0xDFFF, 0x66),
        (0xFE00, 0x77),
        (0xFE9F, 0x88),
        (0xFF80, 0x99),
        (0xFFFE, 0xAA),
        (0xFFFF, 0xBB),
    ] {
        bus.poke(addr, value);
        assert_eq!(bus.peek(addr), value, "at {addr:04x}");
    }
}

#[test]
fn echo_ram_mirrors_work_ram_and_drops_writes() {
    let mut bus = booted_bus();
    bus.poke(0xC123, 0x5A);
    bus.poke(0xD456, 0xA5);
    assert_eq!(bus.peek(0xE123), 0x5A);
    assert_eq!(bus.peek(0xF456), 0xA5);
    bus.poke(0xE123, 0x00);
    assert_eq!(bus.peek(0xC123), 0x5A);
    assert_eq!(bus.peek(0xE123), 0x5A);
}

#[test]
fn unusable_region_reads_zero() {
    let mut bus = booted_bus();
    bus.poke(0xFEA0, 0x12);
    bus.poke(0xFEFF, 0x34);
    assert_eq!(bus.peek(0xFEA0), 0);
    assert_eq!(bus.peek(0xFEFF), 0);
}

#[test]
fn work_ram_bank_zero_selects_bank_one() {
    let mut bus = booted_bus();
    bus.poke(0xD000, 0x01);
    bus.poke(0xFF70, 2);
    assert_eq!(bus.peek(0xD000), 0x00);
    bus.poke(0xD000, 0x02);
    bus.poke(0xFF70, 1);
    assert_eq!(bus.peek(0xD000), 0x01);
    bus.poke(0xFF70, 0);
    assert_eq!(bus.peek(0xD000), 0x01);
    bus.poke(0xFF70, 0xFA);
    assert_eq!(bus.peek(0xD000), 0x02);
    assert_eq!(bus.peek(0xFF70), 0xFA);
    bus.poke(0xC000, 0x0C);
    bus.poke(0xFF70, 7);
    assert_eq!(bus.peek(0xC000), 0x0C);
}

#[test]
fn video_ram_has_two_banks() {
    let mut bus = booted_bus();
    bus.poke(0x8000, 0xAA);
    bus.poke(0xFF4F, 1);
    assert_eq!(bus.peek(0xFF4F), 0xFF);
    assert_eq!(bus.peek(0x8000), 0x00);
    bus.poke(0x8000, 0xBB);
    bus.poke(0xFF4F, 0xFE);
    assert_eq!(bus.peek(0xFF4F), 0xFE);
    assert_eq!(bus.peek(0x8000), 0xAA);
    assert_eq!(bus.vram[1][0], 0xBB);
}

#[test]
fn dma_copies_a_page_into_oam() {
    let mut bus = booted_bus();
    for i in 0..0xA0u16 {
        bus.poke(0xC000 + i, (i as u8) ^ 0x5A);
    }
    bus.poke(0xC0A0, 0xEE);
    bus.poke(0xFF46, 0xC0);
    for i in 0..0xA0usize {
        assert_eq!(bus.oam[i], (i as u8) ^ 0x5A);
        assert_eq!(bus.peek(0xFE00 + i as u16), (i as u8) ^ 0x5A);
    }
}

#[test]
fn dma_from_the_last_page_reads_registers_and_high_ram() {
    let mut bus = booted_bus();
    bus.poke(0xFF42, 0x12);
    bus.poke(0xFF80, 0x34);
    bus.poke(0xFF46, 0xFF);
    assert_eq!(bus.oam[0x42], 0x12);
    assert_eq!(bus.oam[0x80], 0x34);
    assert_eq!(bus.oam[0x9F], bus.peek(0xFF9F));
}

#[test]
fn sixteen_bit_access_is_little_endian() {
    let mut bus = booted_bus();
    bus.poke16(0xC000, 0xBEEF);
    assert_eq!(bus.peek(0xC000), 0xEF);
    assert_eq!(bus.peek(0xC001), 0xBE);
    assert_eq!(bus.peek16(0xC000), 0xBEEF);
}

#[test]
fn sixteen_bit_access_wraps_at_the_top() {
    let mut bus = booted_bus();
    let mut image = vec![0u8; 0x8000];
    image[0] = 0x9C;
    assert!(bus.cart.load_rom(&image).is_ok());
    bus.poke(0xFFFF, 0x1F);
    assert_eq!(bus.peek16(0xFFFF), 0x9C1F);
    bus.poke16(0xFFFF, 0x2211);
    assert_eq!(bus.peek(0xFFFF), 0x11);
    assert_eq!(bus.peek(0x0000), 0x9C);
}
