use gameboy_core::bus::Bus;
use gameboy_core::views::{
    bg_map, draw_tile, mem_dump, reverse_bits, tile_dump, vram_dump, window_map,
};

fn px(img: &[u8], width: usize, x: usize, y: usize) -> (u8, u8, u8) {
    let i = 3 * (x + width * y);
    (img[i], img[i + 1], img[i + 2])
}

fn grey(c: u8) -> (u8, u8, u8) {
    (c, c, c)
}

fn bus_with_tiles() -> Bus {
    let mut bus = Bus::new();
    bus.io.hide_boot_rom = true;
    bus.io.lcdc = 0x91;
    bus.io.bgp = 0xE4;
    // tile 1: top row colour 3, left column colour 1
    bus.vram[0][16] = 0xFF;
    bus.vram[0][17] = 0xFF;
    for row in 1..8 {
        bus.vram[0][16 + 2 * row] = 0x80;
    }
    bus
}

#[test]
fn draw_tile_paints_64_pixels() {
    let bus = bus_with_tiles();
    let mut img = vec![7u8; 3 * 16 * 16];
    draw_tile(1, &mut img, 4 + 16 * 2, 16, &bus.vram[0], 0xE4, false);
    assert_eq!(px(&img, 16, 4, 2), grey(0x00));
    assert_eq!(px(&img, 16, 11, 2), grey(0x00));
    assert_eq!(px(&img, 16, 4, 3), grey(0xAA));
    assert_eq!(px(&img, 16, 5, 3), grey(0xFF));
    assert_eq!(px(&img, 16, 11, 9), grey(0xFF));
    assert_eq!(px(&img, 16, 3, 2), grey(7));
    assert_eq!(px(&img, 16, 12, 2), grey(7));
    assert_eq!(px(&img, 16, 4, 1), grey(7));
    assert_eq!(px(&img, 16, 4, 10), grey(7));
    assert_eq!(img.iter().filter(|b| **b != 7).count(), 3 * 64);
}

#[test]
fn draw_tile_can_leave_colour_0_alone() {
    let bus = bus_with_tiles();
    let mut img = vec![7u8; 3 * 8 * 8];
    draw_tile(1, &mut img, 0, 8, &bus.vram[0], 0xE4, true);
    assert_eq!(px(&img, 8, 0, 0), grey(0x00));
    assert_eq!(px(&img, 8, 0, 1), grey(0xAA));
    assert_eq!(px(&img, 8, 1, 1), grey(7));
    assert_eq!(img.iter().filter(|b| **b != 7).count(), 3 * (8 + 7));
}

#[test]
fn bg_map_and_window_map_read_their_own_maps() {
    let mut bus = bus_with_tiles();
    bus.vram[0][0x1800 + 2 + 3 * 32] = 1;
    bus.vram[0][0x1C00 + 31 + 31 * 32] = 1;
    let bg = bg_map(&bus);
    assert_eq!(bg.len(), 3 * 256 * 256);
    assert_eq!(px(&bg, 256, 16, 24), grey(0x00));
    assert_eq!(px(&bg, 256, 16, 25), grey(0xAA));
    assert_eq!(px(&bg, 256, 17, 25), grey(0xFF));
    assert_eq!(px(&bg, 256, 248, 248), grey(0xFF));
    let win = window_map(&bus);
    assert_eq!(win.len(), 3 * 256 * 256);
    assert_eq!(px(&win, 256, 248, 248), grey(0x00));
    assert_eq!(px(&win, 256, 255, 248), grey(0x00));
    assert_eq!(px(&win, 256, 255, 255), grey(0xFF));
    assert_eq!(px(&win, 256, 16, 24), grey(0xFF));
}

#[test]
fn maps_follow_the_tile_block_bit() {
    let mut bus = bus_with_tiles();
    bus.vram[0][0x1000] = 0x80;
    bus.vram[0][0x1001] = 0x80;
    assert_eq!(px(&bg_map(&bus), 256, 0, 0), grey(0xFF));
    bus.io.lcdc = 0x81;
    assert_eq!(px(&bg_map(&bus), 256, 0, 0), grey(0x00));
    bus.io.bgp = 0x1B;
    assert_eq!(px(&bg_map(&bus), 256, 0, 0), grey(0xFF));
}

#[test]
fn tile_dump_lays_out_sixteen_tiles_a_row() {
    let mut bus = bus_with_tiles();
    bus.vram[0][16 * 383 + 14] = 0x01;
    bus.vram[0][16 * 383 + 15] = 0x01;
    bus.vram[0][16 * 16] = 0x80;
    bus.io.bgp = 0x00;
    let img = tile_dump(&bus);
    assert_eq!(img.len(), 3 * 128 * 192);
    assert_eq!(px(&img, 128, 8, 0), grey(0x00));
    assert_eq!(px(&img, 128, 8, 1), grey(0xAA));
    assert_eq!(px(&img, 128, 0, 0), grey(0xFF));
    assert_eq!(px(&img, 128, 0, 8), grey(0xAA));
    assert_eq!(px(&img, 128, 127, 191), grey(0x00));
    assert_eq!(px(&img, 128, 126, 191), grey(0xFF));
}

#[test]
fn vram_dump_is_grey_per_byte() {
    let mut bus = bus_with_tiles();
    bus.vram[0][0x1FFF] = 0x42;
    bus.vram[1][0] = 0x99;
    let img = vram_dump(&bus);
    assert_eq!(img.len(), 3 * 0x2000);
    assert_eq!(px(&img, 32, 16, 0), grey(0xFF));
    assert_eq!(px(&img, 32, 0, 0), grey(0x00));
    assert_eq!(px(&img, 32, 31, 255), grey(0x42));
}

#[test]
fn reverse_bits_turns_a_byte_round() {
    for x in 0..=255u8 {
        assert_eq!(reverse_bits(x), x.reverse_bits());
    }
}

#[test]
fn mem_dump_skips_echo_and_registers() {
    let mut bus = bus_with_tiles();
    bus.poke(0xC000, 0x01);
    bus.poke(0xFF80, 0xF0);
    bus.poke(0xFFFF, 0xAA);
    bus.poke(0xFF42, 0x55);
    let img = mem_dump(&bus);
    assert_eq!(img.len(), 3 * 0x10000);
    assert_eq!(px(&img, 256, 0x00, 0xC0), grey(0x80));
    assert_eq!(px(&img, 256, 0x80, 0xFF), grey(0x0F));
    assert_eq!(px(&img, 256, 0x00, 0xE0), grey(0x80));
    assert_eq!(px(&img, 256, 0xFF, 0xFD), grey(0x80));
    assert_eq!(px(&img, 256, 0x00, 0xFE), grey(0x00));
    assert_eq!(px(&img, 256, 0x42, 0xFF), grey(0x80));
    assert_eq!(px(&img, 256, 0xFF, 0xFF), grey(0x80));
    assert_eq!(px(&img, 256, 0x10, 0x80), grey(0xFF));
    assert_eq!(px(&img, 256, 0x00, 0x00), grey(0xFF));
}
