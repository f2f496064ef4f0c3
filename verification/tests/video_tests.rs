use gameboy_core::video::{color_dmg, oam_scan, render_dot, Sprite};
use gameboy_core::GB;

fn lcd_console() -> GB {
    let mut gb = GB::new();
    gb.bus.io.hide_boot_rom = true;
    gb.bus.io.lcdc = 0x91;
    gb.bus.io.bgp = 0xE4;
    gb.bus.io.obp0 = 0xE4;
    gb.bus.io.obp1 = 0x1B;
    gb
}

fn put_sprite(gb: &mut GB, slot: usize, y: u8, x: u8, tile: u8, attr: u8) {
    gb.bus.oam[4 * slot] = y;
    gb.bus.oam[4 * slot + 1] = x;
    gb.bus.oam[4 * slot + 2] = tile;
    gb.bus.oam[4 * slot + 3] = attr;
}

fn pixel(gb: &GB, x: usize, y: usize) -> (u8, u8, u8) {
    let i = 3 * (x + 160 * y);
    (gb.framebuffer[i], gb.framebuffer[i + 1], gb.framebuffer[i + 2])
}

fn grey(c: u8) -> (u8, u8, u8) {
    (c, c, c)
}

#[test]
fn sprite_new_decodes_the_attribute_bits() {
    let s = Sprite::new((16, 8, 0x42, 0xF0));
    assert_eq!(
        s,
        Sprite { y: 16, x: 8, itile: 0x42, prio: true, y_flip: true, x_flip: true, dmg_palette: true }
    );
    let s = Sprite::new((1, 2, 3, 0x0F));
    assert_eq!(
        s,
        Sprite { y: 1, x: 2, itile: 3, prio: false, y_flip: false, x_flip: false, dmg_palette: false }
    );
    assert!(Sprite::new((0, 0, 0, 0x80)).prio);
    assert!(Sprite::new((0, 0, 0, 0x40)).y_flip);
    assert!(Sprite::new((0, 0, 0, 0x20)).x_flip);
    assert!(Sprite::new((0, 0, 0, 0x10)).dmg_palette);
}

#[test]
fn color_dmg_gives_the_four_shades() {
    assert_eq!(color_dmg(0, 0xE4), grey(0xFF));
    assert_eq!(color_dmg(1, 0xE4), grey(0xAA));
    assert_eq!(color_dmg(2, 0xE4), grey(0x55));
    assert_eq!(color_dmg(3, 0xE4), grey(0x00));
    assert_eq!(color_dmg(0, 0x1B), grey(0x00));
    assert_eq!(color_dmg(3, 0x1B), grey(0xFF));
    assert_eq!(color_dmg(2, 0x00), grey(0xFF));
    assert_eq!(color_dmg(1, 0xFF), grey(0x00));
}

#[test]
fn oam_scan_picks_sprites_on_the_line() {
    let mut gb = lcd_console();
    gb.bus.io.ly = 0;
    put_sprite(&mut gb, 0, 0, 10, 1, 0);
    put_sprite(&mut gb, 1, 16, 20, 2, 0);
    put_sprite(&mut gb, 2, 9, 30, 3, 0);
    put_sprite(&mut gb, 3, 17, 40, 4, 0);
    put_sprite(&mut gb, 4, 160, 50, 5, 0);
    let found = oam_scan(&gb);
    assert_eq!(found.iter().map(|s| s.itile).collect::<Vec<_>>(), vec![2, 3]);
    gb.bus.io.lcdc |= 0x04;
    let found = oam_scan(&gb);
    assert_eq!(found.iter().map(|s| s.itile).collect::<Vec<_>>(), vec![2, 3]);
    put_sprite(&mut gb, 5, 1, 60, 6, 0);
    let found = oam_scan(&gb);
    assert_eq!(found.iter().map(|s| s.itile).collect::<Vec<_>>(), vec![2, 3, 6]);
    gb.bus.io.lcdc &= !0x04;
    assert_eq!(oam_scan(&gb).len(), 2);
}

#[test]
fn oam_scan_boundaries() {
    let mut gb = lcd_console();
    put_sprite(&mut gb, 0, 16, 8, 1, 0);
    for ly in 0..8 {
        gb.bus.io.ly = ly;
        assert_eq!(oam_scan(&gb).len(), 1, "line {ly}");
    }
    gb.bus.io.ly = 8;
    assert_eq!(oam_scan(&gb).len(), 0);
    gb.bus.io.lcdc |= 0x04;
    for ly in 8..16 {
        gb.bus.io.ly = ly;
        assert_eq!(oam_scan(&gb).len(), 1, "line {ly}");
    }
    gb.bus.io.ly = 16;
    assert_eq!(oam_scan(&gb).len(), 0);
    put_sprite(&mut gb, 0, 160, 8, 1, 0);
    for ly in 0..144 {
        gb.bus.io.ly = ly;
        assert_eq!(oam_scan(&gb).len(), 0, "line {ly}");
    }
    put_sprite(&mut gb, 0, 255, 8, 1, 0);
    gb.bus.io.ly = 153;
    assert_eq!(oam_scan(&gb).len(), 0);
    put_sprite(&mut gb, 0, 0, 8, 1, 0);
    for ly in 0..=255u8 {
        gb.bus.io.ly = ly;
        assert_eq!(oam_scan(&gb).len(), 0, "line {ly}");
    }
}

#[test]
fn oam_scan_stops_at_ten_and_sorts_stably_by_x() {
    let mut gb = lcd_console();
    gb.bus.io.ly = 4;
    let xs = [50u8, 10, 30, 10, 90, 30, 70, 10, 20, 60, 5, 1];
    for (slot, x) in xs.iter().enumerate() {
        put_sprite(&mut gb, slot, 16, *x, slot as u8, 0);
    }
    let found = oam_scan(&gb);
    assert_eq!(found.len(), 10);
    let order: Vec<(u8, u8)> = found.iter().map(|s| (s.x, s.itile)).collect();
    assert_eq!(
        order,
        vec![(10, 1), (10, 3), (10, 7), (20, 8), (30, 2), (30, 5), (50, 0), (60, 9), (70, 6), (90, 4)]
    );
}

#[test]
fn dots_outside_the_picture_draw_nothing() {
    let mut gb = lcd_console();
    let before = gb.framebuffer;
    for lx in [0u64, 79, 240, 455, 10_000] {
        render_dot(&mut gb, lx, &vec![]);
        assert!(gb.framebuffer == before);
    }
    gb.bus.io.ly = 144;
    render_dot(&mut gb, 80, &vec![]);
    assert!(gb.framebuffer == before);
    gb.bus.io.ly = 143;
    render_dot(&mut gb, 239, &vec![]);
    assert_eq!(pixel(&gb, 159, 143), grey(0xFF));
    assert_eq!(pixel(&gb, 158, 143), grey(30));
}

#[test]
fn first_pixel_of_a_striped_tile() {
    let mut gb = lcd_console();
    for i in 0..16usize {
        gb.bus.vram[0][i] = if i % 2 == 0 { 0xFF } else { 0x00 };
    }
    render_dot(&mut gb, 80, &vec![]);
    assert_eq!(pixel(&gb, 0, 0), grey(0xAA));
    for i in 0..16usize {
        gb.bus.vram[0][i] = 0xFF;
    }
    render_dot(&mut gb, 80, &vec![]);
    assert_eq!(pixel(&gb, 0, 0), grey(0x00));
}

#[test]
fn background_scrolls_and_wraps() {
    let mut gb = lcd_console();
    // tile 1: column 0 of every row has colour 3
    for row in 0..8usize {
        gb.bus.vram[0][16 + 2 * row] = 0x80;
        gb.bus.vram[0][16 + 2 * row + 1] = 0x80;
    }
    gb.bus.vram[0][0x1800 + 31 + 31 * 32] = 1;
    gb.bus.io.scx = 248;
    gb.bus.io.scy = 250;
    gb.bus.io.ly = 0;
    render_dot(&mut gb, 80, &vec![]);
    assert_eq!(pixel(&gb, 0, 0), grey(0x00));
    render_dot(&mut gb, 81, &vec![]);
    assert_eq!(pixel(&gb, 1, 0), grey(0xFF));
    gb.bus.io.ly = 6;
    render_dot(&mut gb, 88, &vec![]);
    assert_eq!(pixel(&gb, 8, 6), grey(0xFF));
}

#[test]
fn tile_block_and_map_selection() {
    let mut gb = lcd_console();
    gb.bus.vram[0][0] = 0x80;
    gb.bus.vram[0][0x1000] = 0x80;
    gb.bus.vram[0][0x1001] = 0x80;
    render_dot(&mut gb, 80, &vec![]);
    assert_eq!(pixel(&gb, 0, 0), grey(0xAA));
    gb.bus.io.lcdc = 0x81;
    render_dot(&mut gb, 80, &vec![]);
    assert_eq!(pixel(&gb, 0, 0), grey(0x00));
    gb.bus.vram[0][0x1800] = 0x80;
    gb.bus.vram[0][0x800] = 0x00;
    gb.bus.vram[0][0x801] = 0x80;
    render_dot(&mut gb, 80, &vec![]);
    assert_eq!(pixel(&gb, 0, 0), grey(0x55));
    gb.bus.io.lcdc = 0x89;
    render_dot(&mut gb, 80, &vec![]);
    assert_eq!(pixel(&gb, 0, 0), grey(0x00));
}

#[test]
fn window_covers_the_background() {
    let mut gb = lcd_console();
    gb.bus.vram[0][16] = 0xFF;
    gb.bus.vram[0][17] = 0xFF;
    gb.bus.vram[0][0x1C00] = 1;
    gb.bus.io.lcdc = 0x91 | 0x20 | 0x40;
    gb.bus.io.wx = 7 + 10;
    gb.bus.io.wy = 2;
    gb.bus.io.ly = 2;
    render_dot(&mut gb, 80 + 9, &vec![]);
    assert_eq!(pixel(&gb, 9, 2), grey(0xFF));
    render_dot(&mut gb, 80 + 10, &vec![]);
    assert_eq!(pixel(&gb, 10, 2), grey(0x00));
    gb.bus.io.ly = 1;
    render_dot(&mut gb, 80 + 10, &vec![]);
    assert_eq!(pixel(&gb, 10, 1), grey(0xFF));
    gb.bus.io.ly = 3;
    render_dot(&mut gb, 80 + 10, &vec![]);
    assert_eq!(pixel(&gb, 10, 3), grey(0xFF));
}

#[test]
fn sprites_overlay_the_field() {
    let mut gb = lcd_console();
    // tile 2: row 0 is colour 1 in columns 0..3 and transparent in 4..7
    gb.bus.vram[0][32] = 0xF0;
    gb.bus.io.ly = 0;
    let sprites = vec![Sprite::new((16, 8, 2, 0x00))];
    render_dot(&mut gb, 80, &sprites);
    assert_eq!(pixel(&gb, 0, 0), grey(0xAA));
    render_dot(&mut gb, 84, &sprites);
    assert_eq!(pixel(&gb, 4, 0), grey(0xFF));
    render_dot(&mut gb, 88, &sprites);
    assert_eq!(pixel(&gb, 8, 0), grey(0xFF));
    let mirrored = vec![Sprite::new((16, 8, 2, 0x20))];
    render_dot(&mut gb, 80, &mirrored);
    assert_eq!(pixel(&gb, 0, 0), grey(0xFF));
    render_dot(&mut gb, 87, &mirrored);
    assert_eq!(pixel(&gb, 7, 0), grey(0xAA));
    let other_palette = vec![Sprite::new((16, 8, 2, 0x10))];
    render_dot(&mut gb, 80, &other_palette);
    assert_eq!(pixel(&gb, 0, 0), grey(0x55));
}

#[test]
fn flipped_sprites_read_the_tile_upside_down() {
    let mut gb = lcd_console();
    gb.bus.vram[0][32 + 14] = 0x80;
    gb.bus.vram[0][32 + 15] = 0x80;
    gb.bus.io.ly = 0;
    let plain = vec![Sprite::new((16, 8, 2, 0x00))];
    render_dot(&mut gb, 80, &plain);
    assert_eq!(pixel(&gb, 0, 0), grey(0xFF));
    let flipped = vec![Sprite::new((16, 8, 2, 0x40))];
    render_dot(&mut gb, 80, &flipped);
    assert_eq!(pixel(&gb, 0, 0), grey(0x00));
    gb.bus.io.lcdc |= 0x04;
    gb.bus.vram[0][32 + 30] = 0x80;
    render_dot(&mut gb, 80, &flipped);
    assert_eq!(pixel(&gb, 0, 0), grey(0xAA));
}

#[test]
fn priority_hides_sprites_behind_coloured_background() {
    let mut gb = lcd_console();
    gb.bus.vram[0][32] = 0xFF;
    gb.bus.vram[0][0] = 0x80;
    gb.bus.vram[0][1] = 0x80;
    let hidden = vec![Sprite::new((16, 8, 2, 0x80))];
    render_dot(&mut gb, 80, &hidden);
    assert_eq!(pixel(&gb, 0, 0), grey(0x00));
    render_dot(&mut gb, 81, &hidden);
    assert_eq!(pixel(&gb, 1, 0), grey(0xAA));
}

#[test]
fn first_sprite_in_the_list_wins() {
    let mut gb = lcd_console();
    gb.bus.vram[0][32] = 0xFF;
    gb.bus.vram[0][49] = 0xFF;
    let sprites = vec![Sprite::new((16, 8, 2, 0x00)), Sprite::new((16, 8, 3, 0x00))];
    render_dot(&mut gb, 80, &sprites);
    assert_eq!(pixel(&gb, 0, 0), grey(0xAA));
    let sprites = vec![Sprite::new((16, 8, 3, 0x00)), Sprite::new((16, 8, 2, 0x00))];
    render_dot(&mut gb, 80, &sprites);
    assert_eq!(pixel(&gb, 0, 0), grey(0x55));
    let sprites = vec![Sprite::new((16, 9, 4, 0x00)), Sprite::new((16, 8, 2, 0x00))];
    render_dot(&mut gb, 80, &sprites);
    assert_eq!(pixel(&gb, 0, 0), grey(0xAA));
}

#[test]
fn sprites_that_miss_the_line_are_not_drawn() {
    let mut gb = lcd_console();
    gb.bus.vram[0][32] = 0xFF;
    for row in 0..16 {
        gb.bus.vram[0][32 + 2 * row] = 0xFF;
    }
    gb.bus.io.ly = 8;
    let sprites = vec![Sprite::new((16, 8, 2, 0x40)), Sprite::new((0, 8, 2, 0)), Sprite::new((160, 8, 2, 0))];
    render_dot(&mut gb, 80, &sprites);
    assert_eq!(pixel(&gb, 0, 8), grey(0xFF));
    gb.bus.io.lcdc |= 0x04;
    render_dot(&mut gb, 80, &sprites);
    assert_eq!(pixel(&gb, 0, 8), grey(0xAA));
}
