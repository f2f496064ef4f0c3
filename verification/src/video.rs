//! The picture unit: the sprite scan of a scanline, the palettes, and the
//! colour of each dot from background, window and sprites.

use vstd::prelude::*;
use crate::alu::digit;
use crate::bits::{bit, lemma_bits, lemma_palette, lemma_pick};
use crate::bus::{BusView, VRAM_SIZE};
use crate::{GBView, FRAMEBUFFER_SIZE, GB};

verus! {

/// Dots in the sprite scan that opens every scanline.
pub const SCAN_DOTS: u64 = 80;

/// Visible dots of a scanline.
pub const LCD_WIDTH: usize = 160;

/// Visible scanlines.
pub const LCD_HEIGHT: usize = 144;

/// Sprites that one scanline can show.
pub const LINE_SPRITES: usize = 10;

/// One entry of object memory.
#[derive(Clone, Copy, Debug, PartialEq, Eq, Structural)]
pub struct Sprite {
    /// Top edge plus 16.
    pub y: u8,
    /// Left edge plus 8.
    pub x: u8,
    /// Tile number.
    pub itile: u8,
    /// The sprite is hidden behind background colours 1 to 3.
    pub prio: bool,
    /// Drawn upside down.
    pub y_flip: bool,
    /// Drawn mirrored.
    pub x_flip: bool,
    /// Uses object palette 1 instead of 0.
    pub dmg_palette: bool,
}

impl Sprite {
    /// The sprite that four bytes of object memory describe: Y, X, tile,
    /// and the attribute bits 7..4.
    pub open spec fn of(data: (u8, u8, u8, u8)) -> Sprite {
        Sprite {
            y: data.0,
            x: data.1,
            itile: data.2,
            prio: bit(data.3, 7),
            y_flip: bit(data.3, 6),
            x_flip: bit(data.3, 5),
            dmg_palette: bit(data.3, 4),
        }
    }

    /// The sprite in entry `index` of object memory.
    pub open spec fn at(oam: Seq<u8>, index: int) -> Sprite {
        Sprite::of((oam[4 * index], oam[4 * index + 1], oam[4 * index + 2], oam[4 * index + 3]))
    }

    /// Whether a sprite of height `h` with this Y covers scanline `ly`.
    pub open spec fn on_line(y: u8, ly: u8, h: int) -> bool {
        y - 16 <= ly < y - 16 + h
    }

    /// Whether the sprite covers the dot at column `x` of scanline `ly`.
    pub open spec fn covers(self, x: int, ly: u8, h: int) -> bool {
        self.x - 8 <= x < self.x && Sprite::on_line(self.y, ly, h)
    }

    /// Decodes an entry of object memory.
    pub fn new(data: (u8, u8, u8, u8)) -> (s: Sprite)
        ensures
            s == Sprite::of(data),
    {
        proof {
            lemma_bits(data.3);
        }
        Sprite {
            y: data.0,
            x: data.1,
            itile: data.2,
            prio: data.3 & 0b_1000_0000 != 0,
            y_flip: data.3 & 0b_0100_0000 != 0,
            x_flip: data.3 & 0b_0010_0000 != 0,
            dmg_palette: data.3 & 0b_0001_0000 != 0,
        }
    }
}

/// The height of all sprites, by `LCDC` bit 2.
pub open spec fn sprite_height(lcdc: u8) -> int {
    if bit(lcdc, 2) {
        16
    } else {
        8
    }
}

/// The sprites among the first `n` entries of object memory that cover
/// scanline `ly`, in the order of object memory, the first ten of them.
pub open spec fn scanned(oam: Seq<u8>, ly: u8, h: int, n: int) -> Seq<Sprite>
    decreases n,
{
    if n <= 0 {
        Seq::empty()
    } else {
        let before = scanned(oam, ly, h, n - 1);
        if before.len() < LINE_SPRITES && Sprite::on_line(oam[4 * (n - 1)], ly, h) {
            before.push(Sprite::at(oam, n - 1))
        } else {
            before
        }
    }
}

/// A sequence ordered by X with one more sprite put in, behind those with the same X.
pub open spec fn inserted(sorted: Seq<Sprite>, s: Sprite) -> Seq<Sprite>
    decreases sorted.len(),
{
    if sorted.len() == 0 {
        seq![s]
    } else if sorted.last().x <= s.x {
        sorted.push(s)
    } else {
        inserted(sorted.drop_last(), s).push(sorted.last())
    }
}

/// The sprites in ascending order of X, those with the same X in their former order.
pub open spec fn sorted_by_x(sprites: Seq<Sprite>) -> Seq<Sprite>
    decreases sprites.len(),
{
    if sprites.len() == 0 {
        Seq::empty()
    } else {
        inserted(sorted_by_x(sprites.drop_last()), sprites.last())
    }
}

/// Whether a sequence of sprites is in ascending order of X.
pub open spec fn ordered(sprites: Seq<Sprite>) -> bool {
    forall|i: int, j: int| 0 <= i <= j < sprites.len() ==> sprites[i].x <= sprites[j].x
}

/// Putting a sprite in at the place behind the last one whose X is not
/// greater is what `inserted` does.
proof fn lemma_inserted_at(sorted: Seq<Sprite>, s: Sprite, at: int)
    requires
        0 <= at <= sorted.len(),
        forall|i: int| at <= i < sorted.len() ==> sorted[i].x > s.x,
        at > 0 ==> sorted[at - 1].x <= s.x,
    ensures
        inserted(sorted, s) == sorted.insert(at, s),
    decreases sorted.len(),
{
    if sorted.len() == 0 {
        assert(seq![s] =~= sorted.insert(at, s));
    } else if at == sorted.len() {
        assert(sorted.push(s) =~= sorted.insert(at, s));
    } else {
        lemma_inserted_at(sorted.drop_last(), s, at);
        assert(sorted.drop_last().insert(at, s).push(sorted.last()) =~= sorted.insert(at, s));
    }
}

/// Putting a sprite into an ordered sequence keeps it ordered, makes it
/// one longer and adds nothing but that sprite.
pub proof fn lemma_inserted(sorted: Seq<Sprite>, s: Sprite)
    requires
        ordered(sorted),
    ensures
        ordered(inserted(sorted, s)),
        inserted(sorted, s).len() == sorted.len() + 1,
        inserted(sorted, s).to_multiset() == sorted.to_multiset().insert(s),
    decreases sorted.len(),
{
    broadcast use vstd::seq_lib::group_to_multiset_ensures;

    if sorted.len() == 0 {
        assert(seq![s] =~= Seq::<Sprite>::empty().push(s));
        assert(sorted =~= Seq::<Sprite>::empty());
    } else if sorted.last().x <= s.x {
    } else {
        let front = sorted.drop_last();
        lemma_inserted(front, s);
        let r = inserted(front, s);
        assert(sorted =~= front.push(sorted.last()));
        assert forall|i: int, j: int| 0 <= i <= j < r.push(sorted.last()).len() implies r.push(
            sorted.last(),
        )[i].x <= r.push(sorted.last())[j].x by {
            if j == r.len() {
                if i < r.len() {
                    assert(r.to_multiset().count(r[i]) > 0);
                    if r[i] != s {
                        assert(front.to_multiset().count(r[i]) > 0);
                        let k = choose|k: int| 0 <= k < front.len() && front[k] == r[i];
                        assert(sorted[k].x <= sorted[sorted.len() - 1].x);
                    }
                }
            }
        }
    }
}

/// Sorting by X yields an ordered sequence of the same sprites.
pub proof fn lemma_sorted(sprites: Seq<Sprite>)
    ensures
        ordered(sorted_by_x(sprites)),
        sorted_by_x(sprites).len() == sprites.len(),
        sorted_by_x(sprites).to_multiset() == sprites.to_multiset(),
    decreases sprites.len(),
{
    broadcast use vstd::seq_lib::group_to_multiset_ensures;

    if sprites.len() == 0 {
        assert(sprites =~= Seq::<Sprite>::empty());
    } else {
        lemma_sorted(sprites.drop_last());
        lemma_inserted(sorted_by_x(sprites.drop_last()), sprites.last());
        assert(sprites =~= sprites.drop_last().push(sprites.last()));
    }
}

/// The sprites that the scanline `LY` shows: at most ten that cover it,
/// taken in the order of object memory and then ordered by X.
pub fn oam_scan(gb: &GB) -> (sprites: Vec<Sprite>)
    ensures
        sprites@ == sorted_by_x(
            scanned(gb@.bus.oam, gb@.bus.io.ly, sprite_height(gb@.bus.io.lcdc), 40),
        ),
        sprites@.len() <= LINE_SPRITES,
{
    proof {
        lemma_bits(gb.bus.io.lcdc);
    }
    let sprite_h: u16 = if gb.bus.io.lcdc & 0b100 == 0 {
        8
    } else {
        16
    };
    let line: u16 = gb.bus.io.ly as u16 + 16;
    let ghost oam = gb@.bus.oam;
    let ghost ly = gb@.bus.io.ly;
    let ghost h = sprite_height(gb@.bus.io.lcdc);
    let mut found: usize = 0;
    let mut sprites: Vec<Sprite> = Vec::new();
    let mut index: usize = 0;
    while index < 40
        invariant
            index <= 40,
            oam == gb@.bus.oam,
            ly == gb@.bus.io.ly,
            h == sprite_h,
            h == 8 || h == 16,
            line == ly + 16,
            found == scanned(oam, ly, h, index as int).len(),
            found <= LINE_SPRITES,
            sprites@ == sorted_by_x(scanned(oam, ly, h, index as int)),
            sprites@.len() == found,
            ordered(sprites@),
        decreases 40 - index,
    {
        let y: u16 = gb.bus.oam[4 * index] as u16;
        if found < LINE_SPRITES && y <= line && y + sprite_h > line {
            let s = Sprite::new(
                (
                    gb.bus.oam[4 * index],
                    gb.bus.oam[4 * index + 1],
                    gb.bus.oam[4 * index + 2],
                    gb.bus.oam[4 * index + 3],
                ),
            );
            let mut at: usize = sprites.len();
            while at > 0 && sprites[at - 1].x > s.x
                invariant
                    at <= sprites@.len(),
                    forall|i: int| at <= i < sprites@.len() ==> sprites@[i].x > s.x,
                decreases at,
            {
                at -= 1;
            }
            proof {
                let before = scanned(oam, ly, h, index as int);
                lemma_inserted_at(sprites@, s, at as int);
                lemma_inserted(sprites@, s);
                assert(before.push(s).drop_last() =~= before);
            }
            sprites.insert(at, s);
            found += 1;
        }
        index += 1;
    }
    sprites
}

/// The shade that a palette gives to a colour index: two bits of the
/// palette register, counted from the low end.
pub open spec fn palette_entry(palette: u8, n: u8) -> u8 {
    if n == 0 {
        palette % 4
    } else if n == 1 {
        (palette / 4) % 4
    } else if n == 2 {
        (palette / 16) % 4
    } else {
        palette / 64
    }
}

/// The byte that stands for a shade in each of the channels R, G, B:
/// `0xFF` for shade 0 down to `0x00` for shade 3.
pub open spec fn shade_byte(shade: u8) -> u8 {
    (0x55 * (3 - shade)) as u8
}

/// The colour of index `n` under a palette, as R, G, B.
pub open spec fn spec_color(n: u8, palette: u8) -> (u8, u8, u8) {
    let c = shade_byte(palette_entry(palette, n));
    (c, c, c)
}

/// Looks a colour index up in a palette.
pub fn color_dmg(n: u8, palette: u8) -> (rgb: (u8, u8, u8))
    requires
        n <= 3,
    ensures
        rgb == spec_color(n, palette),
{
    proof {
        lemma_palette(palette, n);
    }
    let pcolor: u8 = (palette >> (n * 2)) & 0b11;
    let c: u8 = 0x55 * (3 - pcolor);
    (c, c, c)
}

/// Under the palette `0b11_10_01_00` every colour index is its own
/// shade, so that a pixel of index `n` is drawn with the byte of shade `n`.
pub proof fn lemma_identity_palette(n: u8)
    requires
        n <= 3,
    ensures
        palette_entry(0b11_10_01_00, n) == n,
        spec_color(n, 0b11_10_01_00) == (shade_byte(n), shade_byte(n), shade_byte(n)),
{
}

/// The colour index of one pixel of a tile: the tile starts at `base`
/// in video RAM, each row is two bytes, and column 0 is bit 7 of both.
pub open spec fn tile_pixel(vram: Seq<u8>, base: int, column: int, row: int) -> u8 {
    (digit(bit(vram[base + 2 * row], 7 - column)) + 2 * digit(
        bit(vram[base + 2 * row + 1], 7 - column),
    )) as u8
}

/// The colour index at a point of a 256 by 256 tile map. Tile numbers
/// below 128 name the third tile block unless `LCDC` bit 4 is set.
pub open spec fn map_pixel(vram: Seq<u8>, lcdc: u8, map: int, x: int, y: int) -> u8 {
    let index = vram[map + x / 8 + (y / 8) * 32];
    let tile = if !bit(lcdc, 4) && index < 128 {
        index + 256
    } else {
        index as int
    };
    tile_pixel(vram, tile * 16, x % 8, y % 8)
}

/// Where a tile map starts in video RAM.
pub open spec fn map_base(high: bool) -> int {
    if high {
        0x1C00
    } else {
        0x1800
    }
}

/// Whether the window covers the dot: it is enabled and the dot lies
/// at or below `WY` and at or right of `WX - 7`.
pub open spec fn in_window(bus: BusView, x: int, ly: u8) -> bool {
    bit(bus.io.lcdc, 5) && bus.io.wy <= ly && bus.io.wx <= x + 7
}

/// The colour index that background or window give to a dot.
pub open spec fn field_pixel(bus: BusView, x: int, ly: u8) -> u8 {
    if in_window(bus, x, ly) {
        map_pixel(
            bus.vram[0],
            bus.io.lcdc,
            map_base(bit(bus.io.lcdc, 6)),
            x + 7 - bus.io.wx,
            ly - bus.io.wy,
        )
    } else {
        map_pixel(
            bus.vram[0],
            bus.io.lcdc,
            map_base(bit(bus.io.lcdc, 3)),
            (bus.io.scx + x) % 256,
            (bus.io.scy + ly) % 256,
        )
    }
}

/// The colour index that a sprite gives to a dot which it covers.
pub open spec fn sprite_pixel(bus: BusView, s: Sprite, x: int, ly: u8) -> u8 {
    let h = sprite_height(bus.io.lcdc);
    let column = x + 8 - s.x;
    let row = ly + 16 - s.y;
    tile_pixel(
        bus.vram[0],
        s.itile * 16,
        if s.x_flip {
            7 - column
        } else {
            column
        },
        if s.y_flip {
            h - 1 - row
        } else {
            row
        },
    )
}

/// Whether a sprite is seen at a dot: it covers the dot, its pixel is
/// not transparent, and it is not hidden behind the field.
pub open spec fn seen(bus: BusView, s: Sprite, x: int, ly: u8, field: u8) -> bool {
    s.covers(x, ly, sprite_height(bus.io.lcdc)) && sprite_pixel(bus, s, x, ly) != 0 && !(s.prio
        && field != 0)
}

/// The colour of the first sprite, from `from` on, that is seen at a dot.
pub open spec fn overlay(bus: BusView, sprites: Seq<Sprite>, x: int, ly: u8, from: int) -> Option<
    (u8, u8, u8),
>
    decreases sprites.len() - from,
{
    if from < 0 || from >= sprites.len() {
        None
    } else if seen(bus, sprites[from], x, ly, field_pixel(bus, x, ly)) {
        Some(
            spec_color(
                sprite_pixel(bus, sprites[from], x, ly),
                if sprites[from].dmg_palette {
                    bus.io.obp1
                } else {
                    bus.io.obp0
                },
            ),
        )
    } else {
        overlay(bus, sprites, x, ly, from + 1)
    }
}

/// The colour of the dot at column `x` of scanline `ly`: that of the
/// first sprite seen there, else that of the field under `BGP`.
pub open spec fn dot_color(bus: BusView, sprites: Seq<Sprite>, x: int, ly: u8) -> (u8, u8, u8) {
    match overlay(bus, sprites, x, ly, 0) {
        Some(rgb) => rgb,
        None => spec_color(field_pixel(bus, x, ly), bus.io.bgp),
    }
}

/// Whether dot `lx` of the current scanline is a visible pixel.
pub open spec fn visible(gb: GBView, lx: u64) -> bool {
    SCAN_DOTS <= lx < SCAN_DOTS + LCD_WIDTH && gb.bus.io.ly < LCD_HEIGHT
}

/// The framebuffer with one pixel set.
pub open spec fn painted(frame: Seq<u8>, pixel: int, rgb: (u8, u8, u8)) -> Seq<u8> {
    frame.update(3 * pixel, rgb.0).update(3 * pixel + 1, rgb.1).update(3 * pixel + 2, rgb.2)
}

/// The console after dot `lx` of the current scanline is drawn.
#[verifier::opaque]
pub open spec fn rendered(gb: GBView, lx: u64, sprites: Seq<Sprite>) -> GBView {
    if visible(gb, lx) {
        GBView {
            framebuffer: painted(
                gb.framebuffer,
                lx - SCAN_DOTS + LCD_WIDTH * gb.bus.io.ly,
                dot_color(gb.bus, sprites, lx - SCAN_DOTS, gb.bus.io.ly),
            ),
            ..gb
        }
    } else {
        gb
    }
}

/// Drawing a dot changes nothing but the framebuffer, and of that only
/// the three bytes of one pixel on the screen; it keeps its length.
pub proof fn lemma_rendered_keeps(gb: GBView, lx: u64, sprites: Seq<Sprite>)
    requires
        gb.framebuffer.len() == FRAMEBUFFER_SIZE,
    ensures
        rendered(gb, lx, sprites).bus == gb.bus,
        rendered(gb, lx, sprites).cpu == gb.cpu,
        rendered(gb, lx, sprites).framebuffer.len() == gb.framebuffer.len(),
        !visible(gb, lx) ==> rendered(gb, lx, sprites) == gb,
        visible(gb, lx) ==> forall|i: int|
            0 <= i < gb.framebuffer.len() && !(3 * (lx - SCAN_DOTS + LCD_WIDTH * gb.bus.io.ly) <= i
                < 3 * (lx - SCAN_DOTS + LCD_WIDTH * gb.bus.io.ly) + 3) ==> rendered(
                gb,
                lx,
                sprites,
            ).framebuffer[i] == gb.framebuffer[i],
        visible(gb, lx) ==> 3 * (lx - SCAN_DOTS + LCD_WIDTH * gb.bus.io.ly) + 3 <= FRAMEBUFFER_SIZE,
{
    reveal(rendered);
}

/// No sprite is drawn off the screen. Where a sprite covers a dot, the
/// dot lies within the sprite: the row is within its height and the
/// column within its width. A sprite at Y 0 covers no scanline, one at
/// Y 16 the topmost scanlines, one at Y 160 or more no visible
/// scanline; a sprite at Y 8 or less shows only when sprites are tall.
pub proof fn lemma_sprite_bounds(s: Sprite, x: int, ly: u8, h: int)
    requires
        h == 8 || h == 16,
    ensures
        s.covers(x, ly, h) ==> 0 <= x + 8 - s.x < 8 && 0 <= ly + 16 - s.y < h,
        s.y == 0 ==> !Sprite::on_line(s.y, ly, h),
        s.y == 16 ==> Sprite::on_line(s.y, ly, h) == (ly < h),
        s.y >= 160 ==> !(Sprite::on_line(s.y, ly, h) && ly < LCD_HEIGHT),
        s.y <= 8 && h == 8 ==> !Sprite::on_line(s.y, ly, h),
        0 < s.y <= 16 && h == 16 ==> Sprite::on_line(s.y, ly, h) == (ly < s.y),
{
}

/// Reads the colour index of one pixel of a tile.
pub fn read_tile_pixel(vram: &[u8; VRAM_SIZE], base: usize, column: usize, row: usize) -> (r: u8)
    requires
        base + 2 * row + 1 < VRAM_SIZE,
        column < 8,
    ensures
        r == tile_pixel(vram@, base as int, column as int, row as int),
        r <= 3,
{
    let low: u8 = vram[base + 2 * row];
    let high: u8 = vram[base + 2 * row + 1];
    let shift: u8 = 7 - column as u8;
    proof {
        lemma_pick(low, high, shift);
    }
    let b1: u8 = (low >> shift) & 1;
    let b2: u8 = (high >> shift) & 1;
    b1 | (b2 << 1)
}

/// Reads the colour index at a point of a tile map.
pub fn read_map_pixel(vram: &[u8; VRAM_SIZE], lcdc: u8, high_map: bool, x: usize, y: usize) -> (r:
    u8)
    requires
        x < 256,
        y < 256,
    ensures
        r == map_pixel(vram@, lcdc, map_base(high_map), x as int, y as int),
        r <= 3,
{
    proof {
        lemma_bits(lcdc);
    }
    let tile_map_area: usize = if high_map {
        0x1C00
    } else {
        0x1800
    };
    let mut itile: usize = vram[tile_map_area + (x / 8 + (y / 8) * 32)] as usize;
    if lcdc & 0b10000 == 0 && itile < 0x80 {
        itile += 0x100;
    }
    read_tile_pixel(vram, itile * 16, x % 8, y % 8)
}

/// Reads the colour index that background or window give to a dot.
fn read_field_pixel(gb: &GB, lcd_x: usize, lcd_y: usize) -> (r: u8)
    requires
        lcd_x < LCD_WIDTH,
        lcd_y == gb@.bus.io.ly,
        lcd_y < LCD_HEIGHT,
    ensures
        r == field_pixel(gb@.bus, lcd_x as int, gb@.bus.io.ly),
        r <= 3,
{
    proof {
        lemma_bits(gb.bus.io.lcdc);
    }
    let lcdc: u8 = gb.bus.io.lcdc;
    let wx: usize = gb.bus.io.wx as usize;
    let wy: usize = gb.bus.io.wy as usize;
    if lcdc & 0b_0010_0000 != 0 && wy <= lcd_y && wx <= lcd_x + 7 {
        read_map_pixel(&gb.bus.vram[0], lcdc, lcdc & 0b_0100_0000 != 0, lcd_x + 7 - wx, lcd_y - wy)
    } else {
        let bg_x: usize = ((gb.bus.io.scx as usize) + lcd_x) % 256;
        let bg_y: usize = ((gb.bus.io.scy as usize) + lcd_y) % 256;
        read_map_pixel(&gb.bus.vram[0], lcdc, lcdc & 0b1000 != 0, bg_x, bg_y)
    }
}

/// Looks for the first sprite seen at a dot and returns its colour.
fn read_overlay(gb: &GB, sprites: &Vec<Sprite>, lcd_x: usize, lcd_y: usize, field: u8) -> (r:
    Option<(u8, u8, u8)>)
    requires
        lcd_x < LCD_WIDTH,
        lcd_y == gb@.bus.io.ly,
        lcd_y < LCD_HEIGHT,
        field == field_pixel(gb@.bus, lcd_x as int, gb@.bus.io.ly),
    ensures
        r == overlay(gb@.bus, sprites@, lcd_x as int, gb@.bus.io.ly, 0),
{
    proof {
        lemma_bits(gb.bus.io.lcdc);
    }
    let sprite_h: usize = if gb.bus.io.lcdc & 0b100 == 0 {
        8
    } else {
        16
    };
    let mut i: usize = 0;
    while i < sprites.len()
        invariant
            i <= sprites@.len(),
            lcd_x < LCD_WIDTH,
            lcd_y == gb@.bus.io.ly,
            lcd_y < LCD_HEIGHT,
            sprite_h == sprite_height(gb@.bus.io.lcdc),
            field == field_pixel(gb@.bus, lcd_x as int, gb@.bus.io.ly),
            overlay(gb@.bus, sprites@, lcd_x as int, gb@.bus.io.ly, 0) == overlay(
                gb@.bus,
                sprites@,
                lcd_x as int,
                gb@.bus.io.ly,
                i as int,
            ),
        decreases sprites@.len() - i,
    {
        let sprite: Sprite = sprites[i];
        let sx: usize = sprite.x as usize;
        let sy: usize = sprite.y as usize;
        if sx <= lcd_x + 8 && sx > lcd_x && sy <= lcd_y + 16 && sy + sprite_h > lcd_y + 16 {
            let mut s_x: usize = lcd_x + 8 - sx;
            let mut s_y: usize = lcd_y + 16 - sy;
            if sprite.y_flip {
                s_y = sprite_h - 1 - s_y;
            }
            if sprite.x_flip {
                s_x = 8 - 1 - s_x;
            }
            let index: u8 = read_tile_pixel(&gb.bus.vram[0], sprite.itile as usize * 16, s_x, s_y);
            if index != 0 && !(sprite.prio && field != 0) {
                let palette: u8 = if sprite.dmg_palette {
                    gb.bus.io.obp1
                } else {
                    gb.bus.io.obp0
                };
                return Some(color_dmg(index, palette));
            }
        }
        i += 1;
    }
    None
}

/// Draws dot `lx` of the current scanline into the framebuffer. Dots
/// 80 to 239 of the scanlines 0 to 143 are pixels; the others draw nothing.
pub fn render_dot(gb: &mut GB, lx: u64, sprites: &Vec<Sprite>)
    ensures
        final(gb)@ == rendered(old(gb)@, lx, sprites@),
{
    proof {
        reveal(rendered);
    }
    if lx < SCAN_DOTS || lx >= SCAN_DOTS + LCD_WIDTH as u64 {
        return ;
    }
    let lcd_x: usize = (lx - SCAN_DOTS) as usize;
    let lcd_y: usize = gb.bus.io.ly as usize;
    if lcd_y >= LCD_HEIGHT {
        return ;
    }
    let field: u8 = read_field_pixel(gb, lcd_x, lcd_y);
    let rgb: (u8, u8, u8) = match read_overlay(gb, sprites, lcd_x, lcd_y, field) {
        Some(rgb) => rgb,
        None => color_dmg(field, gb.bus.io.bgp),
    };
    let pixel: usize = lcd_x + LCD_WIDTH * lcd_y;
    gb.framebuffer[3 * pixel] = rgb.0;
    gb.framebuffer[3 * pixel + 1] = rgb.1;
    gb.framebuffer[3 * pixel + 2] = rgb.2;
}

} // verus!
