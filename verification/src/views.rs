//! Pictures of memory for a debugger: the two tile maps, the tile data,
//! video RAM and the whole address space, each as rows of R, G, B bytes.

use vstd::prelude::*;
use crate::alu::digit;
use crate::bits::{bit, lemma_reverse};
use crate::bus::{Bus, BusView, VRAM_SIZE};
use crate::video::{
    color_dmg, map_base, map_pixel, painted, read_map_pixel, read_tile_pixel, spec_color,
    tile_pixel,
};

verus! {

/// Width and height of a tile map in pixels.
pub const MAP_SIDE: usize = 256;

/// Width of the picture of the tile data: sixteen tiles.
pub const TILE_VIEWER_WIDTH: usize = 128;

/// Height of the picture of the tile data: 384 tiles in rows of sixteen.
pub const TILE_VIEWER_HEIGHT: usize = 192;

/// Tiles in video RAM.
pub const TILES: usize = 384;

/// The palette under which every colour index is its own shade.
pub const PLAIN_PALETTE: u8 = 0b_11_10_01_00;

/// The colour of pixel `p` of a picture.
pub open spec fn pixel_at(img: Seq<u8>, p: int) -> (u8, u8, u8) {
    (img[3 * p], img[3 * p + 1], img[3 * p + 2])
}

/// A picture of `pixels` black pixels.
fn blank(pixels: usize) -> (img: Vec<u8>)
    requires
        3 * pixels <= usize::MAX,
    ensures
        img@.len() == 3 * pixels,
        forall|i: int| 0 <= i < img@.len() ==> img@[i] == 0,
{
    let mut img: Vec<u8> = Vec::new();
    let mut i: usize = 0;
    while i < 3 * pixels
        invariant
            i <= 3 * pixels <= usize::MAX,
            img@.len() == i,
            forall|k: int| 0 <= k < i ==> img@[k] == 0,
        decreases 3 * pixels - i,
    {
        img.push(0);
        i += 1;
    }
    img
}

/// Sets one pixel of a picture.
fn paint(img: &mut Vec<u8>, p: usize, rgb: (u8, u8, u8))
    requires
        3 * p + 2 < old(img)@.len(),
    ensures
        final(img)@ == painted(old(img)@, p as int, rgb),
        final(img)@.len() == old(img)@.len(),
{
    let len: usize = img.len();
    img[3 * p] = rgb.0;
    img[3 * p + 1] = rgb.1;
    img[3 * p + 2] = rgb.2;
}

/// A picture after the first `n` pixels of a tile are drawn into it,
/// column by column. The tile goes to the pixels from `ofs` on, in a
/// picture `width` pixels wide. With `transparent`, colour index 0
/// leaves the picture as it is.
pub open spec fn tile_drawn(
    img: Seq<u8>,
    bank: Seq<u8>,
    itile: int,
    ofs: int,
    width: int,
    palette: u8,
    transparent: bool,
    n: int,
) -> Seq<u8>
    decreases n,
{
    if n <= 0 {
        img
    } else {
        let before = tile_drawn(img, bank, itile, ofs, width, palette, transparent, n - 1);
        let x = (n - 1) / 8;
        let y = (n - 1) % 8;
        let index = tile_pixel(bank, itile * 16, x, y);
        if index != 0 || !transparent {
            painted(before, ofs + x + width * y, spec_color(index, palette))
        } else {
            before
        }
    }
}

/// Draws tile `itile` of `bank` into a picture that is `output_width`
/// pixels wide, its top left corner at pixel `ofs`.
pub fn draw_tile(
    itile: usize,
    img: &mut Vec<u8>,
    ofs: usize,
    output_width: usize,
    bank: &[u8; VRAM_SIZE],
    palette: u8,
    transparent: bool,
)
    requires
        itile < 512,
        3 * (ofs + 7 + output_width * 7) + 2 < old(img)@.len(),
    ensures
        final(img)@ == tile_drawn(
            old(img)@,
            bank@,
            itile as int,
            ofs as int,
            output_width as int,
            palette,
            transparent,
            64,
        ),
        final(img)@.len() == old(img)@.len(),
{
    let len: usize = img.len();
    let mut x: usize = 0;
    while x < 8
        invariant
            x <= 8,
            itile < 512,
            img@.len() == len,
            img@.len() == old(img)@.len(),
            3 * (ofs + 7 + output_width * 7) + 2 < img@.len(),
            img@ == tile_drawn(
                old(img)@,
                bank@,
                itile as int,
                ofs as int,
                output_width as int,
                palette,
                transparent,
                8 * x,
            ),
        decreases 8 - x,
    {
        let mut y: usize = 0;
        while y < 8
            invariant
                x < 8,
                y <= 8,
                itile < 512,
                img@.len() == len,
                img@.len() == old(img)@.len(),
                3 * (ofs + 7 + output_width * 7) + 2 < img@.len(),
                img@ == tile_drawn(
                    old(img)@,
                    bank@,
                    itile as int,
                    ofs as int,
                    output_width as int,
                    palette,
                    transparent,
                    8 * x + y,
                ),
            decreases 8 - y,
        {
            let index: u8 = read_tile_pixel(bank, itile * 16, x, y);
            assert(output_width * y <= output_width * 7) by (nonlinear_arith)
                requires
                    y <= 7,
            ;
            if index != 0 || !transparent {
                paint(img, ofs + x + output_width * y, color_dmg(index, palette));
            }
            assert((8 * x + y) / 8 == x && (8 * x + y) % 8 == y);
            y += 1;
        }
        x += 1;
    }
}

/// Whether a picture shows a tile map: a square of 256 pixels a side,
/// each pixel in the colour that the map gives it under `BGP`.
pub open spec fn shows_map(img: Seq<u8>, bus: BusView, high: bool) -> bool {
    &&& img.len() == 3 * MAP_SIDE * MAP_SIDE
    &&& forall|x: int, y: int|
        0 <= x < MAP_SIDE && 0 <= y < MAP_SIDE ==> #[trigger] pixel_at(img, x + MAP_SIDE * y)
            == spec_color(
            map_pixel(bus.vram[0], bus.io.lcdc, map_base(high), x, y),
            bus.io.bgp,
        )
}

/// Draws one of the two tile maps.
fn map_picture(mem: &Bus, high: bool) -> (img: Vec<u8>)
    ensures
        shows_map(img@, mem@, high),
{
    let mut img: Vec<u8> = blank(MAP_SIDE * MAP_SIDE);
    let mut y: usize = 0;
    while y < MAP_SIDE
        invariant
            y <= MAP_SIDE,
            img@.len() == 3 * MAP_SIDE * MAP_SIDE,
            forall|px: int, py: int|
                0 <= px < MAP_SIDE && 0 <= py < y ==> #[trigger] pixel_at(img@, px + MAP_SIDE * py)
                    == spec_color(
                    map_pixel(mem@.vram[0], mem@.io.lcdc, map_base(high), px, py),
                    mem@.io.bgp,
                ),
        decreases MAP_SIDE - y,
    {
        let mut x: usize = 0;
        while x < MAP_SIDE
            invariant
                x <= MAP_SIDE,
                y < MAP_SIDE,
                img@.len() == 3 * MAP_SIDE * MAP_SIDE,
                forall|px: int, py: int|
                    0 <= px < MAP_SIDE && 0 <= py < MAP_SIDE && (py < y || (py == y && px < x))
                        ==> #[trigger] pixel_at(img@, px + MAP_SIDE * py) == spec_color(
                        map_pixel(mem@.vram[0], mem@.io.lcdc, map_base(high), px, py),
                        mem@.io.bgp,
                    ),
            decreases MAP_SIDE - x,
        {
            let index: u8 = read_map_pixel(&mem.vram[0], mem.io.lcdc, high, x, y);
            let ghost before = img@;
            paint(&mut img, x + MAP_SIDE * y, color_dmg(index, mem.io.bgp));
            assert forall|px: int, py: int|
                0 <= px < MAP_SIDE && 0 <= py < MAP_SIDE && (py < y || (py == y && px < x + 1))
                implies #[trigger] pixel_at(img@, px + MAP_SIDE * py) == spec_color(
                map_pixel(mem@.vram[0], mem@.io.lcdc, map_base(high), px, py),
                mem@.io.bgp,
            ) by {
                if !(px == x && py == y) {
                    assert(pixel_at(img@, px + MAP_SIDE * py) == pixel_at(
                        before,
                        px + MAP_SIDE * py,
                    ));
                }
            }
            x += 1;
        }
        y += 1;
    }
    img
}

/// A picture of the tile map at `1800` of video RAM.
pub fn bg_map(mem: &Bus) -> (img: Vec<u8>)
    ensures
        shows_map(img@, mem@, false),
{
    map_picture(mem, false)
}

/// A picture of the tile map at `1C00` of video RAM.
pub fn window_map(mem: &Bus) -> (img: Vec<u8>)
    ensures
        shows_map(img@, mem@, true),
{
    map_picture(mem, true)
}

/// Whether a picture shows the tile data: the 384 tiles in rows of
/// sixteen, each pixel in the shade of its colour index.
pub open spec fn shows_tiles(img: Seq<u8>, bus: BusView) -> bool {
    &&& img.len() == 3 * TILE_VIEWER_WIDTH * TILE_VIEWER_HEIGHT
    &&& forall|x: int, y: int|
        0 <= x < TILE_VIEWER_WIDTH && 0 <= y < TILE_VIEWER_HEIGHT ==> #[trigger] pixel_at(
            img,
            x + TILE_VIEWER_WIDTH * y,
        ) == spec_color(
            tile_pixel(bus.vram[0], ((y / 8) * 16 + x / 8) * 16, x % 8, y % 8),
            PLAIN_PALETTE,
        )
}

/// A picture of all tiles in video RAM.
pub fn tile_dump(mem: &Bus) -> (img: Vec<u8>)
    ensures
        shows_tiles(img@, mem@),
{
    let mut img: Vec<u8> = blank(TILE_VIEWER_WIDTH * TILE_VIEWER_HEIGHT);
    let mut y: usize = 0;
    while y < TILE_VIEWER_HEIGHT
        invariant
            y <= TILE_VIEWER_HEIGHT,
            img@.len() == 3 * TILE_VIEWER_WIDTH * TILE_VIEWER_HEIGHT,
            forall|px: int, py: int|
                0 <= px < TILE_VIEWER_WIDTH && 0 <= py < y ==> #[trigger] pixel_at(
                    img@,
                    px + TILE_VIEWER_WIDTH * py,
                ) == spec_color(
                    tile_pixel(mem@.vram[0], ((py / 8) * 16 + px / 8) * 16, px % 8, py % 8),
                    PLAIN_PALETTE,
                ),
        decreases TILE_VIEWER_HEIGHT - y,
    {
        let mut x: usize = 0;
        while x < TILE_VIEWER_WIDTH
            invariant
                x <= TILE_VIEWER_WIDTH,
                y < TILE_VIEWER_HEIGHT,
                img@.len() == 3 * TILE_VIEWER_WIDTH * TILE_VIEWER_HEIGHT,
                forall|px: int, py: int|
                    0 <= px < TILE_VIEWER_WIDTH && 0 <= py < TILE_VIEWER_HEIGHT && (py < y || (py
                        == y && px < x)) ==> #[trigger] pixel_at(img@, px + TILE_VIEWER_WIDTH * py)
                        == spec_color(
                        tile_pixel(mem@.vram[0], ((py / 8) * 16 + px / 8) * 16, px % 8, py % 8),
                        PLAIN_PALETTE,
                    ),
            decreases TILE_VIEWER_WIDTH - x,
        {
            let itile: usize = (y / 8) * 16 + x / 8;
            let index: u8 = read_tile_pixel(&mem.vram[0], itile * 16, x % 8, y % 8);
            let ghost before = img@;
            paint(&mut img, x + TILE_VIEWER_WIDTH * y, color_dmg(index, PLAIN_PALETTE));
            assert forall|px: int, py: int|
                0 <= px < TILE_VIEWER_WIDTH && 0 <= py < TILE_VIEWER_HEIGHT && (py < y || (py == y
                    && px < x + 1)) implies #[trigger] pixel_at(img@, px + TILE_VIEWER_WIDTH * py)
                == spec_color(
                tile_pixel(mem@.vram[0], ((py / 8) * 16 + px / 8) * 16, px % 8, py % 8),
                PLAIN_PALETTE,
            ) by {
                if !(px == x && py == y) {
                    assert(pixel_at(img@, px + TILE_VIEWER_WIDTH * py) == pixel_at(
                        before,
                        px + TILE_VIEWER_WIDTH * py,
                    ));
                }
            }
            x += 1;
        }
        y += 1;
    }
    img
}

/// A picture of video RAM, one grey pixel for each byte.
pub fn vram_dump(mem: &Bus) -> (img: Vec<u8>)
    ensures
        img@.len() == 3 * VRAM_SIZE,
        forall|i: int|
            0 <= i < VRAM_SIZE ==> #[trigger] pixel_at(img@, i) == (
                mem@.vram[0][i],
                mem@.vram[0][i],
                mem@.vram[0][i],
            ),
{
    let mut img: Vec<u8> = blank(VRAM_SIZE);
    let mut i: usize = 0;
    while i < VRAM_SIZE
        invariant
            i <= VRAM_SIZE,
            img@.len() == 3 * VRAM_SIZE,
            forall|k: int|
                0 <= k < i ==> #[trigger] pixel_at(img@, k) == (
                    mem@.vram[0][k],
                    mem@.vram[0][k],
                    mem@.vram[0][k],
                ),
        decreases VRAM_SIZE - i,
    {
        let c: u8 = mem.vram[0][i];
        let ghost before = img@;
        paint(&mut img, i, (c, c, c));
        assert forall|k: int| 0 <= k < i + 1 implies #[trigger] pixel_at(img@, k) == (
            mem@.vram[0][k],
            mem@.vram[0][k],
            mem@.vram[0][k],
        ) by {
            if k != i {
                assert(pixel_at(img@, k) == pixel_at(before, k));
            }
        }
        i += 1;
    }
    img
}

/// A byte with its bits in the opposite order.
pub open spec fn reversed(x: u8) -> u8 {
    (128 * digit(bit(x, 0)) + 64 * digit(bit(x, 1)) + 32 * digit(bit(x, 2)) + 16 * digit(
        bit(x, 3),
    ) + 8 * digit(bit(x, 4)) + 4 * digit(bit(x, 5)) + 2 * digit(bit(x, 6)) + digit(
        bit(x, 7),
    )) as u8
}

/// Turns the bits of a byte round.
pub fn reverse_bits(x: u8) -> (r: u8)
    ensures
        r == reversed(x),
{
    proof {
        lemma_reverse(x);
    }
    ((x & 0x01) << 7) | ((x & 0x02) << 5) | ((x & 0x04) << 3) | ((x & 0x08) << 1) | ((x & 0x10)
        >> 1) | ((x & 0x20) >> 3) | ((x & 0x40) >> 5) | ((x & 0x80) >> 7)
}

/// The byte that the picture of the address space shows for an
/// address: what a read returns, but 1 for the echo of work RAM and for
/// the registers, which are not read.
pub open spec fn shown_byte(bus: BusView, addr: u16) -> u8 {
    if (0xE000 <= addr <= 0xFDFF) || (0xFF00 <= addr <= 0xFF7F) || addr == 0xFFFF {
        1
    } else {
        bus.peek(addr)
    }
}

/// A picture of the whole address space, one grey pixel for each
/// address, the bits of each byte turned round.
pub fn mem_dump(mem: &Bus) -> (img: Vec<u8>)
    ensures
        img@.len() == 3 * 0x10000,
        forall|i: int|
            0 <= i < 0x10000 ==> #[trigger] pixel_at(img@, i) == (
                reversed(shown_byte(mem@, i as u16)),
                reversed(shown_byte(mem@, i as u16)),
                reversed(shown_byte(mem@, i as u16)),
            ),
{
    let mut img: Vec<u8> = blank(0x10000);
    let mut i: usize = 0;
    while i < 0x10000
        invariant
            i <= 0x10000,
            img@.len() == 3 * 0x10000,
            forall|k: int|
                0 <= k < i ==> #[trigger] pixel_at(img@, k) == (
                    reversed(shown_byte(mem@, k as u16)),
                    reversed(shown_byte(mem@, k as u16)),
                    reversed(shown_byte(mem@, k as u16)),
                ),
        decreases 0x10000 - i,
    {
        let addr: u16 = i as u16;
        let byte: u8 = if (0xE000 <= addr && addr <= 0xFDFF) || (0xFF00 <= addr && addr <= 0xFF7F)
            || addr == 0xFFFF {
            1
        } else {
            mem.peek(addr)
        };
        let c: u8 = reverse_bits(byte);
        let ghost before = img@;
        paint(&mut img, i, (c, c, c));
        assert forall|k: int| 0 <= k < i + 1 implies #[trigger] pixel_at(img@, k) == (
            reversed(shown_byte(mem@, k as u16)),
            reversed(shown_byte(mem@, k as u16)),
            reversed(shown_byte(mem@, k as u16)),
        ) by {
            if k != i {
                assert(pixel_at(img@, k) == pixel_at(before, k));
            }
        }
        i += 1;
    }
    img
}

} // verus!
