//! Where the pictures of a debugger window go: in columns, each picture
//! below the one before it.

use vstd::prelude::*;

verus! {

/// Pixels between two pictures and round the window.
pub const PADDING: i32 = 10;

/// The place for the next picture.
#[derive(Clone, Copy, Debug, PartialEq, Eq, Structural)]
pub struct Layout {
    /// Left edge of the current column.
    pub x: i32,
    /// Top edge of the next picture in the column.
    pub y: i32,
    /// Width of the widest picture in the column.
    pub col_w: i32,
}

impl Layout {
    /// Whether a picture of `w` by `h` pixels at `scale` can be placed
    /// without leaving the range of the coordinates.
    pub open spec fn fits(self, w: i32, h: i32, scale: i32) -> bool {
        &&& i32::MIN <= w * scale <= i32::MAX
        &&& i32::MIN <= h * scale + 2 * PADDING <= i32::MAX
        &&& i32::MIN <= h * scale <= i32::MAX
        &&& i32::MIN <= self.y + h * scale + PADDING <= i32::MAX
        &&& i32::MIN <= self.x + self.col_w + PADDING <= i32::MAX
        &&& i32::MIN <= self.col_w + PADDING <= i32::MAX
    }

    /// The layout after a picture is put below the last one.
    pub open spec fn stacked(self, w: i32, h: i32, scale: i32) -> Layout {
        Layout {
            x: self.x,
            y: (self.y + h * scale + PADDING) as i32,
            col_w: if self.col_w >= w * scale {
                self.col_w
            } else {
                (w * scale) as i32
            },
        }
    }

    /// The layout after a picture is put at the top of a new column.
    pub open spec fn advanced(self, w: i32, h: i32, scale: i32) -> Layout {
        Layout {
            x: (self.x + self.col_w + PADDING) as i32,
            y: (h * scale + 2 * PADDING) as i32,
            col_w: (w * scale) as i32,
        }
    }

    /// An empty window: the first picture goes to the top left corner.
    pub fn new() -> (l: Layout)
        ensures
            l == (Layout { x: PADDING, y: PADDING, col_w: 0 }),
    {
        Layout { x: PADDING, y: PADDING, col_w: 0 }
    }

    /// Says whether a picture can be placed.
    pub fn can_place(&self, w: i32, h: i32, scale: i32) -> (r: bool)
        ensures
            r == self.fits(w, h, scale),
    {
        proof {
            lemma_product_fits(w, scale);
            lemma_product_fits(h, scale);
        }
        let width: i64 = w as i64 * scale as i64;
        let height: i64 = h as i64 * scale as i64;
        let low: i64 = i32::MIN as i64;
        let high: i64 = i32::MAX as i64;
        low <= width && width <= high && low <= height && height <= high && height + 2
            * PADDING as i64 <= high && low <= self.y as i64 + height + PADDING as i64
            && self.y as i64 + height + PADDING as i64 <= high && low <= self.x as i64
            + self.col_w as i64 + PADDING as i64 && self.x as i64 + self.col_w as i64
            + PADDING as i64 <= high && self.col_w as i64 + PADDING as i64 <= high
    }

    /// Places a picture of `w` by `h` pixels, drawn at `scale`, below the
    /// last one, and returns its top left corner.
    pub fn stack(&mut self, w: i32, h: i32, scale: i32) -> (corner: (i32, i32))
        requires
            old(self).fits(w, h, scale),
        ensures
            corner == (old(self).x, old(self).y),
            *final(self) == old(self).stacked(w, h, scale),
    {
        let corner: (i32, i32) = (self.x, self.y);
        let width: i32 = w * scale;
        if width > self.col_w {
            self.col_w = width;
        }
        self.y += h * scale + PADDING;
        corner
    }

    /// Places a picture at the top of a new column to the right, and
    /// returns its top left corner.
    pub fn next(&mut self, w: i32, h: i32, scale: i32) -> (corner: (i32, i32))
        requires
            old(self).fits(w, h, scale),
        ensures
            corner == (final(self).x, PADDING),
            *final(self) == old(self).advanced(w, h, scale),
    {
        self.y = h * scale + 2 * PADDING;
        self.x += self.col_w + PADDING;
        self.col_w = w * scale;
        (self.x, PADDING)
    }
}

/// The product of two 32-bit numbers fits in 64 bits.
proof fn lemma_product_fits(a: i32, b: i32)
    ensures
        -0x4000_0000_0000_0000 <= a * b <= 0x4000_0000_0000_0000,
{
    assert(-0x4000_0000_0000_0000 <= a * b <= 0x4000_0000_0000_0000) by (nonlinear_arith)
        requires
            -0x8000_0000 <= a <= 0x7FFF_FFFF,
            -0x8000_0000 <= b <= 0x7FFF_FFFF,
    ;
}

impl Default for Layout {
    /// An empty window.
    fn default() -> (l: Layout)
        ensures
            l == (Layout { x: PADDING, y: PADDING, col_w: 0 }),
    {
        Layout::new()
    }
}

} // verus!
