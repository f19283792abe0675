//! The display: a grid of pixels on which sprites are drawn by exclusive or.

use vstd::prelude::*;

verus! {

/// Number of bits in one row of a sprite.
pub const SPRITE_WIDTH: u8 = 8;

/// Whether `pixels` is a grid of `width` by `height` pixels with at least one
/// pixel.
pub open spec fn spec_fits(pixels: Seq<bool>, width: nat, height: nat) -> bool {
    width > 0 && height > 0 && pixels.len() == width * height
}

/// Bit `i` of a sprite row, counted from the left: the leftmost bit is the
/// most significant one.
pub open spec fn spec_bit(byte: u8, i: int) -> bool {
    (byte >> ((7 - i) as u8)) & 1u8 == 1u8
}

/// The column on which bit `i` of a sprite row drawn at `x` falls: columns wrap
/// round at the right edge.
pub open spec fn spec_column(width: nat, x: u8, i: int) -> int {
    (x + i) % (width as int)
}

/// Whether the first `k` bits of the sprite row `byte` drawn at `x`, taken
/// together, turn the pixel in column `col` over. On a display at least as wide
/// as a sprite no two bits fall on one column; on a narrower one they may, and
/// two that do cancel.
pub open spec fn spec_flips(width: nat, x: u8, byte: u8, col: int, k: int) -> bool
    decreases k,
{
    if k <= 0 {
        false
    } else {
        spec_flips(width, x, byte, col, k - 1) != (spec_bit(byte, k - 1) && spec_column(
            width,
            x,
            k - 1,
        ) == col)
    }
}

/// Whether one of the first `k` bits of the sprite row is set and meets a
/// pixel that is lit when the bit arrives, and so puts it out. `base` is the
/// index of the row's first pixel.
pub open spec fn spec_erases(pixels: Seq<bool>, width: nat, base: int, x: u8, byte: u8, k: int) -> bool
    decreases k,
{
    if k <= 0 {
        false
    } else {
        let col = spec_column(width, x, k - 1);
        spec_erases(pixels, width, base, x, byte, k - 1) || (spec_bit(byte, k - 1) && (pixels[base
            + col] != spec_flips(width, x, byte, col, k - 1)))
    }
}

/// Whether one of the first `k` bits of the sprite row is set and meets a
/// pixel that is dark when the bit arrives, and so lights it.
pub open spec fn spec_lights(pixels: Seq<bool>, width: nat, base: int, x: u8, byte: u8, k: int) -> bool
    decreases k,
{
    if k <= 0 {
        false
    } else {
        let col = spec_column(width, x, k - 1);
        spec_lights(pixels, width, base, x, byte, k - 1) || (spec_bit(byte, k - 1) && (pixels[base
            + col] == spec_flips(width, x, byte, col, k - 1)))
    }
}

/// The index of the first pixel of the row on which a sprite row drawn at `y`
/// falls: rows wrap round at the bottom edge.
pub open spec fn spec_row_base(width: nat, height: nat, y: u8) -> int {
    (y as int % height as int) * width
}

/// The grid after the sprite row `byte` was drawn at `(x, y)`: in the row hit,
/// each pixel is turned over if the bits that fall on it say so; every other
/// pixel stays.
pub open spec fn spec_drawn(pixels: Seq<bool>, width: nat, height: nat, x: u8, y: u8, byte: u8) -> Seq<
    bool,
> {
    let base = spec_row_base(width, height, y);
    Seq::new(
        pixels.len(),
        |p: int|
            if base <= p < base + width {
                pixels[p] != spec_flips(width, x, byte, p - base, SPRITE_WIDTH as int)
            } else {
                pixels[p]
            },
    )
}

/// Whether drawing the sprite row `byte` at `(x, y)` puts a lit pixel out.
pub open spec fn spec_collides(pixels: Seq<bool>, width: nat, height: nat, x: u8, y: u8, byte: u8) -> bool {
    spec_erases(pixels, width, spec_row_base(width, height, y), x, byte, SPRITE_WIDTH as int)
}

/// The row at which row `k` of a sprite drawn at `y` is drawn: row numbers
/// wrap round at eight bits before they wrap round at the bottom edge.
pub open spec fn spec_sprite_row(y: u8, k: int) -> u8 {
    ((y + k) % 0x100) as u8
}

/// The grid after the first `k` rows of `sprite` were drawn at `(x, y)`, one
/// below the other.
pub open spec fn spec_sprite_drawn(
    pixels: Seq<bool>,
    width: nat,
    height: nat,
    x: u8,
    y: u8,
    sprite: Seq<u8>,
    k: nat,
) -> Seq<bool>
    decreases k,
{
    if k == 0 {
        pixels
    } else {
        spec_drawn(
            spec_sprite_drawn(pixels, width, height, x, y, sprite, (k - 1) as nat),
            width,
            height,
            x,
            spec_sprite_row(y, k - 1),
            sprite[k - 1],
        )
    }
}

/// Whether drawing the first `k` rows of `sprite` at `(x, y)` puts a lit pixel
/// out in any of the rows.
pub open spec fn spec_sprite_collides(
    pixels: Seq<bool>,
    width: nat,
    height: nat,
    x: u8,
    y: u8,
    sprite: Seq<u8>,
    k: nat,
) -> bool
    decreases k,
{
    if k == 0 {
        false
    } else {
        spec_sprite_collides(pixels, width, height, x, y, sprite, (k - 1) as nat) || spec_collides(
            spec_sprite_drawn(pixels, width, height, x, y, sprite, (k - 1) as nat),
            width,
            height,
            x,
            spec_sprite_row(y, k - 1),
            sprite[k - 1],
        )
    }
}

/// The row hit by a sprite row lies within the grid.
pub proof fn lemma_row_within(width: nat, height: nat, y: u8)
    requires
        width > 0,
        height > 0,
    ensures
        0 <= spec_row_base(width, height, y),
        spec_row_base(width, height, y) + width <= width * height,
{
    let row = y as int % height as int;
    assert(0 <= row * width && row * width + width <= width * height) by (nonlinear_arith)
        requires
            0 <= row < height,
            width > 0,
    ;
}

/// Drawing the same sprite row twice at the same place gives the grid back,
/// and the second drawing puts a lit pixel out exactly if the first lit one.
pub proof fn lemma_draw_twice(pixels: Seq<bool>, width: nat, height: nat, x: u8, y: u8, byte: u8)
    requires
        spec_fits(pixels, width, height),
    ensures
        spec_drawn(spec_drawn(pixels, width, height, x, y, byte), width, height, x, y, byte)
            == pixels,
        spec_collides(spec_drawn(pixels, width, height, x, y, byte), width, height, x, y, byte)
            == spec_lights(
            pixels,
            width,
            spec_row_base(width, height, y),
            x,
            byte,
            SPRITE_WIDTH as int,
        ),
{
    lemma_row_within(width, height, y);
    reveal_with_fuel(spec_flips, 9);
    reveal_with_fuel(spec_erases, 9);
    reveal_with_fuel(spec_lights, 9);
}

/// On a display at least as wide as a sprite, two different bits of a sprite
/// row fall on different columns.
pub proof fn lemma_columns_apart(width: nat, x: u8, i: int, j: int)
    requires
        width >= SPRITE_WIDTH,
        0 <= i < j < SPRITE_WIDTH,
    ensures
        spec_column(width, x, i) != spec_column(width, x, j),
{
    let w = width as int;
    let a = x + i;
    let b = x + j;
    assert(a % w != b % w) by (nonlinear_arith)
        requires
            w >= 8,
            0 <= a < b < a + 8,
    ;
}

/// On a display at least as wide as a sprite, drawing a sprite row turns over
/// the pixel under each set bit and no other, and puts a lit pixel out exactly
/// if a set bit falls on a lit pixel.
pub proof fn lemma_draw_wide(pixels: Seq<bool>, width: nat, height: nat, x: u8, y: u8, byte: u8)
    requires
        spec_fits(pixels, width, height),
        width >= SPRITE_WIDTH,
    ensures
        ({
            let base = spec_row_base(width, height, y);
            let drawn = spec_drawn(pixels, width, height, x, y, byte);
            &&& drawn.len() == pixels.len()
            &&& forall|i: int|
                0 <= i < SPRITE_WIDTH ==> drawn[base + #[trigger] spec_column(width, x, i)] == (
                pixels[base + spec_column(width, x, i)] != spec_bit(byte, i))
            &&& forall|p: int|
                0 <= p < pixels.len() && (forall|i: int|
                    0 <= i < SPRITE_WIDTH ==> p != base + #[trigger] spec_column(width, x, i))
                    ==> #[trigger] drawn[p] == pixels[p]
            &&& spec_collides(pixels, width, height, x, y, byte) <==> exists|i: int|
                0 <= i < SPRITE_WIDTH && spec_bit(byte, i) && pixels[base + #[trigger] spec_column(
                    width,
                    x,
                    i,
                )]
            &&& spec_lights(pixels, width, base, x, byte, SPRITE_WIDTH as int) <==> exists|i: int|
                0 <= i < SPRITE_WIDTH && spec_bit(byte, i) && !pixels[base + #[trigger] spec_column(
                    width,
                    x,
                    i,
                )]
        }),
{
    let base = spec_row_base(width, height, y);
    let drawn = spec_drawn(pixels, width, height, x, y, byte);
    lemma_row_within(width, height, y);
    assert forall|i: int, j: int| 0 <= i < j < 8 implies #[trigger] spec_column(width, x, i)
        != #[trigger] spec_column(width, x, j) by {
        lemma_columns_apart(width, x, i, j);
    }
    reveal_with_fuel(spec_flips, 9);
    reveal_with_fuel(spec_erases, 9);
    reveal_with_fuel(spec_lights, 9);
    assert forall|i: int| 0 <= i < SPRITE_WIDTH implies drawn[base + #[trigger] spec_column(
        width,
        x,
        i,
    )] == (pixels[base + spec_column(width, x, i)] != spec_bit(byte, i)) by {
    }
    assert forall|p: int|
        0 <= p < pixels.len() && (forall|i: int|
            0 <= i < SPRITE_WIDTH ==> p != base + #[trigger] spec_column(
                width,
                x,
                i,
            )) implies #[trigger] drawn[p] == pixels[p] by {
    }
    assert forall|i: int|
        0 <= i < SPRITE_WIDTH && spec_bit(byte, i) && pixels[base + #[trigger] spec_column(
            width,
            x,
            i,
        )] implies spec_collides(pixels, width, height, x, y, byte) by {
    }
    assert forall|i: int|
        0 <= i < SPRITE_WIDTH && spec_bit(byte, i) && !pixels[base + #[trigger] spec_column(
            width,
            x,
            i,
        )] implies spec_lights(pixels, width, base, x, byte, SPRITE_WIDTH as int) by {
    }
}

/// Drawing a sprite leaves the grid as large as it was.
pub proof fn lemma_sprite_keeps_len(
    pixels: Seq<bool>,
    width: nat,
    height: nat,
    x: u8,
    y: u8,
    sprite: Seq<u8>,
    k: nat,
)
    ensures
        spec_sprite_drawn(pixels, width, height, x, y, sprite, k).len() == pixels.len(),
    decreases k,
{
    if k > 0 {
        lemma_sprite_keeps_len(pixels, width, height, x, y, sprite, (k - 1) as nat);
    }
}

/// A monochrome display: a grid of pixels stored row after row, with its
/// dimensions. The host implements the four accessors over whatever buffer it
/// keeps; clearing and drawing are built on them.
pub trait Screen {
    /// The pixels, row after row. What they are is for the display to say.
    open spec fn pixels(&self) -> Seq<bool> {
        arbitrary()
    }

    /// Number of pixels in a row. What it is is for the display to say.
    open spec fn width(&self) -> nat {
        arbitrary()
    }

    /// Number of rows. What it is is for the display to say.
    open spec fn height(&self) -> nat {
        arbitrary()
    }

    /// The pixels, to read.
    fn as_slice(&self) -> (s: &[bool])
        ensures
            s@ == self.pixels(),
    ;

    /// The pixels, to change. The dimensions stay as they are.
    fn as_mut_slice(&mut self) -> (s: &mut [bool])
        ensures
            s@ == old(self).pixels(),
            final(self).pixels() == final(s)@,
            final(self).width() == old(self).width(),
            final(self).height() == old(self).height(),
    ;

    /// Number of pixels in a row.
    fn get_width(&self) -> (w: usize)
        ensures
            w == self.width(),
    ;

    /// Number of rows.
    fn get_height(&self) -> (h: usize)
        ensures
            h == self.height(),
    ;

    /// Puts every pixel out.
    fn clear(&mut self)
        ensures
            final(self).pixels() == Seq::new(old(self).pixels().len(), |p: int| false),
            final(self).width() == old(self).width(),
            final(self).height() == old(self).height(),
    {
        let px = self.as_mut_slice();
        let n: usize = px.len();
        let mut i: usize = 0;
        while i < n
            invariant
                n == px@.len(),
                i <= n,
                forall|p: int| 0 <= p < i ==> px@[p] == false,
            decreases n - i,
        {
            px[i] = false;
            i += 1;
        }
    }

    /// Draws one sprite row at `(x, y)` by exclusive or: each set bit of `byte`
    /// turns one pixel over, the leftmost bit the pixel in column `x`, columns
    /// and the row wrapping round at the edges. Says whether a lit pixel was
    /// put out.
    fn draw(&mut self, x: u8, y: u8, byte: u8) -> (collided: bool)
        requires
            spec_fits(old(self).pixels(), old(self).width(), old(self).height()),
        ensures
            final(self).pixels() == spec_drawn(
                old(self).pixels(),
                old(self).width(),
                old(self).height(),
                x,
                y,
                byte,
            ),
            collided == spec_collides(
                old(self).pixels(),
                old(self).width(),
                old(self).height(),
                x,
                y,
                byte,
            ),
            final(self).width() == old(self).width(),
            final(self).height() == old(self).height(),
    {
        let width: usize = self.get_width();
        let height: usize = self.get_height();
        let len: usize = self.as_slice().len();
        let row: usize = (y as usize) % height;
        assert(row * width + width <= len) by (nonlinear_arith)
            requires
                row < height,
                len == width * height,
        ;
        let base: usize = row * width;
        let ghost before = self.pixels();
        let line = self.as_mut_slice();
        let mut erased = false;
        let mut i: u8 = 0;
        while i < SPRITE_WIDTH
            invariant
                i <= SPRITE_WIDTH,
                width > 0,
                base + width <= len,
                line@.len() == len,
                before.len() == len,
                forall|p: int|
                    0 <= p < len ==> line@[p] == (if base <= p < base + width {
                        before[p] != spec_flips(width as nat, x, byte, p - base, i as int)
                    } else {
                        before[p]
                    }),
                erased == spec_erases(before, width as nat, base as int, x, byte, i as int),
            decreases SPRITE_WIDTH - i,
        {
            let col: usize = ((x as usize) + (i as usize)) % width;
            let px: bool = ((byte << i) & 0x80) != 0x00;
            assert(px == spec_bit(byte, i as int)) by (bit_vector)
                requires
                    i < 8,
                    px == (((byte << i) & 0x80) != 0x00),
            ;
            let lit: bool = line[base + col];
            line[base + col] = lit != px;
            erased = erased || (lit && px);
            i += 1;
        }
        erased
    }

    /// The dimensions: width, then height.
    fn size(&self) -> (size: (usize, usize))
        ensures
            size.0 == self.width(),
            size.1 == self.height(),
    {
        (self.get_width(), self.get_height())
    }
}

} // verus!
