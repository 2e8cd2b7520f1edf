//! 64x32 monochrome pixel grid with toroidal (wrap-around) addressing,
//! a clear operation, and XOR sprite drawing with collision detection.

use vstd::prelude::*;
use vstd::arithmetic::div_mod::{
    lemma_mod_equivalence, lemma_small_mod, lemma_mod_bound,
};

verus! {

/// Width of the pixel grid.
pub const WIDTH: usize = 64;
/// Height of the pixel grid.
pub const HEIGHT: usize = 32;
/// Number of pixels in the grid.
pub const AREA: usize = WIDTH * HEIGHT;

const WIDTH_MASK: usize = 63;
const HEIGHT_MASK: usize = 31;

/// State of one pixel.
#[derive(Clone, Copy, Debug, PartialEq, Eq, Structural)]
pub enum Pixel {
    Off,
    On,
}

impl Pixel {
    /// The opposite state.
    pub open spec fn spec_invert(self) -> Pixel {
        match self {
            Pixel::Off => Pixel::On,
            Pixel::On => Pixel::Off,
        }
    }

    /// Flips the pixel state.
    pub fn invert(self) -> (r: Pixel)
        ensures
            r == self.spec_invert(),
    {
        match self {
            Pixel::Off => Pixel::On,
            Pixel::On => Pixel::Off,
        }
    }

    /// `self` flipped when `b` holds, unchanged otherwise.
    pub open spec fn spec_flip_if(self, b: bool) -> Pixel {
        if b {
            self.spec_invert()
        } else {
            self
        }
    }
}

/// Whether column `c` (0-based from the left) of the sprite row byte `tile`
/// is set. Only the seven leftmost columns of a row are ever drawn: column
/// `c` reads bit `7 - c`, so bit 0 of the byte is never consulted.
pub open spec fn sprite_bit(tile: usize, c: int) -> bool {
    (tile >> ((7 - c) as usize)) & 1 == 1
}

/// Whether the pixel at canonical coordinates `(px, py)` is painted by the
/// first `c` columns of a sprite row `tile` drawn at `(x, y + row)`.
pub open spec fn row_hit(x: int, y: int, row: int, tile: usize, c: int, px: int, py: int) -> bool {
    py == (y + row) % (HEIGHT as int) && exists|cc: int|
        0 <= cc < c && px == (x + cc) % (WIDTH as int) && sprite_bit(tile, cc)
}

/// Whether the pixel at canonical coordinates `(px, py)` is painted by any
/// row of the sprite `rows` drawn at `(x, y)`.
pub open spec fn sprite_hit(rows: Seq<(usize, usize)>, x: int, y: int, px: int, py: int) -> bool {
    exists|i: int|
        0 <= i < rows.len() && #[trigger] row_hit(x, y, rows[i].0 as int, rows[i].1, 7, px, py)
}

/// 64x32 grid of binary pixels. Coordinates wrap modulo the width and
/// height, giving toroidal addressing.
pub struct Display {
    buffer: Vec<Pixel>,
}

impl Display {
    /// The backing row-major buffer holds exactly one slot per pixel.
    pub closed spec fn wf(&self) -> bool {
        self.buffer@.len() == AREA
    }

    /// The pixel any integer coordinate pair refers to, after wrap-around.
    pub closed spec fn pixel_at(&self, x: int, y: int) -> Pixel {
        self.buffer@[(y % (HEIGHT as int)) * (WIDTH as int) + x % (WIDTH as int)]
    }

    /// Creates an all-off display.
    pub fn new() -> (d: Display)
        ensures
            d.wf(),
            forall|x: int, y: int| #[trigger] d.pixel_at(x, y) == Pixel::Off,
    {
        let d = Display { buffer: vec![Pixel::Off; 2048] };
        proof {
            assert forall|x: int, y: int| #[trigger] d.pixel_at(x, y) == Pixel::Off by {
                lemma_mod_bound(x, WIDTH as int);
                lemma_mod_bound(y, HEIGHT as int);
            }
        }
        d
    }

    /// Reads the pixel at `(x, y)`, wrapping both coordinates.
    pub fn pixel(&self, x: usize, y: usize) -> (p: Pixel)
        requires
            self.wf(),
        ensures
            p == self.pixel_at(x as int, y as int),
    {
        proof {
            lemma_usize_low_masks(x);
            lemma_usize_low_masks(y);
        }
        self.buffer[(y & HEIGHT_MASK) * WIDTH + (x & WIDTH_MASK)]
    }

    /// Writes the pixel at `(x, y)`, wrapping both coordinates.
    pub fn set_pixel(&mut self, x: usize, y: usize, pixel: Pixel)
        requires
            old(self).wf(),
        ensures
            final(self).wf(),
            forall|i: int, j: int|
                #[trigger] final(self).pixel_at(i, j) == (
                    if i % (WIDTH as int) == x as int % (WIDTH as int)
                        && j % (HEIGHT as int) == y as int % (HEIGHT as int) {
                        pixel
                    } else {
                        old(self).pixel_at(i, j)
                    }),
    {
        proof {
            lemma_usize_low_masks(x);
            lemma_usize_low_masks(y);
        }
        self.buffer.set((y & HEIGHT_MASK) * WIDTH + (x & WIDTH_MASK), pixel);
        proof {
            assert forall|i: int, j: int|
                #[trigger] final(self).pixel_at(i, j) == (
                    if i % (WIDTH as int) == x as int % (WIDTH as int)
                        && j % (HEIGHT as int) == y as int % (HEIGHT as int) {
                        pixel
                    } else {
                        old(self).pixel_at(i, j)
                    }) by {
                lemma_mod_bound(i, WIDTH as int);
                lemma_mod_bound(j, HEIGHT as int);
            }
        }
    }

    /// Handler for the `cls` instruction: turns every pixel off.
    pub fn cls(&mut self)
        requires
            old(self).wf(),
        ensures
            final(self).wf(),
            forall|x: int, y: int| #[trigger] final(self).pixel_at(x, y) == Pixel::Off,
    {
        let mut y: usize = 0;
        while y < HEIGHT
            invariant
                self.wf(),
                y <= HEIGHT,
                forall|i: int, j: int|
                    0 <= j % (HEIGHT as int) < y ==> #[trigger] self.pixel_at(i, j) == Pixel::Off,
            decreases HEIGHT - y,
        {
            let mut x: usize = 0;
            while x < WIDTH
                invariant
                    self.wf(),
                    y < HEIGHT,
                    x <= WIDTH,
                    forall|i: int, j: int|
                        0 <= j % (HEIGHT as int) < y ==> #[trigger] self.pixel_at(i, j) == Pixel::Off,
                    forall|i: int, j: int|
                        j % (HEIGHT as int) == y && 0 <= i % (WIDTH as int) < x
                            ==> #[trigger] self.pixel_at(i, j) == Pixel::Off,
                decreases WIDTH - x,
            {
                self.set_pixel(x, y, Pixel::Off);
                proof {
                    lemma_small_mod(x as nat, WIDTH as nat);
                    lemma_small_mod(y as nat, HEIGHT as nat);
                }
                x = x + 1;
            }
            y = y + 1;
        }
        proof {
            assert forall|x: int, y: int| #[trigger] final(self).pixel_at(x, y) == Pixel::Off by {
                lemma_mod_bound(y, HEIGHT as int);
            }
        }
    }
}

/// Whether the pixel at canonical coordinates `(px, py)` is painted while a
/// draw is part-way through: either by one of the first `r` full rows, or by
/// the first `c` columns of the row `r` itself (whose byte is `tile`).
pub open spec fn partial_hit(
    rows: Seq<(usize, usize)>,
    x: int,
    y: int,
    r: int,
    tile: usize,
    c: int,
    px: int,
    py: int,
) -> bool {
    sprite_hit(rows.take(r), x, y, px, py) || row_hit(x, y, r, tile, c, px, py)
}

/// Whether some pixel of `d` that is on lies under a set bit of the sprite
/// `rows` drawn at `(x, y)`: the collision condition of `drw`.
pub open spec fn sprite_collides(d: Display, rows: Seq<(usize, usize)>, x: int, y: int) -> bool {
    exists|px: int, py: int|
        0 <= px < WIDTH && 0 <= py < HEIGHT && #[trigger] sprite_hit(rows, x, y, px, py)
            && d.pixel_at(px, py) is On
}

/// The collision condition part-way through a draw, mirroring `partial_hit`.
spec fn partial_collides(
    d: Display,
    rows: Seq<(usize, usize)>,
    x: int,
    y: int,
    r: int,
    tile: usize,
    c: int,
) -> bool {
    exists|px: int, py: int|
        0 <= px < WIDTH && 0 <= py < HEIGHT
            && #[trigger] partial_hit(rows, x, y, r, tile, c, px, py) && d.pixel_at(px, py) is On
}

impl Display {
    /// Handler for the `drw` instruction: XOR-draws a sprite whose rows are
    /// `(row_index, byte)` pairs, one pair per row in order, at `(x, y)`.
    /// A pixel already on that a sprite bit lands on counts as a collision
    /// and is turned off by the XOR; the return value reports whether any
    /// collision happened. Coordinates come from 8-bit registers, so they
    /// are below 256.
    pub fn drw(&mut self, x: usize, y: usize, sprite_data: &[(usize, usize)]) -> (collision: bool)
        requires
            old(self).wf(),
            x < 256,
            y < 256,
            sprite_data@.len() <= 15,
            forall|i: int| 0 <= i < sprite_data@.len() ==> (#[trigger] sprite_data@[i]).0 == i,
        ensures
            final(self).wf(),
            forall|px: int, py: int|
                0 <= px < WIDTH && 0 <= py < HEIGHT ==> #[trigger] final(self).pixel_at(px, py)
                    == old(self).pixel_at(px, py).spec_flip_if(
                        sprite_hit(sprite_data@, x as int, y as int, px, py),
                    ),
            collision == sprite_collides(*old(self), sprite_data@, x as int, y as int),
    {
        let ghost rows = sprite_data@;
        let ghost xi = x as int;
        let ghost yi = y as int;
        let mut collision = false;
        let mut r: usize = 0;
        proof {
            assert(rows.take(0) =~= Seq::<(usize, usize)>::empty());
            assert(!sprite_collides(*old(self), rows.take(0), xi, yi)) by {
                if sprite_collides(*old(self), rows.take(0), xi, yi) {
                    let (px, py) = choose|px: int, py: int|
                        0 <= px < WIDTH && 0 <= py < HEIGHT
                            && #[trigger] sprite_hit(rows.take(0), xi, yi, px, py)
                            && old(self).pixel_at(px, py) is On;
                }
            }
        }
        while r < sprite_data.len()
            invariant
                self.wf(),
                rows == sprite_data@,
                r <= rows.len(),
                rows.len() <= 15,
                x < 256,
                y < 256,
                xi == x as int,
                yi == y as int,
                forall|i: int| 0 <= i < rows.len() ==> (#[trigger] rows[i]).0 == i,
                forall|px: int, py: int|
                    0 <= px < WIDTH && 0 <= py < HEIGHT ==> #[trigger] self.pixel_at(px, py)
                        == old(self).pixel_at(px, py).spec_flip_if(
                            sprite_hit(rows.take(r as int), xi, yi, px, py),
                        ),
                collision == sprite_collides(*old(self), rows.take(r as int), xi, yi),
            decreases rows.len() - r,
        {
            let (row, tile) = sprite_data[r];
            proof {
                assert(rows[r as int] == (row, tile));
                assert(row == r);
            }
            let ghost ri = r as int;
            proof {
                lemma_collides_entry(*old(self), rows, xi, yi, ri, tile);
            }
            let mut c: usize = 0;
            while c < 7
                invariant
                    self.wf(),
                    rows == sprite_data@,
                    r < rows.len(),
                    rows.len() <= 15,
                    x < 256,
                    y < 256,
                    xi == x as int,
                    yi == y as int,
                    ri == r as int,
                    row == r,
                    tile == rows[ri].1,
                    c <= 7,
                    forall|i: int| 0 <= i < rows.len() ==> (#[trigger] rows[i]).0 == i,
                    forall|px: int, py: int|
                        0 <= px < WIDTH && 0 <= py < HEIGHT ==> #[trigger] self.pixel_at(px, py)
                            == old(self).pixel_at(px, py).spec_flip_if(
                                partial_hit(rows, xi, yi, ri, tile, c as int, px, py),
                            ),
                    collision == partial_collides(*old(self), rows, xi, yi, ri, tile, c as int),
                decreases 7 - c,
            {
                let ghost ci = c as int;
                let ghost px0 = (xi + ci) % (WIDTH as int);
                let ghost py0 = (yi + ri) % (HEIGHT as int);
                proof {
                    lemma_mod_bound(xi + ci, WIDTH as int);
                    lemma_mod_bound(yi + ri, HEIGHT as int);
                    lemma_small_mod(px0 as nat, WIDTH as nat);
                    lemma_small_mod(py0 as nat, HEIGHT as nat);
                }
                let bit = (tile >> (7 - c)) & 1;
                if bit == 1 {
                    proof {
                        assert(sprite_bit(tile, ci));
                        // The current target was not painted yet: its column
                        // is new in this row, and every earlier row lands on
                        // a different screen row.
                        assert(!partial_hit(rows, xi, yi, ri, tile, ci, px0, py0)) by {
                            if row_hit(xi, yi, ri, tile, ci, px0, py0) {
                                let cc = choose|cc: int|
                                    0 <= cc < ci && px0 == (xi + cc) % (WIDTH as int)
                                        && sprite_bit(tile, cc);
                                lemma_mod_shift_inj(xi, cc, ci, WIDTH as int);
                                assert(false);
                            }
                            if sprite_hit(rows.take(ri), xi, yi, px0, py0) {
                                let i = choose|i: int|
                                    0 <= i < rows.take(ri).len() && #[trigger] row_hit(
                                        xi, yi, rows.take(ri)[i].0 as int, rows.take(ri)[i].1, 7, px0, py0,
                                    );
                                assert(rows.take(ri)[i] == rows[i]);
                                lemma_mod_shift_inj(yi, i, ri, HEIGHT as int);
                                assert(false);
                            }
                        }
                    }
                    let prev = self.pixel(c + x, row + y);
                    proof {
                        assert(prev == self.pixel_at(px0, py0));
                        assert(prev == old(self).pixel_at(px0, py0));
                    }
                    let ghost col_before = collision;
                    if let Pixel::On = prev {
                        collision = true;
                    }
                    let ghost mid = *self;
                    self.set_pixel(c + x, row + y, prev.invert());
                    proof {
                        assert forall|px: int, py: int|
                            0 <= px < WIDTH && 0 <= py < HEIGHT implies #[trigger] self.pixel_at(px, py)
                                == old(self).pixel_at(px, py).spec_flip_if(
                                    partial_hit(rows, xi, yi, ri, tile, ci + 1, px, py),
                                ) by {
                            lemma_partial_hit_step(rows, xi, yi, ri, tile, ci, px, py);
                            if px == px0 && py == py0 {
                                assert(self.pixel_at(px, py) == prev.spec_invert());
                                assert(partial_hit(rows, xi, yi, ri, tile, ci + 1, px, py));
                            } else {
                                assert(self.pixel_at(px, py) == mid.pixel_at(px, py)) by {
                                    lemma_small_mod(px as nat, WIDTH as nat);
                                    lemma_small_mod(py as nat, HEIGHT as nat);
                                }
                            }
                        }
                        lemma_collides_step(*old(self), rows, xi, yi, ri, tile, ci);
                        assert(collision == partial_collides(*old(self), rows, xi, yi, ri, tile, ci + 1));
                    }
                } else {
                    proof {
                        assert(!sprite_bit(tile, ci));
                        assert forall|px: int, py: int|
                            partial_hit(rows, xi, yi, ri, tile, ci + 1, px, py)
                                == #[trigger] partial_hit(rows, xi, yi, ri, tile, ci, px, py) by {
                            lemma_partial_hit_step(rows, xi, yi, ri, tile, ci, px, py);
                        }
                        lemma_collides_step(*old(self), rows, xi, yi, ri, tile, ci);
                        assert(collision == partial_collides(*old(self), rows, xi, yi, ri, tile, ci + 1));
                    }
                }
                c = c + 1;
            }
            proof {
                assert forall|px: int, py: int|
                    #[trigger] sprite_hit(rows.take(ri + 1), xi, yi, px, py)
                        == partial_hit(rows, xi, yi, ri, tile, 7, px, py) by {
                    lemma_row_done(rows, xi, yi, ri, tile, px, py);
                }
                lemma_collides_row_done(*old(self), rows, xi, yi, ri, tile);
            }
            r = r + 1;
        }
        proof {
            assert(rows.take(rows.len() as int) =~= rows);
        }
        collision
    }
}

/// At the start of a row no column has been drawn yet, so the pixels
/// painted so far are exactly those of the earlier rows.
proof fn lemma_collides_entry(
    d: Display,
    rows: Seq<(usize, usize)>,
    x: int,
    y: int,
    r: int,
    tile: usize,
)
    ensures
        partial_collides(d, rows, x, y, r, tile, 0) == sprite_collides(d, rows.take(r), x, y),
{
    if partial_collides(d, rows, x, y, r, tile, 0) {
        let (px, py) = choose|px: int, py: int|
            0 <= px < WIDTH && 0 <= py < HEIGHT
                && #[trigger] partial_hit(rows, x, y, r, tile, 0, px, py) && d.pixel_at(px, py) is On;
        assert(!row_hit(x, y, r, tile, 0, px, py));
        assert(sprite_hit(rows.take(r), x, y, px, py));
    }
    if sprite_collides(d, rows.take(r), x, y) {
        let (px, py) = choose|px: int, py: int|
            0 <= px < WIDTH && 0 <= py < HEIGHT
                && #[trigger] sprite_hit(rows.take(r), x, y, px, py) && d.pixel_at(px, py) is On;
        assert(partial_hit(rows, x, y, r, tile, 0, px, py));
    }
}

/// One column step changes the collision condition by at most the current
/// target pixel.
proof fn lemma_collides_step(
    d: Display,
    rows: Seq<(usize, usize)>,
    x: int,
    y: int,
    r: int,
    tile: usize,
    c: int,
)
    requires
        0 <= c < 7,
    ensures
        partial_collides(d, rows, x, y, r, tile, c + 1) == (partial_collides(d, rows, x, y, r, tile, c)
            || (sprite_bit(tile, c)
                && d.pixel_at((x + c) % (WIDTH as int), (y + r) % (HEIGHT as int)) is On)),
{
    let px0 = (x + c) % (WIDTH as int);
    let py0 = (y + r) % (HEIGHT as int);
    lemma_mod_bound(x + c, WIDTH as int);
    lemma_mod_bound(y + r, HEIGHT as int);
    if partial_collides(d, rows, x, y, r, tile, c + 1) {
        let (px, py) = choose|px: int, py: int|
            0 <= px < WIDTH && 0 <= py < HEIGHT
                && #[trigger] partial_hit(rows, x, y, r, tile, c + 1, px, py)
                && d.pixel_at(px, py) is On;
        lemma_partial_hit_step(rows, x, y, r, tile, c, px, py);
        if partial_hit(rows, x, y, r, tile, c, px, py) {
            assert(partial_collides(d, rows, x, y, r, tile, c));
        }
    }
    if partial_collides(d, rows, x, y, r, tile, c) {
        let (px, py) = choose|px: int, py: int|
            0 <= px < WIDTH && 0 <= py < HEIGHT
                && #[trigger] partial_hit(rows, x, y, r, tile, c, px, py) && d.pixel_at(px, py) is On;
        lemma_partial_hit_step(rows, x, y, r, tile, c, px, py);
        assert(partial_hit(rows, x, y, r, tile, c + 1, px, py));
        assert(partial_collides(d, rows, x, y, r, tile, c + 1));
    }
    if sprite_bit(tile, c) && d.pixel_at(px0, py0) is On {
        lemma_partial_hit_step(rows, x, y, r, tile, c, px0, py0);
        assert(partial_hit(rows, x, y, r, tile, c + 1, px0, py0));
        assert(partial_collides(d, rows, x, y, r, tile, c + 1));
    }
}

/// After the last column of row `r`, the collision condition covers exactly
/// the first `r + 1` rows.
proof fn lemma_collides_row_done(
    d: Display,
    rows: Seq<(usize, usize)>,
    x: int,
    y: int,
    r: int,
    tile: usize,
)
    requires
        0 <= r < rows.len(),
        rows[r].0 == r,
        rows[r].1 == tile,
        forall|i: int| 0 <= i < rows.len() ==> (#[trigger] rows[i]).0 == i,
    ensures
        partial_collides(d, rows, x, y, r, tile, 7) == sprite_collides(d, rows.take(r + 1), x, y),
{
    if partial_collides(d, rows, x, y, r, tile, 7) {
        let (px, py) = choose|px: int, py: int|
            0 <= px < WIDTH && 0 <= py < HEIGHT
                && #[trigger] partial_hit(rows, x, y, r, tile, 7, px, py) && d.pixel_at(px, py) is On;
        lemma_row_done(rows, x, y, r, tile, px, py);
        assert(sprite_hit(rows.take(r + 1), x, y, px, py));
        assert(sprite_collides(d, rows.take(r + 1), x, y));
    }
    if sprite_collides(d, rows.take(r + 1), x, y) {
        let (px, py) = choose|px: int, py: int|
            0 <= px < WIDTH && 0 <= py < HEIGHT
                && #[trigger] sprite_hit(rows.take(r + 1), x, y, px, py) && d.pixel_at(px, py) is On;
        lemma_row_done(rows, x, y, r, tile, px, py);
        assert(partial_hit(rows, x, y, r, tile, 7, px, py));
        assert(partial_collides(d, rows, x, y, r, tile, 7));
    }
}

/// One column step of a draw either adds exactly the current target pixel
/// (when the sprite bit is set) or adds nothing.
proof fn lemma_partial_hit_step(
    rows: Seq<(usize, usize)>,
    x: int,
    y: int,
    r: int,
    tile: usize,
    c: int,
    px: int,
    py: int,
)
    requires
        0 <= c < 7,
    ensures
        partial_hit(rows, x, y, r, tile, c + 1, px, py) == (partial_hit(rows, x, y, r, tile, c, px, py)
            || (sprite_bit(tile, c) && px == (x + c) % (WIDTH as int) && py == (y + r) % (HEIGHT as int))),
{
    if partial_hit(rows, x, y, r, tile, c + 1, px, py) {
        if row_hit(x, y, r, tile, c + 1, px, py) {
            let cc = choose|cc: int|
                0 <= cc < c + 1 && px == (x + cc) % (WIDTH as int) && sprite_bit(tile, cc);
            if cc < c {
                assert(row_hit(x, y, r, tile, c, px, py));
            }
        }
    }
    if partial_hit(rows, x, y, r, tile, c, px, py) {
        if row_hit(x, y, r, tile, c, px, py) {
            let cc = choose|cc: int|
                0 <= cc < c && px == (x + cc) % (WIDTH as int) && sprite_bit(tile, cc);
            assert(row_hit(x, y, r, tile, c + 1, px, py));
        }
    }
    if sprite_bit(tile, c) && px == (x + c) % (WIDTH as int) && py == (y + r) % (HEIGHT as int) {
        assert(row_hit(x, y, r, tile, c + 1, px, py));
    }
}

/// After all seven columns of row `r` are drawn, the pixels painted so far
/// are exactly those painted by the first `r + 1` rows.
proof fn lemma_row_done(
    rows: Seq<(usize, usize)>,
    x: int,
    y: int,
    r: int,
    tile: usize,
    px: int,
    py: int,
)
    requires
        0 <= r < rows.len(),
        rows[r].0 == r,
        rows[r].1 == tile,
        forall|i: int| 0 <= i < rows.len() ==> (#[trigger] rows[i]).0 == i,
    ensures
        sprite_hit(rows.take(r + 1), x, y, px, py) == partial_hit(rows, x, y, r, tile, 7, px, py),
{
    let whole = rows.take(r + 1);
    assert(whole.len() == r + 1);
    if sprite_hit(whole, x, y, px, py) {
        let i = choose|i: int|
            0 <= i < whole.len() && #[trigger] row_hit(x, y, whole[i].0 as int, whole[i].1, 7, px, py);
        assert(whole[i] == rows[i]);
        if i < r {
            assert(rows.take(r)[i] == rows[i]);
            assert(row_hit(x, y, rows.take(r)[i].0 as int, rows.take(r)[i].1, 7, px, py));
            assert(sprite_hit(rows.take(r), x, y, px, py));
        } else {
            assert(row_hit(x, y, r, tile, 7, px, py));
        }
    }
    if partial_hit(rows, x, y, r, tile, 7, px, py) {
        if sprite_hit(rows.take(r), x, y, px, py) {
            let i = choose|i: int|
                0 <= i < rows.take(r).len() && #[trigger] row_hit(
                    x, y, rows.take(r)[i].0 as int, rows.take(r)[i].1, 7, px, py,
                );
            assert(rows.take(r)[i] == rows[i]);
            assert(whole[i] == rows[i]);
            assert(row_hit(x, y, whole[i].0 as int, whole[i].1, 7, px, py));
            assert(sprite_hit(whole, x, y, px, py));
        } else {
            assert(whole[r] == rows[r]);
            assert(row_hit(x, y, whole[r].0 as int, whole[r].1, 7, px, py));
            assert(sprite_hit(whole, x, y, px, py));
        }
    }
}

/// Adding two distinct offsets below the modulus to the same base yields
/// distinct remainders.
proof fn lemma_mod_shift_inj(a: int, i: int, j: int, m: int)
    requires
        m > 0,
        0 <= i < m,
        0 <= j < m,
        (a + i) % m == (a + j) % m,
    ensures
        i == j,
{
    lemma_mod_equivalence(a + i, a + j, m);
    if i >= j {
        lemma_small_mod((i - j) as nat, m as nat);
    } else {
        lemma_small_mod((j - i) as nat, m as nat);
        lemma_mod_equivalence(a + j, a + i, m);
    }
}

/// Low-bit masking of an unsigned machine word agrees with taking the
/// remainder by the corresponding power of two, and stays within range.
proof fn lemma_usize_low_masks(v: usize)
    by (bit_vector)
    ensures
        v & 63 == v % 64,
        v & 31 == v % 32,
        v & 63 < 64,
        v & 31 < 32,
{
}

/// XOR drawing is self-inverse: drawing the identical sprite at the
/// identical position twice in a row returns every pixel to its pre-draw
/// state. The second draw reports a collision exactly where a sprite bit
/// lands on a pixel that the first draw turned on, that is, one that was
/// off before the first draw.
///
/// `d0` is the display before the first draw, `d1` the display after it and
/// `d2` the display after the second; the two hypotheses are the
/// postcondition of `drw` for each draw in turn.
pub proof fn lemma_drw_round_trip(
    d0: Display,
    d1: Display,
    d2: Display,
    rows: Seq<(usize, usize)>,
    x: int,
    y: int,
)
    requires
        forall|px: int, py: int|
            0 <= px < WIDTH && 0 <= py < HEIGHT ==> #[trigger] d1.pixel_at(px, py)
                == d0.pixel_at(px, py).spec_flip_if(sprite_hit(rows, x, y, px, py)),
        forall|px: int, py: int|
            0 <= px < WIDTH && 0 <= py < HEIGHT ==> #[trigger] d2.pixel_at(px, py)
                == d1.pixel_at(px, py).spec_flip_if(sprite_hit(rows, x, y, px, py)),
    ensures
        forall|px: int, py: int|
            0 <= px < WIDTH && 0 <= py < HEIGHT ==> #[trigger] d2.pixel_at(px, py) == d0.pixel_at(
                px,
                py,
            ),
        sprite_collides(d1, rows, x, y) == exists|px: int, py: int|
            0 <= px < WIDTH && 0 <= py < HEIGHT && #[trigger] sprite_hit(rows, x, y, px, py)
                && d0.pixel_at(px, py) is Off,
{
    if sprite_collides(d1, rows, x, y) {
        let (px, py) = choose|px: int, py: int|
            0 <= px < WIDTH && 0 <= py < HEIGHT && #[trigger] sprite_hit(rows, x, y, px, py)
                && d1.pixel_at(px, py) is On;
        assert(d0.pixel_at(px, py) is Off);
    }
    if exists|px: int, py: int|
        0 <= px < WIDTH && 0 <= py < HEIGHT && #[trigger] sprite_hit(rows, x, y, px, py)
            && d0.pixel_at(px, py) is Off {
        let (px, py) = choose|px: int, py: int|
            0 <= px < WIDTH && 0 <= py < HEIGHT && #[trigger] sprite_hit(rows, x, y, px, py)
                && d0.pixel_at(px, py) is Off;
        assert(d1.pixel_at(px, py) is On);
    }
}

/// Drawing wraps around both edges of the screen: coordinates one full
/// width or height apart refer to the same pixel.
pub proof fn lemma_pixel_wraparound(d: &Display, x: int, y: int)
    ensures
        d.pixel_at(x + WIDTH as int, y) == d.pixel_at(x, y),
        d.pixel_at(x, y + HEIGHT as int) == d.pixel_at(x, y),
{
    broadcast use vstd::arithmetic::div_mod::lemma_mod_add_multiples_vanish;

    assert((x + WIDTH as int) % (WIDTH as int) == x % (WIDTH as int));
    assert((y + HEIGHT as int) % (HEIGHT as int) == y % (HEIGHT as int));
}

} // verus!
