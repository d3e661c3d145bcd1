//! The display buffer: a 64 x 32 grid of pixels, addressed `[x][y]`, onto
//! which sprites are drawn by exclusive or, wrapping at both edges.

use vstd::prelude::*;

verus! {

/// Number of pixel columns.
pub const WIDTH: usize = 64;

/// Number of pixel rows.
pub const HEIGHT: usize = 32;

/// Whether `grid` has the shape of a display: `WIDTH` columns of `HEIGHT` pixels.
pub open spec fn grid_wf(grid: Seq<Seq<bool>>) -> bool {
    &&& grid.len() == WIDTH
    &&& forall|x: int| 0 <= x < WIDTH ==> (#[trigger] grid[x]).len() == HEIGHT
}

/// The grid with every pixel off.
pub open spec fn blank() -> Seq<Seq<bool>> {
    Seq::new(WIDTH as nat, |x: int| Seq::new(HEIGHT as nat, |y: int| false))
}

/// Whether pixel `b` of a sprite row is set, counting from the left: the
/// leftmost pixel is the byte's most significant bit.
pub open spec fn sprite_bit(row: u8, b: int) -> bool {
    0 <= b < 8 && row & (0x80u8 >> (b as u8)) != 0
}

/// How many columns lie between column `x0` and column `x`, going right and
/// wrapping round the right edge.
pub open spec fn steps_right(x0: int, x: int) -> int {
    (x - x0) % (WIDTH as int)
}

/// How many rows lie between row `y0` and row `y`, going down and wrapping
/// round the bottom edge.
pub open spec fn steps_down(y0: int, y: int) -> int {
    (y - y0) % (HEIGHT as int)
}

/// Whether a sprite row placed with its left edge in column `x0` has a set
/// pixel in column `x`, the row wrapping round the right edge.
pub open spec fn row_covers(x0: int, row: u8, x: int) -> bool {
    sprite_bit(row, steps_right(x0, x))
}

/// Whether `sprite`, placed with its top left corner at `(x0, y0)`, has a set
/// pixel at `(x, y)`. Row `r` of the sprite lies in display row
/// `(y0 + r) mod HEIGHT`.
pub open spec fn sprite_covers(x0: int, y0: int, sprite: Seq<u8>, x: int, y: int) -> bool {
    let r = steps_down(y0, y);
    r < sprite.len() && row_covers(x0, sprite[r], x)
}

/// The grid after `sprite` is drawn at `(x0, y0)`: every pixel that the
/// sprite covers is flipped, every other pixel is kept.
pub open spec fn drawn(grid: Seq<Seq<bool>>, x0: int, y0: int, sprite: Seq<u8>) -> Seq<Seq<bool>> {
    Seq::new(
        WIDTH as nat,
        |x: int|
            Seq::new(HEIGHT as nat, |y: int| grid[x][y] != sprite_covers(x0, y0, sprite, x, y)),
    )
}

/// Whether drawing `sprite` at `(x0, y0)` turns off a pixel that is on.
pub open spec fn collides(grid: Seq<Seq<bool>>, x0: int, y0: int, sprite: Seq<u8>) -> bool {
    exists|x: int, y: int|
        0 <= x < WIDTH && 0 <= y < HEIGHT && #[trigger] grid[x][y] && sprite_covers(
            x0,
            y0,
            sprite,
            x,
            y,
        )
}

/// The pixel grid of the machine.
#[derive(Clone, Copy, Debug, PartialEq, Eq)]
pub struct Display {
    cells: [[bool; HEIGHT]; WIDTH],
}

impl View for Display {
    type V = Seq<Seq<bool>>;

    closed spec fn view(&self) -> Seq<Seq<bool>> {
        Seq::new(WIDTH as nat, |x: int| Seq::new(HEIGHT as nat, |y: int| self.cells[x][y]))
    }
}

impl Display {
    /// The view of a display always has the shape of a display.
    pub proof fn lemma_view_wf(self)
        ensures
            grid_wf(self@),
    {
    }

    /// A display with every pixel off.
    pub fn new() -> (display: Display)
        ensures
            display@ == blank(),
    {
        let display = Display { cells: [[false; HEIGHT]; WIDTH] };
        assert(display@ =~~= blank());
        display
    }

    /// Turns every pixel off.
    pub fn clear(&mut self)
        ensures
            final(self)@ == blank(),
    {
        self.cells = [[false; HEIGHT]; WIDTH];
        assert(self@ =~~= blank());
    }

    /// Whether the pixel at `(x, y)` is on.
    pub fn pixel(&self, x: usize, y: usize) -> (on: bool)
        requires
            x < WIDTH,
            y < HEIGHT,
        ensures
            on == self@[x as int][y as int],
    {
        self.cells[x][y]
    }

    /// Draws one sprite row into display row `y`, its left edge in column
    /// `x0`; returns whether a pixel that was on went off.
    fn draw_row(&mut self, x0: usize, y: usize, row: u8) -> (hit: bool)
        requires
            x0 < WIDTH,
            y < HEIGHT,
        ensures
            forall|x: int, z: int|
                0 <= x < WIDTH && 0 <= z < HEIGHT ==> #[trigger] final(self)@[x][z] == (old(
                    self,
                )@[x][z] != (z == y && row_covers(x0 as int, row, x))),
            hit == exists|x: int|
                0 <= x < WIDTH && #[trigger] old(self)@[x][y as int] && row_covers(
                    x0 as int,
                    row,
                    x,
                ),
    {
        let mut hit = false;
        let mut b: u8 = 0;
        while b < 8
            invariant
                b <= 8,
                x0 < WIDTH,
                y < HEIGHT,
                forall|x: int, z: int|
                    0 <= x < WIDTH && 0 <= z < HEIGHT ==> #[trigger] self@[x][z] == (old(
                        self,
                    )@[x][z] != (z == y && row_covers(x0 as int, row, x) && steps_right(
                        x0 as int,
                        x,
                    ) < b)),
                hit == exists|x: int|
                    0 <= x < WIDTH && #[trigger] old(self)@[x][y as int] && row_covers(
                        x0 as int,
                        row,
                        x,
                    ) && steps_right(x0 as int, x) < b,
            decreases 8 - b,
        {
            let at: usize = (x0 + b as usize) % WIDTH;
            let ghost before = self@;
            if row & (0x80u8 >> b) != 0 {
                let lit: bool = self.cells[at][y];
                assert(lit == self@[at as int][y as int]);
                if lit {
                    hit = true;
                }
                self.cells[at][y] = !lit;
            }
            // This round flipped at most the pixel at `(at, y)`.
            assert forall|x: int, z: int| 0 <= x < WIDTH && 0 <= z < HEIGHT implies #[trigger] self@[x][z]
                == (before[x][z] != (x == at && z == y && sprite_bit(row, b as int))) by {}
            b += 1;
        }
        hit
    }

    /// Draws `sprite` with its top left corner at `(x0 mod WIDTH, y0 mod
    /// HEIGHT)`: each set pixel of the sprite flips the pixel under it, and
    /// the sprite wraps round both edges. Returns whether a pixel that was on
    /// went off.
    pub fn draw(&mut self, x0: u8, y0: u8, sprite: &[u8]) -> (collision: bool)
        requires
            sprite@.len() <= HEIGHT,
        ensures
            final(self)@ == drawn(
                old(self)@,
                x0 as int % (WIDTH as int),
                y0 as int % (HEIGHT as int),
                sprite@,
            ),
            collision == collides(
                old(self)@,
                x0 as int % (WIDTH as int),
                y0 as int % (HEIGHT as int),
                sprite@,
            ),
    {
        let left: usize = x0 as usize % WIDTH;
        let top: usize = y0 as usize % HEIGHT;
        let mut collision = false;
        let mut r: usize = 0;
        while r < sprite.len()
            invariant
                r <= sprite@.len() <= HEIGHT,
                left < WIDTH,
                top < HEIGHT,
                forall|x: int, y: int|
                    #![trigger self@[x][y]]
                    #![trigger old(self)@[x][y]]
                    0 <= x < WIDTH && 0 <= y < HEIGHT ==> self@[x][y] == (old(
                        self,
                    )@[x][y] != (sprite_covers(left as int, top as int, sprite@, x, y)
                        && steps_down(top as int, y) < r)),
                collision == exists|x: int, y: int|
                    0 <= x < WIDTH && 0 <= y < HEIGHT && #[trigger] old(self)@[x][y]
                        && sprite_covers(left as int, top as int, sprite@, x, y) && steps_down(
                        top as int,
                        y,
                    ) < r,
            decreases sprite@.len() - r,
        {
            let at: usize = (top + r) % HEIGHT;
            // Row `at` is the only one that lies `r` rows below the top.
            assert forall|y: int| 0 <= y < HEIGHT implies (#[trigger] steps_down(top as int, y) == r
                <==> y == at) by {}
            let hit = self.draw_row(left, at, sprite[r]);
            collision = collision || hit;
            r += 1;
        }
        assert(self@ =~~= drawn(old(self)@, left as int, top as int, sprite@));
        collision
    }
}

} // verus!
