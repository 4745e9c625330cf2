use vstd::prelude::*;

verus! {

/// The width of the screen, in pixels.
pub const CHIP8_WIDTH: usize = 64;

/// The height of the screen, in pixels.
pub const CHIP8_HEIGHT: usize = 32;

/// The number of pixels on the screen.
pub const SCREEN_SIZE: usize = 2048;

/// The position in the row-major grid of the pixel at (x, y), both
/// coordinates wrapped around the screen's edges.
pub open spec fn pixel_index(x: int, y: int) -> int {
    (y % CHIP8_HEIGHT as int) * CHIP8_WIDTH as int + x % CHIP8_WIDTH as int
}

/// Whether column `c` (0 is the leftmost) of a sprite row is set.
pub open spec fn sprite_bit(b: u8, c: int) -> bool {
    (b >> ((7 - c) as u8)) & 1u8 == 1u8
}

/// Whether the first `c` columns of row byte `b`, drawn at (x, y), flip the
/// pixel at position `i` (an odd number of times).
pub open spec fn row_flips(x: int, y: int, b: u8, c: int, i: int) -> bool
    decreases c,
{
    if c <= 0 {
        false
    } else {
        row_flips(x, y, b, c - 1, i) != (sprite_bit(b, c - 1) && pixel_index(x + c - 1, y) == i)
    }
}

/// Whether the first `r` rows of `sprite`, drawn at (x, y), flip the pixel
/// at position `i`.
pub open spec fn sprite_flips(x: int, y: int, sprite: Seq<u8>, r: int, i: int) -> bool
    decreases r,
{
    if r <= 0 {
        false
    } else {
        sprite_flips(x, y, sprite, r - 1, i) != row_flips(x, y + r - 1, sprite[r - 1], 8, i)
    }
}

/// The grid after the first `r` rows of `sprite` were XORed onto it at (x, y).
pub open spec fn drawn_rows(grid: Seq<bool>, x: int, y: int, sprite: Seq<u8>, r: int) -> Seq<bool> {
    Seq::new(grid.len(), |i: int| grid[i] != sprite_flips(x, y, sprite, r, i))
}

/// The grid after the whole of `sprite` was XORed onto it at (x, y).
pub open spec fn drawn(grid: Seq<bool>, x: int, y: int, sprite: Seq<u8>) -> Seq<bool> {
    drawn_rows(grid, x, y, sprite, sprite.len() as int)
}

/// Whether drawing the first `c` columns of row byte `b` at (x, y) onto
/// `grid` turns some lit pixel off.
pub open spec fn row_collides(grid: Seq<bool>, x: int, y: int, b: u8, c: int) -> bool
    decreases c,
{
    if c <= 0 {
        false
    } else {
        let i = pixel_index(x + c - 1, y);
        row_collides(grid, x, y, b, c - 1) || (sprite_bit(b, c - 1) && (grid[i]
            != row_flips(x, y, b, c - 1, i)))
    }
}

/// Whether drawing the first `r` rows of `sprite` at (x, y) onto `grid`
/// turns some lit pixel off.
pub open spec fn rows_collide(grid: Seq<bool>, x: int, y: int, sprite: Seq<u8>, r: int) -> bool
    decreases r,
{
    if r <= 0 {
        false
    } else {
        rows_collide(grid, x, y, sprite, r - 1) || row_collides(
            drawn_rows(grid, x, y, sprite, r - 1),
            x,
            y + r - 1,
            sprite[r - 1],
            8,
        )
    }
}

/// Whether drawing `sprite` at (x, y) onto `grid` turns some lit pixel off.
pub open spec fn collides(grid: Seq<bool>, x: int, y: int, sprite: Seq<u8>) -> bool {
    rows_collide(grid, x, y, sprite, sprite.len() as int)
}

/// A blank grid.
pub open spec fn blank() -> Seq<bool> {
    Seq::new(SCREEN_SIZE as nat, |i: int| false)
}

/// Drawing a sprite is its own inverse: drawing the same sprite at the same
/// place twice gives back the grid as it was.
pub proof fn lemma_draw_twice(grid: Seq<bool>, x: int, y: int, sprite: Seq<u8>)
    ensures
        drawn(drawn(grid, x, y, sprite), x, y, sprite) == grid,
{
    assert(drawn(drawn(grid, x, y, sprite), x, y, sprite) =~= grid);
}

/// A 64 x 32 monochrome screen, stored row by row.
pub struct Display {
    pixels: Vec<bool>,
}

impl View for Display {
    type V = Seq<bool>;

    closed spec fn view(&self) -> Seq<bool> {
        self.pixels@
    }
}

impl Display {
    /// The screen always holds exactly 64 x 32 pixels.
    pub open spec fn wf(&self) -> bool {
        self@.len() == SCREEN_SIZE
    }

    /// A blank screen.
    pub fn new() -> (r: Self)
        ensures
            r.wf(),
            r@ == blank(),
    {
        let r = Display { pixels: vec![false; SCREEN_SIZE] };
        assert(r@ =~= blank());
        r
    }

    /// Turns every pixel off.
    pub fn clear(&mut self)
        ensures
            final(self).wf(),
            final(self)@ == blank(),
    {
        self.pixels = vec![false; SCREEN_SIZE];
        assert(self@ =~= blank());
    }

    /// Whether the pixel at (x, y) is lit; coordinates wrap around the edges.
    pub fn pixel(&self, x: usize, y: usize) -> (r: bool)
        requires
            self.wf(),
        ensures
            r == self@[pixel_index(x as int, y as int)],
    {
        let i = (y % CHIP8_HEIGHT) * CHIP8_WIDTH + x % CHIP8_WIDTH;
        self.pixels[i]
    }

    /// The whole grid, row by row, for rendering.
    pub fn pixels(&self) -> (r: &[bool])
        ensures
            r@ == self@,
    {
        self.pixels.as_slice()
    }

    /// XORs `sprite` onto the screen, one byte per row and the high bit
    /// leftmost, with its top left corner at (x, y); rows and columns wrap
    /// around the edges. Returns whether some lit pixel was turned off.
    pub fn draw_sprite(&mut self, x: u8, y: u8, sprite: &[u8]) -> (collision: bool)
        requires
            old(self).wf(),
        ensures
            final(self).wf(),
            final(self)@ == drawn(old(self)@, x as int, y as int, sprite@),
            collision == collides(old(self)@, x as int, y as int, sprite@),
    {
        let ghost g0 = self@;
        let mut collision = false;
        let mut r: usize = 0;
        let mut py: usize = y as usize % CHIP8_HEIGHT;
        while r < sprite.len()
            invariant
                self.wf(),
                r <= sprite@.len(),
                py == (y + r) % (CHIP8_HEIGHT as int),
                self@ == drawn_rows(g0, x as int, y as int, sprite@, r as int),
                collision == rows_collide(g0, x as int, y as int, sprite@, r as int),
            decreases sprite@.len() - r,
        {
            let b = sprite[r];
            let ghost gr = self@;
            let mut c: u8 = 0;
            let mut px: usize = x as usize % CHIP8_WIDTH;
            while c < 8
                invariant
                    self.wf(),
                    r < sprite@.len(),
                    b == sprite@[r as int],
                    gr == drawn_rows(g0, x as int, y as int, sprite@, r as int),
                    c <= 8,
                    py == (y + r) % (CHIP8_HEIGHT as int),
                    px == (x + c) % (CHIP8_WIDTH as int),
                    self@ == Seq::new(
                        SCREEN_SIZE as nat,
                        |i: int| gr[i] != row_flips(x as int, y + r, b, c as int, i),
                    ),
                    collision == (rows_collide(g0, x as int, y as int, sprite@, r as int)
                        || row_collides(gr, x as int, y + r, b, c as int)),
                decreases 8 - c,
            {
                if (b >> (7 - c)) & 1 == 1 {
                    assert(py * 64 + px < 2048) by (nonlinear_arith)
                        requires
                            py < 32,
                            px < 64,
                    ;
                    let idx = py * CHIP8_WIDTH + px;
                    let lit = self.pixels[idx];
                    if lit {
                        collision = true;
                    }
                    self.pixels.set(idx, !lit);
                }
                assert(self@ =~= Seq::new(
                    SCREEN_SIZE as nat,
                    |i: int| gr[i] != row_flips(x as int, y + r, b, c + 1, i),
                ));
                c = c + 1;
                px = (px + 1) % CHIP8_WIDTH;
            }
            assert(self@ =~= drawn_rows(g0, x as int, y as int, sprite@, r + 1));
            r = r + 1;
            py = (py + 1) % CHIP8_HEIGHT;
        }
        collision
    }
}

} // verus!
