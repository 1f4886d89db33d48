use vstd::prelude::*;

verus! {

/// Width of the display in pixels.
pub const WIDTH: usize = 64;

/// Height of the display in pixels.
pub const HEIGHT: usize = 32;

/// Number of pixels on the display.
pub const PIXELS: usize = 2048;

/// Position in the row-major pixel sequence of column `col`, row `row`,
/// both wrapped around the display's edges.
pub open spec fn pixel_index(col: int, row: int) -> int {
    (row % HEIGHT as int) * WIDTH as int + col % WIDTH as int
}

/// Whether column `j` (0 is the leftmost, the most significant bit) of a
/// sprite row `byte` is set.
pub open spec fn bit_set(byte: u8, j: int) -> bool {
    0 <= j < 8 && (byte & (0x80u8 >> (j as u8))) != 0
}

/// Whether pixel `p` is flipped by the first `lim` columns of sprite row
/// `byte` drawn with its left end at column `x` of row `y`.
pub open spec fn row_hits(x: int, y: int, byte: u8, lim: int, p: int) -> bool {
    exists|j: int| 0 <= j < lim && bit_set(byte, j) && p == #[trigger] pixel_index(x + j, y)
}

/// The pixels `s` after XOR-ing in the first `lim` columns of a sprite row.
pub open spec fn xor_row(s: Seq<bool>, x: int, y: int, byte: u8, lim: int) -> Seq<bool> {
    Seq::new(s.len(), |p: int| s[p] != row_hits(x, y, byte, lim, p))
}

/// Whether the first `lim` columns of a sprite row turn off a lit pixel of `s`.
pub open spec fn row_collides(s: Seq<bool>, x: int, y: int, byte: u8, lim: int) -> bool {
    exists|j: int| 0 <= j < lim && bit_set(byte, j) && s[#[trigger] pixel_index(x + j, y)]
}

/// The pixels after drawing sprite `rows` with its top left corner at
/// `(x, y)`, row by row, and whether any set bit met a lit pixel.
pub open spec fn draw(s: Seq<bool>, x: int, y: int, rows: Seq<u8>) -> (Seq<bool>, bool)
    decreases rows.len(),
{
    if rows.len() == 0 {
        (s, false)
    } else {
        let k = rows.len() - 1;
        let prev = draw(s, x, y, rows.drop_last());
        (
            xor_row(prev.0, x, y + k, rows[k], 8),
            prev.1 || row_collides(prev.0, x, y + k, rows[k], 8),
        )
    }
}

/// A display with every pixel dark.
pub open spec fn blank() -> Seq<bool> {
    Seq::new(PIXELS as nat, |p: int| false)
}

/// Whether pixel `p` is flipped an odd number of times when sprite `rows` is
/// drawn at `(x, y)`; this does not depend on what the display held.
pub open spec fn flips(x: int, y: int, rows: Seq<u8>, p: int) -> bool
    decreases rows.len(),
{
    if rows.len() == 0 {
        false
    } else {
        let k = rows.len() - 1;
        flips(x, y, rows.drop_last(), p) != row_hits(x, y + k, rows[k], 8, p)
    }
}

/// Drawing a sprite XORs the display with a pattern fixed by the sprite and
/// its position alone.
proof fn lemma_draw_flips(s: Seq<bool>, x: int, y: int, rows: Seq<u8>)
    ensures
        draw(s, x, y, rows).0 == Seq::new(s.len(), |p: int| s[p] != flips(x, y, rows, p)),
    decreases rows.len(),
{
    if rows.len() > 0 {
        lemma_draw_flips(s, x, y, rows.drop_last());
    }
    assert(draw(s, x, y, rows).0 =~= Seq::new(s.len(), |p: int| s[p] != flips(x, y, rows, p)));
}

/// Drawing the same sprite twice at the same place leaves every pixel as it
/// was before the first draw.
pub proof fn lemma_draw_twice_restores(s: Seq<bool>, x: int, y: int, rows: Seq<u8>)
    ensures
        draw(draw(s, x, y, rows).0, x, y, rows).0 == s,
{
    let once = draw(s, x, y, rows).0;
    lemma_draw_flips(s, x, y, rows);
    lemma_draw_flips(once, x, y, rows);
    assert(draw(once, x, y, rows).0 =~= s);
}

/// A draw reports a collision when some set bit of row `k` meets a pixel
/// that is lit once the rows above it are drawn.
proof fn lemma_collision_from_row(s: Seq<bool>, x: int, y: int, rows: Seq<u8>, k: int, j: int)
    requires
        0 <= k < rows.len(),
        bit_set(rows[k], j),
        draw(s, x, y, rows.take(k)).0[pixel_index(x + j, y + k)],
    ensures
        draw(s, x, y, rows).1,
    decreases rows.len(),
{
    if k == rows.len() - 1 {
        assert(rows.drop_last() =~= rows.take(k));
        assert(row_collides(draw(s, x, y, rows.drop_last()).0, x, y + k, rows[k], 8));
    } else {
        assert(rows.drop_last().take(k) =~= rows.take(k));
        lemma_collision_from_row(s, x, y, rows.drop_last(), k, j);
    }
}

/// A draw that reports a collision has a set bit somewhere in the sprite.
proof fn lemma_collision_needs_bit(s: Seq<bool>, x: int, y: int, rows: Seq<u8>)
    requires
        draw(s, x, y, rows).1,
    ensures
        exists|k: int, j: int| 0 <= k < rows.len() && #[trigger] bit_set(rows[k], j),
    decreases rows.len(),
{
    let k = rows.len() - 1;
    if draw(s, x, y, rows.drop_last()).1 {
        lemma_collision_needs_bit(s, x, y, rows.drop_last());
        let (k2, j2) = choose|k2: int, j2: int|
            0 <= k2 < rows.drop_last().len() && #[trigger] bit_set(rows.drop_last()[k2], j2);
        assert(bit_set(rows[k2], j2));
    } else {
        let j = choose|j: int|
            0 <= j < 8 && bit_set(rows[k], j) && draw(s, x, y, rows.drop_last()).0[
            #[trigger] pixel_index(x + j, y + k)];
        assert(bit_set(rows[k], j));
    }
}

/// With at most 32 rows, a pixel of row `k` is flipped by no other row of the
/// sprite, so the prefixes past `k` flip it exactly when row `k` does.
proof fn lemma_flips_past_row(x: int, y: int, rows: Seq<u8>, k: int, j: int, m: int)
    requires
        rows.len() <= HEIGHT,
        0 <= k < m <= rows.len(),
        0 <= j < 8,
    ensures
        flips(x, y, rows.take(m), pixel_index(x + j, y + k)) == (flips(
            x,
            y,
            rows.take(k),
            pixel_index(x + j, y + k),
        ) != row_hits(x, y + k, rows[k], 8, pixel_index(x + j, y + k))),
    decreases m - k,
{
    let p = pixel_index(x + j, y + k);
    if m == k + 1 {
        assert(rows.take(m).drop_last() =~= rows.take(k));
    } else {
        lemma_flips_past_row(x, y, rows, k, j, m - 1);
        assert(rows.take(m).drop_last() =~= rows.take(m - 1));
        let i = m - 1;
        assert(!row_hits(x, y + i, rows[i], 8, p)) by {
            assert forall|jj: int| 0 <= jj < 8 implies #[trigger] pixel_index(x + jj, y + i)
                != p by {
                assert((y + i) % 32 != (y + k) % 32);
            }
        }
    }
}

/// Drawing a sprite of at most 32 rows onto a dark display and then drawing it
/// again at the same place reports a collision exactly when the sprite has a
/// set bit, and leaves the display dark.
pub proof fn lemma_redraw_on_blank(x: int, y: int, rows: Seq<u8>)
    requires
        rows.len() <= HEIGHT,
    ensures
        draw(draw(blank(), x, y, rows).0, x, y, rows).1 <==> exists|k: int, j: int|
            0 <= k < rows.len() && #[trigger] bit_set(rows[k], j),
        draw(draw(blank(), x, y, rows).0, x, y, rows).0 == blank(),
{
    let once = draw(blank(), x, y, rows).0;
    lemma_draw_twice_restores(blank(), x, y, rows);
    if draw(once, x, y, rows).1 {
        lemma_collision_needs_bit(once, x, y, rows);
    }
    if exists|k: int, j: int| 0 <= k < rows.len() && #[trigger] bit_set(rows[k], j) {
        let (k, j) = choose|k: int, j: int| 0 <= k < rows.len() && #[trigger] bit_set(rows[k], j);
        let p = pixel_index(x + j, y + k);
        lemma_draw_flips(blank(), x, y, rows);
        lemma_draw_flips(once, x, y, rows.take(k));
        lemma_flips_past_row(x, y, rows, k, j, rows.len() as int);
        assert(rows.take(rows.len() as int) =~= rows);
        assert(row_hits(x, y + k, rows[k], 8, p));
        assert(0 <= p < PIXELS);
        lemma_collision_from_row(once, x, y, rows, k, j);
    }
}

/// The 64 x 32 monochrome frame buffer.
pub struct Display {
    pixels: Vec<bool>,
}

impl View for Display {
    type V = Seq<bool>;

    /// The pixels, row by row from the top, each row from the left.
    closed spec fn view(&self) -> Seq<bool> {
        self.pixels@
    }
}

impl Display {
    /// The buffer holds exactly one entry per pixel.
    pub open spec fn wf(&self) -> bool {
        self@.len() == PIXELS
    }

    /// A dark display.
    pub fn new() -> (d: Display)
        ensures
            d.wf(),
            d@ == blank(),
    {
        let mut pixels: Vec<bool> = Vec::new();
        let mut p: usize = 0;
        while p < PIXELS
            invariant
                p <= PIXELS,
                pixels@ =~= Seq::new(p as nat, |q: int| false),
            decreases PIXELS - p,
        {
            pixels.push(false);
            p = p + 1;
        }
        Display { pixels }
    }

    /// Turns every pixel off.
    pub fn clear(&mut self)
        requires
            old(self).wf(),
        ensures
            final(self).wf(),
            final(self)@ == blank(),
    {
        let mut p: usize = 0;
        while p < PIXELS
            invariant
                p <= PIXELS,
                self@.len() == PIXELS,
                forall|q: int| 0 <= q < p ==> !self@[q],
            decreases PIXELS - p,
        {
            self.pixels.set(p, false);
            p = p + 1;
        }
        assert(self@ =~= blank());
    }

    /// Whether the pixel at column `col`, row `row` is lit.
    pub fn pixel(&self, col: usize, row: usize) -> (r: bool)
        requires
            self.wf(),
            col < WIDTH,
            row < HEIGHT,
        ensures
            r == self@[row * WIDTH + col],
    {
        self.pixels[row * WIDTH + col]
    }

    /// A copy of the pixels: 32 rows of 64, top row first.
    pub fn rows(&self) -> (r: Vec<Vec<bool>>)
        requires
            self.wf(),
        ensures
            r@.len() == HEIGHT,
            forall|row: int| 0 <= row < HEIGHT ==> #[trigger] r@[row]@.len() == WIDTH,
            forall|row: int, col: int|
                0 <= row < HEIGHT && 0 <= col < WIDTH ==> #[trigger] r@[row]@[col] == self@[row
                    * 64 + col],
    {
        let mut out: Vec<Vec<bool>> = Vec::new();
        let mut row: usize = 0;
        while row < HEIGHT
            invariant
                self.wf(),
                row <= HEIGHT,
                out@.len() == row,
                forall|r: int| 0 <= r < row ==> #[trigger] out@[r]@.len() == WIDTH,
                forall|r: int, c: int|
                    0 <= r < row && 0 <= c < WIDTH ==> #[trigger] out@[r]@[c] == self@[r * 64 + c],
            decreases HEIGHT - row,
        {
            let mut line: Vec<bool> = Vec::new();
            let mut col: usize = 0;
            while col < WIDTH
                invariant
                    self.wf(),
                    row < HEIGHT,
                    col <= WIDTH,
                    line@.len() == col,
                    forall|c: int| 0 <= c < col ==> #[trigger] line@[c] == self@[row * 64 + c],
                decreases WIDTH - col,
            {
                line.push(self.pixels[row * WIDTH + col]);
                col = col + 1;
            }
            out.push(line);
            row = row + 1;
        }
        out
    }

    /// XORs sprite `rows` onto the display with its top left corner at column
    /// `start_col`, row `start_row`, wrapping around the edges. Returns whether
    /// a set bit met a lit pixel, turning it off.
    pub fn draw_sprite(&mut self, start_col: u8, start_row: u8, sprite: &[u8]) -> (collision:
        bool)
        requires
            old(self).wf(),
        ensures
            final(self).wf(),
            (final(self)@, collision) == draw(old(self)@, start_col as int, start_row as int, sprite@),
    {
        let mut collision = false;
        let mut row: usize = start_row as usize % HEIGHT;
        let mut i: usize = 0;
        while i < sprite.len()
            invariant
                i <= sprite@.len(),
                self@.len() == PIXELS,
                row == (start_row + i) % HEIGHT as int,
                (self@, collision) == draw(
                    old(self)@,
                    start_col as int,
                    start_row as int,
                    sprite@.subrange(0, i as int),
                ),
            decreases sprite@.len() - i,
        {
            let byte = sprite[i];
            let ghost before = self@;
            let ghost y = start_row + i;
            let mut col: usize = start_col as usize % WIDTH;
            let mut j: usize = 0;
            let mut hit = false;
            while j < 8
                invariant
                    j <= 8,
                    self@.len() == PIXELS,
                    before.len() == PIXELS,
                    row == y % HEIGHT as int,
                    col == (start_col + j) % WIDTH as int,
                    self@ == xor_row(before, start_col as int, y, byte, j as int),
                    hit == row_collides(before, start_col as int, y, byte, j as int),
                decreases 8 - j,
            {
                let idx = row * WIDTH + col;
                let set = byte & (0x80u8 >> (j as u8)) != 0;
                assert(idx == pixel_index(start_col + j, y));
                proof {
                    assert forall|k: int| 0 <= k < j implies #[trigger] pixel_index(start_col + k, y)
                        != idx by {}
                }
                let old_px = self.pixels[idx];
                if set && old_px {
                    hit = true;
                }
                self.pixels.set(idx, old_px != set);
                proof {
                    assert(old_px == before[idx as int]);
                    assert(self@ =~= xor_row(before, start_col as int, y, byte, j + 1));
                }
                col = (col + 1) % WIDTH;
                j = j + 1;
            }
            collision = collision || hit;
            row = (row + 1) % HEIGHT;
            i = i + 1;
            proof {
                let rows = sprite@.subrange(0, i as int);
                assert(rows.drop_last() =~= sprite@.subrange(0, i - 1));
            }
        }
        assert(sprite@.subrange(0, i as int) =~= sprite@);
        collision
    }
}

} // verus!
