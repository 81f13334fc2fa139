//! Sub-pixel rasterization: each terminal cell is a Braille glyph of 2x4
//! dots, one accumulator byte per cell, one bit per dot, plus the
//! per-particle dither hash.

use vstd::prelude::*;

verus! {

/// Position of a particle on the sub-pixel lattice: each terminal cell is two
/// sub-pixels wide and four tall, so `(sx, sy)` lies in column `sx / 2` and
/// row `sy / 4`.
pub type SubPixel = (i64, i64);

/// The multiplier of the per-particle dither hash (the 32-bit golden ratio).
pub const DITHER_MULTIPLIER: u64 = 0x9E37_79B1;

/// The dither hash of particle `i`: `i * 0x9E3779B1` modulo 2^64, xor `i >> 16`.
pub open spec fn dither_hash_of(i: u64) -> u64 {
    (((i as nat * DITHER_MULTIPLIER as nat) % 0x1_0000_0000_0000_0000) as u64) ^ (i >> 16u64)
}

/// The dot that a sub-pixel sets within its Braille cell. Bits 0 to 2 run down
/// the left column and 3 to 5 down the right one; the bottom row is 6 (left)
/// and 7 (right).
pub open spec fn braille_bit_of(x_half: int, y_quarter: int) -> int {
    if y_quarter < 3 {
        y_quarter + 3 * x_half
    } else {
        6 + x_half
    }
}

/// Where a sub-pixel lands in a `rows` x `cols` grid: its cell's flat index
/// (row-major) and its dot, or `None` for a point outside the grid.
pub open spec fn landing(rows: int, cols: int, p: SubPixel) -> Option<(int, int)> {
    let sx = p.0 as int;
    let sy = p.1 as int;
    if sx < 0 || sy < 0 || sy / 4 >= rows || sx / 2 >= cols {
        None
    } else {
        Some(((sy / 4) * cols + sx / 2, braille_bit_of(sx % 2, sy % 4)))
    }
}

/// The cells after one point is drawn: its dot is or-ed into its cell.
pub open spec fn plotted(cells: Seq<u8>, rows: int, cols: int, p: SubPixel) -> Seq<u8> {
    match landing(rows, cols, p) {
        Some((k, b)) => cells.update(k, cells[k] | (1u8 << (b as u8))),
        None => cells,
    }
}

/// A zeroed grid of `n` cells.
pub open spec fn blank(n: int) -> Seq<u8> {
    Seq::new(n as nat, |k: int| 0u8)
}

/// The grid after the first `n` points are drawn on a blank one.
pub open spec fn raster_of(points: Seq<SubPixel>, rows: int, cols: int, n: int) -> Seq<u8>
    decreases n,
{
    if n <= 0 {
        blank((rows * cols) as int)
    } else {
        plotted(raster_of(points, rows, cols, n - 1), rows, cols, points[n - 1])
    }
}

/// The glyph of an accumulator: the Braille pattern whose dots are its bits.
pub open spec fn glyph_of(b: u8) -> char {
    (0x2800 + b) as char
}

/// Whether bit `j` of `v` is set.
pub open spec fn dot_set(v: u8, j: u8) -> bool {
    (v >> j) & 1u8 == 1u8
}

proof fn lemma_one_dot(b: u8)
    requires
        b < 8,
    ensures
        0u8 | (1u8 << b) == 1u8 << b,
        forall|j: u8| j < 8 ==> (dot_set(1u8 << b, j) <==> j == b),
{
    assert(0u8 | (1u8 << b) == 1u8 << b) by (bit_vector);
    assert forall|j: u8| j < 8 implies (dot_set(1u8 << b, j) <==> j == b) by {
        assert(b < 8 && j < 8 ==> ((((1u8 << b) >> j) & 1u8 == 1u8) <==> j == b)) by (bit_vector);
    }
}

/// A single particle drawn at sub-cell (`x_half`, `y_quarter`) of cell
/// (`row`, `col`) sets exactly one dot of that cell, the one
/// `braille_bit_of` gives, and leaves every other cell blank.
pub proof fn lemma_single_dot(rows: nat, cols: nat, row: nat, col: nat, x_half: nat, y_quarter: nat)
    requires
        row < rows,
        col < cols,
        x_half < 2,
        y_quarter < 4,
        2 * col + x_half <= i64::MAX,
        4 * row + y_quarter <= i64::MAX,
    ensures
        ({
            let p: SubPixel = ((2 * col + x_half) as i64, (4 * row + y_quarter) as i64);
            let bit = braille_bit_of(x_half as int, y_quarter as int) as u8;
            &&& bit < 8
            &&& raster_of(seq![p], rows as int, cols as int, 1) == blank((rows * cols) as int).update(
                (row * cols + col) as int,
                1u8 << bit,
            )
            &&& forall|j: u8| j < 8 ==> (dot_set(1u8 << bit, j) <==> j == bit)
        }),
{
    let p: SubPixel = ((2 * col + x_half) as i64, (4 * row + y_quarter) as i64);
    let bit = braille_bit_of(x_half as int, y_quarter as int) as u8;
    vstd::arithmetic::div_mod::lemma_fundamental_div_mod_converse(
        p.0 as int,
        2,
        col as int,
        x_half as int,
    );
    vstd::arithmetic::div_mod::lemma_fundamental_div_mod_converse(
        p.1 as int,
        4,
        row as int,
        y_quarter as int,
    );
    assert(row * cols + col < rows * cols) by (nonlinear_arith)
        requires
            row < rows,
            col < cols,
    ;
    lemma_one_dot(bit);
    assert(seq![p][0] == p);
    assert(raster_of(seq![p], rows as int, cols as int, 0) == blank((rows * cols) as int));
}

/// Relies on char::from_u32: the char with that code, for every Unicode
/// scalar value, and `None` for surrogates and codes past 0x10FFFF.
#[verifier::external_body]
fn char_from_code(v: u32) -> (r: Option<char>)
    ensures
        (v <= 0xD7FF || 0xE000 <= v <= 0x10FFFF) ==> r == Some(v as char),
        !(v <= 0xD7FF || 0xE000 <= v <= 0x10FFFF) ==> r is None,
{
    char::from_u32(v)
}

/// The dither hash of particle `i`, stable from frame to frame.
pub fn dither_hash(i: u64) -> (r: u64)
    ensures
        r == dither_hash_of(i),
{
    i.wrapping_mul(DITHER_MULTIPLIER) ^ (i >> 16)
}

/// The two dither bytes of particle `i`: bits 0-7 of its hash drive the
/// horizontal offset and bits 8-15 the vertical one.
pub fn dither_bytes(i: u64) -> (r: (u8, u8))
    ensures
        r.0 == dither_hash_of(i) & 0xFF,
        r.1 == (dither_hash_of(i) >> 8u64) & 0xFF,
{
    let h = dither_hash(i);
    assert(h & 0xFF <= 0xFF) by (bit_vector);
    assert((h >> 8u64) & 0xFF <= 0xFF) by (bit_vector);
    ((h & 0xFF) as u8, ((h >> 8) & 0xFF) as u8)
}

/// The dot for the sub-pixel at half `x_half` and quarter `y_quarter` of a
/// cell.
pub fn braille_bit(x_half: u8, y_quarter: u8) -> (r: u8)
    requires
        x_half < 2,
        y_quarter < 4,
    ensures
        r == braille_bit_of(x_half as int, y_quarter as int),
        r < 8,
{
    if y_quarter < 3 {
        y_quarter + 3 * x_half
    } else {
        6 + x_half
    }
}

/// The Braille glyph that shows accumulator `b`: code point 0x2800 + b.
pub fn glyph(b: u8) -> (r: char)
    ensures
        r == glyph_of(b),
{
    let code: u32 = 0x2800 + b as u32;
    match char_from_code(code) {
        Some(c) => c,
        None => ' ',
    }
}

/// One frame's accumulators: a byte per terminal cell, row-major, each bit a
/// dot of the cell's Braille glyph.
pub struct RasterBuffer {
    rows: usize,
    cols: usize,
    cells: Vec<u8>,
}

impl View for RasterBuffer {
    type V = Seq<u8>;

    closed spec fn view(&self) -> Seq<u8> {
        self.cells@
    }
}

impl RasterBuffer {
    /// The grid holds exactly one accumulator per cell.
    pub closed spec fn wf(&self) -> bool {
        &&& self.cells@.len() == self.rows * self.cols
        &&& self.rows * self.cols <= usize::MAX
    }

    /// The number of rows.
    pub closed spec fn spec_rows(&self) -> nat {
        self.rows as nat
    }

    /// The number of columns.
    pub closed spec fn spec_cols(&self) -> nat {
        self.cols as nat
    }

    /// A well-formed grid has one accumulator per cell.
    pub proof fn lemma_shape(&self)
        requires
            self.wf(),
        ensures
            self@.len() == self.spec_rows() * self.spec_cols(),
            self.spec_rows() * self.spec_cols() <= usize::MAX,
    {
    }

    /// A zeroed grid of `rows` x `cols` cells.
    pub fn new(rows: usize, cols: usize) -> (r: RasterBuffer)
        requires
            rows * cols <= usize::MAX,
        ensures
            r.wf(),
            r.spec_rows() == rows,
            r.spec_cols() == cols,
            r@ == blank((rows * cols) as int),
    {
        let n = rows * cols;
        let mut cells: Vec<u8> = Vec::new();
        let mut k: usize = 0;
        while k < n
            invariant
                0 <= k <= n,
                n == rows * cols,
                cells@ == blank(k as int),
            decreases n - k,
        {
            cells.push(0);
            k = k + 1;
            assert(cells@ == blank(k as int));
        }
        RasterBuffer { rows, cols, cells }
    }

    /// The number of rows.
    pub fn rows(&self) -> (r: usize)
        ensures
            r == self.spec_rows(),
    {
        self.rows
    }

    /// The number of columns.
    pub fn cols(&self) -> (r: usize)
        ensures
            r == self.spec_cols(),
    {
        self.cols
    }

    /// The accumulator of the cell at `row`, `col`.
    pub fn cell(&self, row: usize, col: usize) -> (r: u8)
        requires
            self.wf(),
            row < self.spec_rows(),
            col < self.spec_cols(),
        ensures
            r == self@[row * self.spec_cols() + col],
    {
        proof {
            assert(row * self.cols + col < self.rows * self.cols) by (nonlinear_arith)
                requires
                    row < self.rows,
                    col < self.cols,
            ;
            assert(row * self.cols <= row * self.cols + col);
        }
        self.cells[row * self.cols + col]
    }

    /// The accumulator at flat (row-major) index `k`.
    pub fn at(&self, k: usize) -> (r: u8)
        requires
            self.wf(),
            k < self@.len(),
        ensures
            r == self@[k as int],
    {
        self.cells[k]
    }

    /// Draws one point: ors its dot into its cell, and leaves the grid as it
    /// was for a point outside it.
    pub fn plot(&mut self, p: SubPixel)
        requires
            old(self).wf(),
        ensures
            final(self).wf(),
            final(self).spec_rows() == old(self).spec_rows(),
            final(self).spec_cols() == old(self).spec_cols(),
            final(self)@ == plotted(
                old(self)@,
                old(self).spec_rows() as int,
                old(self).spec_cols() as int,
                p,
            ),
    {
        let (sx, sy) = p;
        if sx < 0 || sy < 0 {
            return;
        }
        let row = (sy / 4) as u64;
        let col = (sx / 2) as u64;
        if row >= self.rows as u64 || col >= self.cols as u64 {
            return;
        }
        let row = row as usize;
        let col = col as usize;
        let x_half = (sx % 2) as u8;
        let y_quarter = (sy % 4) as u8;
        let bit = braille_bit(x_half, y_quarter);
        proof {
            assert(row * self.cols + col < self.rows * self.cols) by (nonlinear_arith)
                requires
                    row < self.rows,
                    col < self.cols,
            ;
            assert(row * self.cols <= row * self.cols + col);
        }
        let k = row * self.cols + col;
        let v = self.cells[k] | (1u8 << bit);
        self.cells.set(k, v);
    }
}

} // verus!
