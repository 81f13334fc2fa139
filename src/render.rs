//! Turning particle positions into a screen of Braille glyphs.

pub mod info;
pub mod raster;
pub mod settings_panel;
pub mod text;

use vstd::prelude::*;
use crate::render::raster::{glyph, glyph_of, raster_of, RasterBuffer, SubPixel};

verus! {

/// A block of text laid over the top rows of the screen, at its left edge or
/// against its right one. Its characters fill it row by row; cells past the
/// end of the text show `X`.
pub struct Panel {
    pub text: Vec<char>,
    pub width: usize,
    pub height: usize,
    pub anchor_right: bool,
}

/// The first screen column a panel covers (negative when the screen is
/// narrower than a right-anchored panel).
pub open spec fn panel_left(p: Panel, cols: int) -> int {
    if p.anchor_right {
        cols - p.width
    } else {
        0
    }
}

/// Whether the panel covers screen cell (r, c).
pub open spec fn panel_covers(p: Panel, cols: int, r: int, c: int) -> bool {
    let left = panel_left(p, cols);
    r < p.height && left <= c < left + p.width
}

/// The panel's character at screen cell (r, c).
pub open spec fn panel_char(p: Panel, cols: int, r: int, c: int) -> char {
    let k = r * p.width + (c - panel_left(p, cols));
    if k < p.text@.len() {
        p.text@[k]
    } else {
        'X'
    }
}

/// The character at screen cell (r, c) once panels `j..` are laid over
/// `under`: the first of them that covers the cell wins.
pub open spec fn overlaid(panels: Seq<Panel>, j: int, cols: int, r: int, c: int, under: char) -> char
    decreases panels.len() - j,
{
    if j < 0 || j >= panels.len() {
        under
    } else if panel_covers(panels[j], cols, r, c) {
        panel_char(panels[j], cols, r, c)
    } else {
        overlaid(panels, j + 1, cols, r, c, under)
    }
}

/// The screen for a grid of accumulators, row-major: each cell's glyph, or
/// the character of the first panel that covers it.
pub open spec fn screen(cells: Seq<u8>, panels: Seq<Panel>, cols: int) -> Seq<char> {
    Seq::new(cells.len(), |k: int| overlaid(panels, 0, cols, k / cols, k % cols, glyph_of(cells[k])))
}

/// Relies on String::push: appends one char.
#[verifier::external_body]
fn push_char(s: &mut String, c: char)
    ensures
        final(s)@ == old(s)@.push(c),
{
    s.push(c);
}

/// The character of the first panel from `j` on that covers (r, c), or
/// `under`.
fn overlay_char(panels: &Vec<Panel>, cols: usize, r: usize, c: usize, under: char) -> (ch: char)
    requires
        c < cols,
    ensures
        ch == overlaid(panels@, 0, cols as int, r as int, c as int, under),
{
    let mut j: usize = panels.len();
    let mut ch = under;
    while j > 0
        invariant
            0 <= j <= panels.len(),
            c < cols,
            ch == overlaid(panels@, j as int, cols as int, r as int, c as int, under),
        decreases j,
    {
        j = j - 1;
        let p = &panels[j];
        let covered = if p.anchor_right {
            r < p.height && p.width >= cols - c
        } else {
            r < p.height && c < p.width
        };
        assert(covered == panel_covers(panels@[j as int], cols as int, r as int, c as int));
        if covered {
            let off = if p.anchor_right {
                p.width - (cols - c)
            } else {
                c
            };
            let len = p.text.len();
            assert(off == c - panel_left(panels@[j as int], cols as int));
            ch = match r.checked_mul(p.width) {
                Some(base) => match base.checked_add(off) {
                    Some(k) => {
                        if k < len {
                            p.text[k]
                        } else {
                            'X'
                        }
                    },
                    None => 'X',
                },
                None => 'X',
            };
            assert(ch == panel_char(panels@[j as int], cols as int, r as int, c as int));
        }
    }
    ch
}

/// The screen geometry that frames are drawn for.
pub struct Renderer {
    rows: usize,
    cols: usize,
}

impl Renderer {
    /// The number of text rows.
    pub closed spec fn spec_rows(&self) -> nat {
        self.rows as nat
    }

    /// The number of text columns.
    pub closed spec fn spec_cols(&self) -> nat {
        self.cols as nat
    }

    /// A renderer for a screen of `rows` x `cols` cells.
    pub fn new(rows: usize, cols: usize) -> (r: Renderer)
        ensures
            r.spec_rows() == rows,
            r.spec_cols() == cols,
    {
        Renderer { rows, cols }
    }

    /// Takes on a new screen size.
    pub fn resize(&mut self, rows: usize, cols: usize)
        ensures
            final(self).spec_rows() == rows,
            final(self).spec_cols() == cols,
    {
        self.rows = rows;
        self.cols = cols;
    }

    /// The number of text rows.
    pub fn rows(&self) -> (r: usize)
        ensures
            r == self.spec_rows(),
    {
        self.rows
    }

    /// The number of text columns.
    pub fn cols(&self) -> (r: usize)
        ensures
            r == self.spec_cols(),
    {
        self.cols
    }

    /// Draws every point, in order, on a blank grid of the screen's size.
    pub fn rasterize(&self, points: &Vec<SubPixel>) -> (r: RasterBuffer)
        requires
            self.spec_rows() * self.spec_cols() <= usize::MAX,
        ensures
            r.wf(),
            r.spec_rows() == self.spec_rows(),
            r.spec_cols() == self.spec_cols(),
            r@ == raster_of(points@, self.spec_rows() as int, self.spec_cols() as int, points@.len() as int),
    {
        let mut buf = RasterBuffer::new(self.rows, self.cols);
        let mut i: usize = 0;
        while i < points.len()
            invariant
                0 <= i <= points.len(),
                buf.wf(),
                buf.spec_rows() == self.rows,
                buf.spec_cols() == self.cols,
                buf@ == raster_of(points@, self.rows as int, self.cols as int, i as int),
            decreases points.len() - i,
        {
            buf.plot(points[i]);
            i = i + 1;
        }
        buf
    }

    /// One frame of text: the points drawn as Braille glyphs, row after row,
    /// with the panels laid over them.
    pub fn render(&self, points: &Vec<SubPixel>, panels: &Vec<Panel>) -> (r: String)
        requires
            self.spec_rows() * self.spec_cols() <= usize::MAX,
        ensures
            r@.len() == self.spec_rows() * self.spec_cols(),
            r@ == screen(
                raster_of(points@, self.spec_rows() as int, self.spec_cols() as int, points@.len() as int),
                panels@,
                self.spec_cols() as int,
            ),
    {
        let buf = self.rasterize(points);
        let ghost cells = buf@;
        proof {
            buf.lemma_shape();
            if self.cols == 0 {
                assert(self.rows * self.cols == 0) by (nonlinear_arith)
                    requires self.cols == 0;
            }
        }
        let n = self.rows * self.cols;
        let mut out = String::new();
        let mut k: usize = 0;
        while k < n
            invariant
                0 <= k <= n,
                n == cells.len(),
                n > 0 ==> self.cols > 0,
                buf.wf(),
                buf@ == cells,
                buf.spec_cols() == self.cols,
                out@ == screen(cells, panels@, self.cols as int).subrange(0, k as int),
            decreases n - k,
        {
            let r = k / self.cols;
            let c = k % self.cols;
            let ch = overlay_char(panels, self.cols, r, c, glyph(buf.at(k)));
            push_char(&mut out, ch);
            assert(screen(cells, panels@, self.cols as int).subrange(0, k + 1)
                == screen(cells, panels@, self.cols as int).subrange(0, k as int).push(ch));
            k = k + 1;
        }
        assert(screen(cells, panels@, self.cols as int).subrange(0, n as int)
            == screen(cells, panels@, self.cols as int));
        out
    }
}

} // verus!
