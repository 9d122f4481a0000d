//! Uniform bucket grid over the galaxy plane. Every placed star is recorded
//! (by its index in the list of kept stars) in the bucket of the cell that
//! contains it; a minimum-distance check then only has to look at the 3x3
//! block of buckets around a candidate's cell.

use vstd::prelude::*;

verus! {

/// Lowest neighbour index of `b`: one step down, clamped at 0.
pub open spec fn span_lo(b: int) -> int {
    if b > 0 { b - 1 } else { 0 }
}

/// Highest neighbour index of `b` on an axis of `n` cells: one step up,
/// clamped at `n - 1`.
pub open spec fn span_hi(b: int, n: int) -> int {
    if b + 1 < n - 1 { b + 1 } else { n - 1 }
}

/// Distance of at most one step along an axis.
pub open spec fn adjacent(a: int, b: int) -> bool {
    a - 1 <= b <= a + 1
}

/// The inclusive range of indices adjacent to `b` on an axis of `n` cells:
/// `(b.saturating_sub(1), min(b + 1, n - 1))`.
pub fn neighbor_range(b: usize, n: usize) -> (r: (usize, usize))
    requires
        b < n,
    ensures
        r.0 == span_lo(b as int),
        r.1 == span_hi(b as int, n as int),
{
    let lo = b.saturating_sub(1);
    let up = b + 1;
    let hi = if up < n - 1 { up } else { n - 1 };
    (lo, hi)
}

/// `y * w + x < w * h` for a cell inside a `w` by `h` grid.
proof fn lemma_cell_index_bound(x: int, y: int, w: int, h: int)
    requires
        0 <= x < w,
        0 <= y < h,
    ensures
        0 <= y * w + x < w * h,
{
    assert(0 <= y * w + x < w * h) by (nonlinear_arith)
        requires
            0 <= x < w,
            0 <= y < h,
    ;
}

/// Distinct cells of a grid of width `w` have distinct row-major indices.
proof fn lemma_cell_index_distinct(x1: int, y1: int, x2: int, y2: int, w: int)
    requires
        0 <= x1 < w,
        0 <= x2 < w,
        0 <= y1,
        0 <= y2,
        x1 != x2 || y1 != y2,
    ensures
        y1 * w + x1 != y2 * w + x2,
{
    if y1 == y2 {
    } else if y1 < y2 {
        assert(y1 * w + x1 < y2 * w + x2) by (nonlinear_arith)
            requires
                0 <= x1 < w,
                0 <= x2,
                y1 < y2,
        ;
    } else {
        assert(y2 * w + x2 < y1 * w + x1) by (nonlinear_arith)
            requires
                0 <= x2 < w,
                0 <= x1,
                y2 < y1,
        ;
    }
}

/// A `width` by `height` grid of buckets of star indices, stored row-major.
pub struct BucketGrid {
    width: usize,
    height: usize,
    cells: Vec<Vec<usize>>,
}

impl BucketGrid {
    /// Number of cells along x.
    pub closed spec fn width(&self) -> nat {
        self.width as nat
    }

    /// Number of cells along y.
    pub closed spec fn height(&self) -> nat {
        self.height as nat
    }

    /// The star indices recorded in cell `(x, y)`, in insertion order.
    pub closed spec fn bucket(&self, x: int, y: int) -> Seq<usize> {
        self.cells@[y * self.width + x]@
    }

    /// One bucket per cell.
    pub closed spec fn wf(&self) -> bool {
        &&& self.cells@.len() == self.width * self.height
        &&& self.width * self.height <= usize::MAX
    }

    /// Cell `(x, y)` lies inside the grid.
    pub open spec fn in_grid(&self, x: int, y: int) -> bool {
        0 <= x < self.width() && 0 <= y < self.height()
    }

    /// Concatenation of the buckets of row `y` from column `x_lo` to `x_hi`
    /// (inclusive), left to right.
    pub open spec fn row_span(&self, y: int, x_lo: int, x_hi: int) -> Seq<usize>
        decreases x_hi - x_lo + 1,
    {
        if x_hi < x_lo {
            Seq::empty()
        } else {
            self.row_span(y, x_lo, x_hi - 1) + self.bucket(x_hi, y)
        }
    }

    /// Concatenation of `row_span(y, x_lo, x_hi)` for the rows `y_lo..=y_hi`,
    /// top to bottom.
    pub open spec fn block_span(&self, y_lo: int, y_hi: int, x_lo: int, x_hi: int) -> Seq<usize>
        decreases y_hi - y_lo + 1,
    {
        if y_hi < y_lo {
            Seq::empty()
        } else {
            self.block_span(y_lo, y_hi - 1, x_lo, x_hi) + self.row_span(y_hi, x_lo, x_hi)
        }
    }

    /// The star indices recorded in the 3x3 block of cells around `(x, y)`
    /// (clipped to the grid), row by row.
    pub open spec fn neighborhood(&self, x: int, y: int) -> Seq<usize> {
        self.block_span(
            span_lo(y),
            span_hi(y, self.height() as int),
            span_lo(x),
            span_hi(x, self.width() as int),
        )
    }

    /// An empty grid of `width` by `height` buckets.
    pub fn new(width: usize, height: usize) -> (g: Self)
        requires
            width * height <= usize::MAX,
        ensures
            g.wf(),
            g.width() == width,
            g.height() == height,
            forall|x: int, y: int| g.in_grid(x, y) ==> #[trigger] g.bucket(x, y) == Seq::<usize>::empty(),
    {
        let n = width * height;
        let mut cells: Vec<Vec<usize>> = Vec::new();
        let mut i: usize = 0;
        while i < n
            invariant
                i <= n,
                cells@.len() == i,
                forall|j: int| 0 <= j < i ==> (#[trigger] cells@[j])@ == Seq::<usize>::empty(),
            decreases n - i,
        {
            cells.push(Vec::new());
            i += 1;
        }
        let g = BucketGrid { width, height, cells };
        assert forall|x: int, y: int| g.in_grid(x, y) implies #[trigger] g.bucket(x, y) == Seq::<usize>::empty() by {
            lemma_cell_index_bound(x, y, width as int, height as int);
        }
        g
    }

    /// Number of cells along x.
    pub fn grid_width(&self) -> (r: usize)
        ensures
            r == self.width(),
    {
        self.width
    }

    /// Number of cells along y.
    pub fn grid_height(&self) -> (r: usize)
        ensures
            r == self.height(),
    {
        self.height
    }

    /// The cell with (floored) coordinates `(bx, by)`, or `None` when it lies
    /// outside the grid.
    pub fn cell_of(&self, bx: isize, by: isize) -> (r: Option<(usize, usize)>)
        ensures
            r == (if bx < 0 || by < 0 || bx >= self.width() || by >= self.height() {
                None
            } else {
                Some((bx as usize, by as usize))
            }),
    {
        if bx < 0 || by < 0 {
            return None;
        }
        let x = bx as usize;
        let y = by as usize;
        if x >= self.width || y >= self.height {
            return None;
        }
        Some((x, y))
    }

    /// Records star `id` in cell `(bx, by)`.
    pub fn insert(&mut self, bx: usize, by: usize, id: usize)
        requires
            old(self).wf(),
            old(self).in_grid(bx as int, by as int),
        ensures
            final(self).wf(),
            final(self).width() == old(self).width(),
            final(self).height() == old(self).height(),
            forall|x: int, y: int|
                final(self).in_grid(x, y) ==> #[trigger] final(self).bucket(x, y) == (if x == bx && y
                    == by {
                    old(self).bucket(x, y).push(id)
                } else {
                    old(self).bucket(x, y)
                }),
    {
        proof {
            lemma_cell_index_bound(bx as int, by as int, self.width as int, self.height as int);
        }
        let idx = by * self.width + bx;
        self.cells[idx].push(id);
        proof {
            assert forall|x: int, y: int| self.in_grid(x, y) implies #[trigger] self.bucket(x, y) == (
            if x == bx && y == by {
                old(self).bucket(x, y).push(id)
            } else {
                old(self).bucket(x, y)
            }) by {
                lemma_cell_index_bound(x, y, self.width as int, self.height as int);
                if x != bx || y != by {
                    lemma_cell_index_distinct(x, y, bx as int, by as int, self.width as int);
                }
            }
        }
    }

    /// The star indices recorded in the 3x3 block of cells around `(bx, by)`,
    /// rows top to bottom, cells left to right, each bucket in insertion order.
    pub fn neighbors(&self, bx: usize, by: usize) -> (r: Vec<usize>)
        requires
            self.wf(),
            self.in_grid(bx as int, by as int),
        ensures
            r@ == self.neighborhood(bx as int, by as int),
    {
        let (min_bx, max_bx) = neighbor_range(bx, self.width);
        let (min_by, max_by) = neighbor_range(by, self.height);
        let mut out: Vec<usize> = Vec::new();
        let mut yy = min_by;
        while yy <= max_by
            invariant
                self.wf(),
                min_bx <= max_bx < self.width(),
                min_by <= max_by < self.height(),
                min_by <= yy <= max_by + 1,
                out@ == self.block_span(min_by as int, yy - 1, min_bx as int, max_bx as int),
            decreases max_by + 1 - yy,
        {
            let mut xx = min_bx;
            while xx <= max_bx
                invariant
                    self.wf(),
                    min_bx <= max_bx < self.width(),
                    min_by <= yy <= max_by < self.height(),
                    min_bx <= xx <= max_bx + 1,
                    out@ == self.block_span(min_by as int, yy - 1, min_bx as int, max_bx as int)
                        + self.row_span(yy as int, min_bx as int, xx - 1),
                decreases max_bx + 1 - xx,
            {
                proof {
                    lemma_cell_index_bound(xx as int, yy as int, self.width as int, self.height as int);
                }
                let idx = yy * self.width + xx;
                let cell = &self.cells[idx];
                let ghost before = out@;
                let mut k: usize = 0;
                while k < cell.len()
                    invariant
                        k <= cell@.len(),
                        out@ == before + cell@.subrange(0, k as int),
                    decreases cell@.len() - k,
                {
                    out.push(cell[k]);
                    proof {
                        assert(cell@.subrange(0, k as int + 1) == cell@.subrange(0, k as int).push(
                            cell@[k as int],
                        ));
                    }
                    k += 1;
                }
                proof {
                    assert(cell@.subrange(0, cell@.len() as int) == cell@);
                    assert(self.bucket(xx as int, yy as int) == cell@);
                    assert(self.row_span(yy as int, min_bx as int, xx as int) == self.row_span(
                        yy as int,
                        min_bx as int,
                        xx - 1,
                    ) + self.bucket(xx as int, yy as int));
                }
                xx += 1;
            }
            proof {
                assert(self.block_span(min_by as int, yy as int, min_bx as int, max_bx as int)
                    == self.block_span(min_by as int, yy - 1, min_bx as int, max_bx as int)
                    + self.row_span(yy as int, min_bx as int, max_bx as int));
            }
            yy += 1;
        }
        out
    }
}

/// An element of `b` is an element of `a + b`.
proof fn lemma_concat_contains_right(a: Seq<usize>, b: Seq<usize>, id: usize)
    requires
        b.contains(id),
    ensures
        (a + b).contains(id),
{
    let k = choose|k: int| 0 <= k < b.len() && b[k] == id;
    assert((a + b)[a.len() + k] == id);
}

/// An element of `a` is an element of `a + b`.
proof fn lemma_concat_contains_left(a: Seq<usize>, b: Seq<usize>, id: usize)
    requires
        a.contains(id),
    ensures
        (a + b).contains(id),
{
    let k = choose|k: int| 0 <= k < a.len() && a[k] == id;
    assert((a + b)[k] == id);
}

/// An element of `a + b` is an element of `a` or of `b`.
proof fn lemma_concat_contains_split(a: Seq<usize>, b: Seq<usize>, id: usize)
    requires
        (a + b).contains(id),
    ensures
        a.contains(id) || b.contains(id),
{
    let k = choose|k: int| 0 <= k < (a + b).len() && (a + b)[k] == id;
    if k < a.len() {
        assert(a[k] == id);
    } else {
        assert(b[k - a.len()] == id);
    }
}

impl BucketGrid {
    proof fn lemma_row_span_complete(&self, y: int, x_lo: int, x_hi: int, bx: int, id: usize)
        requires
            x_lo <= bx <= x_hi,
            self.bucket(bx, y).contains(id),
        ensures
            self.row_span(y, x_lo, x_hi).contains(id),
        decreases x_hi - x_lo,
    {
        if bx == x_hi {
            lemma_concat_contains_right(self.row_span(y, x_lo, x_hi - 1), self.bucket(x_hi, y), id);
        } else {
            self.lemma_row_span_complete(y, x_lo, x_hi - 1, bx, id);
            lemma_concat_contains_left(self.row_span(y, x_lo, x_hi - 1), self.bucket(x_hi, y), id);
        }
    }

    proof fn lemma_block_span_complete(
        &self,
        y_lo: int,
        y_hi: int,
        x_lo: int,
        x_hi: int,
        bx: int,
        by: int,
        id: usize,
    )
        requires
            x_lo <= bx <= x_hi,
            y_lo <= by <= y_hi,
            self.bucket(bx, by).contains(id),
        ensures
            self.block_span(y_lo, y_hi, x_lo, x_hi).contains(id),
        decreases y_hi - y_lo,
    {
        if by == y_hi {
            self.lemma_row_span_complete(y_hi, x_lo, x_hi, bx, id);
            lemma_concat_contains_right(
                self.block_span(y_lo, y_hi - 1, x_lo, x_hi),
                self.row_span(y_hi, x_lo, x_hi),
                id,
            );
        } else {
            self.lemma_block_span_complete(y_lo, y_hi - 1, x_lo, x_hi, bx, by, id);
            lemma_concat_contains_left(
                self.block_span(y_lo, y_hi - 1, x_lo, x_hi),
                self.row_span(y_hi, x_lo, x_hi),
                id,
            );
        }
    }

    proof fn lemma_row_span_sound(&self, y: int, x_lo: int, x_hi: int, id: usize) -> (bx: int)
        requires
            self.row_span(y, x_lo, x_hi).contains(id),
        ensures
            x_lo <= bx <= x_hi,
            self.bucket(bx, y).contains(id),
        decreases x_hi - x_lo,
    {
        if x_hi < x_lo {
            assert(false);
            0
        } else {
            lemma_concat_contains_split(self.row_span(y, x_lo, x_hi - 1), self.bucket(x_hi, y), id);
            if self.bucket(x_hi, y).contains(id) {
                x_hi
            } else {
                self.lemma_row_span_sound(y, x_lo, x_hi - 1, id)
            }
        }
    }

    proof fn lemma_block_span_sound(&self, y_lo: int, y_hi: int, x_lo: int, x_hi: int, id: usize) -> (c: (
        int,
        int,
    ))
        requires
            self.block_span(y_lo, y_hi, x_lo, x_hi).contains(id),
        ensures
            x_lo <= c.0 <= x_hi,
            y_lo <= c.1 <= y_hi,
            self.bucket(c.0, c.1).contains(id),
        decreases y_hi - y_lo,
    {
        if y_hi < y_lo {
            assert(false);
            (0, 0)
        } else {
            lemma_concat_contains_split(
                self.block_span(y_lo, y_hi - 1, x_lo, x_hi),
                self.row_span(y_hi, x_lo, x_hi),
                id,
            );
            if self.row_span(y_hi, x_lo, x_hi).contains(id) {
                (self.lemma_row_span_sound(y_hi, x_lo, x_hi, id), y_hi)
            } else {
                self.lemma_block_span_sound(y_lo, y_hi - 1, x_lo, x_hi, id)
            }
        }
    }
}

/// Completeness of the neighbour query: a star recorded in a cell is reported
/// by the query of that cell and of every cell adjacent to it.
pub proof fn lemma_neighborhood_complete(g: &BucketGrid, x: int, y: int, bx: int, by: int, id: usize)
    requires
        g.wf(),
        g.in_grid(x, y),
        g.in_grid(bx, by),
        adjacent(x, bx),
        adjacent(y, by),
        g.bucket(bx, by).contains(id),
    ensures
        g.neighborhood(x, y).contains(id),
{
    g.lemma_block_span_complete(
        span_lo(y),
        span_hi(y, g.height() as int),
        span_lo(x),
        span_hi(x, g.width() as int),
        bx,
        by,
        id,
    );
}

/// Soundness of the neighbour query: every star it reports is recorded in a
/// cell of the grid adjacent to the queried one.
pub proof fn lemma_neighborhood_sound(g: &BucketGrid, x: int, y: int, id: usize)
    requires
        g.wf(),
        g.in_grid(x, y),
        g.neighborhood(x, y).contains(id),
    ensures
        exists|bx: int, by: int|
            g.in_grid(bx, by) && adjacent(x, bx) && adjacent(y, by) && #[trigger] g.bucket(
                bx,
                by,
            ).contains(id),
{
    let c = g.lemma_block_span_sound(
        span_lo(y),
        span_hi(y, g.height() as int),
        span_lo(x),
        span_hi(x, g.width() as int),
        id,
    );
    assert(g.in_grid(c.0, c.1) && adjacent(x, c.0) && adjacent(y, c.1) && g.bucket(c.0, c.1).contains(
        id,
    ));
}

/// A star recorded by `insert` at `(bx, by)` is reported afterwards by the
/// neighbour query of every grid cell adjacent to `(bx, by)`.
pub proof fn lemma_inserted_star_found(
    before: &BucketGrid,
    after: &BucketGrid,
    bx: int,
    by: int,
    id: usize,
    x: int,
    y: int,
)
    requires
        after.wf(),
        before.in_grid(bx, by),
        after.width() == before.width(),
        after.height() == before.height(),
        forall|cx: int, cy: int|
            after.in_grid(cx, cy) ==> #[trigger] after.bucket(cx, cy) == (if cx == bx && cy == by {
                before.bucket(cx, cy).push(id)
            } else {
                before.bucket(cx, cy)
            }),
        after.in_grid(x, y),
        adjacent(x, bx),
        adjacent(y, by),
    ensures
        after.neighborhood(x, y).contains(id),
{
    let b = after.bucket(bx, by);
    assert(b[b.len() - 1] == id);
    lemma_neighborhood_complete(after, x, y, bx, by, id);
}

} // verus!
