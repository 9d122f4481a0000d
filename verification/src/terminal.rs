//! Terminal views of the star field: the coarse density view (one glyph per
//! character cell, chosen by how many stars fall in it) and the braille view
//! (each character cell shows a 2x4 block of dots).

use vstd::prelude::*;

verus! {

/// Columns and rows of the coarse view for a terminal of `term_w` by
/// `term_h` cells: two rows are kept for the info line, and each side is at
/// least 10.
pub open spec fn spec_tui_layout(term_w: u16, term_h: u16) -> (usize, usize) {
    let cols = if term_w < 10 { 10 } else { term_w };
    let avail = if term_h < 2 { 0 } else { term_h - 2 };
    let rows = if avail < 10 { 10 } else { avail };
    (cols as usize, rows as usize)
}

/// Size of the coarse view for a terminal of the given size.
pub fn tui_layout(term_w: u16, term_h: u16) -> (r: (usize, usize))
    ensures
        r == spec_tui_layout(term_w, term_h),
{
    let cols = if term_w < 10 { 10 } else { term_w };
    let avail = term_h.saturating_sub(2);
    let rows = if avail < 10 { 10 } else { avail };
    (cols as usize, rows as usize)
}

/// A rectangular buffer: `rows` rows of `cols` cells each.
pub open spec fn is_rect<T>(buf: Seq<Vec<T>>, rows: int, cols: int) -> bool {
    &&& buf.len() == rows
    &&& forall|i: int| 0 <= i < rows ==> (#[trigger] buf[i])@.len() == cols
}

/// A `rows` by `cols` buffer of star counts, all zero.
pub fn count_grid(rows: usize, cols: usize) -> (g: Vec<Vec<u32>>)
    ensures
        is_rect(g@, rows as int, cols as int),
        forall|i: int, j: int| 0 <= i < rows && 0 <= j < cols ==> #[trigger] g@[i]@[j] == 0,
{
    let mut g: Vec<Vec<u32>> = Vec::new();
    let mut i: usize = 0;
    while i < rows
        invariant
            i <= rows,
            is_rect(g@, i as int, cols as int),
            forall|a: int, b: int| 0 <= a < i && 0 <= b < cols ==> #[trigger] g@[a]@[b] == 0,
        decreases rows - i,
    {
        let mut row: Vec<u32> = Vec::new();
        let mut j: usize = 0;
        while j < cols
            invariant
                j <= cols,
                row@.len() == j,
                forall|b: int| 0 <= b < j ==> #[trigger] row@[b] == 0,
            decreases cols - j,
        {
            row.push(0);
            j += 1;
        }
        g.push(row);
        i += 1;
    }
    g
}

/// Counts one more star in cell `(cx, cy)` (saturating), when the cell lies
/// inside the buffer; a star outside it is ignored.
pub fn count_star(buf: &mut Vec<Vec<u32>>, cols: usize, cx: isize, cy: isize)
    requires
        is_rect(old(buf)@, old(buf)@.len() as int, cols as int),
    ensures
        final(buf)@.len() == old(buf)@.len(),
        if 0 <= cx < cols && 0 <= cy < old(buf)@.len() {
            &&& final(buf)@[cy as int]@ == old(buf)@[cy as int]@.update(
                cx as int,
                old(buf)@[cy as int]@[cx as int].saturating_add(1),
            )
            &&& forall|i: int|
                0 <= i < old(buf)@.len() && i != cy ==> #[trigger] final(buf)@[i] == old(buf)@[i]
        } else {
            final(buf)@ == old(buf)@
        },
{
    if cx >= 0 && (cx as usize) < cols && cy >= 0 && (cy as usize) < buf.len() {
        let x = cx as usize;
        let y = cy as usize;
        let v = buf[y][x];
        buf[y][x] = v.saturating_add(1);
    }
}

/// The glyph of a cell holding `v` stars: blank, `.` below 3, `*` below 8,
/// `@` from 8 on.
pub open spec fn spec_density_char(v: u32) -> char {
    if v == 0 {
        ' '
    } else if v < 3 {
        '.'
    } else if v < 8 {
        '*'
    } else {
        '@'
    }
}

/// Glyph for a cell holding `v` stars.
pub fn density_char(v: u32) -> (c: char)
    ensures
        c == spec_density_char(v),
        v == 0 ==> c == ' ',
        1 <= v < 3 ==> c == '.',
        3 <= v < 8 ==> c == '*',
        8 <= v ==> c == '@',
{
    if v == 0 {
        ' '
    } else if v < 3 {
        '.'
    } else if v < 8 {
        '*'
    } else {
        '@'
    }
}

/// Rank of a glyph in the density scale `' ' < '.' < '*' < '@'`.
pub open spec fn density_rank(c: char) -> int {
    if c == ' ' {
        0
    } else if c == '.' {
        1
    } else if c == '*' {
        2
    } else {
        3
    }
}

/// The density glyph never gets lighter as the count grows.
pub proof fn lemma_density_monotone(a: u32, b: u32)
    requires
        a <= b,
    ensures
        density_rank(spec_density_char(a)) <= density_rank(spec_density_char(b)),
{
}

/// One line of the coarse view: the glyphs of a row of counts, then a newline.
pub open spec fn count_row_text(row: Seq<u32>) -> Seq<char> {
    Seq::new(row.len(), |j: int| spec_density_char(row[j])).push('\n')
}

/// The coarse view of the first `n` rows of a count buffer.
pub open spec fn counts_text(buf: Seq<Vec<u32>>, n: int) -> Seq<char>
    decreases n,
{
    if n <= 0 {
        Seq::empty()
    } else {
        counts_text(buf, n - 1) + count_row_text(buf[n - 1]@)
    }
}

/// Text of the coarse view: one line per row of counts.
pub fn render_counts(buf: &Vec<Vec<u32>>) -> (text: Vec<char>)
    ensures
        text@ == counts_text(buf@, buf@.len() as int),
{
    let mut out: Vec<char> = Vec::new();
    let mut r: usize = 0;
    while r < buf.len()
        invariant
            r <= buf@.len(),
            out@ == counts_text(buf@, r as int),
        decreases buf@.len() - r,
    {
        let row = &buf[r];
        let ghost before = out@;
        let mut c: usize = 0;
        while c < row.len()
            invariant
                c <= row@.len(),
                out@ == before + Seq::new(c as nat, |j: int| spec_density_char(row@[j])),
            decreases row@.len() - c,
        {
            out.push(density_char(row[c]));
            proof {
                assert(Seq::new((c + 1) as nat, |j: int| spec_density_char(row@[j])) =~= Seq::new(
                    c as nat,
                    |j: int| spec_density_char(row@[j]),
                ).push(spec_density_char(row@[c as int])));
            }
            c += 1;
        }
        out.push('\n');
        proof {
            assert(out@ =~= counts_text(buf@, r as int) + count_row_text(buf@[r as int]@));
        }
        r += 1;
    }
    out
}


/// The density scale has exactly four glyphs with thresholds 1, 3 and 8:
/// an empty cell is blank, 1 or 2 stars show `.`, 3 to 7 stars show `*`,
/// and every count of 8 or more shows `@`.
pub proof fn lemma_density_thresholds(v: u32)
    ensures
        v == 0 ==> spec_density_char(v) == ' ',
        1 <= v < 3 ==> spec_density_char(v) == '.',
        3 <= v < 8 ==> spec_density_char(v) == '*',
        8 <= v ==> spec_density_char(v) == '@',
        spec_density_char(v) == ' ' || spec_density_char(v) == '.' || spec_density_char(v) == '*'
            || spec_density_char(v) == '@',
{
}

/// All counts of 8 or more look the same.
pub proof fn lemma_dense_cells_alike(a: u32, b: u32)
    requires
        a >= 8,
        b >= 8,
    ensures
        spec_density_char(a) == spec_density_char(b),
{
}

} // verus!
