//! The square boolean star grid over the integer region `min..=max`, and the
//! stopping rule of the placement passes.

use vstd::prelude::*;

verus! {

/// Side of the star grid for the region `min..=max`.
pub open spec fn spec_grid_size(min: i32, max: i32) -> int {
    max - min + 1
}

/// A square grid: every row has as many cells as there are rows.
pub open spec fn is_square(grid: Seq<Vec<bool>>) -> bool {
    forall|i: int| 0 <= i < grid.len() ==> (#[trigger] grid[i])@.len() == grid.len()
}

/// Side of the star grid, `max - min + 1`.
pub fn grid_size(min: i32, max: i32) -> (r: usize)
    requires
        0 <= spec_grid_size(min, max) <= i32::MAX,
    ensures
        r == spec_grid_size(min, max),
{
    (max - min + 1) as usize
}

/// A `size` by `size` grid with no star.
pub fn star_grid(size: usize) -> (g: Vec<Vec<bool>>)
    ensures
        g@.len() == size,
        is_square(g@),
        forall|i: int, j: int| 0 <= i < size && 0 <= j < size ==> !#[trigger] g@[i]@[j],
{
    let mut g: Vec<Vec<bool>> = Vec::new();
    let mut i: usize = 0;
    while i < size
        invariant
            i <= size,
            g@.len() == i,
            forall|a: int| 0 <= a < i ==> (#[trigger] g@[a])@.len() == size,
            forall|a: int, b: int| 0 <= a < i && 0 <= b < size ==> !#[trigger] g@[a]@[b],
        decreases size - i,
    {
        let mut row: Vec<bool> = Vec::new();
        let mut j: usize = 0;
        while j < size
            invariant
                j <= size,
                row@.len() == j,
                forall|b: int| 0 <= b < j ==> !#[trigger] row@[b],
            decreases size - j,
        {
            row.push(false);
            j += 1;
        }
        g.push(row);
        i += 1;
    }
    g
}

/// The grid cell of a star whose coordinates round to `(rx, ry)`: the
/// offsets from `min`, when both lie in `0..size`.
pub fn raster_cell(rx: isize, ry: isize, min: i32, size: usize) -> (r: Option<(usize, usize)>)
    requires
        isize::MIN <= rx - min <= isize::MAX,
        isize::MIN <= ry - min <= isize::MAX,
    ensures
        r == (if 0 <= rx - min < size && 0 <= ry - min < size {
            Some(((rx - min) as usize, (ry - min) as usize))
        } else {
            None
        }),
{
    let ix = rx - min as isize;
    let iy = ry - min as isize;
    if ix >= 0 && iy >= 0 {
        let ux = ix as usize;
        let uy = iy as usize;
        if uy < size && ux < size {
            return Some((ux, uy));
        }
    }
    None
}

/// Marks cell `(ix, iy)` as holding a star; no other cell changes.
pub fn mark_cell(grid: &mut Vec<Vec<bool>>, ix: usize, iy: usize)
    requires
        iy < old(grid)@.len(),
        ix < old(grid)@[iy as int]@.len(),
    ensures
        final(grid)@.len() == old(grid)@.len(),
        final(grid)@[iy as int]@ == old(grid)@[iy as int]@.update(ix as int, true),
        forall|i: int| 0 <= i < old(grid)@.len() && i != iy ==> #[trigger] final(grid)@[i] == old(grid)@[i],
{
    grid[iy][ix] = true;
}

/// A placement pass stops once the number of kept stars reaches the optional
/// target.
pub open spec fn spec_target_reached(kept: usize, target: Option<usize>) -> bool {
    match target {
        Some(limit) => kept >= limit,
        None => false,
    }
}

/// Whether `kept` stars meet the optional target number of stars.
pub fn target_reached(kept: usize, target: Option<usize>) -> (r: bool)
    ensures
        r == spec_target_reached(kept, target),
        target is None ==> !r,
        target matches Some(n) ==> (r <==> kept >= n),
{
    match target {
        Some(limit) => kept >= limit,
        None => false,
    }
}


/// Without a target the passes never stop early, whatever the number of
/// stars kept; with a target `n` they stop exactly once `n` stars are kept.
pub proof fn lemma_target_rule(kept: usize, n: usize)
    ensures
        !spec_target_reached(kept, None),
        spec_target_reached(kept, Some(n)) <==> kept >= n,
{
}

/// Once the target is reached, keeping more stars keeps it reached.
pub proof fn lemma_target_monotone(a: usize, b: usize, target: Option<usize>)
    requires
        a <= b,
        spec_target_reached(a, target),
    ensures
        spec_target_reached(b, target),
{
}

} // verus!
