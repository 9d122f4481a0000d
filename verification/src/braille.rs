//! The braille view: stars are splatted into a high-resolution dot buffer
//! with two dot columns and four dot rows per character cell, and each cell
//! becomes the braille pattern of its lit dots.

use crate::terminal::is_rect;
use vstd::prelude::*;

verus! {

/// Braille dot number (1..=8) of the dot in column `dx` and row `dy` of a
/// cell; 0 for a position outside the 2x4 cell.
pub open spec fn spec_braille_dot(dx: usize, dy: usize) -> u8 {
    if dx == 0 && dy == 0 {
        1
    } else if dx == 0 && dy == 1 {
        2
    } else if dx == 0 && dy == 2 {
        3
    } else if dx == 0 && dy == 3 {
        7
    } else if dx == 1 && dy == 0 {
        4
    } else if dx == 1 && dy == 1 {
        5
    } else if dx == 1 && dy == 2 {
        6
    } else if dx == 1 && dy == 3 {
        8
    } else {
        0
    }
}

/// Braille dot number of a position in a cell.
pub fn braille_dot(dx: usize, dy: usize) -> (d: u8)
    ensures
        d == spec_braille_dot(dx, dy),
{
    match (dx, dy) {
        (0, 0) => 1,
        (0, 1) => 2,
        (0, 2) => 3,
        (0, 3) => 7,
        (1, 0) => 4,
        (1, 1) => 5,
        (1, 2) => 6,
        (1, 3) => 8,
        _ => 0,
    }
}

/// The mask bit of dot number `dot` (`1 << (dot - 1)`).
pub open spec fn dot_bit(dot: u8) -> u8 {
    if dot == 1 {
        1
    } else if dot == 2 {
        2
    } else if dot == 3 {
        4
    } else if dot == 4 {
        8
    } else if dot == 5 {
        16
    } else if dot == 6 {
        32
    } else if dot == 7 {
        64
    } else if dot == 8 {
        128
    } else {
        0
    }
}

/// The high-resolution dot `(dx, dy)` of cell `(bx, by)` holds some weight.
pub open spec fn dot_lit(high: Seq<Vec<u8>>, bx: int, by: int, dx: int, dy: int) -> bool {
    high[by * 4 + dy]@[bx * 2 + dx] > 0
}

/// Mask of the first `n` positions of cell `(bx, by)`, visiting rows `dy`
/// from top to bottom and, in each, columns `dx` from left to right.
pub open spec fn mask_upto(high: Seq<Vec<u8>>, bx: int, by: int, n: int) -> u8
    decreases n,
{
    if n <= 0 {
        0
    } else {
        let dx = (n - 1) % 2;
        let dy = (n - 1) / 2;
        let bit: u8 = if dot_lit(high, bx, by, dx, dy) {
            dot_bit(spec_braille_dot(dx as usize, dy as usize))
        } else {
            0
        };
        mask_upto(high, bx, by, n - 1) | bit
    }
}

/// The braille mask of cell `(bx, by)`.
pub open spec fn spec_cell_mask(high: Seq<Vec<u8>>, bx: int, by: int) -> u8 {
    mask_upto(high, bx, by, 8)
}

/// The dots of cell `(bx, by)` lie inside the dot buffer.
pub open spec fn cell_in_buffer(high: Seq<Vec<u8>>, bx: int, by: int) -> bool {
    &&& 0 <= bx
    &&& 0 <= by
    &&& by * 4 + 4 <= high.len()
    &&& forall|r: int| by * 4 <= r < by * 4 + 4 ==> bx * 2 + 2 <= (#[trigger] high[r])@.len()
}

/// Braille mask of cell `(bx, by)`: bit `d - 1` is set for each lit dot
/// numbered `d`.
pub fn cell_mask(high: &Vec<Vec<u8>>, bx: usize, by: usize) -> (m: u8)
    requires
        cell_in_buffer(high@, bx as int, by as int),
    ensures
        m == spec_cell_mask(high@, bx as int, by as int),
{
    let mut mask: u8 = 0;
    let mut dy: usize = 0;
    let n_rows = high.len();
    while dy < 4
        invariant
            dy <= 4,
            n_rows == high@.len(),
            cell_in_buffer(high@, bx as int, by as int),
            mask == mask_upto(high@, bx as int, by as int, dy * 2),
        decreases 4 - dy,
    {
        let mut dx: usize = 0;
        while dx < 2
            invariant
                dx <= 2,
                dy < 4,
                n_rows == high@.len(),
                cell_in_buffer(high@, bx as int, by as int),
                mask == mask_upto(high@, bx as int, by as int, dy * 2 + dx),
            decreases 2 - dx,
        {
            let hy = by * 4 + dy;
            let row = &high[hy];
            let row_len = row.len();
            assert(bx * 2 + dx < row_len);
            let hx = bx * 2 + dx;
            let v = row[hx];
            let ghost n = dy * 2 + dx + 1;
            assert((n - 1) % 2 == dx && (n - 1) / 2 == dy);
            if v > 0 {
                let dot = braille_dot(dx, dy);
                if dot > 0 {
                    let bit: u8 = 1u8 << (dot - 1);
                    assert(bit == dot_bit(dot)) by {
                        assert(1u8 << 0u8 == 1u8) by (bit_vector);
                        assert(1u8 << 1u8 == 2u8) by (bit_vector);
                        assert(1u8 << 2u8 == 4u8) by (bit_vector);
                        assert(1u8 << 3u8 == 8u8) by (bit_vector);
                        assert(1u8 << 4u8 == 16u8) by (bit_vector);
                        assert(1u8 << 5u8 == 32u8) by (bit_vector);
                        assert(1u8 << 6u8 == 64u8) by (bit_vector);
                        assert(1u8 << 7u8 == 128u8) by (bit_vector);
                    }
                    mask = mask | bit;
                }
            } else {
                assert(mask | 0u8 == mask) by (bit_vector);
            }
            dx += 1;
        }
        dy += 1;
    }
    mask
}

/// `char::from_u32`: documented to return the character with scalar value
/// `code` when `code` is a Unicode scalar value (not a surrogate and at most
/// `0x10FFFF`), and `None` otherwise.
#[verifier::external_body]
fn char_from_code(code: u32) -> (r: Option<char>)
    ensures
        r is Some <==> (code < 0xD800 || (0xE000 <= code && code <= 0x10FFFF)),
        r matches Some(c) ==> c as u32 == code,
{
    char::from_u32(code)
}

/// Character of a braille cell with the given mask: a blank for no dot,
/// otherwise the braille pattern `U+2800 + mask`.
pub open spec fn spec_braille_glyph_code(mask: u8) -> u32 {
    if mask == 0 {
        ' ' as u32
    } else {
        (0x2800 + mask) as u32
    }
}

/// Character shown for a braille cell with the given mask.
pub fn braille_char(mask: u8) -> (c: char)
    ensures
        c as u32 == spec_braille_glyph_code(mask),
        mask == 0 ==> c == ' ',
        mask != 0 ==> c as u32 == 0x2800 + mask as u32,
{
    if mask == 0 {
        ' '
    } else {
        match char_from_code(0x2800u32 + mask as u32) {
            Some(c) => c,
            None => ' ',
        }
    }
}

/// One line of the braille view: the glyph codes of cells `0..cols` of cell
/// row `by`, then a newline.
pub open spec fn braille_row_codes(high: Seq<Vec<u8>>, cols: int, by: int) -> Seq<u32> {
    Seq::new(cols as nat, |bx: int| spec_braille_glyph_code(spec_cell_mask(high, bx, by))).push(
        '\n' as u32,
    )
}

/// The braille view of the first `n` cell rows.
pub open spec fn braille_codes(high: Seq<Vec<u8>>, cols: int, n: int) -> Seq<u32>
    decreases n,
{
    if n <= 0 {
        Seq::empty()
    } else {
        braille_codes(high, cols, n - 1) + braille_row_codes(high, cols, n - 1)
    }
}

/// Scalar values of a text.
pub open spec fn codes(text: Seq<char>) -> Seq<u32> {
    Seq::new(text.len(), |i: int| text[i] as u32)
}

/// Text of the braille view of a `rows * 4` by `cols * 2` dot buffer: one
/// line per cell row.
pub fn render_braille(high: &Vec<Vec<u8>>, cols: usize, rows: usize) -> (text: Vec<char>)
    requires
        rows * 4 <= usize::MAX,
        cols * 2 <= usize::MAX,
        is_rect(high@, rows * 4, cols * 2),
    ensures
        codes(text@) == braille_codes(high@, cols as int, rows as int),
{
    let mut out: Vec<char> = Vec::new();
    let mut by: usize = 0;
    while by < rows
        invariant
            by <= rows,
            rows * 4 <= usize::MAX,
            cols * 2 <= usize::MAX,
            is_rect(high@, rows * 4, cols * 2),
            codes(out@) == braille_codes(high@, cols as int, by as int),
        decreases rows - by,
    {
        let ghost before = codes(out@);
        let mut bx: usize = 0;
        while bx < cols
            invariant
                bx <= cols,
                by < rows,
                rows * 4 <= usize::MAX,
                cols * 2 <= usize::MAX,
                is_rect(high@, rows * 4, cols * 2),
                codes(out@) == before + Seq::new(
                    bx as nat,
                    |x: int| spec_braille_glyph_code(spec_cell_mask(high@, x, by as int)),
                ),
            decreases cols - bx,
        {
            let m = cell_mask(high, bx, by);
            let c = braille_char(m);
            let ghost prev = out@;
            out.push(c);
            proof {
                assert(codes(out@) =~= codes(prev).push(c as u32));
                assert(Seq::new(
                    (bx + 1) as nat,
                    |x: int| spec_braille_glyph_code(spec_cell_mask(high@, x, by as int)),
                ) =~= Seq::new(
                    bx as nat,
                    |x: int| spec_braille_glyph_code(spec_cell_mask(high@, x, by as int)),
                ).push(spec_braille_glyph_code(spec_cell_mask(high@, bx as int, by as int))));
            }
            bx += 1;
        }
        let ghost prev = out@;
        out.push('\n');
        proof {
            assert(codes(out@) =~= codes(prev).push('\n' as u32));
            assert(codes(out@) =~= braille_codes(high@, cols as int, by as int) + braille_row_codes(
                high@,
                cols as int,
                by as int,
            ));
        }
        by += 1;
    }
    out
}

/// Adds `add` (saturating) to dot `(xx, yy)` when it lies in the `w` by `h`
/// dot buffer; a zero weight or a dot outside the buffer changes nothing.
pub fn splat_dot(high: &mut Vec<Vec<u8>>, w: usize, h: usize, xx: isize, yy: isize, add: u8)
    requires
        is_rect(old(high)@, h as int, w as int),
    ensures
        final(high)@.len() == old(high)@.len(),
        if add != 0 && 0 <= xx < w && 0 <= yy < h {
            &&& final(high)@[yy as int]@ == old(high)@[yy as int]@.update(
                xx as int,
                old(high)@[yy as int]@[xx as int].saturating_add(add),
            )
            &&& forall|i: int| 0 <= i < h && i != yy ==> #[trigger] final(high)@[i] == old(high)@[i]
        } else {
            final(high)@ == old(high)@
        },
{
    if add == 0 {
        return;
    }
    if xx >= 0 && yy >= 0 {
        let ux = xx as usize;
        let uy = yy as usize;
        if ux < w && uy < h {
            let v = high[uy][ux];
            high[uy][ux] = v.saturating_add(add);
        }
    }
}

/// A star whose dot position floors to `(bx, by)` is splatted when that
/// position lies in `0..=w` by `0..=h` (its bilinear footprint then touches
/// the `w` by `h` dot buffer); any other star is skipped.
pub open spec fn spec_splat_visible(bx: isize, by: isize, w: usize, h: usize) -> bool {
    0 <= bx <= w && 0 <= by <= h
}

/// Whether a star at dot position `(bx, by)` is splatted into a `w` by `h`
/// dot buffer.
pub fn splat_visible(bx: isize, by: isize, w: usize, h: usize) -> (r: bool)
    requires
        w < usize::MAX,
        h < usize::MAX,
    ensures
        r == spec_splat_visible(bx, by, w, h),
{
    bx >= 0 && by >= 0 && (bx as usize) <= w && (by as usize) <= h
}

/// The or of eight optional bits is decoded bit by bit.
proof fn lemma_or8(b0: bool, b1: bool, b2: bool, b3: bool, b4: bool, b5: bool, b6: bool, b7: bool)
    by (bit_vector)
    ensures
        ({
            let m: u8 = (((((((((0u8 | (if b0 { 1u8 } else { 0u8 })) | (if b1 { 8u8 } else { 0u8 }))
                | (if b2 { 2u8 } else { 0u8 })) | (if b3 { 16u8 } else { 0u8 })) | (if b4 { 4u8 } else {
                0u8
            })) | (if b5 { 32u8 } else { 0u8 })) | (if b6 { 64u8 } else { 0u8 })) | (if b7 {
                128u8
            } else {
                0u8
            })));
            &&& ((m >> 0u8) & 1u8 == 1u8) == b0
            &&& ((m >> 3u8) & 1u8 == 1u8) == b1
            &&& ((m >> 1u8) & 1u8 == 1u8) == b2
            &&& ((m >> 4u8) & 1u8 == 1u8) == b3
            &&& ((m >> 2u8) & 1u8 == 1u8) == b4
            &&& ((m >> 5u8) & 1u8 == 1u8) == b5
            &&& ((m >> 6u8) & 1u8 == 1u8) == b6
            &&& ((m >> 7u8) & 1u8 == 1u8) == b7
        }),
{
}

/// Braille encoding of a cell: bit `d - 1` of its mask is set exactly when
/// the dot numbered `d` is lit, for each of the eight dots.
pub proof fn lemma_cell_mask_dots(high: Seq<Vec<u8>>, bx: int, by: int, dx: usize, dy: usize)
    requires
        dx < 2,
        dy < 4,
    ensures
        (((spec_cell_mask(high, bx, by) >> ((spec_braille_dot(dx, dy) - 1) as u8)) & 1u8) == 1u8)
            == dot_lit(high, bx, by, dx as int, dy as int),
{
    reveal_with_fuel(mask_upto, 9);
    let b0 = dot_lit(high, bx, by, 0, 0);
    let b1 = dot_lit(high, bx, by, 1, 0);
    let b2 = dot_lit(high, bx, by, 0, 1);
    let b3 = dot_lit(high, bx, by, 1, 1);
    let b4 = dot_lit(high, bx, by, 0, 2);
    let b5 = dot_lit(high, bx, by, 1, 2);
    let b6 = dot_lit(high, bx, by, 0, 3);
    let b7 = dot_lit(high, bx, by, 1, 3);
    assert(spec_cell_mask(high, bx, by) == (((((((((0u8 | (if b0 { 1u8 } else { 0u8 })) | (if b1 {
        8u8
    } else {
        0u8
    })) | (if b2 { 2u8 } else { 0u8 })) | (if b3 { 16u8 } else { 0u8 })) | (if b4 { 4u8 } else {
        0u8
    })) | (if b5 { 32u8 } else { 0u8 })) | (if b6 { 64u8 } else { 0u8 })) | (if b7 { 128u8 } else {
        0u8
    }))));
    lemma_or8(b0, b1, b2, b3, b4, b5, b6, b7);
}

/// Distinct masks give distinct characters, and only the empty mask gives a
/// blank.
pub proof fn lemma_braille_glyph_injective(m1: u8, m2: u8)
    requires
        m1 != m2,
    ensures
        spec_braille_glyph_code(m1) != spec_braille_glyph_code(m2),
{
}

/// A braille character shows its dots faithfully: two cells rendered as the
/// same character have the same lit dots.
pub proof fn lemma_braille_glyph_determines_dots(
    high1: Seq<Vec<u8>>,
    bx1: int,
    by1: int,
    high2: Seq<Vec<u8>>,
    bx2: int,
    by2: int,
    dx: usize,
    dy: usize,
)
    requires
        dx < 2,
        dy < 4,
        spec_braille_glyph_code(spec_cell_mask(high1, bx1, by1)) == spec_braille_glyph_code(
            spec_cell_mask(high2, bx2, by2),
        ),
    ensures
        dot_lit(high1, bx1, by1, dx as int, dy as int) == dot_lit(
            high2,
            bx2,
            by2,
            dx as int,
            dy as int,
        ),
{
    if spec_cell_mask(high1, bx1, by1) != spec_cell_mask(high2, bx2, by2) {
        lemma_braille_glyph_injective(spec_cell_mask(high1, bx1, by1), spec_cell_mask(high2, bx2, by2));
    }
    lemma_cell_mask_dots(high1, bx1, by1, dx, dy);
    lemma_cell_mask_dots(high2, bx2, by2, dx, dy);
}


/// The braille glyph of a non-empty mask is the character of the Unicode
/// braille block whose offset from U+2800 is the mask itself; an empty mask
/// is shown as a blank.
pub proof fn lemma_braille_glyph_is_block_offset(mask: u8)
    ensures
        mask == 0 ==> spec_braille_glyph_code(mask) == ' ' as u32,
        mask != 0 ==> spec_braille_glyph_code(mask) == 0x2800 + mask as u32,
        mask != 0 ==> 0x2801 <= spec_braille_glyph_code(mask) <= 0x28FF,
{
}

/// The character shown for a cell encodes its dots the Unicode way: when any
/// dot of the cell is lit, bit `d - 1` of the character's offset from
/// U+2800 is set exactly when dot `d` is lit.
pub proof fn lemma_braille_glyph_bits(high: Seq<Vec<u8>>, bx: int, by: int, dx: usize, dy: usize)
    requires
        dx < 2,
        dy < 4,
        spec_cell_mask(high, bx, by) != 0,
    ensures
        ((((spec_braille_glyph_code(spec_cell_mask(high, bx, by)) - 0x2800) as u8) >> ((
        spec_braille_dot(dx, dy) - 1) as u8)) & 1u8 == 1u8) == dot_lit(
            high,
            bx,
            by,
            dx as int,
            dy as int,
        ),
{
    lemma_braille_glyph_is_block_offset(spec_cell_mask(high, bx, by));
    lemma_cell_mask_dots(high, bx, by, dx, dy);
}

} // verus!
