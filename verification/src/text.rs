//! Text for the host's menus: strings drawn into a pixel buffer with the
//! 8 by 8 glyphs of the `font8x8` crate, each glyph pixel blown up to a
//! square of `scale` by `scale` buffer pixels.
use vstd::prelude::*;
use vstd::arithmetic::div_mod::{lemma_fundamental_div_mod, lemma_fundamental_div_mod_converse};
use vstd::string::StrSliceExecFns;
use font8x8::UnicodeFonts;
use crate::alu::{bit_is_set, test_bit};

verus! {

/// The glyph that `font8x8::BASIC_FONTS` holds for a character: eight rows,
/// top to bottom, bit 0 of a row being its leftmost pixel.
pub uninterp spec fn basic_glyph(ch: char) -> Option<[u8; 8]>;

/// Looks a character up in `font8x8::BASIC_FONTS`, through
/// `UnicodeFonts::get`.  The lookup is a search in a constant table, so
/// what it returns depends on the character alone; the contract names that
/// result and says nothing of the glyphs themselves.
#[verifier::external_body]
fn glyph_for(ch: char) -> (glyph: Option<[u8; 8]>)
    ensures
        glyph == basic_glyph(ch),
{
    font8x8::BASIC_FONTS.get(ch)
}

/// The column of buffer index `k` in a buffer `width` wide.
pub open spec fn column_of(k: int, width: int) -> int {
    k % width
}

/// The row of buffer index `k` in a buffer `width` wide.
pub open spec fn row_of(k: int, width: int) -> int {
    k / width
}

/// Whether buffer index `k` lies in one of the full rows of a buffer of
/// `len` pixels; a last row that is not full is never drawn to.
pub open spec fn in_full_row(k: int, width: int, len: int) -> bool {
    0 <= k < len && row_of(k, width) < len / width
}

/// For a positive `d`, `c / d == q` says that `c` lies in `[q * d, (q + 1) * d)`.
pub proof fn lemma_cell_of(c: int, d: int, q: int)
    requires
        d > 0,
    ensures
        (q * d <= c < (q + 1) * d) <==> c / d == q,
{
    lemma_fundamental_div_mod(c, d);
    if q * d <= c < (q + 1) * d {
        assert((q + 1) * d == q * d + d) by (nonlinear_arith);
        lemma_fundamental_div_mod_converse(c, d, q, c - q * d);
    }
    if c / d == q {
        assert((q + 1) * d == q * d + d) by (nonlinear_arith);
        assert(d * q == q * d) by (nonlinear_arith);
    }
}

/// The index of the pixel in row `row` and column `col` is the only one
/// with that row and column.
pub proof fn lemma_index_of(row: int, col: int, width: int, len: int)
    requires
        0 <= col < width,
        0 <= row < len / width,
        len >= 0,
    ensures
        0 <= row * width + col < len,
        row_of(row * width + col, width) == row,
        column_of(row * width + col, width) == col,
        forall|k: int| row_of(k, width) == row && column_of(k, width) == col ==> k == row * width + col,
{
    lemma_fundamental_div_mod_converse(row * width + col, width, row, col);
    lemma_fundamental_div_mod(len, width);
    assert(0 <= row * width) by (nonlinear_arith)
        requires
            0 <= row,
            0 < width,
    ;
    assert(row * width + width <= (len / width) * width) by (nonlinear_arith)
        requires
            row + 1 <= len / width,
            0 < width,
    ;
    assert(width * (len / width) == (len / width) * width) by (nonlinear_arith);
    assert forall|k: int| row_of(k, width) == row && column_of(k, width) == col implies k == row * width
        + col by {
        lemma_fundamental_div_mod(k, width);
        assert(width * row == row * width) by (nonlinear_arith);
    }
}

/// Whether the square of side `scale` with its corner at `(x0, y0)` holds
/// the point `(col, row)`.
pub open spec fn in_square(x0: int, y0: int, scale: int, col: int, row: int) -> bool {
    x0 <= col < x0 + scale && y0 <= row < y0 + scale
}

/// Paints the square of side `scale` at `(x0, y0)`, as far as it lies in
/// the buffer.
#[verifier::rlimit(40)]
pub fn fill_square(buffer: &mut [u32], width: usize, x0: usize, y0: usize, scale: usize, color: u32)
    requires
        width > 0,
        x0 + scale <= usize::MAX,
        y0 + scale <= usize::MAX,
    ensures
        final(buffer)@.len() == old(buffer)@.len(),
        forall|k: int|
            #![trigger final(buffer)@[k]]
            0 <= k < old(buffer)@.len() ==> final(buffer)@[k] == if in_full_row(
                k,
                width as int,
                old(buffer)@.len() as int,
            ) && in_square(
                x0 as int,
                y0 as int,
                scale as int,
                column_of(k, width as int),
                row_of(k, width as int),
            ) {
                color
            } else {
                old(buffer)@[k]
            },
{
    let rows: usize = buffer.len() / width;
    let ghost len = buffer@.len() as int;
    let ghost w = width as int;
    let mut dy: usize = 0;
    while dy < scale
        invariant
            dy <= scale,
            width > 0,
            w == width,
            x0 + scale <= usize::MAX,
            y0 + scale <= usize::MAX,
            rows == len / w,
            len <= usize::MAX,
            buffer@.len() == len,
            len == old(buffer)@.len(),
            forall|k: int|
                #![trigger buffer@[k]]
                0 <= k < len ==> buffer@[k] == if in_full_row(k, w, len) && x0 <= column_of(k, w) < x0
                    + scale && y0 <= row_of(k, w) < y0 + dy {
                    color
                } else {
                    old(buffer)@[k]
                },
        decreases scale - dy,
    {
        let row: usize = y0 + dy;
        if row < rows {
            let mut dx: usize = 0;
            while dx < scale
                invariant
                    dx <= scale,
                    dy < scale,
                    width > 0,
                    w == width,
                    x0 + scale <= usize::MAX,
                    row == y0 + dy,
                    row < rows,
                    rows == len / w,
                    len <= usize::MAX,
                    buffer@.len() == len,
                    len == old(buffer)@.len(),
                    forall|k: int|
                        #![trigger buffer@[k]]
                        0 <= k < len ==> buffer@[k] == if in_full_row(k, w, len) && ((x0 <= column_of(k, w)
                            < x0 + scale && y0 <= row_of(k, w) < y0 + dy) || (x0 <= column_of(k, w) < x0
                            + dx && row_of(k, w) == row)) {
                            color
                        } else {
                            old(buffer)@[k]
                        },
                decreases scale - dx,
            {
                let col: usize = x0 + dx;
                if col < width {
                    proof {
                        lemma_index_of(row as int, col as int, width as int, len);
                        assert(0 <= row * width) by (nonlinear_arith)
                            requires
                                0 <= row,
                                0 < width,
                        ;
                    }
                    buffer[row * width + col] = color;
                }
                dx = dx + 1;
            }
        }
        dy = dy + 1;
    }
}


/// Whether a glyph drawn at scale `scale` covers the point `(cx, cy)`,
/// counted from the glyph's top left corner: the point lies in the square
/// of the glyph pixel in row `cy / scale` and column `cx / scale`, and
/// that pixel is set.
pub open spec fn glyph_covers(glyph: [u8; 8], scale: int, cx: int, cy: int) -> bool {
    scale > 0 && 0 <= cx < 8 * scale && 0 <= cy < 8 * scale && bit_is_set(
        glyph@[cy / scale],
        (cx / scale) as u8,
    )
}

/// Whether a text drawn at scale `scale` covers the point `(cx, cy)`,
/// counted from the text's top left corner.  Character `i` takes the
/// columns from `8 * scale * i` on; a character without a glyph covers
/// nothing.
pub open spec fn text_covers(text: Seq<char>, scale: int, cx: int, cy: int) -> bool {
    let i = cx / (8 * scale);
    scale > 0 && 0 <= cx && i < text.len() && match basic_glyph(text[i]) {
        Some(glyph) => glyph_covers(glyph, scale, cx - i * (8 * scale), cy),
        None => false,
    }
}

/// Draws one glyph with its top left corner at `(x0, y0)`.
#[verifier::rlimit(40)]
pub fn draw_glyph(
    buffer: &mut [u32],
    width: usize,
    glyph: &[u8; 8],
    x0: usize,
    y0: usize,
    color: u32,
    scale: usize,
)
    requires
        width > 0,
        x0 + 8 * scale <= usize::MAX,
        y0 + 8 * scale <= usize::MAX,
    ensures
        final(buffer)@.len() == old(buffer)@.len(),
        forall|k: int|
            #![trigger final(buffer)@[k]]
            0 <= k < old(buffer)@.len() ==> final(buffer)@[k] == if in_full_row(
                k,
                width as int,
                old(buffer)@.len() as int,
            ) && glyph_covers(
                *glyph,
                scale as int,
                column_of(k, width as int) - x0,
                row_of(k, width as int) - y0,
            ) {
                color
            } else {
                old(buffer)@[k]
            },
{
    if scale == 0 {
        return;
    }
    let ghost len = buffer@.len() as int;
    let ghost w = width as int;
    let ghost s = scale as int;
    let mut r: u8 = 0;
    while r < 8
        invariant
            r <= 8,
            width > 0,
            scale > 0,
            w == width,
            s == scale,
            x0 + 8 * scale <= usize::MAX,
            y0 + 8 * scale <= usize::MAX,
            buffer@.len() == len,
            len == old(buffer)@.len(),
            forall|k: int|
                #![trigger buffer@[k]]
                0 <= k < len ==> buffer@[k] == if in_full_row(k, w, len) && glyph_covers(
                    *glyph,
                    s,
                    column_of(k, w) - x0,
                    row_of(k, w) - y0,
                ) && (row_of(k, w) - y0) / s < r {
                    color
                } else {
                    old(buffer)@[k]
                },
        decreases 8 - r,
    {
        let mut b: u8 = 0;
        while b < 8
            invariant
                b <= 8,
                r < 8,
                width > 0,
                scale > 0,
                w == width,
                s == scale,
                x0 + 8 * scale <= usize::MAX,
                y0 + 8 * scale <= usize::MAX,
                buffer@.len() == len,
                len == old(buffer)@.len(),
                forall|k: int|
                    #![trigger buffer@[k]]
                    0 <= k < len ==> buffer@[k] == if in_full_row(k, w, len) && glyph_covers(
                        *glyph,
                        s,
                        column_of(k, w) - x0,
                        row_of(k, w) - y0,
                    ) && ((row_of(k, w) - y0) / s < r || ((row_of(k, w) - y0) / s == r && (column_of(k, w)
                        - x0) / s < b)) {
                        color
                    } else {
                        old(buffer)@[k]
                    },
            decreases 8 - b,
        {
            let ghost before = buffer@;
            let set: bool = test_bit(glyph[r as usize], b);
            if set {
                assert(b * s + s <= 8 * s && r * s + s <= 8 * s && 0 <= b * s && 0 <= r * s)
                    by (nonlinear_arith)
                    requires
                        0 <= b <= 7,
                        0 <= r <= 7,
                        s > 0,
                ;
                fill_square(buffer, width, x0 + b as usize * scale, y0 + r as usize * scale, scale, color);
            }
            assert forall|k: int| 0 <= k < len implies #[trigger] buffer@[k] == if in_full_row(k, w, len)
                && glyph_covers(*glyph, s, column_of(k, w) - x0, row_of(k, w) - y0) && ((row_of(k, w) - y0)
                / s < r || ((row_of(k, w) - y0) / s == r && (column_of(k, w) - x0) / s < b + 1)) {
                color
            } else {
                old(buffer)@[k]
            } by {
                let cx = column_of(k, w) - x0;
                let cy = row_of(k, w) - y0;
                let bs = b as int * s;
                let rs = r as int * s;
                lemma_cell_of(cx, s, b as int);
                lemma_cell_of(cy, s, r as int);
                assert((b + 1) * s == bs + s && (r + 1) * s == rs + s) by (nonlinear_arith)
                    requires
                        bs == b * s,
                        rs == r * s,
                ;
                let inside = in_square(x0 + bs, y0 + rs, s, column_of(k, w), row_of(k, w));
                assert(inside <==> (cx / s == b && cy / s == r));
                let was = in_full_row(k, w, len) && glyph_covers(*glyph, s, cx, cy) && (cy / s < r || (cy / s
                    == r && cx / s < b));
                assert(before[k] == if was { color } else { old(buffer)@[k] });
                if inside {
                    assert(!was);
                    assert(0 <= cx < 8 * s && 0 <= cy < 8 * s) by (nonlinear_arith)
                        requires
                            bs <= cx < bs + s,
                            rs <= cy < rs + s,
                            bs == b * s,
                            rs == r * s,
                            0 <= b <= 7,
                            0 <= r <= 7,
                            s > 0,
                    ;
                    assert(glyph_covers(*glyph, s, cx, cy) == set);
                    if set {
                        assert(buffer@[k] == if in_full_row(k, w, len) { color } else { before[k] });
                    } else {
                        assert(buffer@[k] == before[k]);
                    }
                } else {
                    assert(buffer@[k] == before[k]);
                }
            }
            b = b + 1;
        }
        assert forall|k: int| 0 <= k < len implies #[trigger] buffer@[k] == if in_full_row(k, w, len)
            && glyph_covers(*glyph, s, column_of(k, w) - x0, row_of(k, w) - y0) && (row_of(k, w) - y0) / s
            < r + 1 {
            color
        } else {
            old(buffer)@[k]
        } by {
            let cx = column_of(k, w) - x0;
            if 0 <= cx < 8 * s {
                lemma_cell_of(cx, s, cx / s);
                assert(cx / s < 8) by (nonlinear_arith)
                    requires
                        (cx / s) * s <= cx,
                        cx < 8 * s,
                        s > 0,
                ;
            }
        }
        r = r + 1;
    }
    assert forall|k: int| 0 <= k < len implies #[trigger] buffer@[k] == if in_full_row(k, w, len) && glyph_covers(
        *glyph,
        s,
        column_of(k, w) - x0,
        row_of(k, w) - y0,
    ) {
        color
    } else {
        old(buffer)@[k]
    } by {
        let cy = row_of(k, w) - y0;
        if 0 <= cy < 8 * s {
            lemma_cell_of(cy, s, cy / s);
            assert(cy / s < 8) by (nonlinear_arith)
                requires
                    (cy / s) * s <= cy,
                    cy < 8 * s,
                    s > 0,
            ;
        }
    }
}

/// Draws `text` with its top left corner at `(x, y)`: every buffer pixel
/// that a set glyph pixel covers takes `color`, as far as it lies in the
/// buffer, and every other pixel stays as it is.
#[verifier::rlimit(40)]
pub fn draw_text(
    buffer: &mut [u32],
    width: usize,
    text: &str,
    x: usize,
    y: usize,
    color: u32,
    scale: usize,
)
    requires
        width > 0,
        x + 8 * scale * text@.len() <= usize::MAX,
        y + 8 * scale <= usize::MAX,
    ensures
        final(buffer)@.len() == old(buffer)@.len(),
        forall|k: int|
            #![trigger final(buffer)@[k]]
            0 <= k < old(buffer)@.len() ==> final(buffer)@[k] == if in_full_row(
                k,
                width as int,
                old(buffer)@.len() as int,
            ) && text_covers(
                text@,
                scale as int,
                column_of(k, width as int) - x,
                row_of(k, width as int) - y,
            ) {
                color
            } else {
                old(buffer)@[k]
            },
{
    if scale == 0 {
        return;
    }
    let count: usize = text.unicode_len();
    let ghost len = buffer@.len() as int;
    let ghost w = width as int;
    let ghost s = scale as int;
    let ghost cell = 8 * s;
    let mut i: usize = 0;
    while i < count
        invariant
            i <= count,
            count == text@.len(),
            width > 0,
            scale > 0,
            w == width,
            s == scale,
            cell == 8 * s,
            x + 8 * scale * count <= usize::MAX,
            y + 8 * scale <= usize::MAX,
            buffer@.len() == len,
            len == old(buffer)@.len(),
            forall|k: int|
                #![trigger buffer@[k]]
                0 <= k < len ==> buffer@[k] == if in_full_row(k, w, len) && text_covers(
                    text@,
                    s,
                    column_of(k, w) - x,
                    row_of(k, w) - y,
                ) && (column_of(k, w) - x) / cell < i {
                    color
                } else {
                    old(buffer)@[k]
                },
        decreases count - i,
    {
        let ghost before = buffer@;
        let ch: char = text.get_char(i);
        let found: Option<[u8; 8]> = glyph_for(ch);
        assert(i * cell + cell <= count * cell && 0 <= i * cell && 8 * s * count == count * cell)
            by (nonlinear_arith)
            requires
                0 <= i < count,
                cell == 8 * s,
                s > 0,
        ;
        let ghost x0: int = x + i * cell;
        match found {
            Some(glyph) => {
                assert(i * (8 * scale) == i * cell);
                draw_glyph(buffer, width, &glyph, x + i * (8 * scale), y, color, scale);
            },
            None => {},
        }
        assert forall|k: int| 0 <= k < len implies #[trigger] buffer@[k] == if in_full_row(k, w, len) && text_covers(
            text@,
            s,
            column_of(k, w) - x,
            row_of(k, w) - y,
        ) && (column_of(k, w) - x) / cell < i + 1 {
            color
        } else {
            old(buffer)@[k]
        } by {
            let cx = column_of(k, w) - x;
            let cy = row_of(k, w) - y;
            lemma_cell_of(cx, cell, i as int);
            assert((i + 1) * cell == i * cell + cell) by (nonlinear_arith);
            assert(column_of(k, w) - x0 == cx - i * cell);
            match found {
                Some(glyph) => {
                    if glyph_covers(glyph, s, cx - i * cell, cy) {
                        assert(cx / cell == i);
                    } else {
                        assert(buffer@[k] == before[k]);
                    }
                },
                None => {
                    assert(buffer@[k] == before[k]);
                },
            }
        }
        i = i + 1;
    }
    assert forall|k: int| 0 <= k < len implies #[trigger] buffer@[k] == if in_full_row(k, w, len) && text_covers(
        text@,
        s,
        column_of(k, w) - x,
        row_of(k, w) - y,
    ) {
        color
    } else {
        old(buffer)@[k]
    } by {}
}

} // verus!
