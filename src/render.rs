use vstd::prelude::*;

use crate::field::{fits, Field, Position, FIELD_HEIGHT, FIELD_WIDTH};
use crate::mino::{mask_cell, shape_cell, MinoKind};

verus! {

/// The display buffer: a copy of grid `g` with the mask of `kind`, anchored at
/// `pos`, OR-ed into the cells that its 4x4 box covers.
pub open spec fn overlay(g: Seq<Seq<u8>>, pos: Position, kind: MinoKind) -> Seq<Seq<u8>> {
    Seq::new(
        FIELD_HEIGHT as nat,
        |y: int|
            Seq::new(
                FIELD_WIDTH as nat,
                |x: int|
                    if pos.x <= x < pos.x + 4 && pos.y <= y < pos.y + 4 {
                        g[y][x] | mask_cell(kind, y - pos.y, x - pos.x)
                    } else {
                        g[y][x]
                    },
            ),
    )
}

/// The two bytes that show one cell: `[]` when occupied, ` .` when empty.
pub open spec fn glyph(c: u8) -> Seq<u8> {
    if c == 1 {
        seq![91u8, 93u8]
    } else {
        seq![32u8, 46u8]
    }
}

/// The glyphs of a row, left to right.
pub open spec fn row_text(row: Seq<u8>) -> Seq<u8>
    decreases row.len(),
{
    if row.len() == 0 {
        Seq::empty()
    } else {
        row_text(row.drop_last()) + glyph(row.last())
    }
}

/// The text of a grid: each row's glyphs followed by a line feed, top to bottom.
pub open spec fn grid_text(rows: Seq<Seq<u8>>) -> Seq<u8>
    decreases rows.len(),
{
    if rows.len() == 0 {
        Seq::empty()
    } else {
        grid_text(rows.drop_last()) + row_text(rows.last()) + seq![10u8]
    }
}

/// The views of a vector of rows.
pub open spec fn rows_view(rows: Seq<Vec<u8>>) -> Seq<Seq<u8>> {
    rows.map_values(|r: Vec<u8>| r@)
}

/// Builds the display buffer for a piece of `mino` at `pos`; the field itself is
/// left as it is.
pub fn display_buffer(field: &Field, pos: &Position, mino: MinoKind) -> (r: Vec<Vec<u8>>)
    requires
        fits(*pos),
    ensures
        rows_view(r@) == overlay(field@, *pos, mino),
{
    let mut out: Vec<Vec<u8>> = Vec::new();
    let mut y: usize = 0;
    while y < FIELD_HEIGHT
        invariant
            y <= FIELD_HEIGHT,
            fits(*pos),
            out@.len() == y,
            forall|i: int| 0 <= i < y ==> #[trigger] out@[i]@ == overlay(field@, *pos, mino)[i],
        decreases FIELD_HEIGHT - y,
    {
        let mut row: Vec<u8> = Vec::new();
        let mut x: usize = 0;
        while x < FIELD_WIDTH
            invariant
                y < FIELD_HEIGHT,
                x <= FIELD_WIDTH,
                fits(*pos),
                row@.len() == x,
                forall|j: int|
                    0 <= j < x ==> #[trigger] row@[j] == overlay(field@, *pos, mino)[y as int][j],
            decreases FIELD_WIDTH - x,
        {
            let c = field.cell(x, y);
            let inside = pos.x <= x && x < pos.x + 4 && pos.y <= y && y < pos.y + 4;
            if inside {
                row.push(c | shape_cell(mino, y - pos.y, x - pos.x));
            } else {
                row.push(c);
            }
            x = x + 1;
        }
        assert(row@ =~= overlay(field@, *pos, mino)[y as int]);
        out.push(row);
        y = y + 1;
    }
    assert(rows_view(out@) =~= overlay(field@, *pos, mino));
    out
}

/// Writes a grid as text: per cell `[]` for 1 and ` .` otherwise, each row ended
/// by a line feed.
pub fn frame_text(rows: &Vec<Vec<u8>>) -> (r: Vec<u8>)
    ensures
        r@ == grid_text(rows_view(rows@)),
{
    let ghost g = rows_view(rows@);
    let mut out: Vec<u8> = Vec::new();
    let mut y: usize = 0;
    while y < rows.len()
        invariant
            g == rows_view(rows@),
            y <= rows@.len(),
            out@ == grid_text(g.take(y as int)),
        decreases rows@.len() - y,
    {
        let row = &rows[y];
        let mut x: usize = 0;
        while x < row.len()
            invariant
                g == rows_view(rows@),
                y < rows@.len(),
                row@ == g[y as int],
                x <= row@.len(),
                out@ == grid_text(g.take(y as int)) + row_text(row@.take(x as int)),
            decreases row@.len() - x,
        {
            assert(row@.take(x + 1).drop_last() =~= row@.take(x as int));
            if row[x] == 1 {
                out.push(91);
                out.push(93);
            } else {
                out.push(32);
                out.push(46);
            }
            assert(out@ =~= grid_text(g.take(y as int)) + row_text(row@.take(x + 1)));
            x = x + 1;
        }
        assert(row@.take(x as int) =~= row@);
        assert(g.take(y + 1).drop_last() =~= g.take(y as int));
        out.push(10);
        assert(out@ =~= grid_text(g.take(y + 1)));
        y = y + 1;
    }
    assert(g.take(y as int) =~= g);
    out
}

/// Draws the field with a piece of `mino` at `pos`: the display buffer as text.
pub fn draw(field: &Field, pos: &Position, mino: MinoKind) -> (r: Vec<u8>)
    requires
        fits(*pos),
    ensures
        r@ == grid_text(overlay(field@, *pos, mino)),
{
    let buf = display_buffer(field, pos, mino);
    frame_text(&buf)
}

} // verus!
