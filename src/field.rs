use vstd::prelude::*;

use crate::mino::{mask_cell, shape_cell, MinoKind};

verus! {

/// Number of columns of the playing field, walls included.
pub const FIELD_WIDTH: usize = 12;

/// Number of rows of the playing field, walls included.
pub const FIELD_HEIGHT: usize = 22;

/// The top-left corner of the active piece's 4x4 box, in field coordinates.
#[derive(Clone, Copy, Debug, PartialEq, Eq, Structural)]
pub struct Position {
    pub x: usize,
    pub y: usize,
}

/// Whether the 4x4 box anchored at `pos` lies inside the field.
pub open spec fn fits(pos: Position) -> bool {
    pos.x + 4 <= FIELD_WIDTH && pos.y + 4 <= FIELD_HEIGHT
}

/// Whether a grid has the field's dimensions and holds only 0 and 1.
pub open spec fn is_grid(g: Seq<Seq<u8>>) -> bool {
    &&& g.len() == FIELD_HEIGHT
    &&& forall|y: int| 0 <= y < FIELD_HEIGHT ==> #[trigger] g[y].len() == FIELD_WIDTH
    &&& forall|y: int, x: int|
        0 <= y < FIELD_HEIGHT && 0 <= x < FIELD_WIDTH ==> #[trigger] g[y][x] <= 1
}

/// Whether a cell lies on the field's wall: the first and last row and column.
pub open spec fn is_wall(x: int, y: int) -> bool {
    x == 0 || x == FIELD_WIDTH - 1 || y == 0 || y == FIELD_HEIGHT - 1
}

/// The field at the start of play: walls occupied, interior empty.
pub open spec fn standard_grid() -> Seq<Seq<u8>> {
    Seq::new(
        FIELD_HEIGHT as nat,
        |y: int|
            Seq::new(
                FIELD_WIDTH as nat,
                |x: int|
                    if is_wall(x, y) {
                        1u8
                    } else {
                        0u8
                    },
            ),
    )
}

/// Whether the mask of `kind` placed with its top-left corner at `pos` puts an
/// occupied mask cell over an occupied cell of `g`.
pub open spec fn collides(g: Seq<Seq<u8>>, pos: Position, kind: MinoKind) -> bool {
    exists|r: int, c: int|
        0 <= r < 4 && 0 <= c < 4 && mask_cell(kind, r, c) == 1 && #[trigger] g[pos.y + r][pos.x
            + c] == 1
}

/// The static occupancy grid of the playing field.
pub struct Field {
    rows: Vec<Vec<u8>>,
}

impl View for Field {
    type V = Seq<Seq<u8>>;

    closed spec fn view(&self) -> Seq<Seq<u8>> {
        self.rows@.map_values(|r: Vec<u8>| r@)
    }
}

impl Field {
    #[verifier::type_invariant]
    spec fn inv(self) -> bool {
        is_grid(self@)
    }

    /// Builds the standard field: a wall on every border cell, an empty interior.
    pub fn new() -> (f: Field)
        ensures
            f@ == standard_grid(),
    {
        let mut rows: Vec<Vec<u8>> = Vec::new();
        let mut y: usize = 0;
        while y < FIELD_HEIGHT
            invariant
                y <= FIELD_HEIGHT,
                rows@.len() == y,
                forall|i: int| 0 <= i < y ==> #[trigger] rows@[i]@ == standard_grid()[i],
            decreases FIELD_HEIGHT - y,
        {
            let mut row: Vec<u8> = Vec::new();
            let mut x: usize = 0;
            while x < FIELD_WIDTH
                invariant
                    y < FIELD_HEIGHT,
                    x <= FIELD_WIDTH,
                    row@.len() == x,
                    forall|j: int| 0 <= j < x ==> #[trigger] row@[j] == standard_grid()[y as int][j],
                decreases FIELD_WIDTH - x,
            {
                let wall = x == 0 || x == FIELD_WIDTH - 1 || y == 0 || y == FIELD_HEIGHT - 1;
                row.push(if wall { 1 } else { 0 });
                x = x + 1;
            }
            assert(row@ =~= standard_grid()[y as int]);
            rows.push(row);
            y = y + 1;
        }
        let f = Field { rows };
        assert(f@ =~= standard_grid());
        f
    }

    /// Reads one cell of the field.
    pub fn cell(&self, x: usize, y: usize) -> (r: u8)
        requires
            x < FIELD_WIDTH,
            y < FIELD_HEIGHT,
        ensures
            r == self@[y as int][x as int],
            r <= 1,
    {
        proof {
            use_type_invariant(self);
            assert(self@[y as int] == self.rows@[y as int]@);
        }
        self.rows[y][x]
    }
}

/// Tests whether the mask of `mino`, placed with its top-left corner at `pos`,
/// overlaps an occupied cell of `field`.
pub fn is_collision(field: &Field, pos: &Position, mino: MinoKind) -> (r: bool)
    requires
        fits(*pos),
    ensures
        r == collides(field@, *pos, mino),
{
    proof {
        use_type_invariant(field);
    }
    let mut r: usize = 0;
    while r < 4
        invariant
            r <= 4,
            fits(*pos),
            forall|i: int, j: int|
                0 <= i < r && 0 <= j < 4 && mask_cell(mino, i, j) == 1 ==> #[trigger] field@[pos.y
                    + i][pos.x + j] != 1,
        decreases 4 - r,
    {
        let mut c: usize = 0;
        while c < 4
            invariant
                r < 4,
                c <= 4,
                fits(*pos),
                forall|i: int, j: int|
                    0 <= i < r && 0 <= j < 4 && mask_cell(mino, i, j) == 1 ==> #[trigger] field@[pos.y
                        + i][pos.x + j] != 1,
                forall|j: int|
                    0 <= j < c && mask_cell(mino, r as int, j) == 1 ==> #[trigger] field@[pos.y
                        + r][pos.x + j] != 1,
            decreases 4 - c,
        {
            if shape_cell(mino, r, c) == 1 && field.cell(pos.x + c, pos.y + r) == 1 {
                return true;
            }
            c = c + 1;
        }
        r = r + 1;
    }
    false
}

} // verus!
