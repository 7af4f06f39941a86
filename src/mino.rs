use vstd::prelude::*;

verus! {

/// The seven tetromino kinds of the shape catalog.
#[derive(Clone, Copy, Debug, PartialEq, Eq, Structural)]
pub enum MinoKind {
    I,
    O,
    S,
    Z,
    J,
    L,
    T,
}

/// The 4x4 mask of each kind, row by row (1 = occupied).
pub open spec fn shape(kind: MinoKind) -> Seq<Seq<u8>> {
    match kind {
        MinoKind::I => seq![seq![0, 0, 0, 0], seq![0, 0, 0, 0], seq![1, 1, 1, 1], seq![0, 0, 0, 0]],
        MinoKind::O => seq![seq![0, 0, 0, 0], seq![0, 1, 1, 0], seq![0, 1, 1, 0], seq![0, 0, 0, 0]],
        MinoKind::S => seq![seq![0, 0, 0, 0], seq![0, 1, 1, 0], seq![1, 1, 0, 0], seq![0, 0, 0, 0]],
        MinoKind::Z => seq![seq![0, 0, 0, 0], seq![1, 1, 0, 0], seq![0, 1, 1, 0], seq![0, 0, 0, 0]],
        MinoKind::J => seq![seq![0, 0, 0, 0], seq![1, 0, 0, 0], seq![1, 1, 1, 0], seq![0, 0, 0, 0]],
        MinoKind::L => seq![seq![0, 0, 0, 0], seq![0, 0, 1, 0], seq![1, 1, 1, 0], seq![0, 0, 0, 0]],
        MinoKind::T => seq![seq![0, 0, 0, 0], seq![0, 1, 0, 0], seq![1, 1, 1, 0], seq![0, 0, 0, 0]],
    }
}

/// The mask cell of `kind` at local row `row`, column `col`.
pub open spec fn mask_cell(kind: MinoKind, row: int, col: int) -> u8 {
    shape(kind)[row][col]
}

/// Reads one cell of a kind's mask.
pub fn shape_cell(kind: MinoKind, row: usize, col: usize) -> (r: u8)
    requires
        row < 4,
        col < 4,
    ensures
        r == mask_cell(kind, row as int, col as int),
        r <= 1,
{
    let rows: [[u8; 4]; 4] = match kind {
        MinoKind::I => [[0, 0, 0, 0], [0, 0, 0, 0], [1, 1, 1, 1], [0, 0, 0, 0]],
        MinoKind::O => [[0, 0, 0, 0], [0, 1, 1, 0], [0, 1, 1, 0], [0, 0, 0, 0]],
        MinoKind::S => [[0, 0, 0, 0], [0, 1, 1, 0], [1, 1, 0, 0], [0, 0, 0, 0]],
        MinoKind::Z => [[0, 0, 0, 0], [1, 1, 0, 0], [0, 1, 1, 0], [0, 0, 0, 0]],
        MinoKind::J => [[0, 0, 0, 0], [1, 0, 0, 0], [1, 1, 1, 0], [0, 0, 0, 0]],
        MinoKind::L => [[0, 0, 0, 0], [0, 0, 1, 0], [1, 1, 1, 0], [0, 0, 0, 0]],
        MinoKind::T => [[0, 0, 0, 0], [0, 1, 0, 0], [1, 1, 1, 0], [0, 0, 0, 0]],
    };
    rows[row][col]
}

} // verus!
