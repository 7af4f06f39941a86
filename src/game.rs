use vstd::prelude::*;

use crate::field::{
    collides, fits, is_collision, is_grid, is_wall, standard_grid, Field, Position, FIELD_HEIGHT,
    FIELD_WIDTH,
};
use crate::mino::{mask_cell, MinoKind};
use crate::render::{draw, grid_text, overlay};

verus! {

/// A one-cell move of the active piece.
#[derive(Clone, Copy, Debug, PartialEq, Eq, Structural)]
pub enum Move {
    Left,
    Right,
    Down,
}

/// A key press, as the input driver sees it.
#[derive(Clone, Copy, Debug, PartialEq, Eq, Structural)]
pub enum Key {
    Left,
    Right,
    Down,
    Quit,
    Other,
}

/// What a driver does after an event: draw the field again, or stop.
#[derive(Clone, Copy, Debug, PartialEq, Eq, Structural)]
pub enum Action {
    Redraw,
    Stop,
}

/// The position one cell away from `pos` in the direction of `m`, when it is
/// representable.
pub open spec fn candidate(pos: Position, m: Move) -> Option<Position> {
    match m {
        Move::Left => if pos.x == 0 {
            None
        } else {
            Some(Position { x: (pos.x - 1) as usize, y: pos.y })
        },
        Move::Right => if pos.x == usize::MAX {
            None
        } else {
            Some(Position { x: (pos.x + 1) as usize, y: pos.y })
        },
        Move::Down => if pos.y == usize::MAX {
            None
        } else {
            Some(Position { x: pos.x, y: (pos.y + 1) as usize })
        },
    }
}

/// Whether the piece `kind` may rest at `pos` on grid `g`.
pub open spec fn placeable(g: Seq<Seq<u8>>, pos: Position, kind: MinoKind) -> bool {
    fits(pos) && !collides(g, pos, kind)
}

/// The position after one move: the candidate when it is placeable, else `pos`.
pub open spec fn step(g: Seq<Seq<u8>>, pos: Position, kind: MinoKind, m: Move) -> Position {
    match candidate(pos, m) {
        Some(c) => if placeable(g, c, kind) {
            c
        } else {
            pos
        },
        None => pos,
    }
}

/// The position after `n` moves in the direction of `m`.
pub open spec fn steps(g: Seq<Seq<u8>>, pos: Position, kind: MinoKind, m: Move, n: nat) -> Position
    decreases n,
{
    if n == 0 {
        pos
    } else {
        step(g, steps(g, pos, kind, m, (n - 1) as nat), kind, m)
    }
}

/// The move that a key asks for, if any.
pub open spec fn key_move(k: Key) -> Option<Move> {
    match k {
        Key::Left => Some(Move::Left),
        Key::Right => Some(Move::Right),
        Key::Down => Some(Move::Down),
        _ => None,
    }
}

/// The abstract state of a game.
pub ghost struct GameView {
    pub grid: Seq<Seq<u8>>,
    pub pos: Position,
    pub mino: MinoKind,
}

/// The game: the field, the active piece's kind and its position.
pub struct Game {
    field: Field,
    pos: Position,
    mino: MinoKind,
}

impl View for Game {
    type V = GameView;

    closed spec fn view(&self) -> GameView {
        GameView { grid: self.field@, pos: self.pos, mino: self.mino }
    }
}

/// The position where a new piece appears.
pub open spec fn spawn_position() -> Position {
    Position { x: 4, y: 0 }
}


/// The standard grid is a well-formed grid.
proof fn lemma_standard_is_grid()
    ensures
        is_grid(standard_grid()),
{
}

/// Every kind may rest at the spawn position of the standard field.
proof fn lemma_spawn_placeable(kind: MinoKind)
    ensures
        placeable(standard_grid(), spawn_position(), kind),
{
    let g = standard_grid();
    let p = spawn_position();
    assert forall|r: int, c: int|
        0 <= r < 4 && 0 <= c < 4 && mask_cell(kind, r, c) == 1 implies #[trigger] g[p.y + r][p.x
        + c] != 1 by {
        assert(r == 1 || r == 2);
        assert(!is_wall(p.x + c, p.y + r));
    }
}

impl Game {
    #[verifier::type_invariant]
    spec fn inv(self) -> bool {
        is_grid(self.field@) && placeable(self.field@, self.pos, self.mino)
    }

    /// A game on the standard field with an I piece at the spawn position.
    pub fn new() -> (g: Game)
        ensures
            g@.grid == standard_grid(),
            g@.pos == spawn_position(),
            g@.mino == MinoKind::I,
    {
        Game::with_mino(MinoKind::I)
    }

    /// A game on the standard field with a piece of `mino` at the spawn position.
    pub fn with_mino(mino: MinoKind) -> (g: Game)
        ensures
            g@.grid == standard_grid(),
            g@.pos == spawn_position(),
            g@.mino == mino,
    {
        proof {
            lemma_standard_is_grid();
            lemma_spawn_placeable(mino);
        }
        Game { field: Field::new(), pos: Position { x: 4, y: 0 }, mino }
    }

    /// The active piece's position.
    pub fn position(&self) -> (r: Position)
        ensures
            r == self@.pos,
    {
        self.pos
    }

    /// The active piece's kind.
    pub fn mino(&self) -> (r: MinoKind)
        ensures
            r == self@.mino,
    {
        self.mino
    }

    /// The playing field.
    pub fn field(&self) -> (r: &Field)
        ensures
            r@ == self@.grid,
    {
        &self.field
    }

    /// Applies one move: the candidate position is computed, rejected if it is not
    /// representable or leaves the field, tested for collision, and committed only
    /// when clear. Returns whether the position changed.
    pub fn try_move(&mut self, m: Move) -> (moved: bool)
        ensures
            final(self)@.pos == step(old(self)@.grid, old(self)@.pos, old(self)@.mino, m),
            final(self)@.grid == old(self)@.grid,
            final(self)@.mino == old(self)@.mino,
            moved == (final(self)@.pos != old(self)@.pos),
            !moved ==> final(self)@ == old(self)@,
            placeable(final(self)@.grid, final(self)@.pos, final(self)@.mino),
    {
        proof {
            use_type_invariant(&*self);
        }
        let next = match m {
            Move::Left => if self.pos.x == 0 {
                None
            } else {
                Some(Position { x: self.pos.x - 1, y: self.pos.y })
            },
            Move::Right => if self.pos.x == usize::MAX {
                None
            } else {
                Some(Position { x: self.pos.x + 1, y: self.pos.y })
            },
            Move::Down => if self.pos.y == usize::MAX {
                None
            } else {
                Some(Position { x: self.pos.x, y: self.pos.y + 1 })
            },
        };
        match next {
            Some(c) => {
                let inside = c.x <= FIELD_WIDTH - 4 && c.y <= FIELD_HEIGHT - 4;
                if inside && !is_collision(&self.field, &c, self.mino) {
                    self.pos = c;
                    true
                } else {
                    false
                }
            },
            None => false,
        }
    }

    /// One gravity tick: an attempt to move the piece down by one row.
    pub fn gravity_tick(&mut self) -> (moved: bool)
        ensures
            final(self)@.pos == step(old(self)@.grid, old(self)@.pos, old(self)@.mino, Move::Down),
            final(self)@.grid == old(self)@.grid,
            final(self)@.mino == old(self)@.mino,
            moved == (final(self)@.pos != old(self)@.pos),
    {
        self.try_move(Move::Down)
    }

    /// The frame for the current state: the field with the active piece drawn in.
    pub fn frame(&self) -> (r: Vec<u8>)
        ensures
            r@ == grid_text(overlay(self@.grid, self@.pos, self@.mino)),
    {
        proof {
            use_type_invariant(self);
        }
        draw(&self.field, &self.pos, self.mino)
    }

    /// Handles one key press: an arrow key moves the piece, `Quit` stops the
    /// driver and leaves the game as it is, any other key does nothing.
    pub fn handle_key(&mut self, key: Key) -> (a: Action)
        ensures
            a == (if key == Key::Quit {
                Action::Stop
            } else {
                Action::Redraw
            }),
            final(self)@.grid == old(self)@.grid,
            final(self)@.mino == old(self)@.mino,
            final(self)@.pos == (match key_move(key) {
                Some(m) => step(old(self)@.grid, old(self)@.pos, old(self)@.mino, m),
                None => old(self)@.pos,
            }),
    {
        match key {
            Key::Left => {
                self.try_move(Move::Left);
                Action::Redraw
            },
            Key::Right => {
                self.try_move(Move::Right);
                Action::Redraw
            },
            Key::Down => {
                self.try_move(Move::Down);
                Action::Redraw
            },
            Key::Quit => Action::Stop,
            Key::Other => Action::Redraw,
        }
    }
}

/// On the standard field, an I piece whose box lies inside the field collides
/// exactly when the box touches the left or the right wall.
pub proof fn lemma_standard_i_collision(pos: Position)
    requires
        fits(pos),
    ensures
        collides(standard_grid(), pos, MinoKind::I) <==> (pos.x == 0 || pos.x
            == FIELD_WIDTH - 4),
{
    let g = standard_grid();
    if pos.x == 0 {
        assert(mask_cell(MinoKind::I, 2, 0) == 1 && g[pos.y + 2][pos.x + 0] == 1);
    } else if pos.x == FIELD_WIDTH - 4 {
        assert(mask_cell(MinoKind::I, 2, 3) == 1 && g[pos.y + 2][pos.x + 3] == 1);
    } else {
        assert forall|r: int, c: int|
            0 <= r < 4 && 0 <= c < 4 && mask_cell(MinoKind::I, r, c) == 1 implies #[trigger] g[pos.y
            + r][pos.x + c] != 1 by {
            assert(r == 2);
            assert(!is_wall(pos.x + c, pos.y + r));
        }
    }
}

/// A move whose candidate collides leaves the position unchanged, and so does
/// repeating it.
pub proof fn lemma_rejected_move_keeps_position(
    g: Seq<Seq<u8>>,
    pos: Position,
    kind: MinoKind,
    m: Move,
)
    requires
        candidate(pos, m) is Some,
        collides(g, candidate(pos, m)->Some_0, kind),
    ensures
        step(g, pos, kind, m) == pos,
        step(g, step(g, pos, kind, m), kind, m) == pos,
{
}

/// From the spawn position, down moves of an I piece on the standard field
/// lower it one row each until its top-left corner reaches row 18; every
/// further down move is rejected.
pub proof fn lemma_descent(n: nat)
    ensures
        steps(standard_grid(), spawn_position(), MinoKind::I, Move::Down, n) == (Position {
            x: 4,
            y: if n < 18 {
                n as usize
            } else {
                18
            },
        }),
    decreases n,
{
    if n > 0 {
        lemma_descent((n - 1) as nat);
        let k: usize = if n - 1 < 18 {
            (n - 1) as usize
        } else {
            18
        };
        let c = Position { x: 4, y: (k + 1) as usize };
        if k < 18 {
            lemma_standard_i_collision(c);
        }
    }
}

/// From the spawn position, left moves of an I piece on the standard field
/// shift it one column each until its top-left corner reaches column 1; every
/// further left move is rejected, with no underflow.
pub proof fn lemma_lateral_bound(n: nat)
    ensures
        steps(standard_grid(), spawn_position(), MinoKind::I, Move::Left, n) == (Position {
            x: if n < 3 {
                (4 - n) as usize
            } else {
                1
            },
            y: 0,
        }),
    decreases n,
{
    if n > 0 {
        lemma_lateral_bound((n - 1) as nat);
        let k: usize = if n - 1 < 3 {
            (4 - (n - 1)) as usize
        } else {
            1
        };
        let c = Position { x: (k - 1) as usize, y: 0 };
        lemma_standard_i_collision(c);
    }
}

/// Moves applied one after another, in either order, keep the piece on a
/// placeable position: from a placeable position every serial application of
/// two moves ends on a placeable position.
pub proof fn lemma_serial_moves_placeable(
    g: Seq<Seq<u8>>,
    pos: Position,
    kind: MinoKind,
    a: Move,
    b: Move,
)
    requires
        placeable(g, pos, kind),
    ensures
        placeable(g, step(g, step(g, pos, kind, a), kind, b), kind),
        placeable(g, step(g, step(g, pos, kind, b), kind, a), kind),
{
}

} // verus!
