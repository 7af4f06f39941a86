use std::sync::{Arc, Mutex};

use tetris::field::{is_collision, Field, Position, FIELD_HEIGHT, FIELD_WIDTH};
use tetris::game::{Action, Game, Key, Move};
use tetris::mino::{shape_cell, MinoKind};
use tetris::render::{display_buffer, draw, frame_text};

const KINDS: [MinoKind; 7] = [
    MinoKind::I,
    MinoKind::O,
    MinoKind::S,
    MinoKind::Z,
    MinoKind::J,
    MinoKind::L,
    MinoKind::T,
];

#[test]
fn standard_field_has_walls_and_empty_interior() {
    let f = Field::new();
    for y in 0..FIELD_HEIGHT {
        for x in 0..FIELD_WIDTH {
            let wall = x == 0 || x == FIELD_WIDTH - 1 || y == 0 || y == FIELD_HEIGHT - 1;
            assert_eq!(f.cell(x, y), if wall { 1 } else { 0 });
        }
    }
}

#[test]
fn i_shape_has_one_solid_row() {
    for r in 0..4 {
        for c in 0..4 {
            assert_eq!(shape_cell(MinoKind::I, r, c), if r == 2 { 1 } else { 0 });
        }
    }
}

#[test]
fn shape_table_rows() {
    let t: Vec<[u8; 4]> = (0..4)
        .map(|r| [0, 1, 2, 3].map(|c| shape_cell(MinoKind::T, r, c)))
        .collect();
    assert_eq!(t, vec![[0, 0, 0, 0], [0, 1, 0, 0], [1, 1, 1, 0], [0, 0, 0, 0]]);
    let s: Vec<[u8; 4]> = (0..4)
        .map(|r| [0, 1, 2, 3].map(|c| shape_cell(MinoKind::S, r, c)))
        .collect();
    assert_eq!(s, vec![[0, 0, 0, 0], [0, 1, 1, 0], [1, 1, 0, 0], [0, 0, 0, 0]]);
    let mut total = 0;
    for k in KINDS {
        for r in 0..4 {
            for c in 0..4 {
                total += shape_cell(k, r, c) as u32;
            }
        }
    }
    assert_eq!(total, 28);
}

#[test]
fn i_collides_only_against_side_walls() {
    let f = Field::new();
    for y in 0..=18 {
        for x in 0..=8 {
            let p = Position { x, y };
            assert_eq!(is_collision(&f, &p, MinoKind::I), x == 0 || x == 8, "at {:?}", p);
        }
    }
}

#[test]
fn other_kinds_collide_with_walls() {
    let f = Field::new();
    assert!(!is_collision(&f, &Position { x: 0, y: 0 }, MinoKind::O));
    assert!(!is_collision(&f, &Position { x: 8, y: 18 }, MinoKind::O));
    assert!(!is_collision(&f, &Position { x: 8, y: 0 }, MinoKind::S));
    assert!(is_collision(&f, &Position { x: 9 - 1, y: 0 }, MinoKind::I));
    assert!(is_collision(&f, &Position { x: 0, y: 5 }, MinoKind::S));
}

#[test]
fn rejected_move_leaves_position_unchanged() {
    let mut g = Game::new();
    for _ in 0..3 {
        g.try_move(Move::Left);
    }
    assert_eq!(g.position(), Position { x: 1, y: 0 });
    let before = g.position();
    assert!(!g.try_move(Move::Left));
    assert_eq!(g.position(), before);
    assert!(!g.try_move(Move::Left));
    assert_eq!(g.position(), before);
}

#[test]
fn descent_stops_at_row_eighteen() {
    let mut g = Game::new();
    assert_eq!(g.position(), Position { x: 4, y: 0 });
    for y in 1..=18 {
        assert!(g.gravity_tick());
        assert_eq!(g.position(), Position { x: 4, y });
    }
    for _ in 0..5 {
        assert!(!g.gravity_tick());
        assert_eq!(g.position(), Position { x: 4, y: 18 });
    }
}

#[test]
fn left_moves_stop_at_column_one() {
    let mut g = Game::new();
    for x in (1..4).rev() {
        assert!(g.try_move(Move::Left));
        assert_eq!(g.position(), Position { x, y: 0 });
    }
    for _ in 0..5 {
        assert!(!g.try_move(Move::Left));
        assert_eq!(g.position(), Position { x: 1, y: 0 });
    }
}

#[test]
fn right_moves_stop_at_column_seven() {
    let mut g = Game::new();
    for x in 5..=7 {
        assert!(g.try_move(Move::Right));
        assert_eq!(g.position(), Position { x, y: 0 });
    }
    assert!(!g.try_move(Move::Right));
    assert_eq!(g.position(), Position { x: 7, y: 0 });
}

#[test]
fn o_piece_reaches_left_column_zero() {
    let mut g = Game::with_mino(MinoKind::O);
    for _ in 0..10 {
        g.try_move(Move::Left);
    }
    assert_eq!(g.position(), Position { x: 0, y: 0 });
    assert_eq!(g.mino(), MinoKind::O);
}

#[test]
fn keys_move_the_piece() {
    let mut g = Game::new();
    assert_eq!(g.handle_key(Key::Down), Action::Redraw);
    assert_eq!(g.position(), Position { x: 4, y: 1 });
    assert_eq!(g.handle_key(Key::Right), Action::Redraw);
    assert_eq!(g.position(), Position { x: 5, y: 1 });
    assert_eq!(g.handle_key(Key::Left), Action::Redraw);
    assert_eq!(g.position(), Position { x: 4, y: 1 });
    assert_eq!(g.handle_key(Key::Other), Action::Redraw);
    assert_eq!(g.position(), Position { x: 4, y: 1 });
}

#[test]
fn quit_stops_at_any_reachable_position() {
    for x in 1..=7 {
        for y in 0..=18 {
            let mut g = Game::new();
            while g.position().x < x {
                g.handle_key(Key::Right);
            }
            while g.position().x > x {
                g.handle_key(Key::Left);
            }
            while g.position().y < y {
                g.handle_key(Key::Down);
            }
            let before = g.position();
            assert_eq!(g.handle_key(Key::Quit), Action::Stop);
            assert_eq!(g.position(), before);
        }
    }
}

#[test]
fn quit_ends_a_driver_loop_with_one_restore() {
    let keys = [Key::Down, Key::Left, Key::Other, Key::Quit, Key::Down, Key::Quit];
    let mut g = Game::new();
    let mut restores = 0;
    let mut handled = 0;
    for k in keys {
        handled += 1;
        if g.handle_key(k) == Action::Stop {
            restores += 1;
            break;
        }
    }
    assert_eq!(restores, 1);
    assert_eq!(handled, 4);
    assert_eq!(g.position(), Position { x: 3, y: 1 });
}

#[test]
fn interleaved_down_ticks_serialise() {
    let game = Arc::new(Mutex::new(Game::new()));
    let gravity = {
        let game = Arc::clone(&game);
        move || {
            game.lock().unwrap().gravity_tick();
        }
    };
    let input = {
        let game = Arc::clone(&game);
        move || game.lock().unwrap().handle_key(Key::Down)
    };
    let rounds = 8;
    for i in 0..rounds {
        if i % 2 == 0 {
            gravity();
            assert_eq!(input(), Action::Redraw);
        } else {
            assert_eq!(input(), Action::Redraw);
            gravity();
        }
    }
    let mut serial = Game::new();
    for _ in 0..(2 * rounds) {
        serial.try_move(Move::Down);
    }
    assert_eq!(game.lock().unwrap().position(), serial.position());
    assert_eq!(serial.position(), Position { x: 4, y: 16 });
    for _ in 0..4 {
        gravity();
        input();
    }
    assert_eq!(game.lock().unwrap().position(), Position { x: 4, y: 18 });
}

#[test]
fn display_buffer_overlays_piece_without_touching_field() {
    let f = Field::new();
    let buf = display_buffer(&f, &Position { x: 4, y: 0 }, MinoKind::I);
    assert_eq!(buf.len(), FIELD_HEIGHT);
    assert_eq!(buf[2], vec![1, 0, 0, 0, 1, 1, 1, 1, 0, 0, 0, 1]);
    assert_eq!(buf[1], vec![1, 0, 0, 0, 0, 0, 0, 0, 0, 0, 0, 1]);
    assert_eq!(buf[0], vec![1; 12]);
    assert_eq!(f.cell(4, 2), 0);
}

#[test]
fn frame_text_glyphs() {
    assert_eq!(frame_text(&vec![]), Vec::<u8>::new());
    assert_eq!(frame_text(&vec![vec![1, 0], vec![0]]), b"[] .\n .\n".to_vec());
}

#[test]
fn draw_spawn_frame() {
    let f = Field::new();
    let text = draw(&f, &Position { x: 4, y: 0 }, MinoKind::I);
    let lines: Vec<&[u8]> = text.split(|b| *b == b'\n').collect();
    assert_eq!(lines.len(), FIELD_HEIGHT + 1);
    assert_eq!(lines[0], b"[][][][][][][][][][][][]");
    assert_eq!(lines[1], b"[] . . . . . . . . . .[]");
    assert_eq!(lines[2], b"[] . . .[][][][] . . .[]");
    assert_eq!(lines[FIELD_HEIGHT], b"");
    assert_eq!(Game::new().frame(), text);
}
