use tetris_core::game::{abbreviate_points, GameTile, Score, ScoreUnit, Tetris, TileColor};
use tetris_core::generator::TetrominoGenerator;
use tetris_core::input::{Command, CommandState, DropSpeed};
use tetris_core::tetromino::{Shape, SlideDirection, Tetromino};
use tetris_core::tile::TileBoard;
use tetris_core::transform::{Orientation, Point, RotationDirection};

const ORIENTATIONS: [Orientation; 4] =
    [Orientation::North, Orientation::East, Orientation::South, Orientation::West];
const SHAPES: [Shape; 7] = [Shape::O, Shape::I, Shape::T, Shape::L, Shape::J, Shape::S, Shape::Z];

fn count(board: &TileBoard<GameTile>, pred: fn(&GameTile) -> bool) -> usize {
    let mut n = 0;
    for y in 0..board.height {
        for x in 0..board.width {
            if pred(board.get(x, y)) {
                n += 1;
            }
        }
    }
    n
}

#[test]
fn board_access() {
    let mut b = TileBoard::new(10, 22);
    assert_eq!(*b.get(3, 4), GameTile::Empty);
    b.set(3, 4, GameTile::Static(TileColor::Red));
    assert_eq!(*b.get(3, 4), GameTile::Static(TileColor::Red));
    assert_eq!(b.checked_get(3, 4), Some(&GameTile::Static(TileColor::Red)));
    assert_eq!(b.checked_get(-1, 4), None);
    assert_eq!(b.checked_get(10, 4), None);
    assert_eq!(b.checked_get(3, 22), None);
    assert_eq!(b.checked_get(3, -1), None);
    assert_eq!(b.checked_get(9, 21), Some(&GameTile::Empty));
}

#[test]
fn score_level_and_points() {
    let s = Score { points: 7, garbage: 25 };
    assert_eq!(s.level(), 2);
    assert_eq!(s.score(), 7);
}

#[test]
fn scoring_table_level_zero() {
    let expected = [0u64, 40, 100, 300, 1200];
    for n in 0..5u64 {
        let mut s = Score::new();
        s.wipe(n);
        assert_eq!(s.points, expected[n as usize]);
        assert_eq!(s.garbage, n);
    }
}

#[test]
fn scoring_table_level_two() {
    let expected = [0u64, 120, 300, 900, 3600];
    for n in 0..5u64 {
        let mut s = Score { points: 0, garbage: 20 };
        s.wipe(n);
        assert_eq!(s.points, expected[n as usize]);
        assert_eq!(s.garbage, 20 + n);
    }
}

#[test]
fn scoring_uses_level_before_clear() {
    let mut s = Score { points: 10, garbage: 9 };
    s.wipe(4);
    assert_eq!(s.points, 1210);
    assert_eq!(s.garbage, 13);
    assert_eq!(s.level(), 1);
}

#[test]
fn scoring_saturates() {
    let mut s = Score { points: u64::MAX - 5, garbage: u64::MAX - 1 };
    s.wipe(4);
    assert_eq!(s.points, u64::MAX);
    assert_eq!(s.garbage, u64::MAX);
}

#[test]
fn spawn_fits_for_every_shape_and_orientation() {
    let game = Tetris::new();
    for s in SHAPES.iter() {
        for o in ORIENTATIONS.iter() {
            let mut t = Tetromino::new_shape(*s);
            t.spawn(Point::new(5, 20));
            t.orientation = *o;
            assert!(game.check_piece(&t));
        }
    }
}

#[test]
fn collision_out_of_bounds() {
    let game = Tetris::new();
    let mut t = Tetromino::new_shape(Shape::I);
    t.spawn(Point::new(1, 5));
    assert!(!game.check_piece(&t));
    t.spawn(Point::new(2, 5));
    assert!(game.check_piece(&t));
    t.spawn(Point::new(8, 5));
    assert!(game.check_piece(&t));
    t.spawn(Point::new(9, 5));
    assert!(!game.check_piece(&t));
    t.spawn(Point::new(5, 0));
    assert!(game.check_piece(&t));
    t.spawn(Point::new(5, -1));
    assert!(!game.check_piece(&t));
    t.spawn(Point::new(5, 22));
    assert!(!game.check_piece(&t));
}

#[test]
fn new_game_state() {
    let game = Tetris::new();
    assert_eq!(game.get_hold(), None);
    assert_eq!(game.score, Score { points: 0, garbage: 0 });
    let board = game.get_board();
    assert_eq!(board.width, 10);
    assert_eq!(board.height, 20);
    // The piece spawns in the rows above the visible field; its landing
    // place lies on the floor.
    assert!(count(&board, |t| matches!(t, GameTile::Active(_))) <= 2);
    assert_eq!(count(&board, |t| matches!(t, GameTile::Shadow(_))), 4);
    assert_eq!(count(&board, |t| matches!(t, GameTile::Static(_))), 0);
    for p in game.get_preview().iter() {
        assert_eq!(p.origin, Point::new(0, 0));
        assert_eq!(p.orientation, Orientation::North);
    }
}

#[test]
fn hard_drop_locks_at_bottom() {
    let mut game = Tetris::new();
    let preview = game.get_preview();
    game.get_command_state().key_press(Command::Lock);
    game.on_update(16_000);
    let board = game.get_board();
    let statics = count(&board, |t| matches!(t, GameTile::Static(_)));
    assert_eq!(statics, 4);
    let mut bottom = 0;
    for x in 0..10 {
        if matches!(board.get(x, 0), GameTile::Static(_)) {
            bottom += 1;
        }
    }
    assert!(bottom >= 1);
    assert_eq!(game.score.points, 0);
    assert_eq!(game.get_command_state().lock(), false);
    let next = game.get_preview();
    assert_eq!(next[0], preview[1]);
    assert_eq!(next[1], preview[2]);
}

#[test]
fn swap_holds_once_per_piece() {
    let mut game = Tetris::new();
    let preview = game.get_preview();
    game.get_command_state().key_press(Command::Swap);
    game.on_update(16_000);
    let held = game.get_hold().unwrap();
    assert_eq!(game.get_preview()[0], preview[1]);
    game.on_update(16_000);
    assert_eq!(game.get_hold().unwrap(), held);
}

#[test]
fn slide_moves_active_piece() {
    let mut game = Tetris::new();
    let before = game.get_board();
    game.get_command_state().key_press(Command::SlideLeft);
    game.on_update(1);
    let after = game.get_board();
    let mut moved = false;
    for y in 0..20 {
        for x in 0..10 {
            if matches!(before.get(x, y), GameTile::Shadow(_)) {
                assert!(matches!(after.get(x - 1, y), GameTile::Shadow(_)));
                moved = true;
            }
        }
    }
    assert!(moved);
}

#[test]
fn gravity_moves_piece_down_over_time() {
    let mut game = Tetris::new();
    game.on_update(1);
    let first = game.get_board();
    let mut seen = 0;
    for _ in 0..3 {
        game.on_update(600_000);
        seen = count(&game.get_board(), |t| matches!(t, GameTile::Active(_)));
    }
    assert_eq!(count(&first, |t| matches!(t, GameTile::Shadow(_))), 4);
    assert_eq!(seen, 4);
}

#[test]
fn repeated_hard_drops_keep_level_in_step() {
    let mut game = Tetris::new();
    let mut rows = 0;
    for _ in 0..400 {
        game.get_command_state().key_press(Command::Lock);
        game.on_update(16_000);
        rows = game.score.garbage;
        if game.get_board().get(0, 19) != &GameTile::Empty {
            break;
        }
    }
    assert!(game.score.level() == rows / 10);
    let statics = count(&game.get_board(), |t| matches!(t, GameTile::Static(_)));
    assert!(statics > 0);
}

#[test]
fn generator_bags_are_fair() {
    let mut g = TetrominoGenerator::new();
    for _ in 0..5 {
        let mut seen = Vec::new();
        for _ in 0..7 {
            let t = g.pop();
            assert_eq!(t.origin, Point::new(0, 0));
            assert_eq!(t.orientation, Orientation::North);
            assert!(!seen.contains(&t.shape));
            seen.push(t.shape);
        }
        assert_eq!(seen.len(), 7);
    }
}

#[test]
fn generator_peek_matches_pop() {
    let mut g = TetrominoGenerator::new();
    for _ in 0..20 {
        let a = g.peek(0);
        let b = g.peek(5);
        assert_eq!(g.pop(), a);
        assert_eq!(g.peek(4), b);
    }
}

#[test]
fn command_state_tracks_keys() {
    let mut c = CommandState::new();
    assert!(!c.lock());
    assert!(!c.swap());
    assert_eq!(c.get_drop_speed(), DropSpeed::Slow);
    c.key_press(Command::DownFast);
    assert_eq!(c.get_drop_speed(), DropSpeed::Fast);
    c.key_press(Command::SlideLeft);
    c.key_press(Command::SlideRight);
    assert_eq!(c.do_slide(), Some(SlideDirection::Right));
    c.key_release(Command::SlideLeft);
    assert_eq!(c.do_slide(), Some(SlideDirection::Right));
    c.key_release(Command::SlideRight);
    assert_eq!(c.do_slide(), None);
    c.key_press(Command::RotateCounterClockwise);
    assert_eq!(c.do_rotate(), Some(RotationDirection::CounterClockwise));
    c.key_press(Command::Lock);
    c.key_press(Command::Swap);
    assert!(c.lock() && c.swap());
    c.clear_state();
    assert_eq!(c, CommandState::new());
}

#[test]
fn points_are_abbreviated() {
    assert_eq!(abbreviate_points(999), (999, ScoreUnit::One));
    assert_eq!(abbreviate_points(1_000_000), (1_000_000, ScoreUnit::One));
    assert_eq!(abbreviate_points(1_234_567), (1_234, ScoreUnit::Thousand));
    assert_eq!(abbreviate_points(1_000_000_000), (1_000_000, ScoreUnit::Thousand));
    assert_eq!(abbreviate_points(5_678_901_234), (5_678, ScoreUnit::Million));
}

#[test]
fn bags_are_shuffled() {
    let mut g = TetrominoGenerator::new();
    let order = [Shape::O, Shape::I, Shape::T, Shape::L, Shape::J, Shape::S, Shape::Z];
    let mut all_in_order = true;
    for _ in 0..20 {
        for k in 0..7 {
            if g.pop().shape != order[k] {
                all_in_order = false;
            }
        }
    }
    assert!(!all_in_order);
}

#[test]
fn default_tile_is_empty() {
    assert_eq!(GameTile::default(), GameTile::Empty);
}
