use tetris_core::transform::{rotate, rotate_transform, Orientation, Point, RotationDirection};
use tetris_core::tetromino::{Shape, SlideDirection, Tetromino};
use tetris_core::game::TileColor;

const ORIENTATIONS: [Orientation; 4] =
    [Orientation::North, Orientation::East, Orientation::South, Orientation::West];
const SHAPES: [Shape; 7] = [Shape::O, Shape::I, Shape::T, Shape::L, Shape::J, Shape::S, Shape::Z];

#[test]
fn rotate_transform_matrices() {
    let p = Point::new(2, -3);
    assert_eq!(rotate_transform(&p, &Orientation::North), Point::new(2, -3));
    assert_eq!(rotate_transform(&p, &Orientation::East), Point::new(-3, -2));
    assert_eq!(rotate_transform(&p, &Orientation::South), Point::new(-2, 3));
    assert_eq!(rotate_transform(&p, &Orientation::West), Point::new(3, 2));
}

#[test]
fn rotation_cycles() {
    assert_eq!(rotate(&Orientation::North, &RotationDirection::Clockwise), Orientation::East);
    assert_eq!(rotate(&Orientation::West, &RotationDirection::Clockwise), Orientation::North);
    assert_eq!(rotate(&Orientation::North, &RotationDirection::CounterClockwise), Orientation::West);
    assert_eq!(rotate(&Orientation::South, &RotationDirection::CounterClockwise), Orientation::East);
}

#[test]
fn rotation_is_reversible() {
    for o in ORIENTATIONS.iter() {
        let cw = rotate(o, &RotationDirection::Clockwise);
        assert_eq!(rotate(&cw, &RotationDirection::CounterClockwise), *o);
        let ccw = rotate(o, &RotationDirection::CounterClockwise);
        assert_eq!(rotate(&ccw, &RotationDirection::Clockwise), *o);
    }
}

#[test]
fn coordinates_round_down_halves() {
    let mut i = Tetromino::new_shape(Shape::I);
    i.spawn(Point::new(5, 20));
    assert_eq!(
        i.coordinates(),
        [Point::new(3, 20), Point::new(4, 20), Point::new(5, 20), Point::new(6, 20)]
    );
    let mut t = Tetromino::new_shape(Shape::T);
    t.spawn(Point::new(5, 20));
    assert_eq!(
        t.coordinates(),
        [Point::new(5, 20), Point::new(4, 20), Point::new(6, 20), Point::new(5, 21)]
    );
    t.rotate(&RotationDirection::Clockwise);
    assert_eq!(
        t.coordinates(),
        [Point::new(5, 20), Point::new(5, 21), Point::new(5, 19), Point::new(6, 20)]
    );
}

#[test]
fn coordinates_are_four_distinct_cells() {
    for s in SHAPES.iter() {
        for o in ORIENTATIONS.iter() {
            let mut t = Tetromino::new_shape(*s);
            t.orientation = *o;
            let c = t.coordinates();
            for a in 0..4 {
                for b in 0..4 {
                    if a != b {
                        assert_ne!(c[a], c[b]);
                    }
                }
            }
        }
    }
}

#[test]
fn piece_moves() {
    let mut t = Tetromino::new();
    t.slide(SlideDirection::Left);
    assert_eq!(t.origin, Point::new(-1, 0));
    t.slide(SlideDirection::Right);
    t.slide(SlideDirection::Right);
    assert_eq!(t.origin, Point::new(1, 0));
    t.move_down();
    assert_eq!(t.origin, Point::new(1, -1));
    t.translate(&Point::new(3, 4));
    assert_eq!(t.origin, Point::new(4, 3));
    t.rotate(&RotationDirection::Clockwise);
    t.spawn(Point::new(5, 20));
    assert_eq!(t.origin, Point::new(5, 20));
    assert_eq!(t.orientation, Orientation::North);
}

#[test]
fn wall_kick_tables() {
    let mut i = Tetromino::new_shape(Shape::I);
    assert_eq!(
        i.wall_kick_options(&RotationDirection::Clockwise),
        vec![Point::new(0, 0), Point::new(1, 0), Point::new(-2, 0), Point::new(1, -2), Point::new(-2, 1)]
    );
    i.orientation = Orientation::West;
    assert_eq!(
        i.wall_kick_options(&RotationDirection::CounterClockwise),
        vec![Point::new(0, 0), Point::new(-1, 0), Point::new(2, 0), Point::new(-1, 2), Point::new(2, -1)]
    );
    let o = Tetromino::new_shape(Shape::O);
    assert_eq!(o.wall_kick_options(&RotationDirection::Clockwise), vec![Point::new(0, 0)]);
    let mut t = Tetromino::new_shape(Shape::T);
    t.orientation = Orientation::East;
    assert_eq!(
        t.wall_kick_options(&RotationDirection::Clockwise),
        vec![Point::new(0, 0), Point::new(-1, 0), Point::new(-1, 1), Point::new(0, -2), Point::new(-1, -2)]
    );
    let s = Tetromino::new_shape(Shape::S);
    assert_eq!(
        s.wall_kick_options(&RotationDirection::CounterClockwise),
        s.wall_kick_options(&RotationDirection::CounterClockwise)
    );
}

#[test]
fn shape_colors() {
    assert_eq!(Tetromino::new_shape(Shape::O).color(), TileColor::Yellow);
    assert_eq!(Tetromino::new_shape(Shape::I).color(), TileColor::Cyan);
    assert_eq!(Tetromino::new_shape(Shape::T).color(), TileColor::Purple);
    assert_eq!(Tetromino::new_shape(Shape::L).color(), TileColor::Orange);
    assert_eq!(Tetromino::new_shape(Shape::J).color(), TileColor::Blue);
    assert_eq!(Tetromino::new_shape(Shape::S).color(), TileColor::Green);
    assert_eq!(Tetromino::new_shape(Shape::Z).color(), TileColor::Red);
}

#[test]
fn raw_extents() {
    assert_eq!(Tetromino::new_shape(Shape::I).raw_extent(), (-3, 3, 1, 1));
    assert_eq!(Tetromino::new_shape(Shape::O).raw_extent(), (-1, 1, -1, 1));
    assert_eq!(Tetromino::new_shape(Shape::Z).raw_extent(), (-2, 2, 0, 2));
}
