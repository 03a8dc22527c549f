use vstd::prelude::*;

verus! {

/// An integer point on the board, or an offset between two points.
#[derive(Debug, Clone, Copy, PartialEq, Eq, Structural, Default)]
pub struct Point {
    pub x: i32,
    pub y: i32,
}

impl Point {
    pub fn new(x: i32, y: i32) -> (r: Point)
        ensures
            r.x == x,
            r.y == y,
    {
        Point { x, y }
    }
}

/// One of the four quarter-turn orientations of a piece.
#[derive(Debug, Clone, Copy, PartialEq, Eq, Structural)]
pub enum Orientation {
    North,
    East,
    South,
    West,
}

/// The sense of a quarter turn.
#[derive(Debug, Clone, Copy, PartialEq, Eq, Structural)]
pub enum RotationDirection {
    Clockwise,
    CounterClockwise,
}

/// Number of clockwise quarter turns from North.
pub open spec fn quarter_turns(o: Orientation) -> int {
    match o {
        Orientation::North => 0,
        Orientation::East => 1,
        Orientation::South => 2,
        Orientation::West => 3,
    }
}

/// The orientation reached after `n` clockwise quarter turns from North.
pub open spec fn orientation_of(n: int) -> Orientation {
    let k = n % 4;
    if k == 0 {
        Orientation::North
    } else if k == 1 {
        Orientation::East
    } else if k == 2 {
        Orientation::South
    } else {
        Orientation::West
    }
}

/// The orientation after one quarter turn in direction `d`.
pub open spec fn turned(o: Orientation, d: RotationDirection) -> Orientation {
    match d {
        RotationDirection::Clockwise => orientation_of(quarter_turns(o) + 1),
        RotationDirection::CounterClockwise => orientation_of(quarter_turns(o) + 3),
    }
}

/// The opposite sense of a quarter turn.
pub open spec fn reversed(d: RotationDirection) -> RotationDirection {
    match d {
        RotationDirection::Clockwise => RotationDirection::CounterClockwise,
        RotationDirection::CounterClockwise => RotationDirection::Clockwise,
    }
}

/// The x coordinate of `(x, y)` turned by the rotation matrix of `o`.
pub open spec fn rotated_x(x: int, y: int, o: Orientation) -> int {
    match o {
        Orientation::North => x,
        Orientation::East => y,
        Orientation::South => -x,
        Orientation::West => -y,
    }
}

/// The y coordinate of `(x, y)` turned by the rotation matrix of `o`.
pub open spec fn rotated_y(x: int, y: int, o: Orientation) -> int {
    match o {
        Orientation::North => y,
        Orientation::East => -x,
        Orientation::South => -y,
        Orientation::West => x,
    }
}

/// A coordinate that can be negated without overflow.
pub open spec fn negatable(v: i32) -> bool {
    v > i32::MIN
}

/// Rotates a point around the origin by the rotation matrix of `o`.
pub fn rotate_transform(t: &Point, o: &Orientation) -> (r: Point)
    requires
        negatable(t.x),
        negatable(t.y),
    ensures
        r.x == rotated_x(t.x as int, t.y as int, *o),
        r.y == rotated_y(t.x as int, t.y as int, *o),
{
    match *o {
        Orientation::North => Point { x: t.x, y: t.y },
        Orientation::East => Point { x: t.y, y: -t.x },
        Orientation::South => Point { x: -t.x, y: -t.y },
        Orientation::West => Point { x: -t.y, y: t.x },
    }
}

/// The orientation after one quarter turn of `orient` in direction `rotation`.
pub fn rotate(orient: &Orientation, rotation: &RotationDirection) -> (r: Orientation)
    ensures
        r == turned(*orient, *rotation),
{
    match *rotation {
        RotationDirection::Clockwise => match *orient {
            Orientation::North => Orientation::East,
            Orientation::East => Orientation::South,
            Orientation::South => Orientation::West,
            Orientation::West => Orientation::North,
        },
        RotationDirection::CounterClockwise => match *orient {
            Orientation::North => Orientation::West,
            Orientation::East => Orientation::North,
            Orientation::South => Orientation::East,
            Orientation::West => Orientation::South,
        },
    }
}

/// A quarter turn followed by a quarter turn the other way gives back the
/// orientation that was there before, whichever way the first turn went.
pub proof fn lemma_turn_reversible(o: Orientation, d: RotationDirection)
    ensures
        turned(turned(o, d), reversed(d)) == o,
{
}

} // verus!
