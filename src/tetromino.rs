use vstd::prelude::*;
use crate::game::TileColor;
use crate::transform::{
    Point,
    Orientation,
    RotationDirection,
    rotate,
    rotate_transform,
    rotated_x,
    rotated_y,
    turned,
};

verus! {

/// A sideways step of one column.
#[derive(Debug, Clone, Copy, PartialEq, Eq, Structural)]
pub enum SlideDirection {
    Left,
    Right,
}

/// The seven piece shapes.
#[derive(Debug, Clone, Copy, PartialEq, Eq, Structural)]
pub enum Shape {
    O,
    T,
    I,
    L,
    J,
    S,
    Z,
}

/// A piece: its shape, its orientation and the board position of its
/// rotation centre.
#[derive(Debug, Clone, Copy, PartialEq, Eq, Structural)]
pub struct Tetromino {
    pub shape: Shape,
    pub origin: Point,
    pub orientation: Orientation,
}

/// The four cells of a piece.
pub type TetronimoPoints = [Point; 4];

pub open spec fn pt(x: int, y: int) -> Point {
    Point { x: x as i32, y: y as i32 }
}

/// The four cell centres of a shape facing North, in doubled units around its
/// rotation centre.
pub open spec fn shape_points(shape: Shape) -> Seq<Point> {
    match shape {
        Shape::O => seq![pt(-1, 1), pt(-1, -1), pt(1, 1), pt(1, -1)],
        Shape::I => seq![pt(-3, 1), pt(-1, 1), pt(1, 1), pt(3, 1)],
        Shape::T => seq![pt(0, 0), pt(-2, 0), pt(2, 0), pt(0, 2)],
        Shape::L => seq![pt(0, 0), pt(-2, 0), pt(2, 0), pt(2, 2)],
        Shape::J => seq![pt(0, 0), pt(-2, 0), pt(2, 0), pt(-2, 2)],
        Shape::S => seq![pt(0, 0), pt(-2, 0), pt(0, 2), pt(2, 2)],
        Shape::Z => seq![pt(0, 2), pt(-2, 2), pt(0, 0), pt(2, 0)],
    }
}

/// The colour of each shape.
pub open spec fn shape_color(shape: Shape) -> TileColor {
    match shape {
        Shape::O => TileColor::Yellow,
        Shape::I => TileColor::Cyan,
        Shape::T => TileColor::Purple,
        Shape::L => TileColor::Orange,
        Shape::J => TileColor::Blue,
        Shape::S => TileColor::Green,
        Shape::Z => TileColor::Red,
    }
}

/// Board column of the `i`-th cell of `t`: the raw point turned by the
/// orientation, halved (rounding down), then moved by the origin.
pub open spec fn cell_x(t: Tetromino, i: int) -> int {
    let p = shape_points(t.shape)[i];
    rotated_x(p.x as int, p.y as int, t.orientation) / 2 + t.origin.x
}

/// Board row of the `i`-th cell of `t`.
pub open spec fn cell_y(t: Tetromino, i: int) -> int {
    let p = shape_points(t.shape)[i];
    rotated_y(p.x as int, p.y as int, t.orientation) / 2 + t.origin.y
}

/// An origin far enough from the ends of `i32` that every cell fits in it.
pub open spec fn origin_in_range(t: Tetromino) -> bool {
    i32::MIN + 2 <= t.origin.x <= i32::MAX - 2 && i32::MIN + 2 <= t.origin.y <= i32::MAX - 2
}

/// The wall-kick offsets tried, in order, after turning a piece of `shape`
/// that now faces `o` in direction `d`.
pub open spec fn kick_table(shape: Shape, o: Orientation, d: RotationDirection) -> Seq<Point> {
    match shape {
        Shape::I => match (o, d) {
            (Orientation::North, RotationDirection::Clockwise) =>
                seq![pt(0, 0), pt(1, 0), pt(-2, 0), pt(1, -2), pt(-2, 1)],
            (Orientation::North, RotationDirection::CounterClockwise) =>
                seq![pt(0, 0), pt(2, 0), pt(-1, 0), pt(2, 1), pt(-1, -2)],
            (Orientation::East, RotationDirection::Clockwise) =>
                seq![pt(0, 0), pt(-2, 0), pt(1, 0), pt(-2, -1), pt(1, 2)],
            (Orientation::East, RotationDirection::CounterClockwise) =>
                seq![pt(0, 0), pt(1, 0), pt(-2, 0), pt(1, -2), pt(-2, 1)],
            (Orientation::South, RotationDirection::Clockwise) =>
                seq![pt(0, 0), pt(-1, 0), pt(2, 0), pt(-1, 2), pt(2, -1)],
            (Orientation::South, RotationDirection::CounterClockwise) =>
                seq![pt(0, 0), pt(-2, 0), pt(1, 0), pt(-2, -1), pt(1, 2)],
            (Orientation::West, RotationDirection::Clockwise) =>
                seq![pt(0, 0), pt(2, 0), pt(-1, 0), pt(2, 1), pt(-1, -2)],
            (Orientation::West, RotationDirection::CounterClockwise) =>
                seq![pt(0, 0), pt(-1, 0), pt(2, 0), pt(-1, 2), pt(2, -1)],
        },
        Shape::O => seq![pt(0, 0)],
        _ => match (o, d) {
            (Orientation::North, RotationDirection::Clockwise) =>
                seq![pt(0, 0), pt(-1, 0), pt(-1, -1), pt(0, 2), pt(-1, 2)],
            (Orientation::North, RotationDirection::CounterClockwise) =>
                seq![pt(0, 0), pt(1, 0), pt(1, -1), pt(0, 2), pt(1, 2)],
            (Orientation::East, RotationDirection::Clockwise) =>
                seq![pt(0, 0), pt(-1, 0), pt(-1, 1), pt(0, -2), pt(-1, -2)],
            (Orientation::East, RotationDirection::CounterClockwise) =>
                seq![pt(0, 0), pt(-1, 0), pt(-1, 1), pt(0, -2), pt(-1, -2)],
            (Orientation::South, RotationDirection::Clockwise) =>
                seq![pt(0, 0), pt(1, 0), pt(1, -1), pt(0, 2), pt(1, 2)],
            (Orientation::South, RotationDirection::CounterClockwise) =>
                seq![pt(0, 0), pt(-1, 0), pt(-1, -1), pt(0, 2), pt(-1, 2)],
            (Orientation::West, RotationDirection::Clockwise) =>
                seq![pt(0, 0), pt(1, 0), pt(1, 1), pt(0, -2), pt(1, -2)],
            (Orientation::West, RotationDirection::CounterClockwise) =>
                seq![pt(0, 0), pt(1, 0), pt(1, 1), pt(0, -2), pt(1, -2)],
        },
    }
}

/// Every wall-kick offset moves a piece by at most two columns and two rows.
pub proof fn lemma_kicks_small(shape: Shape, o: Orientation, d: RotationDirection)
    ensures
        forall|j: int|
            0 <= j < kick_table(shape, o, d).len() ==> -2 <= #[trigger] kick_table(shape, o, d)[j].x
                <= 2 && -2 <= kick_table(shape, o, d)[j].y <= 2,
{
}

/// Every raw point of every shape lies within three doubled units of the centre.
pub proof fn lemma_shape_points_small(shape: Shape)
    ensures
        shape_points(shape).len() == 4,
        forall|i: int|
            0 <= i < 4 ==> -3 <= #[trigger] shape_points(shape)[i].x <= 3 && -3
                <= shape_points(shape)[i].y <= 3,
{
}

/// Every cell of a piece lies at most two columns and two rows from its origin.
pub proof fn lemma_cells_near_origin(t: Tetromino, i: int)
    requires
        0 <= i < 4,
    ensures
        t.origin.x - 2 <= cell_x(t, i) <= t.origin.x + 1,
        t.origin.y - 2 <= cell_y(t, i) <= t.origin.y + 1,
{
    lemma_shape_points_small(t.shape);
}

/// Rounds half of `v` down, as an arithmetic shift right by one does.
fn half_down(v: i32) -> (r: i32)
    ensures
        r == v as int / 2,
{
    if v >= 0 {
        v / 2
    } else {
        let r = -((-(v as i64) + 1) / 2);
        r as i32
    }
}

impl Tetromino {
    /// A North-facing O piece at (0, 0).
    pub fn new() -> (r: Self)
        ensures
            r.shape == Shape::O,
            r.origin == pt(0, 0),
            r.orientation == Orientation::North,
    {
        Tetromino { shape: Shape::O, origin: Point::new(0, 0), orientation: Orientation::North }
    }

    /// A North-facing piece of the given shape at (0, 0).
    pub fn new_shape(shape: Shape) -> (r: Self)
        ensures
            r.shape == shape,
            r.origin == pt(0, 0),
            r.orientation == Orientation::North,
    {
        Tetromino { shape, origin: Point::new(0, 0), orientation: Orientation::North }
    }

    /// Places the piece at `p`, facing North.
    pub fn spawn(&mut self, p: Point)
        ensures
            *final(self) == (Tetromino {
                shape: old(self).shape,
                origin: p,
                orientation: Orientation::North,
            }),
    {
        self.origin = p;
        self.orientation = Orientation::North;
    }

    /// Moves the piece one column left or right.
    pub fn slide(&mut self, direction: SlideDirection)
        requires
            i32::MIN < old(self).origin.x < i32::MAX,
        ensures
            final(self).shape == old(self).shape,
            final(self).orientation == old(self).orientation,
            final(self).origin.y == old(self).origin.y,
            final(self).origin.x == old(self).origin.x + match direction {
                SlideDirection::Left => -1int,
                SlideDirection::Right => 1int,
            },
    {
        match direction {
            SlideDirection::Left => self.origin.x = self.origin.x - 1,
            SlideDirection::Right => self.origin.x = self.origin.x + 1,
        }
    }

    /// Moves the piece one row down.
    pub fn move_down(&mut self)
        requires
            old(self).origin.y > i32::MIN,
        ensures
            *final(self) == (Tetromino {
                origin: pt(old(self).origin.x as int, old(self).origin.y - 1),
                ..*old(self)
            }),
    {
        self.origin.y = self.origin.y - 1;
    }

    /// Moves the piece by `offset`.
    pub fn translate(&mut self, offset: &Point)
        requires
            i32::MIN <= old(self).origin.x + offset.x <= i32::MAX,
            i32::MIN <= old(self).origin.y + offset.y <= i32::MAX,
        ensures
            *final(self) == (Tetromino {
                origin: pt(old(self).origin.x + offset.x, old(self).origin.y + offset.y),
                ..*old(self)
            }),
    {
        self.origin.x = self.origin.x + offset.x;
        self.origin.y = self.origin.y + offset.y;
    }

    /// Turns the piece a quarter turn in place; no wall kick is applied.
    pub fn rotate(&mut self, rotation: &RotationDirection)
        ensures
            *final(self) == (Tetromino {
                orientation: turned(old(self).orientation, *rotation),
                ..*old(self)
            }),
    {
        self.orientation = rotate(&self.orientation, rotation);
    }

    /// The wall-kick offsets to try, in order, for a piece that has just been
    /// turned in `direction`.
    pub fn wall_kick_options(&self, direction: &RotationDirection) -> (r: Vec<Point>)
        ensures
            r@ == kick_table(self.shape, self.orientation, *direction),
    {
        wall_kicks(&self.shape, &self.orientation, direction)
    }

    /// The four board cells the piece covers.
    pub fn coordinates(&self) -> (r: TetronimoPoints)
        requires
            origin_in_range(*self),
        ensures
            forall|i: int|
                #![trigger r[i]]
                0 <= i < 4 ==> r[i].x == cell_x(*self, i) && r[i].y == cell_y(*self, i),
    {
        let raw = self.raw_points();
        proof {
            lemma_shape_points_small(self.shape);
        }
        let mut base_shape = raw;
        let mut k: usize = 0;
        while k < 4
            invariant
                k <= 4,
                raw@ == shape_points(self.shape),
                origin_in_range(*self),
                forall|i: int|
                    0 <= i < 4 ==> -3 <= #[trigger] shape_points(self.shape)[i].x <= 3 && -3
                        <= shape_points(self.shape)[i].y <= 3,
                forall|i: int|
                    #![trigger base_shape[i]]
                    0 <= i < k ==> base_shape[i].x == cell_x(*self, i) && base_shape[i].y
                        == cell_y(*self, i),
            decreases 4 - k,
        {
            let rot = rotate_transform(&raw[k], &self.orientation);
            let hx = half_down(rot.x);
            let hy = half_down(rot.y);
            proof {
                lemma_cells_near_origin(*self, k as int);
            }
            let ghost before = base_shape;
            base_shape[k] = Point { x: hx + self.origin.x, y: hy + self.origin.y };
            assert(base_shape[k as int].x == cell_x(*self, k as int));
            assert(base_shape[k as int].y == cell_y(*self, k as int));
            assert(forall|i: int| 0 <= i < k ==> base_shape[i] == before[i]);
            k = k + 1;
        }
        base_shape
    }

    /// The four raw points of the piece's shape, facing North, in doubled units.
    pub fn raw_points(&self) -> (r: TetronimoPoints)
        ensures
            r@ == shape_points(self.shape),
    {
        tetromino_points(self.shape)
    }

    /// The smallest and largest x, then the smallest and largest y, of the
    /// raw points of the piece's shape.
    pub fn raw_extent(&self) -> (r: (i32, i32, i32, i32))
        ensures
            forall|i: int|
                #![trigger shape_points(self.shape)[i]]
                0 <= i < 4 ==> r.0 <= shape_points(self.shape)[i].x <= r.1 && r.2
                    <= shape_points(self.shape)[i].y <= r.3,
            exists|i: int| 0 <= i < 4 && shape_points(self.shape)[i].x == r.0,
            exists|i: int| 0 <= i < 4 && shape_points(self.shape)[i].x == r.1,
            exists|i: int| 0 <= i < 4 && shape_points(self.shape)[i].y == r.2,
            exists|i: int| 0 <= i < 4 && shape_points(self.shape)[i].y == r.3,
    {
        let raw = self.raw_points();
        let mut x_min = raw[0].x;
        let mut x_max = raw[0].x;
        let mut y_min = raw[0].y;
        let mut y_max = raw[0].y;
        let mut k: usize = 1;
        while k < 4
            invariant
                1 <= k <= 4,
                raw@ == shape_points(self.shape),
                forall|i: int|
                    #![trigger raw@[i]]
                    0 <= i < k ==> x_min <= raw@[i].x <= x_max && y_min <= raw@[i].y <= y_max,
                exists|i: int| 0 <= i < k && raw@[i].x == x_min,
                exists|i: int| 0 <= i < k && raw@[i].x == x_max,
                exists|i: int| 0 <= i < k && raw@[i].y == y_min,
                exists|i: int| 0 <= i < k && raw@[i].y == y_max,
            decreases 4 - k,
        {
            let p = raw[k];
            assert(p == raw@[k as int]);
            if p.x < x_min {
                x_min = p.x;
            }
            if p.x > x_max {
                x_max = p.x;
            }
            if p.y < y_min {
                y_min = p.y;
            }
            if p.y > y_max {
                y_max = p.y;
            }
            k = k + 1;
        }
        (x_min, x_max, y_min, y_max)
    }

    /// The colour of the piece's shape.
    pub fn color(&self) -> (r: TileColor)
        ensures
            r == shape_color(self.shape),
    {
        match self.shape {
            Shape::O => TileColor::Yellow,
            Shape::I => TileColor::Cyan,
            Shape::T => TileColor::Purple,
            Shape::L => TileColor::Orange,
            Shape::J => TileColor::Blue,
            Shape::S => TileColor::Green,
            Shape::Z => TileColor::Red,
        }
    }
}

fn tetromino_points(shape: Shape) -> (r: TetronimoPoints)
    ensures
        r@ == shape_points(shape),
{
    let r = match shape {
        Shape::O => [Point::new(-1, 1), Point::new(-1, -1), Point::new(1, 1), Point::new(1, -1)],
        Shape::I => [Point::new(-3, 1), Point::new(-1, 1), Point::new(1, 1), Point::new(3, 1)],
        Shape::T => [Point::new(0, 0), Point::new(-2, 0), Point::new(2, 0), Point::new(0, 2)],
        Shape::L => [Point::new(0, 0), Point::new(-2, 0), Point::new(2, 0), Point::new(2, 2)],
        Shape::J => [Point::new(0, 0), Point::new(-2, 0), Point::new(2, 0), Point::new(-2, 2)],
        Shape::S => [Point::new(0, 0), Point::new(-2, 0), Point::new(0, 2), Point::new(2, 2)],
        Shape::Z => [Point::new(0, 2), Point::new(-2, 2), Point::new(0, 0), Point::new(2, 0)],
    };
    assert(r@ =~= shape_points(shape));
    r
}

fn kicks5(a: Point, b: Point, c: Point, d: Point, e: Point) -> (r: Vec<Point>)
    ensures
        r@ == seq![a, b, c, d, e],
{
    let r = vec![a, b, c, d, e];
    assert(r@ =~= seq![a, b, c, d, e]);
    r
}

// Super Rotation System kick data.
fn wall_kicks(shape: &Shape, orientation: &Orientation, direction: &RotationDirection) -> (r: Vec<
    Point,
>)
    ensures
        r@ == kick_table(*shape, *orientation, *direction),
{
    match *shape {
        Shape::I => match (*orientation, *direction) {
            (Orientation::North, RotationDirection::Clockwise) => kicks5(Point::new(0, 0), Point::new(1, 0), Point::new(-2, 0), Point::new(1, -2), Point::new(-2, 1)),
            (Orientation::North, RotationDirection::CounterClockwise) => kicks5(Point::new(0, 0), Point::new(2, 0), Point::new(-1, 0), Point::new(2, 1), Point::new(-1, -2)),
            (Orientation::East, RotationDirection::Clockwise) => kicks5(Point::new(0, 0), Point::new(-2, 0), Point::new(1, 0), Point::new(-2, -1), Point::new(1, 2)),
            (Orientation::East, RotationDirection::CounterClockwise) => kicks5(Point::new(0, 0), Point::new(1, 0), Point::new(-2, 0), Point::new(1, -2), Point::new(-2, 1)),
            (Orientation::South, RotationDirection::Clockwise) => kicks5(Point::new(0, 0), Point::new(-1, 0), Point::new(2, 0), Point::new(-1, 2), Point::new(2, -1)),
            (Orientation::South, RotationDirection::CounterClockwise) => kicks5(Point::new(0, 0), Point::new(-2, 0), Point::new(1, 0), Point::new(-2, -1), Point::new(1, 2)),
            (Orientation::West, RotationDirection::Clockwise) => kicks5(Point::new(0, 0), Point::new(2, 0), Point::new(-1, 0), Point::new(2, 1), Point::new(-1, -2)),
            (Orientation::West, RotationDirection::CounterClockwise) => kicks5(Point::new(0, 0), Point::new(-1, 0), Point::new(2, 0), Point::new(-1, 2), Point::new(2, -1)),
        },
        Shape::O => {
            let r = vec![Point::new(0, 0)];
            assert(r@ =~= seq![pt(0, 0)]);
            r
        },
        _ => match (*orientation, *direction) {
            (Orientation::North, RotationDirection::Clockwise) => kicks5(Point::new(0, 0), Point::new(-1, 0), Point::new(-1, -1), Point::new(0, 2), Point::new(-1, 2)),
            (Orientation::North, RotationDirection::CounterClockwise) => kicks5(Point::new(0, 0), Point::new(1, 0), Point::new(1, -1), Point::new(0, 2), Point::new(1, 2)),
            (Orientation::East, RotationDirection::Clockwise) => kicks5(Point::new(0, 0), Point::new(-1, 0), Point::new(-1, 1), Point::new(0, -2), Point::new(-1, -2)),
            (Orientation::East, RotationDirection::CounterClockwise) => kicks5(Point::new(0, 0), Point::new(-1, 0), Point::new(-1, 1), Point::new(0, -2), Point::new(-1, -2)),
            (Orientation::South, RotationDirection::Clockwise) => kicks5(Point::new(0, 0), Point::new(1, 0), Point::new(1, -1), Point::new(0, 2), Point::new(1, 2)),
            (Orientation::South, RotationDirection::CounterClockwise) => kicks5(Point::new(0, 0), Point::new(-1, 0), Point::new(-1, -1), Point::new(0, 2), Point::new(-1, 2)),
            (Orientation::West, RotationDirection::Clockwise) => kicks5(Point::new(0, 0), Point::new(1, 0), Point::new(1, 1), Point::new(0, -2), Point::new(1, -2)),
            (Orientation::West, RotationDirection::CounterClockwise) => kicks5(Point::new(0, 0), Point::new(1, 0), Point::new(1, 1), Point::new(0, -2), Point::new(1, -2)),
        },
    }
}

} // verus!
