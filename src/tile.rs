use vstd::prelude::*;
use crate::game::GameTile;

verus! {

/// A `width` by `height` grid of cells, stored row by row from the bottom row up.
#[derive(Debug, Clone)]
pub struct TileBoard<T> {
    pub squares: Vec<T>,
    pub width: usize,
    pub height: usize,
}

impl<T> View for TileBoard<T> {
    type V = Seq<T>;

    /// The cells, row by row: the cell at column `x` of row `y` is at `y * width + x`.
    open spec fn view(&self) -> Seq<T> {
        self.squares@
    }
}

/// Two cells of a `w`-wide grid share an index only if they are the same cell.
proof fn lemma_index_injective(x1: int, y1: int, x2: int, y2: int, w: int)
    requires
        0 <= x1 < w,
        0 <= x2 < w,
        0 <= y1,
        0 <= y2,
        y1 * w + x1 == y2 * w + x2,
    ensures
        x1 == x2 && y1 == y2,
{
    if y1 < y2 {
        assert(y1 * w + w <= y2 * w) by (nonlinear_arith)
            requires
                y1 < y2,
                0 <= w,
        ;
    } else if y2 < y1 {
        assert(y2 * w + w <= y1 * w) by (nonlinear_arith)
            requires
                y2 < y1,
                0 <= w,
        ;
    }
}

/// `x + y * w` lies inside a `w` by `h` grid whenever the coordinates do.
pub proof fn lemma_index_in_grid(x: int, y: int, w: int, h: int)
    requires
        0 <= x < w,
        0 <= y < h,
    ensures
        0 <= y * w + x < w * h,
{
    assert(y * w + x < w * h) by (nonlinear_arith)
        requires
            0 <= x < w,
            0 <= y < h,
    ;
    assert(0 <= y * w) by (nonlinear_arith)
        requires
            0 <= y,
            0 <= w,
    ;
}

impl<T> TileBoard<T> {
    /// The grid holds exactly `width * height` cells, a number that fits in `usize`.
    pub open spec fn wf(&self) -> bool {
        self@.len() == self.width * self.height && self.width * self.height <= usize::MAX
    }

    /// Whether `(x, y)` names a cell of the grid.
    pub open spec fn in_bounds(&self, x: int, y: int) -> bool {
        0 <= x < self.width && 0 <= y < self.height
    }

    /// The cell at column `x` of row `y`.
    pub open spec fn at(&self, x: int, y: int) -> T {
        self@[y * self.width + x]
    }

    /// The cell at column `idx` of row `idy`.
    pub fn get(&self, idx: usize, idy: usize) -> (r: &T)
        requires
            self.wf(),
            self.in_bounds(idx as int, idy as int),
        ensures
            *r == self.at(idx as int, idy as int),
    {
        proof {
            lemma_index_in_grid(idx as int, idy as int, self.width as int, self.height as int);
        }
        &self.squares[idy * self.width + idx]
    }

    /// The cell at column `idx` of row `idy`, or `None` where that lies outside the grid.
    pub fn checked_get(&self, idx: i32, idy: i32) -> (r: Option<&T>)
        requires
            self.wf(),
        ensures
            r.is_some() == self.in_bounds(idx as int, idy as int),
            r.is_some() ==> *r.unwrap() == self.at(idx as int, idy as int),
    {
        if idx >= 0 && (idx as usize) < self.width {
            if idy >= 0 && (idy as usize) < self.height {
                return Some(self.get(idx as usize, idy as usize));
            }
        }
        None
    }

    /// Replaces the cell at column `idx` of row `idy` with `tile`.
    pub fn set(&mut self, idx: usize, idy: usize, tile: T)
        requires
            old(self).wf(),
            old(self).in_bounds(idx as int, idy as int),
        ensures
            final(self).width == old(self).width,
            final(self).height == old(self).height,
            final(self)@ == old(self)@.update(idy * old(self).width + idx, tile),
            final(self).wf(),
            forall|x: int, y: int|
                #![trigger final(self).at(x, y)]
                old(self).in_bounds(x, y) ==> final(self).at(x, y) == if x == idx && y == idy {
                    tile
                } else {
                    old(self).at(x, y)
                },
    {
        proof {
            lemma_index_in_grid(idx as int, idy as int, self.width as int, self.height as int);
            assert forall|x: int, y: int| self.in_bounds(x, y) && (x != idx || y != idy) implies (
            #[trigger] (y * self.width + x)) != idy * self.width + idx by {
                if y * self.width + x == idy * self.width + idx {
                    lemma_index_injective(x, y, idx as int, idy as int, self.width as int);
                }
            }
            assert forall|x: int, y: int| self.in_bounds(x, y) implies 0 <= #[trigger] (y
                * self.width + x) < self.width * self.height by {
                lemma_index_in_grid(x, y, self.width as int, self.height as int);
            }
        }
        let i = idy * self.width + idx;
        self.squares.set(i, tile);
    }
}

impl TileBoard<GameTile> {
    /// A `width` by `height` grid of empty cells.
    pub fn new(width: usize, height: usize) -> (r: TileBoard<GameTile>)
        requires
            width * height <= usize::MAX,
        ensures
            r.wf(),
            r.width == width,
            r.height == height,
            forall|i: int| 0 <= i < r@.len() ==> r@[i] == GameTile::Empty,
    {
        let n = width * height;
        let mut squares: Vec<GameTile> = Vec::new();
        let mut k: usize = 0;
        while k < n
            invariant
                k <= n,
                squares@.len() == k,
                forall|i: int| 0 <= i < k ==> squares@[i] == GameTile::Empty,
            decreases n - k,
        {
            squares.push(GameTile::Empty);
            k = k + 1;
        }
        TileBoard { squares, width, height }
    }
}

} // verus!
