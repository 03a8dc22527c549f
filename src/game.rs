//! The engine: board, active and held pieces, timers, line clearing and scoring.
use vstd::prelude::*;
use crate::generator::TetrominoGenerator;
use crate::input::{CommandState, DropSpeed, idle_commands};
use crate::limit::{RateLimiter, SingleFireTrigger, TriggerState, LimiterState};
use crate::tetromino::{
    Tetromino,
    SlideDirection,
    cell_x,
    cell_y,
    origin_in_range,
    shape_color,
    kick_table,
    lemma_cells_near_origin,
    pt,
};
use crate::tile::TileBoard;
use crate::transform::{Point, RotationDirection, turned};

verus! {

pub const TETRIS_BOARD_WIDTH: usize = 10;

pub const TETRIS_BOARD_HEIGHT: usize = 22;

pub const TETRIS_BOARD_VISIBLE_HEIGHT: usize = 20;

/// Column of the spawn point.
pub const TETRIS_SPAWN_X: i32 = 5;

/// Row of the spawn point.
pub const TETRIS_SPAWN_Y: i32 = 20;

/// Fall interval at level zero, in microseconds.
pub const TETRIS_BASE_GRAVITY: u64 = 500_000;

/// How much each level shortens the fall interval, in microseconds.
pub const TETRIS_LEVEL_GRAVITY: u64 = 50_000;

/// The seven tile colours, one per shape.
#[derive(Debug, Clone, Copy, PartialEq, Eq, Structural)]
pub enum TileColor {
    Red,
    Blue,
    Yellow,
    Cyan,
    Orange,
    Green,
    Purple,
}

/// What a board cell holds; `Shadow` marks where the active piece would land.
#[derive(Debug, Clone, Copy, PartialEq, Eq, Structural)]
pub enum GameTile {
    Empty,
    Static(TileColor),
    Shadow(TileColor),
    Active(TileColor),
}

impl Default for GameTile {
    fn default() -> (r: GameTile)
        ensures
            r == GameTile::Empty,
    {
        GameTile::Empty
    }
}

/// Points for clearing `n` rows at once, before the level multiplier.
pub open spec fn line_points(n: int) -> int {
    if n == 1 {
        40
    } else if n == 2 {
        100
    } else if n == 3 {
        300
    } else if n == 4 {
        1200
    } else {
        0
    }
}

/// `v`, or `u64::MAX` where it is larger.
pub open spec fn capped(v: int) -> u64 {
    if v > u64::MAX {
        u64::MAX
    } else {
        v as u64
    }
}

/// Points and cleared rows; both saturate at `u64::MAX`.
#[derive(Debug, Clone, Copy, PartialEq, Eq, Structural, Default)]
pub struct Score {
    pub points: u64,
    pub garbage: u64,
}

impl Score {
    /// A score of nothing.
    pub fn new() -> (r: Score)
        ensures
            r.points == 0 && r.garbage == 0,
    {
        Score { points: 0, garbage: 0 }
    }

    /// The level: one per ten cleared rows.
    pub fn level(&self) -> (r: u64)
        ensures
            r == self.garbage / 10,
    {
        self.garbage / 10
    }

    /// The points.
    pub fn score(&self) -> (r: u64)
        ensures
            r == self.points,
    {
        self.points
    }

    /// Scores `garbage` rows cleared by one lock, at the level before the clear.
    pub fn wipe(&mut self, garbage: u64)
        requires
            garbage <= 4,
        ensures
            final(self).points == capped(
                old(self).points + (old(self).garbage / 10 + 1) * line_points(garbage as int),
            ),
            final(self).garbage == capped(old(self).garbage + garbage),
    {
        let multiplier: u64 = match garbage {
            0 => 0,
            1 => 40,
            2 => 100,
            3 => 300,
            _ => 1200,
        };
        let gain = match (self.level() + 1).checked_mul(multiplier) {
            Some(g) => g,
            None => u64::MAX,
        };
        self.points = self.points.saturating_add(gain);
        self.garbage = self.garbage.saturating_add(garbage);
    }
}

/// The unit a score is shown in.
#[derive(Debug, Clone, Copy, PartialEq, Eq, Structural)]
pub enum ScoreUnit {
    One,
    Thousand,
    Million,
}

/// Shortens a point count for display: above a billion it is shown in
/// millions, above a million in thousands (both rounded down).
pub fn abbreviate_points(points: u64) -> (r: (u64, ScoreUnit))
    ensures
        r == if points > 1_000_000_000 {
            ((points / 1_000_000) as u64, ScoreUnit::Million)
        } else if points > 1_000_000 {
            ((points / 1_000) as u64, ScoreUnit::Thousand)
        } else {
            (points, ScoreUnit::One)
        },
{
    if points > 1_000_000_000 {
        (points / 1_000_000, ScoreUnit::Million)
    } else if points > 1_000_000 {
        (points / 1_000, ScoreUnit::Thousand)
    } else {
        (points, ScoreUnit::One)
    }
}

/// Whether a cell is part of the settled stack.
pub open spec fn is_static(t: GameTile) -> bool {
    t is Static
}

/// A cell a piece cannot occupy: off the board, or settled.
pub open spec fn blocked(b: TileBoard<GameTile>, x: int, y: int) -> bool {
    !b.in_bounds(x, y) || is_static(b.at(x, y))
}

/// Every cell of `t` is on the board and not settled.
pub open spec fn fits(b: TileBoard<GameTile>, t: Tetromino) -> bool {
    forall|i: int| 0 <= i < 4 ==> !#[trigger] blocked(b, cell_x(t, i), cell_y(t, i))
}

/// `t` covers column `x` of row `y`.
pub open spec fn covers(t: Tetromino, x: int, y: int) -> bool {
    exists|i: int| 0 <= i < 4 && cell_x(t, i) == x && cell_y(t, i) == y
}

/// `t` moved so that its origin is in row `y`.
pub open spec fn at_row(t: Tetromino, y: int) -> Tetromino {
    Tetromino { origin: pt(t.origin.x as int, y), ..t }
}

/// How many rows `t` can fall before it lands.
pub open spec fn altitude_of(b: TileBoard<GameTile>, t: Tetromino) -> int {
    t.origin.y - landing(b, t).origin.y
}

/// The lowest row the origin of `t` reaches falling from row `y` while it fits.
pub open spec fn landing_row(b: TileBoard<GameTile>, t: Tetromino, y: int) -> int
    decreases y + 2,
{
    if y > -1 && fits(b, at_row(t, y - 1)) {
        landing_row(b, t, y - 1)
    } else {
        y
    }
}

/// Where `t` comes to rest if dropped straight down.
pub open spec fn landing(b: TileBoard<GameTile>, t: Tetromino) -> Tetromino {
    at_row(t, landing_row(b, t, t.origin.y as int))
}

/// Every cell of row `y` is settled.
pub open spec fn row_full(b: TileBoard<GameTile>, y: int) -> bool {
    forall|x: int| 0 <= x < b.width ==> #[trigger] is_static(b.at(x, y))
}

/// The rows below `n` that are not full, bottom first.
pub open spec fn kept_rows(b: TileBoard<GameTile>, n: nat) -> Seq<int>
    decreases n,
{
    if n == 0 {
        Seq::empty()
    } else if row_full(b, n - 1) {
        kept_rows(b, (n - 1) as nat)
    } else {
        kept_rows(b, (n - 1) as nat).push(n - 1)
    }
}

/// The cell at column `x` of row `y` once `t` has settled on `b`.
pub open spec fn settled_at(b: TileBoard<GameTile>, t: Tetromino, x: int, y: int) -> GameTile {
    if covers(t, x, y) {
        GameTile::Static(shape_color(t.shape))
    } else {
        b.at(x, y)
    }
}

/// Row `y` is full once `t` has settled on `b`.
pub open spec fn settled_row_full(b: TileBoard<GameTile>, t: Tetromino, y: int) -> bool {
    forall|x: int| 0 <= x < b.width ==> #[trigger] is_static(settled_at(b, t, x, y))
}

/// The rows below `n` that are not full once `t` has settled on `b`, bottom first.
pub open spec fn settled_kept_rows(b: TileBoard<GameTile>, t: Tetromino, n: nat) -> Seq<int>
    decreases n,
{
    if n == 0 {
        Seq::empty()
    } else if settled_row_full(b, t, n - 1) {
        settled_kept_rows(b, t, (n - 1) as nat)
    } else {
        settled_kept_rows(b, t, (n - 1) as nat).push(n - 1)
    }
}

/// The cell at column `x` of row `y` once `t` has been dropped onto `b`,
/// settled there, and the full rows cleared.
pub open spec fn settled_cleared_at(b: TileBoard<GameTile>, t: Tetromino, x: int, y: int) -> GameTile {
    let rest = landing(b, t);
    let kept = settled_kept_rows(b, rest, TETRIS_BOARD_HEIGHT as nat);
    if y < kept.len() {
        settled_at(b, rest, x, kept[y])
    } else {
        GameTile::Empty
    }
}

/// A board that holds `t` settled on `b` keeps the same rows as the model does.
proof fn lemma_settled_kept_rows(s: TileBoard<GameTile>, b: TileBoard<GameTile>, t: Tetromino, n: nat)
    requires
        s.width == b.width,
        s.height == b.height,
        n <= b.height,
        forall|x: int, y: int| #![trigger s.at(x, y)] b.in_bounds(x, y) ==> s.at(x, y) == settled_at(b, t, x, y),
    ensures
        kept_rows(s, n) == settled_kept_rows(b, t, n),
    decreases n,
{
    if n > 0 {
        lemma_settled_kept_rows(s, b, t, (n - 1) as nat);
        let y = n - 1;
        assert(row_full(s, y) == settled_row_full(b, t, y)) by {
            if row_full(s, y) {
                assert forall|x: int| 0 <= x < b.width implies #[trigger] is_static(settled_at(b, t, x, y)) by {
                    assert(is_static(s.at(x, y)));
                }
            }
            if settled_row_full(b, t, y) {
                assert forall|x: int| 0 <= x < s.width implies #[trigger] is_static(s.at(x, y)) by {
                    assert(is_static(settled_at(b, t, x, y)));
                }
            }
        }
    }
}

/// An origin no more than a few cells off the board.
pub open spec fn near_board(t: Tetromino) -> bool {
    -4 <= t.origin.x <= 14 && -4 <= t.origin.y <= 26
}

/// A piece that fits lies over the board, so its origin is near it.
pub proof fn lemma_fits_near_board(b: TileBoard<GameTile>, t: Tetromino)
    requires
        fits(b, t),
    ensures
        -1 <= t.origin.x <= b.width + 1,
        -1 <= t.origin.y <= b.height + 1,
{
    lemma_cells_near_origin(t, 0);
    assert(!blocked(b, cell_x(t, 0), cell_y(t, 0)));
}

/// Rows survive a clear exactly when they are not full, and in their order.
pub proof fn lemma_kept_rows(b: TileBoard<GameTile>, n: nat)
    ensures
        forall|y: int| kept_rows(b, n).contains(y) <==> 0 <= y < n && !row_full(b, y),
        forall|i: int, j: int|
            0 <= i < j < kept_rows(b, n).len() ==> kept_rows(b, n)[i] < kept_rows(b, n)[j],
        forall|i: int| 0 <= i < kept_rows(b, n).len() ==> 0 <= #[trigger] kept_rows(b, n)[i] < n,
        kept_rows(b, n).len() <= n,
    decreases n,
{
    if n > 0 {
        lemma_kept_rows(b, (n - 1) as nat);
        let prev = kept_rows(b, (n - 1) as nat);
        if !row_full(b, n - 1) {
            assert forall|y: int| kept_rows(b, n).contains(y) <==> 0 <= y < n && !row_full(
                b,
                y,
            ) by {
                if y == n - 1 {
                    assert(kept_rows(b, n)[prev.len() as int] == y);
                } else if kept_rows(b, n).contains(y) {
                    let k = choose|k: int| 0 <= k < kept_rows(b, n).len() && kept_rows(b, n)[k] == y;
                    assert(prev.contains(y)) by {
                        assert(prev[k] == y);
                    }
                } else if 0 <= y < n && !row_full(b, y) {
                    assert(prev.contains(y));
                    let k = choose|k: int| 0 <= k < prev.len() && prev[k] == y;
                    assert(kept_rows(b, n)[k] == y);
                }
            }
        }
    }
}

/// Once a piece has settled, rows survive the clear exactly when they are
/// not full, and keep their order.
pub proof fn lemma_settled_kept_rows_law(b: TileBoard<GameTile>, t: Tetromino, n: nat)
    ensures
        forall|y: int| settled_kept_rows(b, t, n).contains(y) <==> 0 <= y < n && !settled_row_full(b, t, y),
        forall|i: int, j: int|
            0 <= i < j < settled_kept_rows(b, t, n).len() ==> settled_kept_rows(b, t, n)[i] < settled_kept_rows(b, t, n)[j],
        forall|i: int| 0 <= i < settled_kept_rows(b, t, n).len() ==> 0 <= #[trigger] settled_kept_rows(b, t, n)[i] < n,
        settled_kept_rows(b, t, n).len() <= n,
    decreases n,
{
    if n > 0 {
        lemma_settled_kept_rows_law(b, t, (n - 1) as nat);
        let prev = settled_kept_rows(b, t, (n - 1) as nat);
        if !settled_row_full(b, t, n - 1) {
            assert forall|y: int| settled_kept_rows(b, t, n).contains(y) <==> 0 <= y < n && !settled_row_full(b, t, y) by {
                if y == n - 1 {
                    assert(settled_kept_rows(b, t, n)[prev.len() as int] == y);
                } else if settled_kept_rows(b, t, n).contains(y) {
                    let k = choose|k: int| 0 <= k < settled_kept_rows(b, t, n).len() && settled_kept_rows(b, t, n)[k] == y;
                    assert(prev.contains(y)) by {
                        assert(prev[k] == y);
                    }
                } else if 0 <= y < n && !settled_row_full(b, t, y) {
                    assert(prev.contains(y));
                    let k = choose|k: int| 0 <= k < prev.len() && prev[k] == y;
                    assert(settled_kept_rows(b, t, n)[k] == y);
                }
            }
        }
    }
}

/// One of the points `ps` is `(x, y)`.
pub open spec fn hit(ps: Seq<Point>, x: int, y: int) -> bool {
    exists|i: int| 0 <= i < ps.len() && ps[i].x == x && ps[i].y == y
}

/// Sets to `tile` each cell of `board` named in `cells` that lies on it.
fn paint(board: &mut TileBoard<GameTile>, cells: &[Point; 4], tile: GameTile)
    requires
        old(board).wf(),
    ensures
        final(board).wf(),
        final(board).width == old(board).width,
        final(board).height == old(board).height,
        forall|x: int, y: int|
            #![trigger final(board).at(x, y)]
            old(board).in_bounds(x, y) ==> final(board).at(x, y) == if hit(cells@, x, y) {
                tile
            } else {
                old(board).at(x, y)
            },
{
    let ghost b0 = *board;
    let mut k: usize = 0;
    while k < 4
        invariant
            k <= 4,
            board.wf(),
            board.width == b0.width,
            board.height == b0.height,
            forall|x: int, y: int|
                #![trigger board.at(x, y)]
                b0.in_bounds(x, y) ==> board.at(x, y) == if hit(cells@.subrange(0, k as int), x, y) {
                    tile
                } else {
                    b0.at(x, y)
                },
        decreases 4 - k,
    {
        let p = cells[k];
        let ghost before = *board;
        if p.x >= 0 && p.y >= 0 && (p.x as usize) < board.width && (p.y as usize) < board.height {
            board.set(p.x as usize, p.y as usize, tile);
        }
        proof {
            let s0 = cells@.subrange(0, k as int);
            let s1 = cells@.subrange(0, k + 1);
            assert forall|x: int, y: int| b0.in_bounds(x, y) implies #[trigger] board.at(x, y) == if hit(s1, x, y) {
                tile
            } else {
                b0.at(x, y)
            } by {
                if x == p.x && y == p.y {
                    assert(s1[k as int] == p);
                } else {
                    if hit(s1, x, y) {
                        let i = choose|i: int| 0 <= i < s1.len() && s1[i].x == x && s1[i].y == y;
                        assert(s0[i] == s1[i]);
                    }
                    if hit(s0, x, y) {
                        let i = choose|i: int| 0 <= i < s0.len() && s0[i].x == x && s0[i].y == y;
                        assert(s0[i] == s1[i]);
                    }
                }
            }
        }
        k = k + 1;
    }
    proof {
        assert(cells@.subrange(0, 4) =~= cells@);
    }
}

/// `hit` on the cells that `coordinates` returns is `covers` on the piece.
proof fn lemma_hit_covers(cells: [Point; 4], t: Tetromino)
    requires
        forall|i: int|
            #![trigger cells[i]]
            0 <= i < 4 ==> cells[i].x == cell_x(t, i) && cells[i].y == cell_y(t, i),
    ensures
        forall|x: int, y: int| #[trigger] hit(cells@, x, y) == covers(t, x, y),
{
    assert forall|x: int, y: int| #[trigger] hit(cells@, x, y) == covers(t, x, y) by {
        if hit(cells@, x, y) {
            let i = choose|i: int| 0 <= i < 4 && cells@[i].x == x && cells@[i].y == y;
            assert(cells[i] == cells@[i]);
            assert(0 <= i < 4 && cell_x(t, i) == x && cell_y(t, i) == y);
        }
        if covers(t, x, y) {
            let i = choose|i: int| 0 <= i < 4 && cell_x(t, i) == x && cell_y(t, i) == y;
            assert(cells[i] == cells@[i]);
            assert(0 <= i < cells@.len() && cells@[i].x == x && cells@[i].y == y);
        }
    }
}

/// Fall interval for a level: shorter by a fixed step per level, and never
/// below zero.
pub open spec fn gravity_rate(level: int) -> u64 {
    if level >= 10 {
        0
    } else {
        (TETRIS_BASE_GRAVITY - TETRIS_LEVEL_GRAVITY * level) as u64
    }
}

/// `t` after the kick at index `j`, once it has turned in direction `d`.
pub open spec fn kicked(t: Tetromino, d: RotationDirection, j: int) -> Tetromino {
    let r = Tetromino { orientation: turned(t.orientation, d), ..t };
    let k = kick_table(r.shape, r.orientation, d)[j];
    Tetromino { origin: pt(r.origin.x + k.x, r.origin.y + k.y), ..r }
}

/// The number of kicks tried for `t` turning in direction `d`.
pub open spec fn kick_count(t: Tetromino, d: RotationDirection) -> int {
    kick_table(t.shape, turned(t.orientation, d), d).len() as int
}

/// The score after `n` rows are cleared by one lock.
pub open spec fn score_after(s: Score, n: int) -> Score {
    Score {
        points: capped(s.points + (s.garbage / 10 + 1) * line_points(n)),
        garbage: capped(s.garbage + n),
    }
}

/// Neither points nor cleared rows went down.
pub open spec fn score_grew(a: Score, b: Score) -> bool {
    a.points <= b.points && a.garbage <= b.garbage
}

/// Scoring a clear never lowers the score.
pub proof fn lemma_score_after_grows(s: Score, n: int)
    requires
        0 <= n <= 4,
    ensures
        score_grew(s, score_after(s, n)),
{
    assert((s.garbage / 10 + 1) * line_points(n) >= 0) by (nonlinear_arith)
        requires
            line_points(n) >= 0,
            s.garbage >= 0,
    ;
}

/// `t` moved one column in direction `d`.
pub open spec fn slid(t: Tetromino, d: SlideDirection) -> Tetromino {
    Tetromino {
        origin: pt(
            t.origin.x + match d {
                SlideDirection::Left => -1int,
                SlideDirection::Right => 1int,
            },
            t.origin.y as int,
        ),
        ..t
    }
}

/// What the exported board shows at column `x` of row `y`: the falling
/// piece over its landing place over the stack. A piece that does not fit
/// has no landing place.
pub open spec fn shown(b: TileBoard<GameTile>, t: Tetromino, x: int, y: int) -> GameTile {
    if covers(t, x, y) {
        GameTile::Active(shape_color(t.shape))
    } else if fits(b, t) && covers(landing(b, t), x, y) {
        GameTile::Shadow(shape_color(t.shape))
    } else {
        b.at(x, y)
    }
}

/// On an empty board of the game's size, a piece of any shape in any
/// orientation fits at the spawn point.
pub proof fn lemma_spawn_fits_empty_board(b: TileBoard<GameTile>, t: Tetromino)
    requires
        b.wf(),
        b.width == TETRIS_BOARD_WIDTH,
        b.height == TETRIS_BOARD_HEIGHT,
        forall|x: int, y: int| b.in_bounds(x, y) ==> #[trigger] b.at(x, y) == GameTile::Empty,
        t.origin == spawn_point(),
    ensures
        fits(b, t),
{
    assert forall|i: int| 0 <= i < 4 implies !#[trigger] blocked(b, cell_x(t, i), cell_y(t, i)) by {
        lemma_cells_near_origin(t, i);
        assert(b.in_bounds(cell_x(t, i), cell_y(t, i)));
    }
}

/// `t` turned in direction `d` with the first kick, from index `j` on, whose
/// placement fits; `t` itself when none does.
pub open spec fn kick_from(b: TileBoard<GameTile>, t: Tetromino, d: RotationDirection, j: int) -> Tetromino
    decreases kick_count(t, d) - j,
{
    if j < 0 || j >= kick_count(t, d) {
        t
    } else if fits(b, kicked(t, d, j)) {
        kicked(t, d, j)
    } else {
        kick_from(b, t, d, j + 1)
    }
}

/// A turn takes the first kick in table order whose placement fits, and no
/// later one; when none fits the piece stays as it was.
pub proof fn lemma_first_fitting_kick(b: TileBoard<GameTile>, t: Tetromino, d: RotationDirection, j: int)
    requires
        0 <= j <= kick_count(t, d),
        forall|i: int| 0 <= i < j ==> !#[trigger] fits(b, kicked(t, d, i)),
    ensures
        j < kick_count(t, d) && fits(b, kicked(t, d, j)) ==> kick_from(b, t, d, 0) == kicked(t, d, j),
        j == kick_count(t, d) ==> kick_from(b, t, d, 0) == t,
    decreases j,
{
    if j > 0 {
        lemma_kick_from_skips(b, t, d, 0, j);
    }
}

/// A turn of a piece that fits gives a piece that fits.
pub proof fn lemma_kick_from_fits(b: TileBoard<GameTile>, t: Tetromino)
    requires
        fits(b, t),
    ensures
        forall|d: RotationDirection| #[trigger] fits(b, kick_from(b, t, d, 0)),
{
    assert forall|d: RotationDirection| #[trigger] fits(b, kick_from(b, t, d, 0)) by {
        lemma_kick_from_fits_from(b, t, d, 0);
    }
}

proof fn lemma_kick_from_fits_from(b: TileBoard<GameTile>, t: Tetromino, d: RotationDirection, j: int)
    requires
        fits(b, t),
    ensures
        fits(b, kick_from(b, t, d, j)),
    decreases kick_count(t, d) - j,
{
    if 0 <= j < kick_count(t, d) && !fits(b, kicked(t, d, j)) {
        lemma_kick_from_fits_from(b, t, d, j + 1);
    }
}

/// Kicks that do not fit are passed over.
proof fn lemma_kick_from_skips(b: TileBoard<GameTile>, t: Tetromino, d: RotationDirection, i: int, j: int)
    requires
        0 <= i <= j <= kick_count(t, d),
        forall|k: int| i <= k < j ==> !#[trigger] fits(b, kicked(t, d, k)),
    ensures
        kick_from(b, t, d, i) == kick_from(b, t, d, j),
    decreases j - i,
{
    if i < j {
        lemma_kick_from_skips(b, t, d, i + 1, j);
    }
}

/// No row of the board is full.
pub open spec fn no_full_rows(b: TileBoard<GameTile>) -> bool {
    forall|y: int| 0 <= y < b.height ==> !#[trigger] row_full(b, y)
}

/// How many of the four rows `ys` lie below `n`.
pub open spec fn rows_hit(ys: Seq<int>, n: int) -> int {
    (if ys[0] < n { 1int } else { 0int }) + (if ys[1] < n { 1int } else { 0int }) + (if ys[2] < n {
        1int
    } else {
        0int
    }) + (if ys[3] < n { 1int } else { 0int })
}

/// Where every full row below `n` is one of the four rows `ys`, at most as
/// many rows are full as `ys` has rows below `n`.
proof fn lemma_full_rows_bounded(b: TileBoard<GameTile>, n: nat, ys: Seq<int>)
    requires
        ys.len() == 4,
        forall|y: int| 0 <= y < n && row_full(b, y) ==> ys.contains(y),
    ensures
        n - kept_rows(b, n).len() <= rows_hit(ys, n as int),
    decreases n,
{
    if n > 0 {
        lemma_full_rows_bounded(b, (n - 1) as nat, ys);
        if row_full(b, n - 1) {
            assert(ys.contains(n - 1));
        }
    }
}

/// Removes every full row, moving the rows above down in order and
/// filling the top with empty rows; returns how many rows were removed.
fn clear_full_rows(board: &mut TileBoard<GameTile>) -> (r: u64)
    requires
        old(board).wf(),
        old(board).width == TETRIS_BOARD_WIDTH,
        old(board).height == TETRIS_BOARD_HEIGHT,
    ensures
        final(board).wf(),
        final(board).width == TETRIS_BOARD_WIDTH,
        final(board).height == TETRIS_BOARD_HEIGHT,
        r == TETRIS_BOARD_HEIGHT - kept_rows(*old(board), TETRIS_BOARD_HEIGHT as nat).len(),
        forall|x: int, y: int|
            #![trigger final(board).at(x, y)]
            final(board).in_bounds(x, y) ==> final(board).at(x, y) == if y
                < kept_rows(*old(board), TETRIS_BOARD_HEIGHT as nat).len() {
                old(board).at(x, kept_rows(*old(board), TETRIS_BOARD_HEIGHT as nat)[y])
            } else {
                GameTile::Empty
            },
{
    let ghost ob = *board;
    let mut row_reader: usize = 0;
    let mut row_writer: usize = 0;
    let mut rows_wiped: u64 = 0;
    proof {
        lemma_kept_rows(ob, 0);
    }
    while row_reader < TETRIS_BOARD_HEIGHT
        invariant
            row_writer <= row_reader <= TETRIS_BOARD_HEIGHT,
            board.wf(),
            board.width == TETRIS_BOARD_WIDTH,
            board.height == TETRIS_BOARD_HEIGHT,
            ob.width == TETRIS_BOARD_WIDTH,
            ob.height == TETRIS_BOARD_HEIGHT,
            kept_rows(ob, row_reader as nat).len() == row_writer,
            rows_wiped == row_reader - row_writer,
            forall|x: int, y: int|
                #![trigger board.at(x, y)]
                0 <= x < TETRIS_BOARD_WIDTH && 0 <= y < row_writer ==> board.at(x, y)
                    == ob.at(x, kept_rows(ob, row_reader as nat)[y]),
            forall|x: int, y: int|
                #![trigger board.at(x, y)]
                0 <= x < TETRIS_BOARD_WIDTH && row_reader <= y < TETRIS_BOARD_HEIGHT
                    ==> board.at(x, y) == ob.at(x, y),
        decreases TETRIS_BOARD_HEIGHT - row_reader,
    {
        let ghost rb = *board;
        let mut row_filled: usize = 0;
        let mut idx: usize = 0;
        while idx < TETRIS_BOARD_WIDTH
            invariant
                row_writer <= row_reader < TETRIS_BOARD_HEIGHT,
                idx <= TETRIS_BOARD_WIDTH,
                row_filled <= idx,
                (row_filled == idx) <==> (forall|x: int|
                    0 <= x < idx ==> #[trigger] is_static(ob.at(x, row_reader as int))),
                board.wf(),
                board.width == TETRIS_BOARD_WIDTH,
                board.height == TETRIS_BOARD_HEIGHT,
                forall|x: int| 0 <= x < TETRIS_BOARD_WIDTH ==> #[trigger] rb.at(x, row_reader as int) == ob.at(x, row_reader as int),
                forall|x: int, y: int|
                    #![trigger board.at(x, y)]
                    0 <= x < TETRIS_BOARD_WIDTH && 0 <= y < TETRIS_BOARD_HEIGHT
                        ==> board.at(x, y) == if y == row_writer && x < idx {
                        ob.at(x, row_reader as int)
                    } else {
                        rb.at(x, y)
                    },
                rb.width == TETRIS_BOARD_WIDTH,
                rb.height == TETRIS_BOARD_HEIGHT,
            decreases TETRIS_BOARD_WIDTH - idx,
        {
            let tile = *board.get(idx, row_reader);
            assert(tile == ob.at(idx as int, row_reader as int));
            if let GameTile::Static(_) = tile {
                row_filled = row_filled + 1;
            }
            proof {
                if !is_static(ob.at(idx as int, row_reader as int)) {
                    assert(!(forall|x: int|
                        0 <= x < idx + 1 ==> #[trigger] is_static(ob.at(x, row_reader as int))));
                }
            }
            board.set(idx, row_writer, tile);
            idx = idx + 1;
        }
        proof {
            assert(row_full(ob, row_reader as int) == (row_filled == TETRIS_BOARD_WIDTH));
        }
        row_reader = row_reader + 1;
        if row_filled == TETRIS_BOARD_WIDTH {
            rows_wiped = rows_wiped + 1;
        } else {
            proof {
                assert(kept_rows(ob, row_reader as nat)[row_writer as int] == row_reader - 1);
            }
            row_writer = row_writer + 1;
        }
    }
    let ghost kept = kept_rows(ob, TETRIS_BOARD_HEIGHT as nat);
    let ghost wstart = row_writer;
    while row_writer < TETRIS_BOARD_HEIGHT
        invariant
            wstart <= row_writer <= TETRIS_BOARD_HEIGHT,
            wstart == kept.len(),
            board.wf(),
            board.width == TETRIS_BOARD_WIDTH,
            board.height == TETRIS_BOARD_HEIGHT,
            forall|x: int, y: int|
                #![trigger board.at(x, y)]
                0 <= x < TETRIS_BOARD_WIDTH && 0 <= y < wstart ==> board.at(x, y)
                    == ob.at(x, kept[y]),
            forall|x: int, y: int|
                #![trigger board.at(x, y)]
                0 <= x < TETRIS_BOARD_WIDTH && wstart <= y < row_writer ==> board.at(x, y)
                    == GameTile::Empty,
        decreases TETRIS_BOARD_HEIGHT - row_writer,
    {
        let mut idx: usize = 0;
        while idx < TETRIS_BOARD_WIDTH
            invariant
                wstart <= row_writer < TETRIS_BOARD_HEIGHT,
                idx <= TETRIS_BOARD_WIDTH,
                board.wf(),
                board.width == TETRIS_BOARD_WIDTH,
                board.height == TETRIS_BOARD_HEIGHT,
                forall|x: int, y: int|
                    #![trigger board.at(x, y)]
                    0 <= x < TETRIS_BOARD_WIDTH && 0 <= y < wstart ==> board.at(x, y)
                        == ob.at(x, kept[y]),
                forall|x: int, y: int|
                    #![trigger board.at(x, y)]
                    0 <= x < TETRIS_BOARD_WIDTH && (wstart <= y < row_writer || (y
                        == row_writer && x < idx)) ==> board.at(x, y) == GameTile::Empty,
            decreases TETRIS_BOARD_WIDTH - idx,
        {
            board.set(idx, row_writer, GameTile::Empty);
            idx = idx + 1;
        }
        row_writer = row_writer + 1;
    }
    rows_wiped
}

/// The spawn point.
pub open spec fn spawn_point() -> Point {
    Point { x: TETRIS_SPAWN_X, y: TETRIS_SPAWN_Y }
}

/// `t` placed at the spawn point, facing North.
pub open spec fn spawned(t: Tetromino) -> Tetromino {
    Tetromino { origin: spawn_point(), orientation: crate::transform::Orientation::North, ..t }
}

/// The game: a board, the falling piece, a held piece, the upcoming pieces,
/// the timers that pace play, the commands in force and the score.
pub struct Tetris {
    board: TileBoard<GameTile>,
    tetromino: Tetromino,
    hold: Option<Tetromino>,
    hold_used: bool,
    slide_timer: RateLimiter,
    rotate_timer: RateLimiter,
    gravity_timer: RateLimiter,
    fast_fall_timer: RateLimiter,
    lock_trigger: SingleFireTrigger,
    lock_input_trigger: SingleFireTrigger,
    command_state: CommandState,
    generator: TetrominoGenerator,
    pub score: Score,
}

impl Tetris {
    /// The settled stack, on the full-height board.
    pub closed spec fn spec_board(&self) -> TileBoard<GameTile> {
        self.board
    }

    /// The score.
    pub closed spec fn spec_score(&self) -> Score {
        self.score
    }

    /// The falling piece.
    pub closed spec fn spec_piece(&self) -> Tetromino {
        self.tetromino
    }

    /// The held piece, if any.
    pub closed spec fn spec_hold(&self) -> Option<Tetromino> {
        self.hold
    }

    /// Whether the hold was used since the last lock.
    pub closed spec fn spec_hold_used(&self) -> bool {
        self.hold_used
    }

    /// The pieces waiting to come, next first.
    pub closed spec fn spec_upcoming(&self) -> Seq<Tetromino> {
        self.generator.upcoming()
    }

    /// The commands in force.
    pub closed spec fn spec_commands(&self) -> CommandState {
        self.command_state
    }

    /// The board has its fixed size, the generator its queue, and the falling
    /// piece is near the board.
    pub closed spec fn wf(&self) -> bool {
        &&& self.board.wf()
        &&& self.board.width == TETRIS_BOARD_WIDTH
        &&& self.board.height == TETRIS_BOARD_HEIGHT
        &&& self.generator.wf()
        &&& near_board(self.tetromino)
        &&& no_full_rows(self.board)
    }

    /// A new game: an empty board and the first piece of a fresh bag at the
    /// spawn point.
    pub fn new() -> (r: Tetris)
        ensures
            r.wf(),
            r.spec_board().width == TETRIS_BOARD_WIDTH,
            r.spec_board().height == TETRIS_BOARD_HEIGHT,
            forall|x: int, y: int|
                r.spec_board().in_bounds(x, y) ==> #[trigger] r.spec_board().at(x, y)
                    == GameTile::Empty,
            r.spec_piece() == spawned(r.spec_piece()),
            fits(r.spec_board(), r.spec_piece()),
            r.spec_hold() is None,
            !r.spec_hold_used(),
            r.spec_score() == (Score { points: 0, garbage: 0 }),
            r.spec_commands() == idle_commands(),
            r.timers_initial(),
    {
        let board = TileBoard::new(TETRIS_BOARD_WIDTH, TETRIS_BOARD_HEIGHT);
        let mut t = Tetris {
            board,
            tetromino: Tetromino::new(),
            hold: None,
            hold_used: false,
            slide_timer: RateLimiter::new(50_000, Some(170_000)),
            rotate_timer: RateLimiter::new(400_000, Some(400_000)),
            gravity_timer: RateLimiter::new(TETRIS_BASE_GRAVITY, None),
            fast_fall_timer: RateLimiter::new(50_000, None),
            lock_trigger: SingleFireTrigger::new(2_000_000),
            lock_input_trigger: SingleFireTrigger::new(500_000),
            command_state: CommandState::new(),
            generator: TetrominoGenerator::new(),
            score: Score::new(),
        };
        proof {
            assert forall|x: int, y: int| t.board.in_bounds(x, y) implies #[trigger] t.board.at(x, y)
                == GameTile::Empty by {
                crate::tile::lemma_index_in_grid(x, y, t.board.width as int, t.board.height as int);
            }
            assert forall|y: int| 0 <= y < t.board.height implies !#[trigger] row_full(t.board, y) by {
                assert(t.board.in_bounds(0, y));
                assert(!is_static(t.board.at(0, y)));
            }
        }
        t.new_tetromino();
        proof {
            lemma_spawn_fits_empty_board(t.board, t.tetromino);
        }
        t
    }

    /// Whether `piece` fits: each of its cells is on the board and not settled.
    pub fn check_piece(&self, piece: &Tetromino) -> (r: bool)
        requires
            self.wf(),
            origin_in_range(*piece),
        ensures
            r == fits(self.spec_board(), *piece),
            !r <==> exists|i: int|
                0 <= i < 4 && #[trigger] blocked(self.spec_board(), cell_x(*piece, i), cell_y(*piece, i)),
    {
        let cells = piece.coordinates();
        let mut k: usize = 0;
        while k < 4
            invariant
                k <= 4,
                self.board.wf(),
                forall|i: int|
                    #![trigger cells[i]]
                    0 <= i < 4 ==> cells[i].x == cell_x(*piece, i) && cells[i].y == cell_y(*piece, i),
                forall|i: int| 0 <= i < k ==> !#[trigger] blocked(self.board, cell_x(*piece, i), cell_y(*piece, i)),
            decreases 4 - k,
        {
            let p = cells[k];
            assert(p.x == cell_x(*piece, k as int) && p.y == cell_y(*piece, k as int));
            match self.board.checked_get(p.x, p.y) {
                Some(t) => {
                    if let GameTile::Static(_) = *t {
                        assert(blocked(self.spec_board(), cell_x(*piece, k as int), cell_y(*piece, k as int)));
                        return false;
                    }
                },
                None => {
                    assert(blocked(self.spec_board(), cell_x(*piece, k as int), cell_y(*piece, k as int)));
                    return false;
                },
            }
            k = k + 1;
        }
        true
    }

    /// Puts the next piece of the generator at the spawn point.
    fn new_tetromino(&mut self)
        requires
            old(self).generator.wf(),
        ensures
            final(self).generator.wf(),
            final(self).tetromino == spawned(old(self).generator.upcoming()[0]),
            final(self).generator.history() == old(self).generator.history().push(
                old(self).generator.upcoming()[0].shape,
            ),
            final(self).board == old(self).board,
            final(self).hold == old(self).hold,
            final(self).hold_used == old(self).hold_used,
            final(self).score == old(self).score,
            final(self).command_state == old(self).command_state,
            final(self).slide_timer == old(self).slide_timer,
            final(self).rotate_timer == old(self).rotate_timer,
            final(self).gravity_timer == old(self).gravity_timer,
            final(self).fast_fall_timer == old(self).fast_fall_timer,
            final(self).lock_trigger == old(self).lock_trigger,
            final(self).lock_input_trigger == old(self).lock_input_trigger,
    {
        let mut t = self.generator.pop();
        t.spawn(Point::new(TETRIS_SPAWN_X, TETRIS_SPAWN_Y));
        self.tetromino = t;
    }

    /// Where `piece` comes to rest if dropped straight down.
    fn drop_shadow(&self, piece: &Tetromino) -> (r: Tetromino)
        requires
            self.wf(),
            fits(self.board, *piece),
        ensures
            r == landing(self.board, *piece),
            fits(self.board, r),
            !fits(self.board, at_row(r, r.origin.y - 1)),
            r.origin.y <= piece.origin.y,
    {
        proof {
            lemma_fits_near_board(self.board, *piece);
        }
        let mut rest = *piece;
        let mut test = *piece;
        test.move_down();
        proof {
            assert(at_row(*piece, piece.origin.y as int) == *piece);
        }
        while self.check_piece(&test)
            invariant
                self.wf(),
                fits(self.board, rest),
                rest == at_row(*piece, rest.origin.y as int),
                test == at_row(*piece, rest.origin.y - 1),
                rest.origin.y <= piece.origin.y,
                -1 <= rest.origin.y <= 23,
                near_board(*piece),
                landing_row(self.board, *piece, rest.origin.y as int) == landing_row(
                    self.board,
                    *piece,
                    piece.origin.y as int,
                ),
            decreases rest.origin.y + 2,
        {
            proof {
                lemma_fits_near_board(self.board, test);
            }
            rest = test;
            test.move_down();
        }
        proof {
            assert(at_row(rest, rest.origin.y - 1) == test);
        }
        rest
    }

    /// Removes every full row of the board; see [`clear_full_rows`].
    fn wipe_full_rows(&mut self) -> (r: u64)
        requires
            old(self).board.wf(),
            old(self).board.width == TETRIS_BOARD_WIDTH,
            old(self).board.height == TETRIS_BOARD_HEIGHT,
        ensures
            final(self).board.wf(),
            final(self).board.width == TETRIS_BOARD_WIDTH,
            final(self).board.height == TETRIS_BOARD_HEIGHT,
            r == TETRIS_BOARD_HEIGHT - kept_rows(old(self).board, TETRIS_BOARD_HEIGHT as nat).len(),
            forall|x: int, y: int|
                #![trigger final(self).board.at(x, y)]
                final(self).board.in_bounds(x, y) ==> final(self).board.at(x, y) == if y
                    < kept_rows(old(self).board, TETRIS_BOARD_HEIGHT as nat).len() {
                    old(self).board.at(x, kept_rows(old(self).board, TETRIS_BOARD_HEIGHT as nat)[y])
                } else {
                    GameTile::Empty
                },
            *final(self) == (Tetris { board: final(self).board, ..*old(self) }),
    {
        clear_full_rows(&mut self.board)
    }

    /// Settles the falling piece where it would land, brings in the next
    /// piece, clears full rows and scores them, drops the commands in force,
    /// sets the fall interval for the new level and stops every timer.
    fn lock(&mut self)
        requires
            old(self).wf(),
            fits(old(self).board, old(self).tetromino),
        ensures
            final(self).wf(),
            final(self).tetromino == spawned(old(self).generator.upcoming()[0]),
            final(self).generator.history() == old(self).generator.history().push(
                old(self).generator.upcoming()[0].shape,
            ),
            final(self).hold == old(self).hold,
            !final(self).hold_used,
            exists|n: int| 0 <= n <= 4 && #[trigger] score_after(old(self).score, n) == final(self).score,
            ({
                let rest = landing(old(self).board, old(self).tetromino);
                let kept = settled_kept_rows(old(self).board, rest, TETRIS_BOARD_HEIGHT as nat);
                &&& final(self).score == score_after(old(self).score, TETRIS_BOARD_HEIGHT - kept.len())
                &&& forall|x: int, y: int|
                    #![trigger final(self).board.at(x, y)]
                    final(self).board.in_bounds(x, y) ==> final(self).board.at(x, y) == if y < kept.len() {
                        settled_at(old(self).board, rest, x, kept[y])
                    } else {
                        GameTile::Empty
                    }
            }),
            final(self).command_state == idle_commands(),
            final(self).gravity_timer.repeat_rate == gravity_rate((final(self).score.garbage / 10) as int),
            final(self).timers_off(),
    {
        let rest = self.drop_shadow(&self.tetromino);
        proof {
            lemma_fits_near_board(self.board, rest);
        }
        let cells = rest.coordinates();
        let color = rest.color();
        let ghost b0 = self.board;
        paint(&mut self.board, &cells, GameTile::Static(color));
        proof {
            lemma_hit_covers(cells, rest);
            let ys = seq![cells[0].y as int, cells[1].y as int, cells[2].y as int, cells[3].y as int];
            assert forall|y: int| 0 <= y < TETRIS_BOARD_HEIGHT && row_full(self.board, y) implies ys.contains(y) by {
                if !ys.contains(y) {
                    assert(!row_full(b0, y));
                    let x = choose|x: int| 0 <= x < b0.width && !is_static(#[trigger] b0.at(x, y));
                    assert(!hit(cells@, x, y)) by {
                        if hit(cells@, x, y) {
                            let i = choose|i: int| 0 <= i < cells@.len() && cells@[i].x == x && cells@[i].y == y;
                            assert(ys[i] == y);
                        }
                    }
                    assert(self.board.at(x, y) == b0.at(x, y));
                }
            }
            lemma_full_rows_bounded(self.board, TETRIS_BOARD_HEIGHT as nat, ys);
        }
        let ghost b1 = self.board;
        proof {
            assert forall|x: int, y: int| #![trigger b1.at(x, y)] b0.in_bounds(x, y) implies b1.at(x, y) == settled_at(b0, rest, x, y) by {
                assert(hit(cells@, x, y) == covers(rest, x, y));
            }
            lemma_settled_kept_rows(b1, b0, rest, TETRIS_BOARD_HEIGHT as nat);
        }
        self.new_tetromino();
        self.hold_used = false;
        let garbage = self.wipe_full_rows();
        proof {
            let kept = kept_rows(b1, TETRIS_BOARD_HEIGHT as nat);
            lemma_kept_rows(b1, TETRIS_BOARD_HEIGHT as nat);
            assert forall|y: int| 0 <= y < self.board.height implies !#[trigger] row_full(self.board, y) by {
                if y < kept.len() {
                    assert(kept.contains(kept[y]));
                    assert(!row_full(b1, kept[y]));
                    let x = choose|x: int| 0 <= x < b1.width && !is_static(#[trigger] b1.at(x, kept[y]));
                    assert(self.board.in_bounds(x, y));
                    assert(self.board.at(x, y) == b1.at(x, kept[y]));
                } else {
                    assert(self.board.in_bounds(0, y));
                    assert(!is_static(self.board.at(0, y)));
                }
            }
        }
        let ghost s0 = self.score;
        self.score.wipe(garbage);
        proof {
            assert(score_after(s0, garbage as int) == self.score);
        }
        self.command_state.clear_state();
        self.gravity_adjust();
        self.clear_timers();
    }

    /// Sets the fall interval for the current level.
    fn gravity_adjust(&mut self)
        ensures
            *final(self) == (Tetris {
                gravity_timer: RateLimiter {
                    repeat_rate: gravity_rate((old(self).score.garbage / 10) as int),
                    ..old(self).gravity_timer
                },
                ..*old(self)
            }),
    {
        let level = self.score.level();
        let rate = if level >= 10 {
            0
        } else {
            TETRIS_BASE_GRAVITY - TETRIS_LEVEL_GRAVITY * level
        };
        self.gravity_timer.repeat_rate = rate;
    }

    /// The fall timer that the drop speed selects is due.
    pub closed spec fn fall_due(&self) -> bool {
        if self.command_state.fast_held {
            self.fast_fall_timer.ready()
        } else {
            self.gravity_timer.ready()
        }
    }

    /// The falling piece after this tick's fall: one row lower when the fall
    /// is due and the lower place fits, else where it is.
    pub closed spec fn after_fall(&self) -> Tetromino {
        let down = at_row(self.tetromino, self.tetromino.origin.y - 1);
        if self.fall_due() && fits(self.board, down) {
            down
        } else {
            self.tetromino
        }
    }

    /// After this tick's fall, a lock trigger is ready and the piece rests
    /// where it would land.
    pub closed spec fn lock_due_after_fall(&self) -> bool {
        &&& (self.lock_trigger.ready() || self.lock_input_trigger.ready())
        &&& self.after_fall() == landing(self.board, self.after_fall())
    }

    /// The fall this tick is due but the place one row lower does not fit.
    pub closed spec fn fall_blocked(&self) -> bool {
        self.fall_due() && !fits(self.board, at_row(self.tetromino, self.tetromino.origin.y - 1))
    }

    /// `post` is this game after the gravity step: the selected fall limiter
    /// hands out its event; a due fall moves the piece down one row, or, when
    /// blocked, arms both lock triggers; then, when a lock trigger is ready
    /// and the piece rests where it would land, the piece locks.
    pub closed spec fn gravity_post(&self, post: Tetris) -> bool {
        let fast = self.command_state.fast_held;
        &&& post.hold == self.hold
        &&& !self.lock_due_after_fall() ==> {
            &&& post.tetromino == self.after_fall()
            &&& post.board == self.board
            &&& post.score == self.score
            &&& post.hold_used == self.hold_used
            &&& post.generator == self.generator
            &&& post.command_state == self.command_state
            &&& post.slide_timer == self.slide_timer
            &&& post.rotate_timer == self.rotate_timer
            &&& post.gravity_timer == if fast {
                self.gravity_timer
            } else {
                self.gravity_timer.event_result()
            }
            &&& post.fast_fall_timer == if fast {
                self.fast_fall_timer.event_result()
            } else {
                self.fast_fall_timer
            }
            &&& post.lock_trigger == if self.fall_blocked() {
                self.lock_trigger.armed_result()
            } else {
                self.lock_trigger
            }
            &&& post.lock_input_trigger == if self.fall_blocked() {
                self.lock_input_trigger.armed_result()
            } else {
                self.lock_input_trigger
            }
        }
        &&& self.lock_due_after_fall() ==> {
            let rest = self.after_fall();
            let kept = settled_kept_rows(self.board, rest, TETRIS_BOARD_HEIGHT as nat);
            &&& post.tetromino == spawned(self.generator.upcoming()[0])
            &&& post.generator.history() == self.generator.history().push(
                self.generator.upcoming()[0].shape,
            )
            &&& !post.hold_used
            &&& post.command_state == idle_commands()
            &&& exists|n: int| 0 <= n <= 4 && #[trigger] score_after(self.score, n) == post.score
            &&& post.score == score_after(self.score, TETRIS_BOARD_HEIGHT - kept.len())
            &&& forall|x: int, y: int|
                #![trigger post.board.at(x, y)]
                post.board.in_bounds(x, y) ==> post.board.at(x, y) == settled_cleared_at(
                    self.board,
                    rest,
                    x,
                    y,
                )
            &&& post.timers_off()
            &&& post.gravity_timer.repeat_rate == gravity_rate((post.score.garbage / 10) as int)
        }
    }

    /// `post` is this game after the slide step: the slide limiter hands out
    /// its event (and is reset when no direction is held); on an event with a
    /// direction held the piece moves one column if the moved piece fits. A
    /// move while the lock trigger is armed stops both lock triggers if it
    /// leaves the piece higher above its landing place, and otherwise only
    /// soft-resets the short one.
    pub closed spec fn slide_post(&self, post: Tetris) -> bool {
        let t = self.tetromino;
        let b = self.board;
        let moved = post.tetromino != t;
        &&& post.board == b
        &&& post.score == self.score
        &&& post.hold == self.hold
        &&& post.hold_used == self.hold_used
        &&& post.generator == self.generator
        &&& post.command_state == self.command_state
        &&& post.gravity_timer == self.gravity_timer
        &&& post.fast_fall_timer == self.fast_fall_timer
        &&& post.rotate_timer == self.rotate_timer
        &&& post.slide_timer == if self.command_state.slide_held is None {
            RateLimiter { state: LimiterState::Off, ..self.slide_timer.event_result() }
        } else {
            self.slide_timer.event_result()
        }
        &&& post.tetromino == match (self.slide_timer.ready(), self.command_state.slide_held) {
            (true, Some(d)) => if fits(b, slid(t, d)) {
                slid(t, d)
            } else {
                t
            },
            _ => t,
        }
        &&& (post.lock_trigger, post.lock_input_trigger) == if moved && self.lock_trigger.armed()
            && fits(b, t) {
            if altitude_of(b, t) < altitude_of(b, post.tetromino) {
                (
                    SingleFireTrigger { state: TriggerState::Off, ..self.lock_trigger },
                    SingleFireTrigger { state: TriggerState::Off, ..self.lock_input_trigger },
                )
            } else {
                (self.lock_trigger, self.lock_input_trigger.soft_reset_result())
            }
        } else {
            (self.lock_trigger, self.lock_input_trigger)
        }
    }

    /// `post` is this game after the rotate step: the rotate limiter hands
    /// out its event (and is reset when no direction is held); on an event
    /// with a direction held the piece turns with the first wall kick that
    /// fits, and a successful turn soft-resets the short lock trigger only.
    pub closed spec fn rotate_post(&self, post: Tetris) -> bool {
        let t = self.tetromino;
        &&& post.board == self.board
        &&& post.score == self.score
        &&& post.hold == self.hold
        &&& post.hold_used == self.hold_used
        &&& post.generator == self.generator
        &&& post.command_state == self.command_state
        &&& post.gravity_timer == self.gravity_timer
        &&& post.fast_fall_timer == self.fast_fall_timer
        &&& post.slide_timer == self.slide_timer
        &&& post.lock_trigger == self.lock_trigger
        &&& post.rotate_timer == if self.command_state.rotate_held is None {
            RateLimiter { state: LimiterState::Off, ..self.rotate_timer.event_result() }
        } else {
            self.rotate_timer.event_result()
        }
        &&& post.tetromino == match (self.rotate_timer.ready(), self.command_state.rotate_held) {
            (true, Some(d)) => kick_from(self.board, t, d, 0),
            _ => t,
        }
        &&& post.lock_input_trigger == if post.tetromino == t {
            self.lock_input_trigger
        } else {
            self.lock_input_trigger.soft_reset_result()
        }
    }

    /// `post` is this game with every timer advanced by `dt` microseconds
    /// (limiters in their initial state ignore it) and nothing else changed.
    pub closed spec fn timers_advanced(&self, post: Tetris, dt: u64) -> bool {
        post == Tetris {
            gravity_timer: self.gravity_timer.elapsed_result(dt),
            fast_fall_timer: self.fast_fall_timer.elapsed_result(dt),
            slide_timer: self.slide_timer.elapsed_result(dt),
            rotate_timer: self.rotate_timer.elapsed_result(dt),
            lock_trigger: self.lock_trigger.elapsed_result(dt),
            lock_input_trigger: self.lock_input_trigger.elapsed_result(dt),
            ..*self
        }
    }

    /// This game's timers are those of `other`.
    pub closed spec fn same_timers(&self, other: Tetris) -> bool {
        &&& self.gravity_timer == other.gravity_timer
        &&& self.fast_fall_timer == other.fast_fall_timer
        &&& self.slide_timer == other.slide_timer
        &&& self.rotate_timer == other.rotate_timer
        &&& self.lock_trigger == other.lock_trigger
        &&& self.lock_input_trigger == other.lock_input_trigger
    }

    /// The timers as a new game sets them up, all in their initial state.
    pub closed spec fn timers_initial(&self) -> bool {
        &&& self.timers_off()
        &&& self.slide_timer == RateLimiter::new_spec(50_000, Some(170_000))
        &&& self.rotate_timer == RateLimiter::new_spec(400_000, Some(400_000))
        &&& self.gravity_timer == RateLimiter::new_spec(TETRIS_BASE_GRAVITY, None)
        &&& self.fast_fall_timer == RateLimiter::new_spec(50_000, None)
        &&& self.lock_trigger == SingleFireTrigger::new_spec(2_000_000)
        &&& self.lock_input_trigger == SingleFireTrigger::new_spec(500_000)
    }

    /// Every timer is back in its initial state.
    pub closed spec fn timers_off(&self) -> bool {
        &&& self.gravity_timer.state == LimiterState::Off
        &&& self.fast_fall_timer.state == LimiterState::Off
        &&& self.slide_timer.state == LimiterState::Off
        &&& self.rotate_timer.state == LimiterState::Off
        &&& self.lock_trigger.state == TriggerState::Off
        &&& self.lock_input_trigger.state == TriggerState::Off
    }

    /// Returns every timer to its initial state.
    fn clear_timers(&mut self)
        ensures
            final(self).timers_off(),
            final(self).board == old(self).board,
            final(self).tetromino == old(self).tetromino,
            final(self).hold == old(self).hold,
            final(self).hold_used == old(self).hold_used,
            final(self).generator == old(self).generator,
            final(self).score == old(self).score,
            final(self).command_state == old(self).command_state,
            final(self).gravity_timer.repeat_rate == old(self).gravity_timer.repeat_rate,
    {
        self.gravity_timer.reset();
        self.fast_fall_timer.reset();
        self.slide_timer.reset();
        self.rotate_timer.reset();
        self.lock_trigger.reset();
        self.lock_input_trigger.reset();
    }

    /// Advances every timer by `dt` microseconds.
    fn update_timers(&mut self, dt: u64)
        ensures
            old(self).timers_advanced(*final(self), dt),
    {
        self.gravity_timer.elapsed(dt);
        self.fast_fall_timer.elapsed(dt);
        self.slide_timer.elapsed(dt);
        self.rotate_timer.elapsed(dt);
        self.lock_trigger.elapsed(dt);
        self.lock_input_trigger.elapsed(dt);
    }

    /// Exchanges the falling piece with the held one (or with the next piece
    /// when none is held) and brings the new piece in at the spawn point.
    fn swap(&mut self)
        requires
            old(self).wf(),
        ensures
            final(self).wf(),
            final(self).board == old(self).board,
            final(self).score == old(self).score,
            final(self).hold == Some(old(self).tetromino),
            final(self).hold_used,
            final(self).same_timers(*old(self)),
            final(self).command_state == old(self).command_state,
            final(self).tetromino == spawned(
                match old(self).hold {
                    Some(h) => h,
                    None => old(self).generator.upcoming()[0],
                },
            ),
            old(self).hold is Some ==> final(self).generator == old(self).generator,
            old(self).hold is None ==> final(self).generator.history() == old(
                self,
            ).generator.history().push(old(self).generator.upcoming()[0].shape),
    {
        let mut swp = match self.hold {
            Some(h) => h,
            None => self.generator.pop(),
        };
        self.hold = Some(self.tetromino);
        swp.spawn(Point::new(TETRIS_SPAWN_X, TETRIS_SPAWN_Y));
        self.tetromino = swp;
        self.hold_used = true;
    }

    /// Moves the piece down one row when the active fall timer fires, arming
    /// both lock triggers when it cannot move; then locks it if either lock
    /// trigger is ready and the piece rests where it would land.
    fn gravity(&mut self)
        requires
            old(self).wf(),
            fits(old(self).board, old(self).tetromino),
        ensures
            final(self).wf(),
            old(self).gravity_post(*final(self)),
    {
        let event = match self.command_state.get_drop_speed() {
            DropSpeed::Fast => self.fast_fall_timer.get_event(),
            DropSpeed::Slow => self.gravity_timer.get_event(),
        };
        if event.is_some() {
            let mut test_piece = self.tetromino;
            test_piece.move_down();
            if self.check_piece(&test_piece) {
                proof {
                    lemma_fits_near_board(self.board, test_piece);
                }
                self.tetromino = test_piece;
            } else {
                self.lock_trigger.arm();
                self.lock_input_trigger.arm();
            }
        }
        if self.lock_trigger.is_ready() || self.lock_input_trigger.is_ready() {
            if self.tetromino == self.drop_shadow(&self.tetromino) {
                self.lock();
            }
        }
    }

    /// Moves the piece one column when the slide limiter fires with a
    /// direction held and the moved piece fits. A move while the lock trigger
    /// is armed stops both lock triggers if it leaves the piece higher above
    /// its landing place, and otherwise only restarts the short one. With no
    /// direction held the limiter is reset.
    fn slide(&mut self)
        requires
            old(self).wf(),
        ensures
            final(self).wf(),
            old(self).slide_post(*final(self)),
    {
        let event = self.slide_timer.get_event();
        let maybe_direction = self.command_state.do_slide();
        let mut test_piece = self.tetromino;
        match (event, maybe_direction) {
            (Some(_), Some(d)) => test_piece.slide(d),
            (_, None) => self.slide_timer.reset(),
            (None, _) => {},
        }
        if self.check_piece(&test_piece) {
            proof {
                lemma_fits_near_board(self.board, test_piece);
            }
            if self.tetromino != test_piece {
                if self.lock_trigger.is_armed() && self.check_piece(&self.tetromino) {
                    if self.altitude(&self.tetromino) < self.altitude(&test_piece) {
                        self.lock_trigger.reset();
                        self.lock_input_trigger.reset();
                    } else {
                        self.lock_input_trigger.soft_reset();
                    }
                }
                self.tetromino = test_piece;
            }
        }
    }

    /// Turns the piece in `direction`, trying the wall kicks in table order
    /// and keeping the first placement that fits; the short lock trigger is
    /// restarted on success. When none fits the piece is left as it was.
    fn check_and_update(&mut self, direction: RotationDirection)
        requires
            old(self).wf(),
        ensures
            final(self).wf(),
            *final(self) == (Tetris {
                tetromino: kick_from(old(self).board, old(self).tetromino, direction, 0),
                lock_input_trigger: if kick_from(old(self).board, old(self).tetromino, direction, 0)
                    == old(self).tetromino {
                    old(self).lock_input_trigger
                } else {
                    old(self).lock_input_trigger.soft_reset_result()
                },
                ..*old(self)
            }),
    {
        let mut new_piece = self.tetromino;
        new_piece.rotate(&direction);
        let translations = new_piece.wall_kick_options(&direction);
        let ghost t0 = self.tetromino;
        let mut j: usize = 0;
        while j < translations.len()
            invariant
                self.wf(),
                j <= translations@.len(),
                t0 == old(self).tetromino,
                self.board == old(self).board,
                self.score == old(self).score,
                self.hold == old(self).hold,
                self.hold_used == old(self).hold_used,
                self.generator == old(self).generator,
                self.tetromino == t0,
                *self == *old(self),
                self.lock_trigger == old(self).lock_trigger,
                self.lock_input_trigger == old(self).lock_input_trigger,
                new_piece == (Tetromino { orientation: turned(t0.orientation, direction), ..t0 }),
                translations@ == kick_table(new_piece.shape, new_piece.orientation, direction),
                translations@.len() == kick_count(t0, direction),
                forall|i: int| 0 <= i < j ==> !#[trigger] fits(self.board, kicked(t0, direction, i)),
            decreases translations@.len() - j,
        {
            let offset = translations[j];
            proof {
                crate::tetromino::lemma_kicks_small(new_piece.shape, new_piece.orientation, direction);
            }
            let mut test_piece = new_piece;
            test_piece.translate(&offset);
            assert(test_piece == kicked(t0, direction, j as int));
            if self.check_piece(&test_piece) {
                proof {
                    lemma_fits_near_board(self.board, test_piece);
                    lemma_first_fitting_kick(self.board, t0, direction, j as int);
                }
                self.tetromino = test_piece;
                self.lock_input_trigger.soft_reset();
                return;
            }
            j = j + 1;
        }
        proof {
            lemma_first_fitting_kick(self.board, t0, direction, j as int);
        }
    }

    /// Turns the piece when the rotate limiter fires with a direction held;
    /// with no direction held the limiter is reset.
    fn rotate(&mut self)
        requires
            old(self).wf(),
        ensures
            final(self).wf(),
            old(self).rotate_post(*final(self)),
    {
        let event = self.rotate_timer.get_event();
        let maybe_direction = self.command_state.do_rotate();
        match (event, maybe_direction) {
            (Some(_), Some(d)) => self.check_and_update(d),
            (_, None) => self.rotate_timer.reset(),
            (None, _) => {},
        }
    }

    /// Advances the game by `dt` microseconds: timers first, then a lock if
    /// one is asked for, else a swap if one is asked for and allowed, else
    /// gravity, sliding and turning in that order. Once the falling piece
    /// overlaps the stack the game has topped out and only the timers move.
    pub fn on_update(&mut self, dt: u64)
        requires
            old(self).wf(),
        ensures
            final(self).wf(),
            score_grew(old(self).spec_score(), final(self).spec_score()),
            !fits(old(self).spec_board(), old(self).spec_piece()) ==> {
                &&& final(self).spec_board() == old(self).spec_board()
                &&& final(self).spec_piece() == old(self).spec_piece()
                &&& final(self).spec_hold() == old(self).spec_hold()
                &&& final(self).spec_score() == old(self).spec_score()
                &&& old(self).timers_advanced(*final(self), dt)
            },
            fits(old(self).spec_board(), old(self).spec_piece()) && old(self).spec_commands().lock_held
                ==> {
                &&& final(self).spec_piece() == spawned(old(self).spec_upcoming()[0])
                &&& final(self).spec_hold() == old(self).spec_hold()
                &&& !final(self).spec_hold_used()
                &&& final(self).spec_commands() == idle_commands()
                &&& final(self).timers_off()
                &&& exists|n: int|
                    0 <= n <= 4 && #[trigger] score_after(old(self).spec_score(), n)
                        == final(self).spec_score()
                &&& final(self).spec_score() == score_after(
                    old(self).spec_score(),
                    TETRIS_BOARD_HEIGHT - settled_kept_rows(
                        old(self).spec_board(),
                        landing(old(self).spec_board(), old(self).spec_piece()),
                        TETRIS_BOARD_HEIGHT as nat,
                    ).len(),
                )
                &&& forall|x: int, y: int|
                    #![trigger final(self).spec_board().at(x, y)]
                    final(self).spec_board().in_bounds(x, y) ==> final(self).spec_board().at(x, y)
                        == settled_cleared_at(old(self).spec_board(), old(self).spec_piece(), x, y)
            },
            fits(old(self).spec_board(), old(self).spec_piece()) && !old(self).spec_commands().lock_held
                && old(self).spec_commands().swap_held && !old(self).spec_hold_used() ==> {
                &&& final(self).spec_hold() == Some(old(self).spec_piece())
                &&& final(self).spec_hold_used()
                &&& final(self).spec_piece() == spawned(
                    match old(self).spec_hold() {
                        Some(h) => h,
                        None => old(self).spec_upcoming()[0],
                    },
                )
                &&& final(self).spec_board() == old(self).spec_board()
                &&& final(self).spec_score() == old(self).spec_score()
                &&& exists|t: Tetris| #[trigger] old(self).timers_advanced(t, dt) && final(self).same_timers(t)
            },
            fits(old(self).spec_board(), old(self).spec_piece()) && !old(self).spec_commands().lock_held
                && !(old(self).spec_commands().swap_held && !old(self).spec_hold_used())
                ==> {
                &&& final(self).spec_hold() == old(self).spec_hold()
                &&& exists|t: Tetris, g: Tetris, sl: Tetris|
                    #![trigger old(self).timers_advanced(t, dt), t.gravity_post(g), g.slide_post(sl)]
                    old(self).timers_advanced(t, dt) && t.gravity_post(g) && g.slide_post(sl)
                        && sl.rotate_post(*final(self))
                &&& ({
                    &&& final(self).spec_board() == old(self).spec_board()
                    &&& final(self).spec_score() == old(self).spec_score()
                    &&& final(self).spec_hold_used() == old(self).spec_hold_used()
                    &&& fits(final(self).spec_board(), final(self).spec_piece())
                }) || ({
                    &&& !final(self).spec_hold_used()
                    &&& final(self).spec_commands() == idle_commands()
                    &&& exists|n: int|
                        0 <= n <= 4 && #[trigger] score_after(old(self).spec_score(), n)
                            == final(self).spec_score()
                })
            },
    {
        self.update_timers(dt);
        proof {
            assert(self.board == old(self).board);
            assert(self.tetromino == old(self).tetromino);
            assert(self.generator == old(self).generator);
            assert(self.score == old(self).score);
            assert(self.hold == old(self).hold);
            assert(self.hold_used == old(self).hold_used);
            assert(self.command_state == old(self).command_state);
        }
        if !self.check_piece(&self.tetromino) {
            return;
        }
        if self.command_state.lock() {
            let ghost s0 = self.score;
            self.lock();
            proof {
                let n = choose|n: int| 0 <= n <= 4 && #[trigger] score_after(s0, n) == self.score;
                lemma_score_after_grows(s0, n);
            }
        } else if self.command_state.swap() && !self.hold_used {
            let ghost t = *self;
            self.swap();
            proof {
                assert(old(self).timers_advanced(t, dt) && self.same_timers(t));
            }
        } else {
            let ghost t = *self;
            self.gravity();
            let ghost g = *self;
            self.slide();
            let ghost sl = *self;
            self.rotate();
            proof {
                assert(old(self).timers_advanced(t, dt) && t.gravity_post(g) && g.slide_post(sl)
                    && sl.rotate_post(*self));
                if !t.lock_due_after_fall() {
                    lemma_kick_from_fits(sl.board, sl.tetromino);
                } else {
                    let n = choose|n: int| 0 <= n <= 4 && #[trigger] score_after(t.score, n) == g.score;
                    assert(score_after(old(self).score, n) == self.score);
                }
            }
        }
    }

    /// The commands in force, to be changed as keys go down and up.
    pub fn get_command_state(&mut self) -> (r: &mut CommandState)
        ensures
            *r == old(self).spec_commands(),
            final(self).spec_commands() == *final(r),
            final(self).spec_board() == old(self).spec_board(),
            final(self).spec_piece() == old(self).spec_piece(),
            final(self).spec_hold() == old(self).spec_hold(),
            final(self).spec_hold_used() == old(self).spec_hold_used(),
            final(self).spec_upcoming() == old(self).spec_upcoming(),
            final(self).spec_score() == old(self).spec_score(),
            final(self).wf() == old(self).wf(),
    {
        &mut self.command_state
    }

    /// The next three pieces, next first, as they will come: facing North at (0, 0).
    pub fn get_preview(&self) -> (r: [Tetromino; 3])
        requires
            self.wf(),
        ensures
            r@ == self.spec_upcoming().subrange(0, 3),
            forall|i: int|
                0 <= i < 3 ==> (#[trigger] r[i]).orientation == crate::transform::Orientation::North
                    && r[i].origin == pt(0, 0),
    {
        proof {
            self.generator.lemma_lookahead();
        }
        let r = [self.generator.peek(0), self.generator.peek(1), self.generator.peek(2)];
        assert(r@ =~= self.spec_upcoming().subrange(0, 3));
        r
    }

    /// The held piece, if any.
    pub fn get_hold(&self) -> (r: Option<Tetromino>)
        ensures
            r == self.spec_hold(),
    {
        self.hold
    }

    /// The visible rows of the board with the landing place of the falling
    /// piece marked as `Shadow` and the piece itself as `Active`.
    pub fn get_board(&self) -> (r: TileBoard<GameTile>)
        requires
            self.wf(),
        ensures
            r.wf(),
            r.width == TETRIS_BOARD_WIDTH,
            r.height == TETRIS_BOARD_VISIBLE_HEIGHT,
            forall|x: int, y: int|
                #![trigger r.at(x, y)]
                r.in_bounds(x, y) ==> r.at(x, y) == shown(self.spec_board(), self.spec_piece(), x, y),
    {
        let mut disp = TileBoard { squares: self.board.squares.clone(), width: self.board.width, height: self.board.height };
        assert(disp@ =~= self.board@);
        let ghost b0 = disp;
        if self.check_piece(&self.tetromino) {
            let rest = self.drop_shadow(&self.tetromino);
            proof {
                lemma_fits_near_board(self.board, rest);
            }
            let cells = rest.coordinates();
            proof {
                lemma_hit_covers(cells, rest);
            }
            paint(&mut disp, &cells, GameTile::Shadow(rest.color()));
        }
        let ghost b1 = disp;
        let cells = self.tetromino.coordinates();
        proof {
            lemma_hit_covers(cells, self.tetromino);
        }
        paint(&mut disp, &cells, GameTile::Active(self.tetromino.color()));
        let ghost b2 = disp;
        disp.squares.truncate(TETRIS_BOARD_WIDTH * TETRIS_BOARD_VISIBLE_HEIGHT);
        disp.height = TETRIS_BOARD_VISIBLE_HEIGHT;
        proof {
            assert forall|x: int, y: int| #[trigger] disp.in_bounds(x, y) implies disp.at(x, y) == shown(self.board, self.tetromino, x, y) by {
                crate::tile::lemma_index_in_grid(x, y, 10, 20);
                assert(disp.at(x, y) == b2.at(x, y));
                assert(b2.in_bounds(x, y));
            }
        }
        disp
    }

    /// How many rows `piece` can still fall.
    fn altitude(&self, piece: &Tetromino) -> (r: i32)
        requires
            self.wf(),
            fits(self.board, *piece),
        ensures
            r == altitude_of(self.board, *piece),
            r >= 0,
    {
        proof {
            lemma_fits_near_board(self.board, *piece);
        }
        let rest = self.drop_shadow(piece);
        proof {
            lemma_fits_near_board(self.board, rest);
        }
        piece.origin.y - rest.origin.y
    }
}

} // verus!
