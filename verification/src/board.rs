//! The board session: the static grid, the active piece, score, level and
//! the forced-descent timer, together with every rule of the game — movement
//! legality, locking, line elimination, scoring, spawning and loss
//! detection.
//!
//! Every transition is specified against [`GameModel`], a mathematical view
//! of the session, and each command of [`GameState`] is proved equal to its
//! model transition. The model is fully deterministic: the randomness
//! capability is a seedable generator whose state is part of the session, so
//! a seed fixes the whole piece sequence.

use vstd::prelude::*;

use crate::piece::Direction;
use crate::piece::GAME_HEIGHT;
use crate::piece::GAME_WIDTH;
use crate::piece::Piece;
use crate::piece::spec_piece_moved;
use crate::piece::spec_piece_occupies;
use crate::piece::spec_piece_rotated_right;
use crate::piece::spec_spawned;
use crate::piece::spec_within_limits;
use crate::shapes::FieldCell;
use crate::shapes::PieceShape;

verus! {

/// Number of cells of the grid, stored row-major.
pub const GRID_CELLS: usize = 220;

/// Mathematical view of a game session.
#[verifier::ext_equal]
pub struct GameModel {
    /// The static grid as 22 rows of 10 cells; locked pieces only, never
    /// the falling piece.
    pub grid: Seq<Seq<FieldCell>>,
    /// The active falling piece.
    pub piece: Piece,
    /// Accumulated score.
    pub score: int,
    /// Current level, always `1 + score / 700`.
    pub level: int,
    /// Milliseconds remaining until the next forced descent.
    pub delay: int,
    /// The terminal flag: set on spawn collision, never cleared.
    pub lost: bool,
    /// State of the seedable randomness capability; the value drawn at the
    /// next spawn.
    pub rng: u64,
}

/// The row-major cell vector read as 22 rows of 10 cells.
pub open spec fn grid_of(cells: Seq<FieldCell>) -> Seq<Seq<FieldCell>> {
    Seq::new(22, |y: int| Seq::new(10, |x: int| cells[y * 10 + x]))
}

/// A grid has exactly 22 rows of 10 cells.
pub open spec fn spec_grid_wf(g: Seq<Seq<FieldCell>>) -> bool {
    &&& g.len() == 22
    &&& forall|y: int| 0 <= y < 22 ==> (#[trigger] g[y]).len() == 10
}

/// The single authoritative legality predicate: the bounding-box origin is
/// within limits and every occupied cell of the box lands on an in-bounds,
/// empty grid cell. Every mutating operation of the board decides with this
/// test; there is no wall-kick or alternate-offset search.
pub open spec fn spec_piece_fits(p: Piece, g: Seq<Seq<FieldCell>>) -> bool {
    &&& spec_within_limits(p)
    &&& forall|dy: int, dx: int|
        0 <= dy < 4 && 0 <= dx < 4 && #[trigger] spec_piece_occupies(p, dy, dx) ==> {
            &&& p.position.y + dy < 22
            &&& p.position.x + dx < 10
            &&& g[p.position.y + dy][p.position.x + dx] == FieldCell::Empty
        }
}

/// The cell the rendering collaborator sees at `(y, x)`: the falling piece
/// drawn over the static grid, without the piece ever being written into
/// the grid before it locks.
pub open spec fn spec_cell_at(m: GameModel, y: int, x: int) -> FieldCell {
    let ry = y - m.piece.position.y;
    let rx = x - m.piece.position.x;
    if 0 <= ry < 4 && 0 <= rx < 4 && spec_piece_occupies(m.piece, ry, rx) {
        FieldCell::Occupied(m.piece.shape)
    } else {
        m.grid[y][x]
    }
}

/// One step of the seedable randomness capability (an xorshift generator):
/// a pure function of the previous state, so piece sequences are
/// reproducible from a seed.
pub open spec fn spec_rng_next(s: u64) -> u64 {
    let a = s ^ (s << 13u64);
    let b = a ^ (a >> 7u64);
    b ^ (b << 17u64)
}

/// The shape selected by a drawn value reduced modulo seven.
pub open spec fn spec_shape_from_index(i: int) -> PieceShape {
    if i == 0 {
        PieceShape::I
    } else if i == 1 {
        PieceShape::O
    } else if i == 2 {
        PieceShape::L
    } else if i == 3 {
        PieceShape::J
    } else if i == 4 {
        PieceShape::T
    } else if i == 5 {
        PieceShape::S
    } else {
        PieceShape::Z
    }
}

/// The piece spawned by the current randomness state.
pub open spec fn spec_drawn_piece(rng: u64) -> Piece {
    spec_spawned(spec_shape_from_index((rng % 7) as int))
}

/// Whether every column of row `y` is occupied, making the row qualify for
/// elimination.
pub open spec fn spec_row_full(g: Seq<Seq<FieldCell>>, y: int) -> bool {
    forall|x: int| 0 <= x < 10 ==> #[trigger] g[y][x] != FieldCell::Empty
}

/// The grid after the elimination shift for a qualifying row `y`: every row
/// from index 3 down to `y` is overwritten with the row above it. Rows with
/// index below 3 — the reserved spawn buffer — are never rewritten, so for
/// `y < 3` the shift is empty.
pub open spec fn spec_shift_down(g: Seq<Seq<FieldCell>>, y: int) -> Seq<Seq<FieldCell>> {
    Seq::new(22, |h: int| if 3 <= h <= y { g[h - 1] } else { g[h] })
}

/// The top-to-bottom elimination scan from row `y`: each qualifying row is
/// counted and shifted away, and the scan continues on the shifted grid.
/// Returns the final grid and the count of eliminated rows.
pub open spec fn spec_eliminate_from(g: Seq<Seq<FieldCell>>, y: int) -> (Seq<Seq<FieldCell>>, int)
    decreases 22 - y,
{
    if y < 0 || y >= 22 {
        (g, 0)
    } else if spec_row_full(g, y) {
        let r = spec_eliminate_from(spec_shift_down(g, y), y + 1);
        (r.0, r.1 + 1)
    } else {
        spec_eliminate_from(g, y + 1)
    }
}

/// The fixed bonus granted for eliminating `k` rows in one lock. Zero rows
/// still grant one point — specified behavior of the engine, not a bug.
/// One lock can complete at most the four rows its piece touches, so values
/// past four are out of reach in play; the table is total regardless.
pub open spec fn spec_line_bonus(k: int) -> int {
    if k <= 0 {
        1
    } else if k == 1 {
        40
    } else if k == 2 {
        100
    } else if k == 3 {
        300
    } else {
        1200
    }
}

/// The score after adding a bonus, saturating at the top of the score's
/// range so the engine is total.
pub open spec fn spec_score_after(score: int, k: int) -> int {
    if score + spec_line_bonus(k) <= i64::MAX {
        score + spec_line_bonus(k)
    } else {
        i64::MAX as int
    }
}

/// The delay, in milliseconds, loaded into the forced-descent timer at the
/// given level: `round(800 * 0.9^level)`, pre-tabulated exactly. It reaches
/// zero from level 71 on.
pub open spec fn spec_delay_for_level(level: int) -> int {
    if level <= 1 {
        720
    } else if level == 2 {
        648
    } else if level == 3 {
        583
    } else if level == 4 {
        525
    } else if level == 5 {
        472
    } else if level == 6 {
        425
    } else if level == 7 {
        383
    } else if level == 8 {
        344
    } else if level == 9 {
        310
    } else if level == 10 {
        279
    } else if level == 11 {
        251
    } else if level == 12 {
        226
    } else if level == 13 {
        203
    } else if level == 14 {
        183
    } else if level == 15 {
        165
    } else if level == 16 {
        148
    } else if level == 17 {
        133
    } else if level == 18 {
        120
    } else if level == 19 {
        108
    } else if level == 20 {
        97
    } else if level == 21 {
        88
    } else if level == 22 {
        79
    } else if level == 23 {
        71
    } else if level == 24 {
        64
    } else if level == 25 {
        57
    } else if level == 26 {
        52
    } else if level == 27 {
        47
    } else if level == 28 {
        42
    } else if level == 29 {
        38
    } else if level == 30 {
        34
    } else if level == 31 {
        31
    } else if level == 32 {
        27
    } else if level == 33 {
        25
    } else if level == 34 {
        22
    } else if level == 35 {
        20
    } else if level == 36 {
        18
    } else if level == 37 {
        16
    } else if level == 38 {
        15
    } else if level == 39 {
        13
    } else if level == 40 {
        12
    } else if level == 41 {
        11
    } else if level == 42 {
        10
    } else if level == 43 {
        9
    } else if level == 44 {
        8
    } else if level == 45 {
        7
    } else if level <= 47 {
        6
    } else if level <= 49 {
        5
    } else if level <= 51 {
        4
    } else if level <= 54 {
        3
    } else if level <= 59 {
        2
    } else if level <= 70 {
        1
    } else {
        0
    }
}

/// The grid with the piece stamped in: every occupied cell of the piece's
/// box becomes `Occupied(shape)`, every other cell is kept.
pub open spec fn spec_stamp(g: Seq<Seq<FieldCell>>, p: Piece) -> Seq<Seq<FieldCell>> {
    Seq::new(
        22,
        |y: int|
            Seq::new(
                10,
                |x: int|
                    if spec_piece_occupies(p, y - p.position.y, x - p.position.x) {
                        FieldCell::Occupied(p.shape)
                    } else {
                        g[y][x]
                    },
            ),
    )
}

/// The grid after the first `n` cells (in row-major order of the 4x4 box)
/// of the piece have been stamped; the remaining cells are still pending.
pub open spec fn spec_stamp_upto(g: Seq<Seq<FieldCell>>, p: Piece, n: int) -> Seq<Seq<FieldCell>> {
    Seq::new(
        22,
        |y: int|
            Seq::new(
                10,
                |x: int|
                    if 4 * (y - p.position.y) + (x - p.position.x) < n && spec_piece_occupies(
                        p,
                        y - p.position.y,
                        x - p.position.x,
                    ) {
                        FieldCell::Occupied(p.shape)
                    } else {
                        g[y][x]
                    },
            ),
    )
}

/// The lock transition: stamp the piece into the grid, run line
/// elimination, add the bonus to the score, recompute the level, and draw a
/// new piece at the spawn point. If the spawned piece does not fit, the
/// terminal flag is set and the overlapping piece and grid are left as-is.
pub open spec fn spec_lock(m: GameModel) -> GameModel {
    let stamped = spec_stamp(m.grid, m.piece);
    let r = spec_eliminate_from(stamped, 0);
    let score2 = spec_score_after(m.score, r.1);
    let piece2 = spec_drawn_piece(m.rng);
    GameModel {
        grid: r.0,
        piece: piece2,
        score: score2,
        level: 1 + score2 / 700,
        delay: m.delay,
        lost: !spec_piece_fits(piece2, r.0),
        rng: spec_rng_next(m.rng),
    }
}

/// A sideways shift or no-op: the candidate one cell to the side replaces
/// the piece exactly when it fits; otherwise the whole session is
/// unchanged. After a loss every command is a no-op.
pub open spec fn spec_try_shift(m: GameModel, d: Direction) -> GameModel {
    if m.lost {
        m
    } else {
        let cand = spec_piece_moved(m.piece, d);
        if spec_piece_fits(cand, m.grid) {
            GameModel { piece: cand, ..m }
        } else {
            m
        }
    }
}

/// The one-step clockwise rotation or no-op: no fallback offsets are tried.
/// After a loss it is a no-op.
pub open spec fn spec_try_rotate(m: GameModel) -> GameModel {
    if m.lost {
        m
    } else {
        let cand = spec_piece_rotated_right(m.piece);
        if spec_piece_fits(cand, m.grid) {
            GameModel { piece: cand, ..m }
        } else {
            m
        }
    }
}

/// The soft drop: a single-row descent, except that a blocked descent is
/// not a no-op — it locks the piece in place. After a loss it is a no-op.
pub open spec fn spec_soft_drop(m: GameModel) -> GameModel {
    if m.lost {
        m
    } else {
        let cand = spec_piece_moved(m.piece, Direction::Down);
        if spec_piece_fits(cand, m.grid) {
            GameModel { piece: cand, ..m }
        } else {
            spec_lock(m)
        }
    }
}

/// Descent to the resting row: the piece falls one row at a time until
/// blocked, then locks once.
pub open spec fn spec_descend(m: GameModel) -> GameModel
    decreases 22 - m.piece.position.y,
        when m.piece.position.y < 22
{
    let cand = spec_piece_moved(m.piece, Direction::Down);
    if spec_piece_fits(cand, m.grid) {
        spec_descend(GameModel { piece: cand, ..m })
    } else {
        spec_lock(m)
    }
}

/// The hard drop: immediate descent to the final resting row, then one
/// lock, with no observable intermediate state. After a loss it is a no-op.
pub open spec fn spec_hard_drop(m: GameModel) -> GameModel {
    if m.lost {
        m
    } else {
        spec_descend(m)
    }
}

/// The delay counter after a tick, saturating at the bottom of its range
/// so the engine is total.
pub open spec fn spec_delay_minus(delay: int, quantum: int) -> int {
    if delay - quantum >= i64::MIN {
        delay - quantum
    } else {
        i64::MIN as int
    }
}

/// The clock tick: the delay counter drops by the quantum; exactly when it
/// lands on zero, the timer is reloaded from the level formula and a soft
/// drop is forced. The check is exact-zero, not "at most zero": a quantum
/// that does not evenly divide the delay skips the forced descent until a
/// later decrement happens to land on zero. This is preserved, documented
/// behavior of the engine. After a loss the tick is a no-op.
pub open spec fn spec_tick(m: GameModel, quantum: int) -> GameModel {
    if m.lost {
        m
    } else {
        let m1 = GameModel { delay: spec_delay_minus(m.delay, quantum), ..m };
        if m1.delay == 0 {
            spec_soft_drop(GameModel { delay: spec_delay_for_level(m1.level), ..m1 })
        } else {
            m1
        }
    }
}

/// The 22 x 10 grid with every cell empty.
pub open spec fn spec_empty_grid() -> Seq<Seq<FieldCell>> {
    Seq::new(22, |y: int| Seq::new(10, |x: int| FieldCell::Empty))
}

/// A fresh session from a seed: empty grid, score 0, level 1, a first piece
/// drawn from the seed, timer loaded from the level formula, not lost.
pub open spec fn spec_new_game(seed: u64) -> GameModel {
    GameModel {
        grid: spec_empty_grid(),
        piece: spec_drawn_piece(seed),
        score: 0,
        level: 1,
        delay: spec_delay_for_level(1),
        lost: false,
        rng: spec_rng_next(seed),
    }
}

/// Well-formedness of a session model: the grid has its fixed dimensions,
/// the piece's box origin is within limits, the placement of the piece is
/// legal whenever the session is not lost, the score is a non-negative
/// value in range, and the level obeys the level formula.
pub open spec fn spec_model_wf(m: GameModel) -> bool {
    &&& spec_grid_wf(m.grid)
    &&& spec_within_limits(m.piece)
    &&& !m.lost ==> spec_piece_fits(m.piece, m.grid)
    &&& 0 <= m.score <= i64::MAX
    &&& m.level == 1 + m.score / 700
}

/// The game session: the sole owner and mutator of the grid and the active
/// piece. Constructed once per session; a new session is a new value.
pub struct GameState {
    /// The static grid, row-major: cell `(y, x)` at index `y * 10 + x`.
    pub field: Vec<FieldCell>,
    /// The active falling piece.
    pub current_piece: Piece,
    /// Accumulated score.
    pub score: i64,
    /// Current level, recomputed after every scoring event.
    pub level: i64,
    /// Milliseconds remaining until the next forced descent.
    pub delay: i64,
    /// The terminal flag.
    pub lost: bool,
    /// State of the seedable randomness capability.
    pub rng: u64,
}

impl View for GameState {
    type V = GameModel;

    open spec fn view(&self) -> GameModel {
        GameModel {
            grid: grid_of(self.field@),
            piece: self.current_piece,
            score: self.score as int,
            level: self.level as int,
            delay: self.delay as int,
            lost: self.lost,
            rng: self.rng,
        }
    }
}

impl GameState {
    /// Well-formedness of the session: the cell vector has its fixed size
    /// and the model view is well-formed. Established by the constructors
    /// and preserved by every command.
    pub open spec fn wf(&self) -> bool {
        &&& self.field@.len() == GRID_CELLS
        &&& spec_model_wf(self@)
    }
}

/// One executable step of the seedable randomness capability.
pub fn rng_next(s: u64) -> (r: u64)
    ensures
        r == spec_rng_next(s),
{
    let a: u64 = s ^ (s << 13u64);
    let b: u64 = a ^ (a >> 7u64);
    b ^ (b << 17u64)
}

/// The shape selected by a drawn value already reduced modulo seven.
pub fn shape_from_index(i: u64) -> (s: PieceShape)
    requires
        i < 7,
    ensures
        s == spec_shape_from_index(i as int),
{
    if i == 0 {
        PieceShape::I
    } else if i == 1 {
        PieceShape::O
    } else if i == 2 {
        PieceShape::L
    } else if i == 3 {
        PieceShape::J
    } else if i == 4 {
        PieceShape::T
    } else if i == 5 {
        PieceShape::S
    } else {
        PieceShape::Z
    }
}

/// The executable bonus table for `k` eliminated rows.
fn line_bonus(k: usize) -> (b: i64)
    ensures
        b == spec_line_bonus(k as int),
        1 <= b <= 1200,
{
    if k == 0 {
        1
    } else if k == 1 {
        40
    } else if k == 2 {
        100
    } else if k == 3 {
        300
    } else {
        1200
    }
}

/// The executable timer table for the given level.
fn delay_for_level(level: i64) -> (d: i64)
    ensures
        d == spec_delay_for_level(level as int),
{
    if level <= 1 {
        720
    } else if level == 2 {
        648
    } else if level == 3 {
        583
    } else if level == 4 {
        525
    } else if level == 5 {
        472
    } else if level == 6 {
        425
    } else if level == 7 {
        383
    } else if level == 8 {
        344
    } else if level == 9 {
        310
    } else if level == 10 {
        279
    } else if level == 11 {
        251
    } else if level == 12 {
        226
    } else if level == 13 {
        203
    } else if level == 14 {
        183
    } else if level == 15 {
        165
    } else if level == 16 {
        148
    } else if level == 17 {
        133
    } else if level == 18 {
        120
    } else if level == 19 {
        108
    } else if level == 20 {
        97
    } else if level == 21 {
        88
    } else if level == 22 {
        79
    } else if level == 23 {
        71
    } else if level == 24 {
        64
    } else if level == 25 {
        57
    } else if level == 26 {
        52
    } else if level == 27 {
        47
    } else if level == 28 {
        42
    } else if level == 29 {
        38
    } else if level == 30 {
        34
    } else if level == 31 {
        31
    } else if level == 32 {
        27
    } else if level == 33 {
        25
    } else if level == 34 {
        22
    } else if level == 35 {
        20
    } else if level == 36 {
        18
    } else if level == 37 {
        16
    } else if level == 38 {
        15
    } else if level == 39 {
        13
    } else if level == 40 {
        12
    } else if level == 41 {
        11
    } else if level == 42 {
        10
    } else if level == 43 {
        9
    } else if level == 44 {
        8
    } else if level == 45 {
        7
    } else if level <= 47 {
        6
    } else if level <= 49 {
        5
    } else if level <= 51 {
        4
    } else if level <= 54 {
        3
    } else if level <= 59 {
        2
    } else if level <= 70 {
        1
    } else {
        0
    }
}

/// Relies on rand::random: draws an arbitrary value from the thread-local
/// generator to seed a session; nothing is promised of the value.
#[verifier::external_body]
fn random_seed() -> u64 {
    rand::random::<u64>()
}

/// Overwrite row `dst` of the grid with the cells of row `src`.
fn copy_row(field: &mut Vec<FieldCell>, dst: usize, src: usize)
    requires
        old(field)@.len() == GRID_CELLS,
        dst < 22,
        src < 22,
    ensures
        final(field)@.len() == GRID_CELLS,
        forall|i: int|
            0 <= i < 220 ==> final(field)@[i] == (if dst * 10 <= i < dst * 10 + 10 {
                old(field)@[src * 10 + (i - dst * 10)]
            } else {
                old(field)@[i]
            }),
{
    let ghost f0 = field@;
    for x in 0..GAME_WIDTH
        invariant
            field@.len() == GRID_CELLS,
            dst < 22,
            src < 22,
            forall|i: int|
                0 <= i < 220 ==> field@[i] == (if dst * 10 <= i < dst * 10 + x {
                    f0[src * 10 + (i - dst * 10)]
                } else {
                    f0[i]
                }),
    {
        let c = field[src * GAME_WIDTH + x];
        field.set(dst * GAME_WIDTH + x, c);
        proof {
            assert(f0[src * 10 + x] == c);
        }
    }
}

/// Whether every column of row `y` is occupied.
fn row_full_at(field: &Vec<FieldCell>, y: usize) -> (b: bool)
    requires
        field@.len() == GRID_CELLS,
        y < 22,
    ensures
        b == spec_row_full(grid_of(field@), y as int),
{
    for x in 0..GAME_WIDTH
        invariant
            field@.len() == GRID_CELLS,
            y < 22,
            forall|xx: int|
                0 <= xx < x ==> #[trigger] grid_of(field@)[y as int][xx] != FieldCell::Empty,
    {
        match field[y * GAME_WIDTH + x] {
            FieldCell::Empty => {
                proof {
                    assert(grid_of(field@)[y as int][x as int] == FieldCell::Empty);
                }
                return false;
            },
            FieldCell::Occupied(_) => {
                proof {
                    assert(grid_of(field@)[y as int][x as int] != FieldCell::Empty);
                }
            },
        }
    }
    true
}

/// Perform the elimination shift for a qualifying row `y`: rows 3 through
/// `y`, in descending order, each take the contents of the row above. For
/// `y` below 3 nothing moves.
fn shift_rows_down(field: &mut Vec<FieldCell>, y: usize)
    requires
        old(field)@.len() == GRID_CELLS,
        y < 22,
    ensures
        final(field)@.len() == GRID_CELLS,
        grid_of(final(field)@) == spec_shift_down(grid_of(old(field)@), y as int),
{
    let ghost g0 = grid_of(field@);
    if y < 3 {
        proof {
            assert(grid_of(field@) =~~= spec_shift_down(g0, y as int));
        }
        return ;
    }
    let mut h: usize = y;
    while h >= 3
        invariant
            field@.len() == GRID_CELLS,
            2 <= h <= y,
            y < 22,
            forall|r: int, c: int|
                0 <= r < 22 && 0 <= c < 10 ==> #[trigger] grid_of(field@)[r][c] == (if h < r <= y {
                    g0[r - 1][c]
                } else {
                    g0[r][c]
                }),
        decreases h,
    {
        let ghost gprev = grid_of(field@);
        copy_row(field, h, h - 1);
        proof {
            assert forall|r: int, c: int| 0 <= r < 22 && 0 <= c < 10 implies #[trigger] grid_of(
                field@,
            )[r][c] == (if h - 1 < r <= y {
                g0[r - 1][c]
            } else {
                g0[r][c]
            }) by {
                assert(grid_of(field@)[r][c] == field@[r * 10 + c]);
                if r == h {
                    assert(h * 10 <= r * 10 + c < h * 10 + 10);
                    assert(field@[r * 10 + c] == gprev[h - 1][(r * 10 + c) - h * 10]);
                } else {
                    assert(!(h * 10 <= r * 10 + c < h * 10 + 10));
                    assert(field@[r * 10 + c] == gprev[r][c]);
                }
            }
        }
        h = h - 1;
    }
    proof {
        assert(grid_of(field@) =~~= spec_shift_down(g0, y as int));
    }
}

/// Stamp every occupied cell of the piece into the grid as
/// `Occupied(shape)`.
fn stamp_piece(field: &mut Vec<FieldCell>, p: Piece)
    requires
        old(field)@.len() == GRID_CELLS,
        spec_piece_fits(p, grid_of(old(field)@)),
    ensures
        final(field)@.len() == GRID_CELLS,
        grid_of(final(field)@) == spec_stamp(grid_of(old(field)@), p),
{
    let ghost g0 = grid_of(field@);
    let px = p.position.x as usize;
    let py = p.position.y as usize;
    proof {
        assert(grid_of(field@) =~~= spec_stamp_upto(g0, p, 0));
    }
    for idx in 0..16
        invariant
            field@.len() == GRID_CELLS,
            px == p.position.x as int,
            py == p.position.y as int,
            spec_piece_fits(p, g0),
            grid_of(field@) == spec_stamp_upto(g0, p, idx as int),
    {
        let dy = idx / 4;
        let dx = idx % 4;
        let ghost gprev = grid_of(field@);
        let occ = p.get(dy, dx);
        if occ {
            proof {
                assert(spec_piece_occupies(p, dy as int, dx as int));
                assert(py + dy < 22 && px + dx < 10);
            }
            field.set((py + dy) * GAME_WIDTH + (px + dx), FieldCell::Occupied(p.shape));
        }
        proof {
            assert forall|y: int, x: int| 0 <= y < 22 && 0 <= x < 10 implies #[trigger] grid_of(
                field@,
            )[y][x] == spec_stamp_upto(g0, p, idx + 1)[y][x] by {
                let ry = y - p.position.y;
                let rx = x - p.position.x;
                assert(grid_of(field@)[y][x] == field@[y * 10 + x]);
                assert(idx == 4 * (idx as int / 4) + (idx as int % 4));
                if occ {
                    if y == py + dy && x == px + dx {
                        assert(ry == dy && rx == dx);
                    } else {
                        assert(y * 10 + x != (py + dy) * 10 + (px + dx));
                        assert(field@[y * 10 + x] == gprev[y][x]);
                        if spec_piece_occupies(p, ry, rx) && 4 * ry + rx == idx {
                            assert(ry == dy && rx == dx);
                            assert(false);
                        }
                    }
                } else {
                    assert(field@[y * 10 + x] == gprev[y][x]);
                    if spec_piece_occupies(p, ry, rx) && 4 * ry + rx == idx {
                        assert(ry == dy && rx == dx);
                        assert(false);
                    }
                }
            }
            assert(grid_of(field@) =~~= spec_stamp_upto(g0, p, idx + 1));
        }
    }
    proof {
        assert(spec_stamp_upto(g0, p, 16) =~~= spec_stamp(g0, p));
    }
}

impl Piece {
    /// The full collision test of this piece against the static grid of the
    /// given session: the single authoritative legality predicate.
    pub fn check_collision(&self, state: &GameState) -> (b: bool)
        requires
            state.field@.len() == GRID_CELLS,
        ensures
            b == spec_piece_fits(*self, state@.grid),
    {
        if !self.check_limits() {
            return false;
        }
        let px = self.position.x as usize;
        let py = self.position.y as usize;
        for dy in 0..4
            invariant
                state.field@.len() == GRID_CELLS,
                spec_within_limits(*self),
                px == self.position.x as int,
                py == self.position.y as int,
                forall|ry: int, rx: int|
                    0 <= ry < dy && 0 <= rx < 4 && #[trigger] spec_piece_occupies(*self, ry, rx)
                        ==> {
                        &&& self.position.y + ry < 22
                        &&& self.position.x + rx < 10
                        &&& state@.grid[self.position.y + ry][self.position.x + rx]
                            == FieldCell::Empty
                    },
        {
            for dx in 0..4
                invariant
                    state.field@.len() == GRID_CELLS,
                    spec_within_limits(*self),
                    px == self.position.x as int,
                    py == self.position.y as int,
                    dy < 4,
                    forall|ry: int, rx: int|
                        0 <= ry < dy && 0 <= rx < 4 && #[trigger] spec_piece_occupies(
                            *self,
                            ry,
                            rx,
                        ) ==> {
                            &&& self.position.y + ry < 22
                            &&& self.position.x + rx < 10
                            &&& state@.grid[self.position.y + ry][self.position.x + rx]
                                == FieldCell::Empty
                        },
                    forall|rx: int|
                        0 <= rx < dx && #[trigger] spec_piece_occupies(*self, dy as int, rx) ==> {
                            &&& self.position.y + dy < 22
                            &&& self.position.x + rx < 10
                            &&& state@.grid[self.position.y + dy][self.position.x + rx]
                                == FieldCell::Empty
                        },
            {
                if self.get(dy, dx) {
                    if px + dx >= GAME_WIDTH || py + dy >= GAME_HEIGHT {
                        return false;
                    }
                    if state.is_occupied(py + dy, px + dx) {
                        return false;
                    }
                }
            }
        }
        true
    }
}

impl GameState {
    /// Whether the static grid cell `(y, x)` is filled by a locked piece.
    /// The falling piece is not consulted.
    pub fn is_occupied(&self, y: usize, x: usize) -> (b: bool)
        requires
            self.field@.len() == GRID_CELLS,
            y < GAME_HEIGHT,
            x < GAME_WIDTH,
        ensures
            b == (self@.grid[y as int][x as int] != FieldCell::Empty),
    {
        match self.field[y * GAME_WIDTH + x] {
            FieldCell::Empty => false,
            FieldCell::Occupied(_) => true,
        }
    }

    /// The cell at `(y, x)` as the rendering collaborator should draw it:
    /// the falling piece overlaid on the static grid.
    pub fn get(&self, y: usize, x: usize) -> (c: FieldCell)
        requires
            self.wf(),
            y < GAME_HEIGHT,
            x < GAME_WIDTH,
        ensures
            c == spec_cell_at(self@, y as int, x as int),
    {
        let p = self.current_piece.position;
        if p.y <= y as i32 && (y as i32) < p.y + 4 && p.x <= x as i32 && (x as i32) < p.x + 4 {
            if self.current_piece.get((y as i32 - p.y) as usize, (x as i32 - p.x) as usize) {
                return FieldCell::Occupied(self.current_piece.shape);
            }
        }
        self.field[y * GAME_WIDTH + x]
    }

    /// Whether the session has reached its terminal state. Once true, every
    /// command is a no-op; only a new session leaves this state.
    pub fn is_lost(&self) -> (b: bool)
        ensures
            b == self@.lost,
    {
        self.lost
    }

    /// A fresh session from a seed: empty grid, score 0, level 1, the first
    /// piece drawn from the seed, timer loaded from the level formula. The
    /// same seed reproduces the same piece sequence.
    pub fn with_seed(seed: u64) -> (s: GameState)
        ensures
            s@ == spec_new_game(seed),
            s.wf(),
    {
        let mut field: Vec<FieldCell> = Vec::new();
        for i in 0..GRID_CELLS
            invariant
                field@.len() == i,
                forall|j: int| 0 <= j < i ==> field@[j] == FieldCell::Empty,
        {
            field.push(FieldCell::Empty);
        }
        let shape = shape_from_index(seed % 7);
        let piece = Piece::spawned(shape);
        let s = GameState {
            field,
            current_piece: piece,
            score: 0,
            level: 1,
            delay: delay_for_level(1),
            lost: false,
            rng: rng_next(seed),
        };
        proof {
            assert(grid_of(s.field@) =~~= spec_empty_grid());
            assert(s@ =~= spec_new_game(seed));
            assert forall|dy: int, dx: int|
                0 <= dy < 4 && 0 <= dx < 4 && #[trigger] spec_piece_occupies(piece, dy, dx)
                    implies {
                &&& piece.position.y + dy < 22
                &&& piece.position.x + dx < 10
                &&& s@.grid[piece.position.y + dy][piece.position.x + dx] == FieldCell::Empty
            } by {
                assert(spec_empty_grid()[piece.position.y + dy][piece.position.x + dx]
                    == FieldCell::Empty);
            }
        }
        s
    }

    /// A fresh session seeded from the ambient randomness source. Every
    /// session starts with an empty grid, score 0, level 1 and a freshly
    /// drawn piece at the spawn point.
    pub fn new() -> (s: GameState)
        ensures
            exists|seed: u64| s@ == spec_new_game(seed),
            s.wf(),
    {
        let seed = random_seed();
        let s = GameState::with_seed(seed);
        proof {
            assert(s@ == spec_new_game(seed));
        }
        s
    }

    /// Move the piece one column leftward, or do nothing if the shifted
    /// piece would not fit.
    pub fn move_left(&mut self)
        requires
            old(self).wf(),
        ensures
            final(self)@ == spec_try_shift(old(self)@, Direction::Left),
            final(self).wf(),
    {
        if self.lost {
            return ;
        }
        let moved = self.current_piece.moved(Direction::Left);
        if moved.check_collision(self) {
            self.current_piece = moved;
        }
    }

    /// Move the piece one column rightward, or do nothing if the shifted
    /// piece would not fit.
    pub fn move_right(&mut self)
        requires
            old(self).wf(),
        ensures
            final(self)@ == spec_try_shift(old(self)@, Direction::Right),
            final(self).wf(),
    {
        if self.lost {
            return ;
        }
        let moved = self.current_piece.moved(Direction::Right);
        if moved.check_collision(self) {
            self.current_piece = moved;
        }
    }

    /// Rotate the piece one step clockwise, or do nothing if the rotated
    /// piece would not fit. No fallback offsets are tried.
    pub fn rotate(&mut self)
        requires
            old(self).wf(),
        ensures
            final(self)@ == spec_try_rotate(old(self)@),
            final(self).wf(),
    {
        if self.lost {
            return ;
        }
        let rotated = self.current_piece.rotated_right();
        if rotated.check_collision(self) {
            self.current_piece = rotated;
        }
    }

    /// One descent step: move the piece one row down if the moved piece
    /// fits, and report whether it did. The session is otherwise untouched.
    fn step_down(&mut self) -> (stepped: bool)
        requires
            old(self).wf(),
            !old(self).lost,
        ensures
            final(self).wf(),
            stepped == spec_piece_fits(
                spec_piece_moved(old(self)@.piece, Direction::Down),
                old(self)@.grid,
            ),
            stepped ==> final(self)@ == (GameModel {
                piece: spec_piece_moved(old(self)@.piece, Direction::Down),
                ..old(self)@
            }),
            !stepped ==> final(self)@ == old(self)@,
    {
        let moved = self.current_piece.moved(Direction::Down);
        if moved.check_collision(self) {
            self.current_piece = moved;
            true
        } else {
            false
        }
    }

    /// Run the line-elimination scan over the grid, add the bonus for the
    /// count of eliminated rows to the score, and recompute the level.
    fn eliminate_lines(&mut self)
        requires
            old(self).field@.len() == GRID_CELLS,
            0 <= old(self).score,
        ensures
            final(self).field@.len() == GRID_CELLS,
            grid_of(final(self).field@) == spec_eliminate_from(grid_of(old(self).field@), 0).0,
            final(self).score as int == spec_score_after(
                old(self).score as int,
                spec_eliminate_from(grid_of(old(self).field@), 0).1,
            ),
            final(self).level as int == 1 + final(self).score as int / 700,
            0 <= final(self).score,
            final(self).current_piece == old(self).current_piece,
            final(self).delay == old(self).delay,
            final(self).lost == old(self).lost,
            final(self).rng == old(self).rng,
    {
        let ghost g0 = grid_of(self.field@);
        let ghost piece0 = self.current_piece;
        let ghost delay0 = self.delay;
        let ghost lost0 = self.lost;
        let ghost rng0 = self.rng;
        let ghost score0 = self.score;
        let mut eliminated: usize = 0;
        for y in 0..GAME_HEIGHT
            invariant
                self.field@.len() == GRID_CELLS,
                eliminated <= y,
                spec_eliminate_from(g0, 0).0 == spec_eliminate_from(
                    grid_of(self.field@),
                    y as int,
                ).0,
                spec_eliminate_from(g0, 0).1 == eliminated + spec_eliminate_from(
                    grid_of(self.field@),
                    y as int,
                ).1,
                self.current_piece == piece0,
                self.delay == delay0,
                self.lost == lost0,
                self.rng == rng0,
                self.score == score0,
        {
            let ghost gc = grid_of(self.field@);
            if row_full_at(&self.field, y) {
                eliminated = eliminated + 1;
                shift_rows_down(&mut self.field, y);
                proof {
                    assert(spec_eliminate_from(gc, y as int) == (
                        spec_eliminate_from(spec_shift_down(gc, y as int), y as int + 1).0,
                        spec_eliminate_from(spec_shift_down(gc, y as int), y as int + 1).1 + 1,
                    ));
                }
            } else {
                proof {
                    assert(spec_eliminate_from(gc, y as int) == spec_eliminate_from(
                        gc,
                        y as int + 1,
                    ));
                }
            }
        }
        proof {
            assert(spec_eliminate_from(grid_of(self.field@), 22) == (grid_of(self.field@), 0int));
        }
        let bonus = line_bonus(eliminated);
        self.score = if self.score <= i64::MAX - bonus {
            self.score + bonus
        } else {
            i64::MAX
        };
        self.level = 1 + self.score / 700;
    }

    /// Draw a new piece from the randomness capability and place it at the
    /// spawn point; if its placement is not legal, set the terminal flag
    /// and leave the overlapping piece and grid as they are.
    fn add_new_piece(&mut self)
        requires
            old(self).field@.len() == GRID_CELLS,
        ensures
            final(self).field@ == old(self).field@,
            final(self).current_piece == spec_drawn_piece(old(self).rng),
            final(self).rng == spec_rng_next(old(self).rng),
            final(self).lost == (old(self).lost || !spec_piece_fits(
                spec_drawn_piece(old(self).rng),
                grid_of(old(self).field@),
            )),
            final(self).score == old(self).score,
            final(self).level == old(self).level,
            final(self).delay == old(self).delay,
    {
        let shape = shape_from_index(self.rng % 7);
        self.current_piece = Piece::spawned(shape);
        self.rng = rng_next(self.rng);
        if !self.current_piece.check_collision(self) {
            self.lost = true;
        }
    }

    /// Lock the piece: stamp it into the grid, eliminate qualifying rows,
    /// score the lock, and draw the next piece at the spawn point.
    fn piece_bottom(&mut self)
        requires
            old(self).wf(),
            !old(self).lost,
        ensures
            final(self)@ == spec_lock(old(self)@),
            final(self).wf(),
    {
        let p = self.current_piece;
        stamp_piece(&mut self.field, p);
        self.eliminate_lines();
        self.add_new_piece();
        proof {
            assert(final(self)@ =~= spec_lock(old(self)@));
        }
    }

    /// Reload the forced-descent timer from the current level.
    fn timer_reset(&mut self)
        ensures
            final(self).delay as int == spec_delay_for_level(old(self).level as int),
            final(self).field@ == old(self).field@,
            final(self).current_piece == old(self).current_piece,
            final(self).score == old(self).score,
            final(self).level == old(self).level,
            final(self).lost == old(self).lost,
            final(self).rng == old(self).rng,
    {
        self.delay = delay_for_level(self.level);
    }

    /// The soft drop: move the piece one row down; a blocked descent is not
    /// a no-op — it locks the piece in place.
    pub fn move_down(&mut self)
        requires
            old(self).wf(),
        ensures
            final(self)@ == spec_soft_drop(old(self)@),
            final(self).wf(),
    {
        if self.lost {
            return ;
        }
        if !self.step_down() {
            self.piece_bottom();
        }
    }

    /// The hard drop: repeated descent until blocked, then a single lock,
    /// behaviorally equal to soft-dropping until a lock occurs.
    pub fn move_bottom(&mut self)
        requires
            old(self).wf(),
        ensures
            final(self)@ == spec_hard_drop(old(self)@),
            final(self).wf(),
    {
        if self.lost {
            return ;
        }
        let ghost m0 = self@;
        loop
            invariant_except_break
                self.wf(),
                !self.lost,
                spec_descend(self@) == spec_descend(m0),
            ensures
                self.wf(),
                !self.lost,
                spec_descend(self@) == spec_descend(m0),
                !spec_piece_fits(
                    spec_piece_moved(self@.piece, Direction::Down),
                    self@.grid,
                ),
            decreases 22 - self.current_piece.position.y,
        {
            if !self.step_down() {
                break ;
            }
        }
        self.piece_bottom();
    }

    /// One tick of the driving clock: the delay counter drops by the
    /// quantum, and exactly when it lands on zero the timer is reloaded
    /// from the level formula and a descent is forced. The zero check is
    /// exact: a quantum that does not evenly divide the delay skips the
    /// forced descent until a later decrement happens to land on zero —
    /// preserved, documented behavior rather than a silent fix.
    pub fn clock_tick(&mut self, quantum: u32)
        requires
            old(self).wf(),
        ensures
            final(self)@ == spec_tick(old(self)@, quantum as int),
            final(self).wf(),
    {
        if self.lost {
            return ;
        }
        let q = quantum as i64;
        self.delay = if self.delay >= i64::MIN + q {
            self.delay - q
        } else {
            i64::MIN
        };
        if self.delay == 0 {
            self.timer_reset();
            self.move_down();
        }
    }
}

} // verus!
