//! Laws of the engine: properties that relate several transitions, stated
//! over the session model and proved once for every reachable state.

use vstd::prelude::*;

use crate::board::GameModel;
use crate::board::spec_delay_for_level;
use crate::board::spec_descend;
use crate::board::spec_eliminate_from;
use crate::board::spec_grid_wf;
use crate::board::spec_hard_drop;
use crate::board::spec_lock;
use crate::board::spec_model_wf;
use crate::board::spec_piece_fits;
use crate::board::spec_row_full;
use crate::board::spec_score_after;
use crate::board::spec_shift_down;
use crate::board::spec_soft_drop;
use crate::board::spec_stamp;
use crate::board::spec_tick;
use crate::board::spec_try_rotate;
use crate::board::spec_try_shift;
use crate::piece::Direction;
use crate::piece::lemma_rotation_cycle_of_four;
use crate::piece::spec_piece_moved;
use crate::piece::spec_piece_rotated_right;
use crate::shapes::FieldCell;

verus! {

/// Soft drops repeated from a state until the first one locks: while the
/// descended piece fits, the piece keeps falling one row per call; the
/// first blocked call locks.
pub open spec fn spec_soft_drop_until_lock(m: GameModel) -> GameModel
    decreases 22 - m.piece.position.y,
        when m.piece.position.y < 22
{
    if !m.lost && spec_piece_fits(spec_piece_moved(m.piece, Direction::Down), m.grid) {
        spec_soft_drop_until_lock(spec_soft_drop(m))
    } else {
        spec_soft_drop(m)
    }
}

/// The hard drop is behaviorally equal to calling the soft drop repeatedly
/// until a lock occurs: same resulting grid, same score, and — because the
/// randomness state is part of the session — the same subsequent spawned
/// piece, with no observable intermediate lock.
pub proof fn lemma_hard_drop_matches_repeated_soft_drop(m: GameModel)
    requires
        spec_model_wf(m),
    ensures
        spec_hard_drop(m) == spec_soft_drop_until_lock(m),
    decreases 22 - m.piece.position.y,
{
    if !m.lost {
        let cand = spec_piece_moved(m.piece, Direction::Down);
        if spec_piece_fits(cand, m.grid) {
            let m2 = spec_soft_drop(m);
            assert(spec_model_wf(m2));
            lemma_hard_drop_matches_repeated_soft_drop(m2);
            assert(spec_descend(m) == spec_descend(m2));
        }
    }
}

/// The number of fully-occupied rows from row `y` downward.
pub open spec fn spec_count_full_rows(g: Seq<Seq<FieldCell>>, y: int) -> int
    decreases 22 - y,
{
    if y < 0 || y >= 22 {
        0
    } else if spec_row_full(g, y) {
        1 + spec_count_full_rows(g, y + 1)
    } else {
        spec_count_full_rows(g, y + 1)
    }
}

/// The count of full rows from `y` downward depends only on rows `y`
/// downward.
proof fn lemma_count_full_rows_congruent(g1: Seq<Seq<FieldCell>>, g2: Seq<Seq<FieldCell>>, y: int)
    requires
        forall|r: int| y <= r < 22 ==> g1[r] == g2[r],
    ensures
        spec_count_full_rows(g1, y) == spec_count_full_rows(g2, y),
    decreases 22 - y,
{
    if 0 <= y < 22 {
        assert(g1[y] == g2[y]);
        assert(spec_row_full(g1, y) == spec_row_full(g2, y)) by {
            if spec_row_full(g1, y) {
                assert forall|x: int| 0 <= x < 10 implies #[trigger] g2[y][x] != FieldCell::Empty
                by {
                    assert(g1[y][x] != FieldCell::Empty);
                }
            }
            if spec_row_full(g2, y) {
                assert forall|x: int| 0 <= x < 10 implies #[trigger] g1[y][x] != FieldCell::Empty
                by {
                    assert(g2[y][x] != FieldCell::Empty);
                }
            }
        }
        lemma_count_full_rows_congruent(g1, g2, y + 1);
    }
}

/// The elimination scan from row `y` removes exactly the rows that are
/// fully occupied when the scan starts: the shift for a qualifying row only
/// rewrites rows at or above it, so rows the scan has not reached yet are
/// untouched, and each full row is counted exactly once.
pub proof fn lemma_elimination_count(g: Seq<Seq<FieldCell>>, y: int)
    ensures
        spec_eliminate_from(g, y).1 == spec_count_full_rows(g, y),
    decreases 22 - y,
{
    if 0 <= y < 22 {
        if spec_row_full(g, y) {
            let g2 = spec_shift_down(g, y);
            lemma_elimination_count(g2, y + 1);
            assert forall|r: int| y + 1 <= r < 22 implies g2[r] == g[r] by {
                assert(!(3 <= r <= y));
            }
            lemma_count_full_rows_congruent(g2, g, y + 1);
        } else {
            lemma_elimination_count(g, y + 1);
        }
    }
}

/// Locking with exactly `k` fully-occupied rows — counted on the grid with
/// the piece stamped in — adds the bonus for `k` to the score, and the
/// level immediately obeys the level formula on the new score.
pub proof fn lemma_lock_scores_by_full_rows(m: GameModel)
    ensures
        spec_lock(m).score == spec_score_after(
            m.score,
            spec_count_full_rows(spec_stamp(m.grid, m.piece), 0),
        ),
        spec_lock(m).level == 1 + spec_lock(m).score / 700,
{
    lemma_elimination_count(spec_stamp(m.grid, m.piece), 0);
}

/// Helper for the scan invariant: starting from a grid whose rows before
/// the scan point — and in particular the never-rewritten buffer rows 0
/// through 2 — hold no full row, the finished scan leaves no full row at
/// all.
proof fn lemma_elimination_scan_no_full_rows(g: Seq<Seq<FieldCell>>, y: int)
    requires
        0 <= y,
        forall|r: int| 0 <= r < y && r < 22 ==> !spec_row_full(g, r),
        forall|r: int| 0 <= r < 3 ==> !spec_row_full(g, r),
    ensures
        forall|r: int| 0 <= r < 22 ==> !spec_row_full(spec_eliminate_from(g, y).0, r),
    decreases 22 - y,
{
    if y >= 22 {
        assert(spec_eliminate_from(g, y).0 == g);
    } else if spec_row_full(g, y) {
        let g2 = spec_shift_down(g, y);
        assert forall|r: int| 0 <= r < y + 1 && r < 22 implies !spec_row_full(g2, r) by {
            if 3 <= r <= y {
                assert(g2[r] == g[r - 1]);
                assert(!spec_row_full(g, r - 1));
                if spec_row_full(g2, r) {
                    assert forall|x: int| 0 <= x < 10 implies #[trigger] g[r - 1][x]
                        != FieldCell::Empty by {
                        assert(g2[r][x] != FieldCell::Empty);
                    }
                }
            } else {
                assert(g2[r] == g[r]);
                assert(!spec_row_full(g, r));
                if spec_row_full(g2, r) {
                    assert forall|x: int| 0 <= x < 10 implies #[trigger] g[r][x]
                        != FieldCell::Empty by {
                        assert(g2[r][x] != FieldCell::Empty);
                    }
                }
            }
        }
        lemma_elimination_scan_no_full_rows(g2, y + 1);
        assert(spec_eliminate_from(g, y).0 == spec_eliminate_from(g2, y + 1).0);
        assert(forall|r: int| 0 <= r < 22 ==> !spec_row_full(spec_eliminate_from(g, y).0, r));
    } else {
        lemma_elimination_scan_no_full_rows(g, y + 1);
        assert(spec_eliminate_from(g, y).0 == spec_eliminate_from(g, y + 1).0);
        assert(forall|r: int| 0 <= r < 22 ==> !spec_row_full(spec_eliminate_from(g, y).0, r));
    }
}

/// A row that qualified for elimination is gone once the lock's scan is
/// done: provided the reserved buffer rows 0 through 2 — which the shift
/// never rewrites — hold no full row, the grid a lock leaves behind has no
/// fully-occupied row anywhere, so an eliminated row can only become full
/// again through later play refilling it.
pub proof fn lemma_elimination_leaves_no_full_rows(g: Seq<Seq<FieldCell>>)
    requires
        forall|r: int| 0 <= r < 3 ==> !spec_row_full(g, r),
    ensures
        forall|r: int| 0 <= r < 22 ==> !spec_row_full(spec_eliminate_from(g, 0).0, r),
{
    lemma_elimination_scan_no_full_rows(g, 0);
}

/// Rotating four times in an open area — each intermediate rotation fits —
/// returns the session to exactly its pre-call value: the piece regains its
/// original rotation and position and nothing else ever changed.
pub proof fn lemma_rotate_four_in_open_area(m: GameModel)
    requires
        spec_model_wf(m),
        !m.lost,
        spec_piece_fits(spec_piece_rotated_right(m.piece), m.grid),
        spec_piece_fits(spec_piece_rotated_right(spec_piece_rotated_right(m.piece)), m.grid),
        spec_piece_fits(
            spec_piece_rotated_right(
                spec_piece_rotated_right(spec_piece_rotated_right(m.piece)),
            ),
            m.grid,
        ),
    ensures
        spec_try_rotate(spec_try_rotate(spec_try_rotate(spec_try_rotate(m)))) == m,
{
    lemma_rotation_cycle_of_four(m.piece);
    assert(spec_try_rotate(spec_try_rotate(spec_try_rotate(spec_try_rotate(m)))) =~= m);
}

/// An accepted sideways move or rotation leaves the resulting piece
/// satisfying the full collision test against the grid, and a rejected one
/// leaves the whole session — piece included — exactly equal to its
/// pre-call value. The grid, score, level, timer and terminal flag are
/// untouched either way.
pub proof fn lemma_moves_accept_or_reject(m: GameModel, d: Direction)
    requires
        !m.lost,
    ensures
        spec_try_shift(m, d) == (GameModel { piece: spec_try_shift(m, d).piece, ..m }),
        spec_try_rotate(m) == (GameModel { piece: spec_try_rotate(m).piece, ..m }),
        spec_piece_fits(spec_piece_moved(m.piece, d), m.grid) ==> spec_try_shift(m, d).piece
            == spec_piece_moved(m.piece, d) && spec_piece_fits(spec_try_shift(m, d).piece, m.grid),
        !spec_piece_fits(spec_piece_moved(m.piece, d), m.grid) ==> spec_try_shift(m, d) == m,
        spec_piece_fits(spec_piece_rotated_right(m.piece), m.grid) ==> spec_try_rotate(m).piece
            == spec_piece_rotated_right(m.piece) && spec_piece_fits(
            spec_try_rotate(m).piece,
            m.grid,
        ),
        !spec_piece_fits(spec_piece_rotated_right(m.piece), m.grid) ==> spec_try_rotate(m) == m,
{
    assert(spec_try_shift(m, d) =~= (GameModel { piece: spec_try_shift(m, d).piece, ..m }));
    assert(spec_try_rotate(m) =~= (GameModel { piece: spec_try_rotate(m).piece, ..m }));
}

/// Speed-up: the forced-descent delay never lengthens as the level rises,
/// and it strictly shrinks from each level to the next until integer
/// rounding bottoms the table out (the tabulated `round(800 * 0.9^level)`
/// first repeats a value at level 47, and reaches zero at level 71).
pub proof fn lemma_delay_shrinks_with_level(l1: int, l2: int)
    requires
        l1 <= l2,
    ensures
        spec_delay_for_level(l1) >= spec_delay_for_level(l2),
        1 <= l1 && l1 < l2 <= 46 ==> spec_delay_for_level(l1) > spec_delay_for_level(l2),
{
}

/// After a loss the session is frozen: every command — sideways movement,
/// rotation, soft drop, hard drop, and the clock tick — leaves the state,
/// and in particular the grid, exactly unchanged. Only constructing a new
/// session leaves the terminal state.
pub proof fn lemma_commands_after_loss_are_no_ops(m: GameModel, d: Direction, quantum: int)
    requires
        m.lost,
    ensures
        spec_try_shift(m, d) == m,
        spec_try_rotate(m) == m,
        spec_soft_drop(m) == m,
        spec_hard_drop(m) == m,
        spec_tick(m, quantum) == m,
{
}

} // verus!
