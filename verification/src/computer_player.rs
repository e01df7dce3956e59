//! Move selection for the computer-controlled second player. A game is
//! configured with one of three opponents: a human (moves arrive through the
//! cursor), a uniform-random chooser over the empty cells, or an exhaustive
//! minimax search over the remaining game tree.

use vstd::prelude::*;
use crate::game::{Board, GameCell, Player, Position, cell_index, mark_of, next_player};
use crate::detector::{
    OutcomeKind, empties_from, lemma_empties_from_bounds, lemma_empties_from_update,
    lemma_empties_from_zero, lemma_full_iff_num_empty_zero, lemma_outcome_undecided, num_empty,
    outcome_of, wins,
};

verus! {

/// How the second player's moves are chosen; fixed for the lifetime of a game.
#[derive(Clone, Copy, Debug, PartialEq, Eq, Structural)]
pub enum Opponent {
    Human,
    Random,
    Minimax,
}

/// The index of the `k`-th empty cell (0-based) at or after index `i`,
/// scanning row-major; 9 when there is no such cell.
pub open spec fn nth_empty_from(b: Seq<GameCell>, i: int, k: int) -> int
    decreases 9 - i,
{
    if i < 0 || i >= 9 {
        9
    } else if b[i] == GameCell::Empty {
        if k <= 0 {
            i
        } else {
            nth_empty_from(b, i + 1, k - 1)
        }
    } else {
        nth_empty_from(b, i + 1, k)
    }
}

/// The index of the `k`-th empty cell of `b` in row-major order.
pub open spec fn nth_empty(b: Seq<GameCell>, k: int) -> int {
    nth_empty_from(b, 0, k)
}

/// Selecting any of the first `empties_from(b, i)` empty cells at or after
/// `i` yields an in-range index that really holds an empty cell.
pub proof fn lemma_nth_empty_valid(b: Seq<GameCell>, i: int, k: int)
    requires
        0 <= i <= 9,
        0 <= k < empties_from(b, i),
    ensures
        i <= nth_empty_from(b, i, k) < 9,
        b[nth_empty_from(b, i, k)] == GameCell::Empty,
    decreases 9 - i,
{
    if i < 9 {
        if b[i] == GameCell::Empty {
            if k > 0 {
                lemma_nth_empty_valid(b, i + 1, k - 1);
            }
        } else {
            lemma_nth_empty_valid(b, i + 1, k);
        }
    }
}

/// The value of the board `b` from `acting`'s point of view with `to_move` to
/// play, under optimal play by both sides. A win scores one more than the
/// number of cells still empty when it occurs, a loss the negation, a draw
/// zero, so that earlier wins and later losses score higher.
pub open spec fn value_of(b: Seq<GameCell>, to_move: Player, acting: Player) -> int
    decreases num_empty(b), 10int,
    when b.len() == 9
{
    if wins(b, acting) {
        1 + num_empty(b)
    } else if wins(b, next_player(acting)) {
        -1 - num_empty(b)
    } else if num_empty(b) <= 0 {
        0
    } else {
        search_value(b, to_move, acting, 0)
    }
}

/// The optimal value among the moves at indices `i..9` of the open board `b`:
/// the maximum over `to_move`'s options when `to_move` is the acting player,
/// else the minimum. Sentinels -100 and 100 stand for "no move considered".
pub open spec fn search_value(b: Seq<GameCell>, to_move: Player, acting: Player, i: int) -> int
    decreases num_empty(b), 9 - i,
    when b.len() == 9
    via search_value_decreases
{
    if i < 0 || i >= 9 {
        if to_move == acting {
            -100
        } else {
            100
        }
    } else {
        let rest = search_value(b, to_move, acting, i + 1);
        if b[i] == GameCell::Empty {
            let v = value_of(b.update(i, mark_of(to_move)), next_player(to_move), acting);
            if to_move == acting {
                if v >= rest {
                    v
                } else {
                    rest
                }
            } else {
                if v <= rest {
                    v
                } else {
                    rest
                }
            }
        } else {
            rest
        }
    }
}

#[via_fn]
proof fn search_value_decreases(b: Seq<GameCell>, to_move: Player, acting: Player, i: int) {
    if 0 <= i < 9 && b[i] == GameCell::Empty {
        lemma_empties_from_update(b, i, mark_of(to_move), 0);
        lemma_empties_from_bounds(b.update(i, mark_of(to_move)), 0);
    }
    lemma_empties_from_bounds(b, 0);
}

/// The move at an index in `i..9` with the highest value for `acting`,
/// together with that value; ties go to the lowest index. (9, -100) when no
/// empty cell remains at or after `i`.
pub open spec fn best_move_from(b: Seq<GameCell>, acting: Player, i: int) -> (int, int)
    decreases 9 - i,
{
    if i < 0 || i >= 9 {
        (9int, -100int)
    } else {
        let rest = best_move_from(b, acting, i + 1);
        if b[i] == GameCell::Empty {
            let v = value_of(b.update(i, mark_of(acting)), next_player(acting), acting);
            if v >= rest.1 {
                (i, v)
            } else {
                rest
            }
        } else {
            rest
        }
    }
}

/// The index of the move the minimax strategy selects for `acting` on `b`:
/// the first move in row-major order among those of maximal value.
pub open spec fn best_move(b: Seq<GameCell>, acting: Player) -> int {
    best_move_from(b, acting, 0).0
}

/// True when some empty cell at an index in `i..9` completes a line for
/// `acting` when `acting` marks it.
pub open spec fn has_winning_move_from(b: Seq<GameCell>, acting: Player, i: int) -> bool
    decreases 9 - i,
{
    if i < 0 || i >= 9 {
        false
    } else {
        (b[i] == GameCell::Empty && wins(b.update(i, mark_of(acting)), acting))
            || has_winning_move_from(b, acting, i + 1)
    }
}

/// True when `acting` can complete a line with a single move on `b`.
pub open spec fn has_winning_move(b: Seq<GameCell>, acting: Player) -> bool {
    has_winning_move_from(b, acting, 0)
}

/// `has_winning_move_from` agrees with its quantified reading.
pub proof fn lemma_has_winning_move_iff(b: Seq<GameCell>, acting: Player, i: int)
    requires
        0 <= i <= 9,
    ensures
        has_winning_move_from(b, acting, i) <==> exists|j: int|
            i <= j < 9 && #[trigger] b[j] == GameCell::Empty && wins(
                b.update(j, mark_of(acting)),
                acting,
            ),
    decreases 9 - i,
{
    if i < 9 {
        lemma_has_winning_move_iff(b, acting, i + 1);
        if b[i] == GameCell::Empty && wins(b.update(i, mark_of(acting)), acting) {
            assert(i <= i < 9 && b[i] == GameCell::Empty && wins(
                b.update(i, mark_of(acting)),
                acting,
            ));
        }
        if exists|j: int|
            i <= j < 9 && #[trigger] b[j] == GameCell::Empty && wins(
                b.update(j, mark_of(acting)),
                acting,
            ) {
            let j = choose|j: int|
                i <= j < 9 && #[trigger] b[j] == GameCell::Empty && wins(
                    b.update(j, mark_of(acting)),
                    acting,
                );
            if j != i {
                assert(i + 1 <= j < 9 && b[j] == GameCell::Empty && wins(
                    b.update(j, mark_of(acting)),
                    acting,
                ));
            }
        }
    }
}

/// Terminal boards have the stated values, and open boards have a value
/// bounded in magnitude by the number of empty cells: any continuation ends
/// with strictly fewer empty cells than the board has now.
pub proof fn lemma_value_bounds(b: Seq<GameCell>, to_move: Player, acting: Player)
    requires
        b.len() == 9,
    ensures
        wins(b, acting) ==> value_of(b, to_move, acting) == 1 + num_empty(b),
        !wins(b, acting) && wins(b, next_player(acting)) ==> value_of(b, to_move, acting) == -1
            - num_empty(b),
        !wins(b, acting) && !wins(b, next_player(acting)) && num_empty(b) == 0 ==> value_of(
            b,
            to_move,
            acting,
        ) == 0,
        !wins(b, acting) && !wins(b, next_player(acting)) && num_empty(b) > 0 ==> -num_empty(b)
            <= value_of(b, to_move, acting) <= num_empty(b),
    decreases num_empty(b), 10int,
{
    lemma_empties_from_bounds(b, 0);
    if !wins(b, acting) && !wins(b, next_player(acting)) && num_empty(b) > 0 {
        lemma_search_bounds(b, to_move, acting, 0);
        lemma_empties_from_zero(b, 0);
    }
}

/// On an open board, the searched value over `i..9` stays within the bounds
/// of `lemma_value_bounds` as long as some move in `i..9` exists, and equals
/// the sentinel otherwise.
proof fn lemma_search_bounds(b: Seq<GameCell>, to_move: Player, acting: Player, i: int)
    requires
        b.len() == 9,
        0 <= i <= 9,
        !wins(b, acting),
        !wins(b, next_player(acting)),
        num_empty(b) > 0,
    ensures
        empties_from(b, i) > 0 ==> -num_empty(b) <= search_value(b, to_move, acting, i)
            <= num_empty(b),
        empties_from(b, i) == 0 ==> search_value(b, to_move, acting, i) == (if to_move == acting {
            -100int
        } else {
            100int
        }),
    decreases num_empty(b), 9 - i,
{
    lemma_empties_from_bounds(b, 0);
    if i < 9 {
        lemma_empties_from_bounds(b, i + 1);
        lemma_search_bounds(b, to_move, acting, i + 1);
        if b[i] == GameCell::Empty {
            let child = b.update(i, mark_of(to_move));
            lemma_empties_from_update(b, i, mark_of(to_move), 0);
            lemma_value_bounds(child, next_player(to_move), acting);
        }
    }
}

/// The selection over `i..9` picks an empty cell whenever one exists, reports
/// exactly the value of the picked move, never exceeds the value of an
/// immediate win, and picks an immediately winning move whenever one exists.
proof fn lemma_best_props(b: Seq<GameCell>, acting: Player, i: int)
    requires
        b.len() == 9,
        0 <= i <= 9,
        !wins(b, acting),
        !wins(b, next_player(acting)),
        num_empty(b) > 0,
    ensures
        ({
            let r = best_move_from(b, acting, i);
            &&& (empties_from(b, i) == 0 ==> r == (9int, -100int))
            &&& (empties_from(b, i) > 0 ==> i <= r.0 < 9 && b[r.0] == GameCell::Empty && r.1
                == value_of(b.update(r.0, mark_of(acting)), next_player(acting), acting) && r.1
                <= num_empty(b))
            &&& (has_winning_move_from(b, acting, i) ==> r.1 == num_empty(b) && i <= r.0 < 9
                && b[r.0] == GameCell::Empty && wins(b.update(r.0, mark_of(acting)), acting))
        }),
    decreases 9 - i,
{
    lemma_empties_from_bounds(b, 0);
    lemma_empties_from_bounds(b, i);
    if i < 9 {
        lemma_empties_from_bounds(b, i + 1);
        lemma_best_props(b, acting, i + 1);
        if b[i] == GameCell::Empty {
            let child = b.update(i, mark_of(acting));
            lemma_empties_from_update(b, i, mark_of(acting), 0);
            lemma_value_bounds(child, next_player(acting), acting);
        }
    }
}

/// On an open board the minimax move always lands on an empty cell.
pub proof fn lemma_minimax_move_legal(b: Seq<GameCell>, acting: Player)
    requires
        b.len() == 9,
        outcome_of(b) is Undecided,
    ensures
        0 <= best_move(b, acting) < 9,
        b[best_move(b, acting)] == GameCell::Empty,
{
    lemma_outcome_undecided(b);
    lemma_full_iff_num_empty_zero(b);
    lemma_empties_from_bounds(b, 0);
    lemma_best_props(b, acting, 0);
}

/// Whenever a single move completes a line for the acting player, the minimax
/// move is such a move.
pub proof fn lemma_minimax_takes_win(b: Seq<GameCell>, acting: Player)
    requires
        b.len() == 9,
        outcome_of(b) is Undecided,
        has_winning_move(b, acting),
    ensures
        0 <= best_move(b, acting) < 9,
        b[best_move(b, acting)] == GameCell::Empty,
        wins(b.update(best_move(b, acting), mark_of(acting)), acting),
{
    lemma_outcome_undecided(b);
    lemma_full_iff_num_empty_zero(b);
    lemma_empties_from_bounds(b, 0);
    lemma_best_props(b, acting, 0);
}

/// When the acting player is to move, searching the move values and taking
/// the best move's value agree.
proof fn lemma_search_eq_best(b: Seq<GameCell>, acting: Player, i: int)
    requires
        b.len() == 9,
        0 <= i <= 9,
    ensures
        search_value(b, acting, acting, i) == best_move_from(b, acting, i).1,
    decreases 9 - i,
{
    if i < 9 {
        lemma_search_eq_best(b, acting, i + 1);
    }
}

/// The minimax move realises the value of the position: playing it leaves a
/// position of exactly the same value for the acting player.
pub proof fn lemma_minimax_preserves_value(b: Seq<GameCell>, acting: Player)
    requires
        b.len() == 9,
        outcome_of(b) is Undecided,
    ensures
        value_of(b.update(best_move(b, acting), mark_of(acting)), next_player(acting), acting)
            == value_of(b, acting, acting),
{
    lemma_outcome_undecided(b);
    lemma_full_iff_num_empty_zero(b);
    lemma_empties_from_bounds(b, 0);
    lemma_search_eq_best(b, acting, 0);
    lemma_best_props(b, acting, 0);
}

/// When the opponent is to move, no move of theirs can push the value, as
/// seen by the acting player, below the value of the current position.
pub proof fn lemma_opponent_move_keeps_value(b: Seq<GameCell>, acting: Player, j: int)
    requires
        b.len() == 9,
        outcome_of(b) is Undecided,
        0 <= j < 9,
        b[j] == GameCell::Empty,
    ensures
        value_of(b.update(j, mark_of(next_player(acting))), acting, acting) >= value_of(
            b,
            next_player(acting),
            acting,
        ),
{
    lemma_outcome_undecided(b);
    lemma_full_iff_num_empty_zero(b);
    lemma_empties_from_bounds(b, 0);
    lemma_search_le_child(b, next_player(acting), acting, 0, j);
}

/// For a minimising node, the searched value is at most the value of any
/// single considered move.
proof fn lemma_search_le_child(b: Seq<GameCell>, to_move: Player, acting: Player, i: int, j: int)
    requires
        b.len() == 9,
        to_move != acting,
        0 <= i <= j < 9,
        b[j] == GameCell::Empty,
    ensures
        search_value(b, to_move, acting, i) <= value_of(
            b.update(j, mark_of(to_move)),
            next_player(to_move),
            acting,
        ),
    decreases 9 - i,
{
    if i < j {
        lemma_search_le_child(b, to_move, acting, i + 1, j);
    }
}

/// From a position that is not lost for the acting player under optimal
/// play, the minimax move leads to a position that is still not lost: the
/// strategy forces a win or a draw, never a loss. Together with
/// `lemma_opponent_move_keeps_value`, which shows that no opponent move can
/// lower the value either, this extends over a whole game.
pub proof fn lemma_minimax_keeps_nonnegative_value(b: Seq<GameCell>, acting: Player)
    requires
        b.len() == 9,
        outcome_of(b) is Undecided,
        value_of(b, acting, acting) >= 0,
    ensures
        ({
            let b2 = b.update(best_move(b, acting), mark_of(acting));
            value_of(b2, next_player(acting), acting) >= 0 && !wins(b2, next_player(acting))
        }),
{
    lemma_outcome_undecided(b);
    lemma_minimax_move_legal(b, acting);
    lemma_minimax_preserves_value(b, acting);
}

/// A finished position with a non-negative value for a player who has not
/// completed a line is never a loss for that player.
pub proof fn lemma_nonnegative_value_no_loss(b: Seq<GameCell>, to_move: Player, acting: Player)
    requires
        b.len() == 9,
        !wins(b, acting),
        value_of(b, to_move, acting) >= 0,
    ensures
        !wins(b, next_player(acting)),
{
    lemma_value_bounds(b, to_move, acting);
    lemma_empties_from_bounds(b, 0);
}

impl Board {
    /// True when some line of the board holds three marks `m`.
    fn has_line_of(&self, m: GameCell) -> (r: bool)
        requires
            self.wf(),
        ensures
            r == crate::detector::has_line(self@, m),
    {
        let c0 = self.cell((0, 0));
        let c1 = self.cell((0, 1));
        let c2 = self.cell((0, 2));
        let c3 = self.cell((1, 0));
        let c4 = self.cell((1, 1));
        let c5 = self.cell((1, 2));
        let c6 = self.cell((2, 0));
        let c7 = self.cell((2, 1));
        let c8 = self.cell((2, 2));
        (c0 == m && c1 == m && c2 == m) || (c3 == m && c4 == m && c5 == m) || (c6 == m && c7 == m
            && c8 == m) || (c0 == m && c3 == m && c6 == m) || (c1 == m && c4 == m && c7 == m) || (
        c2 == m && c5 == m && c8 == m) || (c0 == m && c4 == m && c8 == m) || (c2 == m && c4 == m
            && c6 == m)
    }
}

/// The position holding the `k`-th empty cell of `board`, where `k` is the
/// remainder of `rand` by the number of empty cells: a uniform choice among
/// the legal moves whenever `rand` is uniform.
pub fn random_move(board: &Board, rand: u64) -> (r: Position)
    requires
        board.wf(),
        num_empty(board@) > 0,
    ensures
        r.0 < 3 && r.1 < 3,
        cell_index(r.0 as int, r.1 as int) == nth_empty(
            board@,
            rand as int % num_empty(board@),
        ),
        board@[cell_index(r.0 as int, r.1 as int)] == GameCell::Empty,
{
    proof {
        lemma_empties_from_bounds(board@, 0);
    }
    let count = board.count_empty();
    let k0 = (rand % (count as u64)) as usize;
    proof {
        lemma_nth_empty_valid(board@, 0, k0 as int);
    }
    let mut k = k0;
    let mut i: usize = 0;
    while i < 9
        invariant
            board.wf(),
            i <= 9,
            k <= k0,
            k < empties_from(board@, i as int),
            nth_empty_from(board@, i as int, k as int) == nth_empty(
                board@,
                rand as int % num_empty(board@),
            ),
        decreases 9 - i,
    {
        proof {
            assert(cell_index(i as int / 3, i as int % 3) == i as int);
        }
        if board.cell((i / 3, i % 3)) == GameCell::Empty {
            if k == 0 {
                return (i / 3, i % 3);
            }
            k = k - 1;
        }
        i = i + 1;
    }
    proof {
        lemma_empties_from_bounds(board@, 9);
    }
    vstd::pervasive::unreached()
}

/// The value of `board` for `acting` with `to_move` to play, by exhaustive
/// search of the remaining game tree on per-branch copies of the board.
fn minimax_value(board: &Board, to_move: Player, acting: Player) -> (v: i32)
    requires
        board.wf(),
    ensures
        v as int == value_of(board@, to_move, acting),
    decreases num_empty(board@), 10int,
{
    proof {
        lemma_empties_from_bounds(board@, 0);
    }
    let count = board.count_empty();
    if board.has_line_of(acting.mark()) {
        return 1 + count as i32;
    }
    if board.has_line_of(acting.next().mark()) {
        return -1 - count as i32;
    }
    if count == 0 {
        return 0;
    }
    let mut acc: i32 = if to_move == acting {
        -100
    } else {
        100
    };
    let mut i: usize = 9;
    while i > 0
        invariant
            board.wf(),
            i <= 9,
            -100 <= acc <= 100,
            acc as int == search_value(board@, to_move, acting, i as int),
        decreases i,
    {
        i = i - 1;
        if board.cell((i / 3, i % 3)) == GameCell::Empty {
            let mut child = board.duplicate();
            child.set((i / 3, i % 3), to_move.mark());
            proof {
                lemma_empties_from_update(board@, i as int, mark_of(to_move), 0);
                lemma_value_bounds(child@, next_player(to_move), acting);
                lemma_empties_from_bounds(child@, 0);
            }
            let v = minimax_value(&child, to_move.next(), acting);
            if to_move == acting {
                if v >= acc {
                    acc = v;
                }
            } else {
                if v <= acc {
                    acc = v;
                }
            }
        }
    }
    acc
}

/// The minimax move for `acting` on the open board `board`: the first move in
/// row-major order among those of maximal searched value.
pub fn minimax_move(board: &Board, acting: Player) -> (r: Position)
    requires
        board.wf(),
        outcome_of(board@) is Undecided,
    ensures
        r.0 < 3 && r.1 < 3,
        cell_index(r.0 as int, r.1 as int) == best_move(board@, acting),
        board@[cell_index(r.0 as int, r.1 as int)] == GameCell::Empty,
{
    proof {
        lemma_outcome_undecided(board@);
        lemma_full_iff_num_empty_zero(board@);
        lemma_empties_from_bounds(board@, 0);
        lemma_best_props(board@, acting, 0);
    }
    let mut bi: usize = 9;
    let mut bv: i32 = -100;
    let mut i: usize = 9;
    while i > 0
        invariant
            board.wf(),
            i <= 9,
            bi <= 9,
            -100 <= bv <= 100,
            bi as int == best_move_from(board@, acting, i as int).0,
            bv as int == best_move_from(board@, acting, i as int).1,
        decreases i,
    {
        i = i - 1;
        if board.cell((i / 3, i % 3)) == GameCell::Empty {
            let mut child = board.duplicate();
            child.set((i / 3, i % 3), acting.mark());
            proof {
                lemma_empties_from_update(board@, i as int, mark_of(acting), 0);
                lemma_value_bounds(child@, next_player(acting), acting);
                lemma_empties_from_bounds(child@, 0);
            }
            let v = minimax_value(&child, acting.next(), acting);
            if v >= bv {
                bi = i;
                bv = v;
            }
        }
    }
    (bi / 3, bi % 3)
}

/// One move chosen for `acting` on `board` by the configured opponent kind:
/// nothing for a human, the seeded uniform choice for the random opponent,
/// and the exhaustive-search move for the minimax opponent.
pub fn choose_move(opponent: Opponent, board: &Board, acting: Player, rand: u64) -> (r: Option<
    Position,
>)
    requires
        board.wf(),
        !(opponent is Human) ==> outcome_of(board@) is Undecided,
    ensures
        opponent is Human ==> r is None,
        opponent is Random ==> (r matches Some(p) && p.0 < 3 && p.1 < 3 && cell_index(
            p.0 as int,
            p.1 as int,
        ) == nth_empty(board@, rand as int % num_empty(board@)) && board@[cell_index(
            p.0 as int,
            p.1 as int,
        )] == GameCell::Empty),
        opponent is Minimax ==> (r matches Some(p) && p.0 < 3 && p.1 < 3 && cell_index(
            p.0 as int,
            p.1 as int,
        ) == best_move(board@, acting) && board@[cell_index(p.0 as int, p.1 as int)]
            == GameCell::Empty),
{
    match opponent {
        Opponent::Human => None,
        Opponent::Random => {
            proof {
                lemma_outcome_undecided(board@);
                lemma_full_iff_num_empty_zero(board@);
                lemma_empties_from_bounds(board@, 0);
            }
            Some(random_move(board, rand))
        },
        Opponent::Minimax => Some(minimax_move(board, acting)),
    }
}

} // verus!
