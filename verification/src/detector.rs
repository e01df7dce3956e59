//! Terminal detection: given a board, decide whether a player has completed a
//! line, the board is a draw, or the game is still open. The eight candidate
//! lines are checked rows first (top to bottom), then columns (left to right),
//! then the two diagonals, which fixes the reported winner even on boards that
//! regular play cannot reach.

use vstd::prelude::*;
use crate::game::{Board, GameCell, Player, mark_of, next_player};

verus! {

/// The terminal status of a board.
#[derive(Clone, Copy, Debug, PartialEq, Eq, Structural)]
pub enum OutcomeKind {
    Win(Player),
    Draw,
    Undecided,
}

/// True when cells `i`, `j` and `k` all hold `m`.
pub open spec fn three_in_line(b: Seq<GameCell>, i: int, j: int, k: int, m: GameCell) -> bool {
    b[i] == m && b[j] == m && b[k] == m
}

/// True when some row, column or diagonal holds three marks `m`.
pub open spec fn has_line(b: Seq<GameCell>, m: GameCell) -> bool {
    ||| three_in_line(b, 0, 1, 2, m)
    ||| three_in_line(b, 3, 4, 5, m)
    ||| three_in_line(b, 6, 7, 8, m)
    ||| three_in_line(b, 0, 3, 6, m)
    ||| three_in_line(b, 1, 4, 7, m)
    ||| three_in_line(b, 2, 5, 8, m)
    ||| three_in_line(b, 0, 4, 8, m)
    ||| three_in_line(b, 2, 4, 6, m)
}

/// True when `p` has completed a line on `b`.
pub open spec fn wins(b: Seq<GameCell>, p: Player) -> bool {
    has_line(b, mark_of(p))
}

/// True when no cell of `b` is empty.
pub open spec fn full(b: Seq<GameCell>) -> bool {
    forall|i: int| 0 <= i < 9 ==> b[i] != GameCell::Empty
}

/// The mark held by all of cells `i`, `j`, `k` if they agree and are not
/// empty, else `None`.
pub open spec fn line_mark(b: Seq<GameCell>, i: int, j: int, k: int) -> Option<GameCell> {
    if b[i] != GameCell::Empty && b[i] == b[j] && b[j] == b[k] {
        Some(b[i])
    } else {
        None
    }
}

/// The mark of the first satisfied line in evaluation order, if any.
pub open spec fn winning_mark(b: Seq<GameCell>) -> Option<GameCell> {
    if line_mark(b, 0, 1, 2) is Some { line_mark(b, 0, 1, 2) }
    else if line_mark(b, 3, 4, 5) is Some { line_mark(b, 3, 4, 5) }
    else if line_mark(b, 6, 7, 8) is Some { line_mark(b, 6, 7, 8) }
    else if line_mark(b, 0, 3, 6) is Some { line_mark(b, 0, 3, 6) }
    else if line_mark(b, 1, 4, 7) is Some { line_mark(b, 1, 4, 7) }
    else if line_mark(b, 2, 5, 8) is Some { line_mark(b, 2, 5, 8) }
    else if line_mark(b, 0, 4, 8) is Some { line_mark(b, 0, 4, 8) }
    else if line_mark(b, 2, 4, 6) is Some { line_mark(b, 2, 4, 6) }
    else { None }
}

/// The player who places `m`; meaningful only for non-empty marks.
pub open spec fn owner_of(m: GameCell) -> Player {
    if m == GameCell::Cross {
        Player::Player1
    } else {
        Player::Player2
    }
}

/// The terminal status of `b`: the owner of the first satisfied line, else a
/// draw on a full board, else still open.
pub open spec fn outcome_of(b: Seq<GameCell>) -> OutcomeKind {
    match winning_mark(b) {
        Some(m) => OutcomeKind::Win(owner_of(m)),
        None => if full(b) {
            OutcomeKind::Draw
        } else {
            OutcomeKind::Undecided
        },
    }
}

/// The number of empty cells among indices `i..9`.
pub open spec fn empties_from(b: Seq<GameCell>, i: int) -> int
    decreases 9 - i,
{
    if i < 0 || i >= 9 {
        0
    } else {
        (if b[i] == GameCell::Empty { 1int } else { 0int }) + empties_from(b, i + 1)
    }
}

/// The number of empty cells of `b`.
pub open spec fn num_empty(b: Seq<GameCell>) -> int {
    empties_from(b, 0)
}

/// Empty-cell counts lie between 0 and the number of inspected cells.
pub proof fn lemma_empties_from_bounds(b: Seq<GameCell>, i: int)
    requires
        0 <= i <= 9,
    ensures
        0 <= empties_from(b, i) <= 9 - i,
    decreases 9 - i,
{
    if i < 9 {
        lemma_empties_from_bounds(b, i + 1);
    }
}

/// Writing a non-empty mark into an empty cell lowers the count of empty
/// cells in any suffix that contains that cell by exactly one.
pub proof fn lemma_empties_from_update(b: Seq<GameCell>, j: int, m: GameCell, i: int)
    requires
        b.len() == 9,
        0 <= j < 9,
        0 <= i <= 9,
        b[j] == GameCell::Empty,
        m != GameCell::Empty,
    ensures
        empties_from(b.update(j, m), i) == empties_from(b, i) - (if i <= j { 1int } else { 0int }),
    decreases 9 - i,
{
    if i < 9 {
        lemma_empties_from_update(b, j, m, i + 1);
    }
}

/// A suffix has no empty cell exactly when its empty-cell count is zero.
pub proof fn lemma_empties_from_zero(b: Seq<GameCell>, i: int)
    requires
        0 <= i <= 9,
    ensures
        (empties_from(b, i) == 0) <==> (forall|t: int| i <= t < 9 ==> b[t] != GameCell::Empty),
    decreases 9 - i,
{
    lemma_empties_from_bounds(b, i);
    if i < 9 {
        lemma_empties_from_zero(b, i + 1);
        lemma_empties_from_bounds(b, i + 1);
    }
}

/// A board is full exactly when it has no empty cell.
pub proof fn lemma_full_iff_num_empty_zero(b: Seq<GameCell>)
    ensures
        full(b) <==> num_empty(b) == 0,
{
    lemma_empties_from_zero(b, 0);
}

/// A board is reported still open exactly when neither player has a
/// completed line and some cell is still empty.
pub proof fn lemma_outcome_undecided(b: Seq<GameCell>)
    requires
        b.len() == 9,
    ensures
        (outcome_of(b) is Undecided) <==> (!wins(b, Player::Player1) && !wins(b, Player::Player2)
            && !full(b)),
{
}

/// The detector reports a win only for a player who really has completed a
/// line, and whenever exactly one player has a completed line it reports the
/// win for that player.
pub proof fn lemma_win_detection(b: Seq<GameCell>, p: Player)
    requires
        b.len() == 9,
    ensures
        outcome_of(b) == OutcomeKind::Win(p) ==> wins(b, p),
        wins(b, p) && !wins(b, next_player(p)) ==> outcome_of(b) == OutcomeKind::Win(p),
{
}

impl Board {
    /// The mark that fills the line over cells `i`, `j`, `k`, if any.
    fn line(&self, i: usize, j: usize, k: usize) -> (r: Option<GameCell>)
        requires
            self.wf(),
            i < 9,
            j < 9,
            k < 9,
        ensures
            r == line_mark(self@, i as int, j as int, k as int),
    {
        let a = self.cell((i / 3, i % 3));
        let x = self.cell((j / 3, j % 3));
        let y = self.cell((k / 3, k % 3));
        if a != GameCell::Empty && a == x && x == y {
            Some(a)
        } else {
            None
        }
    }

    /// True when no cell of the board is empty.
    fn is_full(&self) -> (r: bool)
        requires
            self.wf(),
        ensures
            r == full(self@),
    {
        let mut i: usize = 0;
        while i < 9
            invariant
                self.wf(),
                i <= 9,
                forall|t: int| 0 <= t < i ==> self@[t] != GameCell::Empty,
            decreases 9 - i,
        {
            if self.cell((i / 3, i % 3)) == GameCell::Empty {
                return false;
            }
            i = i + 1;
        }
        true
    }

    /// The number of empty cells on the board.
    pub fn count_empty(&self) -> (n: usize)
        requires
            self.wf(),
        ensures
            n == num_empty(self@),
    {
        let mut i: usize = 9;
        let mut n: usize = 0;
        while i > 0
            invariant
                self.wf(),
                i <= 9,
                n == empties_from(self@, i as int),
                n <= 9 - i,
            decreases i,
        {
            i = i - 1;
            if self.cell((i / 3, i % 3)) == GameCell::Empty {
                n = n + 1;
            }
        }
        n
    }
}

/// Evaluates the eight lines of `board` in the fixed order and classifies the
/// board as won, drawn or still open.
pub fn detect(board: &Board) -> (r: OutcomeKind)
    requires
        board.wf(),
    ensures
        r == outcome_of(board@),
{
    let lines: [(usize, usize, usize); 8] = [
        (0, 1, 2),
        (3, 4, 5),
        (6, 7, 8),
        (0, 3, 6),
        (1, 4, 7),
        (2, 5, 8),
        (0, 4, 8),
        (2, 4, 6),
    ];
    let mut i: usize = 0;
    while i < 8
        invariant
            board.wf(),
            i <= 8,
            lines@ =~= seq![(0usize, 1usize, 2usize), (3, 4, 5), (6, 7, 8), (0, 3, 6), (1, 4, 7), (2, 5, 8), (0, 4, 8), (2, 4, 6)],
            forall|t: int| 0 <= t < i ==> line_mark(board@, lines@[t].0 as int, lines@[t].1 as int, lines@[t].2 as int) is None,
        decreases 8 - i,
    {
        let (a, x, y) = lines[i];
        if let Some(m) = board.line(a, x, y) {
            return OutcomeKind::Win(if m == GameCell::Cross {
                Player::Player1
            } else {
                Player::Player2
            });
        }
        i = i + 1;
    }
    if board.is_full() {
        OutcomeKind::Draw
    } else {
        OutcomeKind::Undecided
    }
}

} // verus!
