//! Core data model of the game: players, cell marks, the 3x3 board, and the
//! engine that drives a single game (see also `detector` and `computer_player`).

use vstd::prelude::*;
use vstd::string::StringExecFns;
use vstd::wrapping::u64_specs;
use crate::app::Score;
use crate::computer_player::{Opponent, best_move, minimax_move, nth_empty, random_move};
use crate::detector::{
    OutcomeKind, detect, lemma_empties_from_bounds, lemma_empties_from_update,
    lemma_full_iff_num_empty_zero, lemma_outcome_undecided, num_empty, outcome_of,
};

verus! {

/// The two players. Player 1 always places crosses, player 2 circles.
#[derive(Clone, Copy, Debug, PartialEq, Eq, Structural)]
pub enum Player {
    Player1,
    Player2,
}

/// The player whose turn follows `p`'s.
pub open spec fn next_player(p: Player) -> Player {
    match p {
        Player::Player1 => Player::Player2,
        Player::Player2 => Player::Player1,
    }
}

impl Player {
    /// The other player.
    pub fn next(&self) -> (r: Player)
        ensures
            r == next_player(*self),
    {
        match self {
            Player::Player1 => Player::Player2,
            Player::Player2 => Player::Player1,
        }
    }

    /// The mark this player places.
    pub fn mark(&self) -> (m: GameCell)
        ensures
            m == mark_of(*self),
    {
        match self {
            Player::Player1 => GameCell::Cross,
            Player::Player2 => GameCell::Circle,
        }
    }
}

/// One cell of the board. A cell is immutable once it is non-empty.
#[derive(Clone, Copy, Debug, PartialEq, Eq, Structural)]
pub enum GameCell {
    Empty,
    Cross,
    Circle,
}

/// The mark that `p` places on the board.
pub open spec fn mark_of(p: Player) -> GameCell {
    match p {
        Player::Player1 => GameCell::Cross,
        Player::Player2 => GameCell::Circle,
    }
}

impl GameCell {
    /// The one-character text shown for this cell. `pos`, when given, must be a
    /// valid board coordinate pair.
    pub fn to_text(&self, pos: Option<(usize, usize)>) -> (r: String)
        requires
            pos matches Some(p) ==> p.0 < 3 && p.1 < 3,
        ensures
            *self == GameCell::Empty ==> r@ == "L"@,
            *self == GameCell::Cross ==> r@ == "X"@,
            *self == GameCell::Circle ==> r@ == "O"@,
    {
        match self {
            GameCell::Empty => String::from_str("L"),
            GameCell::Cross => String::from_str("X"),
            GameCell::Circle => String::from_str("O"),
        }
    }
}

/// A (row, column) coordinate pair; each component is in 0..3.
pub type Position = (usize, usize);

/// The row-major index of the cell at (`row`, `col`).
pub open spec fn cell_index(row: int, col: int) -> int {
    row * 3 + col
}

/// The 3x3 grid of cells, stored row-major.
#[derive(Debug, PartialEq)]
pub struct Board {
    cells: Vec<GameCell>,
}

impl View for Board {
    type V = Seq<GameCell>;

    closed spec fn view(&self) -> Seq<GameCell> {
        self.cells@
    }
}

/// The board every game starts from.
pub open spec fn empty_board() -> Seq<GameCell> {
    Seq::new(9, |i: int| GameCell::Empty)
}

impl Board {
    /// A board holds exactly nine cells.
    pub open spec fn wf(&self) -> bool {
        self@.len() == 9
    }

    /// A board with all nine cells empty.
    pub fn new() -> (b: Board)
        ensures
            b.wf(),
            b@ == empty_board(),
    {
        let mut cells: Vec<GameCell> = Vec::new();
        let mut i: usize = 0;
        while i < 9
            invariant
                i <= 9,
                cells@.len() == i,
                forall|j: int| 0 <= j < i ==> cells@[j] == GameCell::Empty,
            decreases 9 - i,
        {
            cells.push(GameCell::Empty);
            i = i + 1;
        }
        let b = Board { cells };
        proof {
            assert(b@ =~= empty_board());
        }
        b
    }

    /// The cell at `pos`, or `None` when `pos` lies outside the grid.
    pub fn get(&self, pos: Position) -> (r: Option<GameCell>)
        requires
            self.wf(),
        ensures
            pos.0 < 3 && pos.1 < 3 ==> r == Some(self@[cell_index(pos.0 as int, pos.1 as int)]),
            !(pos.0 < 3 && pos.1 < 3) ==> r is None,
    {
        if pos.0 < 3 && pos.1 < 3 {
            Some(self.cells[pos.0 * 3 + pos.1])
        } else {
            None
        }
    }

    /// The cell at an in-range `pos`.
    pub fn cell(&self, pos: Position) -> (r: GameCell)
        requires
            self.wf(),
            pos.0 < 3,
            pos.1 < 3,
        ensures
            r == self@[cell_index(pos.0 as int, pos.1 as int)],
    {
        self.cells[pos.0 * 3 + pos.1]
    }

    /// Writes `mark` into the empty cell at `pos`.
    pub fn set(&mut self, pos: Position, mark: GameCell)
        requires
            old(self).wf(),
            pos.0 < 3,
            pos.1 < 3,
            old(self)@[cell_index(pos.0 as int, pos.1 as int)] == GameCell::Empty,
            mark != GameCell::Empty,
        ensures
            final(self).wf(),
            final(self)@ == old(self)@.update(cell_index(pos.0 as int, pos.1 as int), mark),
    {
        self.cells[pos.0 * 3 + pos.1] = mark;
    }

    /// An independent copy of this board.
    pub fn duplicate(&self) -> (r: Board)
        requires
            self.wf(),
        ensures
            r.wf(),
            r@ == self@,
    {
        let mut cells: Vec<GameCell> = Vec::new();
        let mut i: usize = 0;
        while i < 9
            invariant
                i <= 9,
                self.wf(),
                cells@.len() == i,
                forall|j: int| 0 <= j < i ==> cells@[j] == self@[j],
            decreases 9 - i,
        {
            cells.push(self.cells[i]);
            i = i + 1;
        }
        let b = Board { cells };
        proof {
            assert(b@ =~= self@);
        }
        b
    }
}

/// A recoverable, user-visible condition reported by the engine. Each is
/// surfaced as a transient warning string and cleared by the next successful
/// state-changing action.
#[derive(Clone, Copy, Debug, PartialEq, Eq, Structural)]
pub enum Warning {
    CellTaken,
    GameIsOver,
    OutOfRange,
}

/// The warning string shown for `w`.
pub open spec fn warning_text(w: Warning) -> Seq<char> {
    match w {
        Warning::CellTaken => "This cell is already taken!"@,
        Warning::GameIsOver => "Game is over!"@,
        Warning::OutOfRange => "This cell is out of range!"@,
    }
}

/// A cursor movement request; movement clamps at the board edges.
#[derive(Clone, Copy, Debug, PartialEq, Eq, Structural)]
pub enum Direction {
    Up,
    Down,
    Left,
    Right,
}

/// A snapshot of the game as handed to the rendering layer.
#[derive(Debug, PartialEq)]
pub enum GameState {
    GameOver(Option<Player>),
    GameInProgress(Board, Player, Position),
}

/// The mathematical content of a `GameState` snapshot.
pub enum GameStateModel {
    Over(Option<Player>),
    InProgress(Seq<GameCell>, Player, (int, int)),
}

impl View for GameState {
    type V = GameStateModel;

    open spec fn view(&self) -> GameStateModel {
        match self {
            GameState::GameOver(w) => GameStateModel::Over(*w),
            GameState::GameInProgress(b, p, pos) => GameStateModel::InProgress(
                b@,
                *p,
                (pos.0 as int, pos.1 as int),
            ),
        }
    }
}

impl GameState {
    /// An independent copy of this snapshot.
    pub fn duplicate(&self) -> (r: GameState)
        requires
            self matches GameState::GameInProgress(b, _, _) ==> b.wf(),
        ensures
            r@ == self@,
    {
        match self {
            GameState::GameOver(w) => GameState::GameOver(*w),
            GameState::GameInProgress(b, p, pos) => GameState::GameInProgress(
                b.duplicate(),
                *p,
                *pos,
            ),
        }
    }
}

/// The multiplier of the linear-congruential step that feeds the random
/// opponent.
pub const RNG_MUL: u64 = 6364136223846793005;

/// The increment of the linear-congruential step.
pub const RNG_INC: u64 = 1442695040888963407;

/// The seed every fresh engine starts from; tests may inject another through
/// `set_seed`.
pub const DEFAULT_SEED: u64 = 0x853c49e6748fea9b;

/// One step of the linear-congruential generator.
pub open spec fn rng_next(s: u64) -> u64 {
    u64_specs::wrapping_add(u64_specs::wrapping_mul(s, RNG_MUL), RNG_INC)
}

/// The mathematical state of a game engine.
pub struct GameModel {
    /// The nine cells, row-major.
    pub board: Seq<GameCell>,
    /// The cursor row.
    pub row: int,
    /// The cursor column.
    pub col: int,
    /// The player whose turn it is.
    pub player: Player,
    /// The winner once the game is over; `None` stands for a draw, and also
    /// for a game still in progress.
    pub winner: Option<Player>,
    /// The pending warning, if any.
    pub warning: Option<Warning>,
    /// Whether the game is still in progress.
    pub playing: bool,
    /// Whether something changed since the last snapshot was taken.
    pub changed: bool,
    /// The configured opponent for the second player.
    pub opponent: Opponent,
    /// The state of the injected randomness source.
    pub rng: u64,
}

/// Well-formedness of an engine state: nine cells, an in-range cursor, and no
/// winner while the game is in progress.
pub open spec fn model_wf(m: GameModel) -> bool {
    &&& m.board.len() == 9
    &&& 0 <= m.row < 3
    &&& 0 <= m.col < 3
    &&& (m.playing ==> m.winner is None)
}

/// The state a fresh engine starts from.
pub open spec fn initial_model(opponent: Opponent, seed: u64) -> GameModel {
    GameModel {
        board: empty_board(),
        row: 0,
        col: 0,
        player: Player::Player1,
        winner: None,
        warning: None,
        playing: true,
        changed: true,
        opponent: opponent,
        rng: seed,
    }
}

/// One placement attempt at the cursor for the player to move: an occupied
/// cell leaves the board alone and raises a warning; an empty cell takes the
/// mark, and the game is then either closed with the board's outcome or play
/// passes to the other player.
pub open spec fn place_step_spec(m: GameModel) -> GameModel {
    let i = cell_index(m.row, m.col);
    if !(0 <= i < 9) {
        GameModel { warning: Some(Warning::OutOfRange), changed: true, ..m }
    } else if m.board[i] != GameCell::Empty {
        GameModel { warning: Some(Warning::CellTaken), changed: true, ..m }
    } else {
        let b = m.board.update(i, mark_of(m.player));
        match outcome_of(b) {
            OutcomeKind::Win(p) => GameModel {
                board: b,
                winner: Some(p),
                playing: false,
                changed: true,
                warning: None,
                ..m
            },
            OutcomeKind::Draw => GameModel {
                board: b,
                winner: None,
                playing: false,
                changed: true,
                warning: None,
                ..m
            },
            OutcomeKind::Undecided => GameModel {
                board: b,
                player: next_player(m.player),
                changed: true,
                warning: None,
                ..m
            },
        }
    }
}

/// The computer's reply, applied through the same placement procedure: the
/// random opponent steps the generator and takes the drawn empty cell, the
/// minimax opponent takes its searched move, a human opponent does nothing.
pub open spec fn auto_reply_spec(m: GameModel) -> GameModel {
    match m.opponent {
        Opponent::Human => m,
        Opponent::Random => {
            let r2 = rng_next(m.rng);
            let t = nth_empty(m.board, r2 as int % num_empty(m.board));
            place_step_spec(GameModel { row: t / 3, col: t % 3, rng: r2, ..m })
        },
        Opponent::Minimax => {
            let t = best_move(m.board, m.player);
            place_step_spec(GameModel { row: t / 3, col: t % 3, ..m })
        },
    }
}

/// The full effect of `place`: a warning once the game is over; otherwise one
/// placement attempt and, when that attempt took an empty cell, left the game
/// open and handed the turn to a computer-controlled second player, that
/// player's immediate reply.
pub open spec fn place_spec(m: GameModel) -> GameModel {
    if !m.playing {
        GameModel { warning: Some(Warning::GameIsOver), ..m }
    } else {
        let m1 = place_step_spec(m);
        if m.board[cell_index(m.row, m.col)] == GameCell::Empty && m1.playing && m1.player
            is Player2 {
            auto_reply_spec(m1)
        } else {
            m1
        }
    }
}

/// The cursor position reached from (`row`, `col`) by moving one step in `d`,
/// clamped at the board edges.
pub open spec fn cursor_target(row: int, col: int, d: Direction) -> (int, int) {
    match d {
        Direction::Up => (if row > 0 { row - 1 } else { row }, col),
        Direction::Down => (if row < 2 { row + 1 } else { row }, col),
        Direction::Left => (row, if col > 0 { col - 1 } else { col }),
        Direction::Right => (row, if col < 2 { col + 1 } else { col }),
    }
}

/// The full effect of a cursor movement: a warning once the game is over;
/// otherwise the clamped move, which clears any warning and counts as a
/// change exactly when the cursor actually moved.
pub open spec fn move_cursor_spec(m: GameModel, d: Direction) -> GameModel {
    if !m.playing {
        GameModel { warning: Some(Warning::GameIsOver), ..m }
    } else {
        let t = cursor_target(m.row, m.col, d);
        GameModel {
            row: t.0,
            col: t.1,
            warning: None,
            changed: m.changed || t != (m.row, m.col),
            ..m
        }
    }
}

/// The snapshot derived from an engine state.
pub open spec fn snapshot_spec(m: GameModel) -> GameStateModel {
    if !m.playing {
        GameStateModel::Over(m.winner)
    } else {
        GameStateModel::InProgress(m.board, m.player, (m.row, m.col))
    }
}

/// Placing on an empty cell adds exactly the moving player's mark there and
/// leaves exactly one fewer empty cell than before.
pub proof fn lemma_place_on_empty_adds_one(m: GameModel)
    requires
        model_wf(m),
        m.playing,
        m.board[cell_index(m.row, m.col)] == GameCell::Empty,
    ensures
        place_step_spec(m).board == m.board.update(cell_index(m.row, m.col), mark_of(m.player)),
        num_empty(place_step_spec(m).board) == num_empty(m.board) - 1,
{
    lemma_empties_from_update(m.board, cell_index(m.row, m.col), mark_of(m.player), 0);
}

/// Placing on an occupied cell leaves board, turn and phase untouched and
/// only reports the condition.
pub proof fn lemma_place_on_occupied_unchanged(m: GameModel)
    requires
        model_wf(m),
        m.playing,
        m.board[cell_index(m.row, m.col)] != GameCell::Empty,
    ensures
        place_step_spec(m) == (GameModel { warning: Some(Warning::CellTaken), changed: true, ..m }),
{
}

/// A successful placement that leaves the game open hands the turn to the
/// other player.
pub proof fn lemma_turn_alternation(m: GameModel)
    requires
        model_wf(m),
        m.playing,
        m.board[cell_index(m.row, m.col)] == GameCell::Empty,
        place_step_spec(m).playing,
    ensures
        place_step_spec(m).player == next_player(m.player),
{
}

/// The game engine: the board, whose turn it is, the cursor, the configured
/// opponent, and the change-detection flag behind `get_state`.
pub struct Game {
    board: Board,
    current_position: Position,
    current_player: Player,
    winner: Option<Player>,
    warning: Option<Warning>,
    opponent: Opponent,
    should_continue: bool,
    state_changed: bool,
    rng: u64,
}

impl View for Game {
    type V = GameModel;

    closed spec fn view(&self) -> GameModel {
        GameModel {
            board: self.board@,
            row: self.current_position.0 as int,
            col: self.current_position.1 as int,
            player: self.current_player,
            winner: self.winner,
            warning: self.warning,
            playing: self.should_continue,
            changed: self.state_changed,
            opponent: self.opponent,
            rng: self.rng,
        }
    }
}

impl Game {
    /// Well-formedness of the engine.
    pub open spec fn wf(&self) -> bool {
        model_wf(self@)
    }

    /// A fresh game against `opponent`: empty board, cursor at the origin,
    /// player 1 to move.
    pub fn new(opponent: Opponent) -> (g: Game)
        ensures
            g.wf(),
            g@ == initial_model(opponent, DEFAULT_SEED),
    {
        Game {
            board: Board::new(),
            current_position: (0, 0),
            current_player: Player::Player1,
            winner: None,
            warning: None,
            opponent: opponent,
            should_continue: true,
            state_changed: true,
            rng: DEFAULT_SEED,
        }
    }

    /// Discards the game and starts a fresh one against `opponent`, keeping
    /// the randomness state.
    pub fn reset(&mut self, opponent: Opponent)
        ensures
            final(self).wf(),
            final(self)@ == initial_model(opponent, old(self)@.rng),
    {
        let seed = self.rng;
        let mut g = Game::new(opponent);
        g.rng = seed;
        *self = g;
    }

    /// Injects a seed for the randomness source feeding the random opponent.
    pub fn set_seed(&mut self, seed: u64)
        ensures
            final(self)@ == (GameModel { rng: seed, ..old(self)@ }),
    {
        self.rng = seed;
    }

    /// True once the game has ended in a win or a draw.
    pub fn is_over(&self) -> (r: bool)
        ensures
            r == !self@.playing,
    {
        !self.should_continue
    }

    /// The configured opponent.
    pub fn get_opponent(&self) -> (r: Opponent)
        ensures
            r == self@.opponent,
    {
        self.opponent
    }

    /// This game's contribution to the running score: one point for the
    /// winner, no points for a draw or an unfinished game.
    pub fn get_score(&self) -> (s: Score)
        ensures
            self@.winner == Some(Player::Player1) ==> s.player1 == 1 && s.player2 == 0,
            self@.winner == Some(Player::Player2) ==> s.player1 == 0 && s.player2 == 1,
            self@.winner is None ==> s.player1 == 0 && s.player2 == 0,
    {
        match self.winner {
            Some(Player::Player1) => Score { player1: 1, player2: 0 },
            Some(Player::Player2) => Score { player1: 0, player2: 1 },
            None => Score::new(),
        }
    }

    /// The pending warning as a display string.
    pub fn get_warning_message(&self) -> (r: Option<String>)
        ensures
            r is Some <==> self@.warning is Some,
            self@.warning matches Some(w) ==> (r matches Some(s) && s@ == warning_text(w)),
    {
        match self.warning {
            None => None,
            Some(Warning::CellTaken) => Some(String::from_str("This cell is already taken!")),
            Some(Warning::GameIsOver) => Some(String::from_str("Game is over!")),
            Some(Warning::OutOfRange) => Some(String::from_str("This cell is out of range!")),
        }
    }

    /// Clears the pending warning.
    pub fn clear_warning(&mut self)
        ensures
            final(self)@ == (GameModel { warning: None, ..old(self)@ }),
    {
        self.warning = None;
    }

    /// The board as currently played.
    pub fn get_board(&self) -> (b: &Board)
        ensures
            b@ == self@.board,
    {
        &self.board
    }

    /// The cursor position.
    pub fn get_position(&self) -> (p: Position)
        ensures
            p.0 as int == self@.row,
            p.1 as int == self@.col,
    {
        self.current_position
    }

    /// The player whose turn it is.
    pub fn get_current_player(&self) -> (p: Player)
        ensures
            p == self@.player,
    {
        self.current_player
    }

    /// The winner, once the game is over.
    pub fn get_winner(&self) -> (w: Option<Player>)
        ensures
            w == self@.winner,
    {
        self.winner
    }

    /// The mark the player to move would place.
    fn get_current_player_cell(&self) -> (m: GameCell)
        ensures
            m == mark_of(self@.player),
    {
        self.current_player.mark()
    }

    /// One placement attempt at the cursor; returns whether a mark was
    /// placed.
    fn place_step(&mut self) -> (placed: bool)
        requires
            old(self).wf(),
            old(self)@.playing,
        ensures
            final(self).wf(),
            final(self)@ == place_step_spec(old(self)@),
            placed == (old(self)@.board[cell_index(old(self)@.row, old(self)@.col)]
                == GameCell::Empty),
            placed && final(self)@.playing ==> outcome_of(final(self)@.board) is Undecided
                && final(self)@.player == next_player(old(self)@.player) && num_empty(
                final(self)@.board,
            ) > 0,
    {
        let pos = self.current_position;
        match self.board.get(pos) {
            None => {
                self.state_changed = true;
                self.warning = Some(Warning::OutOfRange);
                false
            },
            Some(cell) => {
                if cell == GameCell::Empty {
                    let mark = self.get_current_player_cell();
                    self.board.set(pos, mark);
                    self.state_changed = true;
                    self.warning = None;
                    match detect(&self.board) {
                        OutcomeKind::Win(p) => {
                            self.winner = Some(p);
                            self.should_continue = false;
                        },
                        OutcomeKind::Draw => {
                            self.winner = None;
                            self.should_continue = false;
                        },
                        OutcomeKind::Undecided => {
                            self.current_player = self.current_player.next();
                        },
                    }
                    proof {
                        lemma_outcome_undecided(self@.board);
                        lemma_full_iff_num_empty_zero(self@.board);
                        lemma_empties_from_bounds(self@.board, 0);
                    }
                    true
                } else {
                    self.state_changed = true;
                    self.warning = Some(Warning::CellTaken);
                    false
                }
            },
        }
    }

    /// Places the current player's mark at the cursor. On an occupied cell
    /// only a warning is raised; on an empty cell the mark is written, the
    /// outcome evaluated, and a computer-controlled second player replies at
    /// once, so one call can close the game or advance it by two moves.
    pub fn place(&mut self)
        requires
            old(self).wf(),
        ensures
            final(self).wf(),
            final(self)@ == place_spec(old(self)@),
    {
        if !self.should_continue {
            self.warning = Some(Warning::GameIsOver);
            return;
        }
        let placed = self.place_step();
        if placed && self.should_continue {
            if self.current_player == Player::Player2 {
                match self.opponent {
                    Opponent::Human => {},
                    Opponent::Random => {
                        self.rng = self.rng.wrapping_mul(RNG_MUL).wrapping_add(RNG_INC);
                        let pos = random_move(&self.board, self.rng);
                        proof {
                            let t = nth_empty(self@.board, self@.rng as int % num_empty(self@.board));
                            assert(pos.0 as int == t / 3 && pos.1 as int == t % 3);
                        }
                        self.current_position = pos;
                        self.place_step();
                    },
                    Opponent::Minimax => {
                        let pos = minimax_move(&self.board, Player::Player2);
                        proof {
                            let t = best_move(self@.board, Player::Player2);
                            assert(pos.0 as int == t / 3 && pos.1 as int == t % 3);
                        }
                        self.current_position = pos;
                        self.place_step();
                    },
                }
            }
        }
    }

    /// Moves the cursor one step in `direction`, clamped at the board edges;
    /// a no-op beyond the warning once the game is over.
    pub fn move_cursor(&mut self, direction: Direction)
        requires
            old(self).wf(),
        ensures
            final(self).wf(),
            final(self)@ == move_cursor_spec(old(self)@, direction),
    {
        if !self.should_continue {
            self.warning = Some(Warning::GameIsOver);
            return;
        }
        self.warning = None;
        let (r, c) = self.current_position;
        let target: Position = match direction {
            Direction::Up => (if r > 0 { r - 1 } else { r }, c),
            Direction::Down => (if r < 2 { r + 1 } else { r }, c),
            Direction::Left => (r, if c > 0 { c - 1 } else { c }),
            Direction::Right => (r, if c < 2 { c + 1 } else { c }),
        };
        if target.0 != r || target.1 != c {
            self.state_changed = true;
        }
        self.current_position = target;
    }

    /// Moves the cursor one row up.
    pub fn on_up(&mut self)
        requires
            old(self).wf(),
        ensures
            final(self).wf(),
            final(self)@ == move_cursor_spec(old(self)@, Direction::Up),
    {
        self.move_cursor(Direction::Up);
    }

    /// Moves the cursor one row down.
    pub fn on_down(&mut self)
        requires
            old(self).wf(),
        ensures
            final(self).wf(),
            final(self)@ == move_cursor_spec(old(self)@, Direction::Down),
    {
        self.move_cursor(Direction::Down);
    }

    /// Moves the cursor one column left.
    pub fn on_left(&mut self)
        requires
            old(self).wf(),
        ensures
            final(self).wf(),
            final(self)@ == move_cursor_spec(old(self)@, Direction::Left),
    {
        self.move_cursor(Direction::Left);
    }

    /// Moves the cursor one column right.
    pub fn on_right(&mut self)
        requires
            old(self).wf(),
        ensures
            final(self).wf(),
            final(self)@ == move_cursor_spec(old(self)@, Direction::Right),
    {
        self.move_cursor(Direction::Right);
    }

    /// The edge-triggered snapshot: a value on the first call after a change,
    /// nothing on later calls until the next change.
    pub fn get_state(&mut self) -> (r: Option<GameState>)
        requires
            old(self).wf(),
        ensures
            final(self).wf(),
            final(self)@ == (GameModel { changed: false, ..old(self)@ }),
            old(self)@.changed ==> (r matches Some(gs) && gs@ == snapshot_spec(old(self)@)),
            !old(self)@.changed ==> r is None,
    {
        if self.state_changed {
            self.state_changed = false;
            if self.is_over() {
                Some(GameState::GameOver(self.winner))
            } else {
                Some(
                    GameState::GameInProgress(
                        self.board.duplicate(),
                        self.current_player,
                        self.current_position,
                    ),
                )
            }
        } else {
            None
        }
    }
}

} // verus!
