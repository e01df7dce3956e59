//! The application layer around one engine: the start and in-game menus, the
//! running score across games, and the dispatch of decoded key presses.

use vstd::prelude::*;
use crate::computer_player::Opponent;
use crate::game::{
    DEFAULT_SEED, Direction, Game, GameModel, GameState, Player, initial_model,
    move_cursor_spec, place_spec, snapshot_spec, warning_text,
};
use crate::update::Key;

verus! {

/// Wins accumulated by each player across games.
#[derive(Clone, Copy, Debug, PartialEq, Eq, Structural)]
pub struct Score {
    pub player1: u32,
    pub player2: u32,
}

impl Score {
    /// A zero score.
    pub fn new() -> (s: Score)
        ensures
            s.player1 == 0,
            s.player2 == 0,
    {
        Score { player1: 0, player2: 0 }
    }

    /// Adds `other` to this score, saturating at the counter limits.
    pub fn accumulate(&mut self, other: &Score)
        ensures
            final(self).player1 == sat_add_u32(old(self).player1, other.player1),
            final(self).player2 == sat_add_u32(old(self).player2, other.player2),
    {
        self.player1 = add_saturating(self.player1, other.player1);
        self.player2 = add_saturating(self.player2, other.player2);
    }
}

/// `a + b`, capped at the largest `u32`.
pub open spec fn sat_add_u32(a: u32, b: u32) -> int {
    if a + b <= u32::MAX {
        a + b
    } else {
        u32::MAX as int
    }
}

/// Saturating addition on `u32`.
fn add_saturating(a: u32, b: u32) -> (r: u32)
    ensures
        r == sat_add_u32(a, b),
{
    if a <= u32::MAX - b {
        a + b
    } else {
        u32::MAX
    }
}

/// The application-level phase: one of the two menus (with the selected row),
/// a running game, or the request to leave.
#[derive(Debug, PartialEq)]
pub enum AppState {
    StartMenu(u8),
    Playing(GameState),
    GameMenu(u8),
    Quit,
}

/// The whole application: one engine, the running score, and the phase shown
/// to the rendering layer.
pub struct App {
    pub name: String,
    pub game: Game,
    pub score: Score,
    pub state: AppState,
    pub warning_message: Option<String>,
    pub prev_state: Option<GameState>,
}

/// Well-formedness of a board inside a snapshot held by the application.
pub open spec fn state_boards_wf(s: AppState) -> bool {
    match s {
        AppState::Playing(GameState::GameInProgress(b, _, _)) => b.wf(),
        _ => true,
    }
}

impl App {
    /// Well-formedness of the application: a well-formed engine, menu rows in
    /// range, a saved snapshot whenever the in-game menu is open, and
    /// well-formed boards in the held snapshots.
    pub open spec fn wf(&self) -> bool {
        &&& self.game.wf()
        &&& state_boards_wf(self.state)
        &&& match self.state {
            AppState::StartMenu(r) => r < 3,
            AppState::GameMenu(r) => r < 3 && self.prev_state is Some,
            _ => true,
        }
        &&& match self.prev_state {
            Some(GameState::GameInProgress(b, _, _)) => b.wf(),
            _ => true,
        }
    }
}

/// `post` is `pre` with the phase set to `Quit`.
pub open spec fn quit_rel(pre: App, post: App) -> bool {
    &&& post.name@ == pre.name@
    &&& post.game == pre.game
    &&& post.score == pre.score
    &&& post.warning_message == pre.warning_message
    &&& post.prev_state == pre.prev_state
    &&& post.state is Quit
}

/// `post` is `pre` with the in-game menu toggled: entering the menu saves the
/// running snapshot, leaving it restores the saved one; in any other phase
/// nothing changes.
pub open spec fn toggle_rel(pre: App, post: App) -> bool {
    &&& post.name@ == pre.name@
    &&& post.game == pre.game
    &&& post.score == pre.score
    &&& post.warning_message == pre.warning_message
    &&& match pre.state {
        AppState::GameMenu(_) => {
            &&& post.prev_state == pre.prev_state
            &&& (pre.prev_state matches Some(p) ==> (post.state matches AppState::Playing(gs)
                && gs@ == p@))
        },
        AppState::Playing(g0) => {
            &&& post.state == AppState::GameMenu(0u8)
            &&& (post.prev_state matches Some(p) && p@ == g0@)
        },
        _ => post.state == pre.state && post.prev_state == pre.prev_state,
    }
}

/// The menu row reached from `r` by stepping once (`up` steps forward), with
/// wrap-around over the three rows.
pub open spec fn row_step(r: int, up: bool) -> int {
    if up {
        (r + 1) % 3
    } else {
        (r + 2) % 3
    }
}

/// `post` is `pre` with the selected menu row stepped once; outside the menus
/// nothing changes.
pub open spec fn next_row_rel(pre: App, post: App, up: bool) -> bool {
    &&& post.name@ == pre.name@
    &&& post.game == pre.game
    &&& post.score == pre.score
    &&& post.warning_message == pre.warning_message
    &&& post.prev_state == pre.prev_state
    &&& match pre.state {
        AppState::GameMenu(x) => post.state == AppState::GameMenu(row_step(x as int, up) as u8),
        AppState::StartMenu(x) => post.state == AppState::StartMenu(row_step(x as int, up) as u8),
        _ => post.state == pre.state,
    }
}

/// `post` is `pre` with a fresh game against `opponent` started and its first
/// snapshot taken as the running phase.
pub open spec fn start_game_rel(pre: App, post: App, opponent: Opponent) -> bool {
    &&& post.name@ == pre.name@
    &&& post.score == pre.score
    &&& post.warning_message == pre.warning_message
    &&& post.prev_state == pre.prev_state
    &&& post.game@ == (GameModel { changed: false, ..initial_model(opponent, DEFAULT_SEED) })
    &&& (post.state matches AppState::Playing(gs) && gs@ == snapshot_spec(
        initial_model(opponent, DEFAULT_SEED),
    ))
}

/// `post` is `pre` with the game discarded and replaced by a fresh one
/// against the same opponent, keeping the randomness state.
pub open spec fn reset_rel(pre: App, post: App) -> bool {
    &&& post.name@ == pre.name@
    &&& post.score == pre.score
    &&& post.prev_state == pre.prev_state
    &&& post.game@ == (GameModel {
        changed: false,
        ..initial_model(pre.game@.opponent, pre.game@.rng)
    })
    &&& (post.state matches AppState::Playing(gs) && gs@ == snapshot_spec(
        initial_model(pre.game@.opponent, pre.game@.rng),
    ))
    &&& post.warning_message is None
}

/// `post` is `pre` with the cursor of the running game moved in `d` and
/// nothing else touched.
pub open spec fn cursor_rel(pre: App, post: App, d: Direction) -> bool {
    &&& post.name@ == pre.name@
    &&& post.score == pre.score
    &&& post.warning_message == pre.warning_message
    &&& post.prev_state == pre.prev_state
    &&& post.state == pre.state
    &&& post.game@ == move_cursor_spec(pre.game@, d)
}

/// `post` is `pre` after the in-game key `c`: `p` places at the cursor while
/// the game runs, `q` quits, `r` resets, `m` opens the menu, and any other
/// key only clears the engine's warning once the game is over.
pub open spec fn on_key_rel(pre: App, c: char, post: App) -> bool {
    if c == 'p' {
        &&& post.name@ == pre.name@
        &&& post.score == pre.score
        &&& post.warning_message == pre.warning_message
        &&& post.prev_state == pre.prev_state
        &&& post.state == pre.state
        &&& if pre.game@.playing {
            post.game@ == place_spec(pre.game@)
        } else {
            post.game == pre.game
        }
    } else if c == 'q' {
        quit_rel(pre, post)
    } else if c == 'r' {
        reset_rel(pre, post)
    } else if c == 'm' {
        toggle_rel(pre, post)
    } else {
        &&& post.name@ == pre.name@
        &&& post.score == pre.score
        &&& post.warning_message == pre.warning_message
        &&& post.prev_state == pre.prev_state
        &&& post.state == pre.state
        &&& if !pre.game@.playing {
            post.game@ == (GameModel { warning: None, ..pre.game@ })
        } else {
            post.game == pre.game
        }
    }
}

/// `post` is `mid` after polling the engine once: when something changed
/// since the last poll, the fresh snapshot becomes the running phase, the
/// engine's warning is mirrored, and a finished game adds its point to the
/// score; otherwise nothing changes.
pub open spec fn poll_rel(mid: App, post: App) -> bool {
    &&& post.name@ == mid.name@
    &&& post.prev_state == mid.prev_state
    &&& post.game@ == (GameModel { changed: false, ..mid.game@ })
    &&& if mid.game@.changed {
        &&& (post.state matches AppState::Playing(gs) && gs@ == snapshot_spec(mid.game@))
        &&& (post.warning_message is Some <==> mid.game@.warning is Some)
        &&& (mid.game@.warning matches Some(w) ==> (post.warning_message matches Some(s) && s@
            == warning_text(w)))
        &&& post.score.player1 == (if !mid.game@.playing && mid.game@.winner == Some(
            Player::Player1,
        ) {
            sat_add_u32(mid.score.player1, 1)
        } else {
            mid.score.player1 as int
        })
        &&& post.score.player2 == (if !mid.game@.playing && mid.game@.winner == Some(
            Player::Player2,
        ) {
            sat_add_u32(mid.score.player2, 1)
        } else {
            mid.score.player2 as int
        })
    } else {
        &&& post.state == mid.state
        &&& post.warning_message == mid.warning_message
        &&& post.score == mid.score
    }
}

/// The first half of a key press handled in the running phase, before the
/// engine is polled.
pub open spec fn playing_key_rel(pre: App, key: Key, mid: App) -> bool {
    match key {
        Key::Char(c) => on_key_rel(pre, c, mid),
        Key::Esc => toggle_rel(pre, mid),
        Key::Up => cursor_rel(pre, mid, Direction::Up),
        Key::Down => cursor_rel(pre, mid, Direction::Down),
        Key::Left => cursor_rel(pre, mid, Direction::Left),
        Key::Right => cursor_rel(pre, mid, Direction::Right),
        _ => mid == pre,
    }
}

/// The full effect of one key press on the application, by phase.
pub open spec fn update_rel(pre: App, key: Key, post: App) -> bool {
    match pre.state {
        AppState::GameMenu(x) => match key {
            Key::Char(c) => if c == 'q' {
                quit_rel(pre, post)
            } else if c == 'm' {
                toggle_rel(pre, post)
            } else {
                post == pre
            },
            Key::Enter => if x == 0 {
                toggle_rel(pre, post)
            } else if x == 1 {
                reset_rel(pre, post)
            } else if x == 2 {
                quit_rel(pre, post)
            } else {
                &&& post.name@ == pre.name@
                &&& post.game == pre.game
                &&& post.score == pre.score
                &&& post.warning_message == pre.warning_message
                &&& post.prev_state == pre.prev_state
                &&& post.state == AppState::GameMenu(0u8)
            },
            Key::Up => next_row_rel(pre, post, false),
            Key::Down => next_row_rel(pre, post, true),
            _ => post == pre,
        },
        AppState::Playing(_) => exists|mid: App|
            #[trigger] poll_rel(mid, post) && playing_key_rel(pre, key, mid),
        AppState::StartMenu(x) => match key {
            Key::Char(c) => if c == 'q' {
                quit_rel(pre, post)
            } else {
                post == pre
            },
            Key::Enter => if x == 0 {
                start_game_rel(pre, post, Opponent::Human)
            } else if x == 1 {
                start_game_rel(pre, post, Opponent::Random)
            } else if x == 2 {
                start_game_rel(pre, post, Opponent::Minimax)
            } else {
                &&& post.name@ == pre.name@
                &&& post.game == pre.game
                &&& post.score == pre.score
                &&& post.warning_message == pre.warning_message
                &&& post.prev_state == pre.prev_state
                &&& post.state == AppState::StartMenu(0u8)
            },
            Key::Up => next_row_rel(pre, post, false),
            Key::Down => next_row_rel(pre, post, true),
            _ => post == pre,
        },
        AppState::Quit => post == pre,
    }
}

impl App {
    /// A fresh application showing the start menu, with a placeholder game
    /// against a human opponent and a zero score.
    pub fn new(name: String) -> (a: App)
        ensures
            a.wf(),
            a.name@ == name@,
            a.game@ == initial_model(Opponent::Human, DEFAULT_SEED),
            a.score == (Score { player1: 0u32, player2: 0u32 }),
            a.state == AppState::StartMenu(0u8),
            a.warning_message is None,
            a.prev_state is None,
    {
        let game = Game::new(Opponent::Human);
        App {
            name,
            game,
            score: Score::new(),
            state: AppState::StartMenu(0),
            warning_message: None,
            prev_state: None,
        }
    }

    /// Requests to leave the application.
    pub fn quit(&mut self)
        requires
            old(self).wf(),
        ensures
            final(self).wf(),
            quit_rel(*old(self), *final(self)),
    {
        self.state = AppState::Quit;
    }

    /// Toggles the in-game menu: entering saves the running snapshot,
    /// leaving restores it.
    pub fn toggle_menu(&mut self)
        requires
            old(self).wf(),
        ensures
            final(self).wf(),
            toggle_rel(*old(self), *final(self)),
    {
        match &self.state {
            AppState::GameMenu(_) => {
                let restored = match &self.prev_state {
                    Some(s) => s.duplicate(),
                    None => vstd::pervasive::unreached(),
                };
                self.state = AppState::Playing(restored);
            },
            AppState::Playing(s) => {
                let saved = s.duplicate();
                self.prev_state = Some(saved);
                self.state = AppState::GameMenu(0);
            },
            _ => {},
        }
    }

    /// Steps the selected menu row, wrapping over the three rows.
    pub fn next_row_menu(&mut self, up: bool)
        requires
            old(self).wf(),
        ensures
            final(self).wf(),
            next_row_rel(*old(self), *final(self), up),
    {
        match &self.state {
            AppState::GameMenu(row) => {
                let r = *row;
                self.state = AppState::GameMenu(if up {
                    (r + 1) % 3
                } else {
                    (r + 2) % 3
                });
            },
            AppState::StartMenu(row) => {
                let r = *row;
                self.state = AppState::StartMenu(if up {
                    (r + 1) % 3
                } else {
                    (r + 2) % 3
                });
            },
            _ => {},
        }
    }

    /// Starts a fresh game against `opponent` and shows its first snapshot.
    pub fn start_game(&mut self, opponent: Opponent)
        requires
            old(self).wf(),
        ensures
            final(self).wf(),
            start_game_rel(*old(self), *final(self), opponent),
    {
        self.game = Game::new(opponent);
        let snapshot = match self.game.get_state() {
            Some(s) => s,
            None => vstd::pervasive::unreached(),
        };
        self.state = AppState::Playing(snapshot);
    }

    /// Discards the game and starts a fresh one against the same opponent.
    pub fn reset(&mut self)
        requires
            old(self).wf(),
        ensures
            final(self).wf(),
            reset_rel(*old(self), *final(self)),
    {
        let opponent = self.game.get_opponent();
        self.game.reset(opponent);
        let snapshot = match self.game.get_state() {
            Some(s) => s,
            None => vstd::pervasive::unreached(),
        };
        self.state = AppState::Playing(snapshot);
        self.warning_message = self.game.get_warning_message();
    }

    /// Handles an in-game key: place, quit, reset, open the menu, or clear a
    /// stale warning once the game is over.
    pub fn on_key(&mut self, c: char)
        requires
            old(self).wf(),
        ensures
            final(self).wf(),
            on_key_rel(*old(self), c, *final(self)),
    {
        match c {
            'p' => {
                if !self.game.is_over() {
                    self.game.place();
                }
            },
            'q' => self.quit(),
            'r' => self.reset(),
            'm' => self.toggle_menu(),
            _ => {
                if self.game.is_over() {
                    self.game.clear_warning();
                }
            },
        }
    }

    /// Handles a key press while the in-game menu is open.
    fn update_game_menu(&mut self, key: Key)
        requires
            old(self).wf(),
            old(self).state is GameMenu,
        ensures
            final(self).wf(),
            update_rel(*old(self), key, *final(self)),
    {
        let row = match &self.state {
            AppState::GameMenu(x) => *x,
            _ => vstd::pervasive::unreached(),
        };
        match key {
            Key::Char(c) => match c {
                'q' => self.quit(),
                'm' => self.toggle_menu(),
                _ => {},
            },
            Key::Enter => match row {
                0 => self.toggle_menu(),
                1 => self.reset(),
                2 => self.quit(),
                _ => self.state = AppState::GameMenu(0),
            },
            Key::Up => self.next_row_menu(false),
            Key::Down => self.next_row_menu(true),
            _ => {},
        }
    }

    /// Handles a key press in the running phase: dispatches the key and then
    /// polls the engine once.
    fn update_playing(&mut self, key: Key)
        requires
            old(self).wf(),
            old(self).state is Playing,
        ensures
            final(self).wf(),
            update_rel(*old(self), key, *final(self)),
    {
        match key {
            Key::Char(c) => self.on_key(c),
            Key::Esc => self.toggle_menu(),
            Key::Up => self.game.on_up(),
            Key::Down => self.game.on_down(),
            Key::Left => self.game.on_left(),
            Key::Right => self.game.on_right(),
            _ => {},
        }
        let ghost mid = *self;
        if let Some(state) = self.game.get_state() {
            match &state {
                GameState::GameOver(_) => {
                    let delta = self.game.get_score();
                    self.score.accumulate(&delta);
                    proof {
                        match mid.game@.winner {
                            Some(Player::Player1) => {
                                assert(self.score.player1 == sat_add_u32(mid.score.player1, 1));
                                assert(self.score.player2 == mid.score.player2);
                            },
                            Some(Player::Player2) => {
                                assert(self.score.player1 == mid.score.player1);
                                assert(self.score.player2 == sat_add_u32(mid.score.player2, 1));
                            },
                            None => {
                                assert(self.score.player1 == mid.score.player1);
                                assert(self.score.player2 == mid.score.player2);
                            },
                        }
                    }
                },
                _ => {},
            }
            self.state = AppState::Playing(state);
            self.warning_message = self.game.get_warning_message();
        }
        proof {
            assert(playing_key_rel(*old(self), key, mid));
            assert(poll_rel(mid, *self));
        }
    }

    /// Handles a key press while the start menu is open.
    fn update_start_menu(&mut self, key: Key)
        requires
            old(self).wf(),
            old(self).state is StartMenu,
        ensures
            final(self).wf(),
            update_rel(*old(self), key, *final(self)),
    {
        let row = match &self.state {
            AppState::StartMenu(x) => *x,
            _ => vstd::pervasive::unreached(),
        };
        match key {
            Key::Char(c) => match c {
                'q' => self.quit(),
                _ => {},
            },
            Key::Enter => match row {
                0 => self.start_game(Opponent::Human),
                1 => self.start_game(Opponent::Random),
                2 => self.start_game(Opponent::Minimax),
                _ => self.state = AppState::StartMenu(0),
            },
            Key::Up => self.next_row_menu(false),
            Key::Down => self.next_row_menu(true),
            _ => {},
        }
    }

    /// Handles one decoded key press: menu navigation in the menus; in the
    /// running phase the key is dispatched and the engine polled, so that a
    /// fresh snapshot, warning and score reach the rendering layer.
    pub fn update(&mut self, key: Key)
        requires
            old(self).wf(),
        ensures
            final(self).wf(),
            update_rel(*old(self), key, *final(self)),
    {
        match &self.state {
            AppState::GameMenu(_) => self.update_game_menu(key),
            AppState::Playing(_) => self.update_playing(key),
            AppState::StartMenu(_) => self.update_start_menu(key),
            AppState::Quit => {},
        }
    }
}

} // verus!
