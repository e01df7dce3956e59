use tictactoe::computer_player::Opponent;
use tictactoe::detector::{detect, OutcomeKind};
use tictactoe::game::{Board, Game, GameCell, GameState, Player};

fn move_to(g: &mut Game, r: usize, c: usize) {
    loop {
        let (cr, cc) = g.get_position();
        if cr < r {
            g.on_down();
        } else if cr > r {
            g.on_up();
        } else if cc < c {
            g.on_right();
        } else if cc > c {
            g.on_left();
        } else {
            break;
        }
    }
}

fn place_at(g: &mut Game, r: usize, c: usize) {
    move_to(g, r, c);
    g.place();
}

fn board_with(marks: &[(usize, usize, GameCell)]) -> Board {
    let mut b = Board::new();
    for &(r, c, m) in marks {
        b.set((r, c), m);
    }
    b
}

fn count_marks(b: &Board) -> usize {
    let mut n = 0;
    for r in 0..3 {
        for c in 0..3 {
            if b.cell((r, c)) != GameCell::Empty {
                n += 1;
            }
        }
    }
    n
}

#[test]
fn detector_reports_row_win() {
    let x = GameCell::Cross;
    let b = board_with(&[(0, 0, x), (0, 1, x), (0, 2, x)]);
    assert_eq!(detect(&b), OutcomeKind::Win(Player::Player1));
}

#[test]
fn detector_reports_column_and_diagonal_wins() {
    let o = GameCell::Circle;
    let col = board_with(&[(0, 1, o), (1, 1, o), (2, 1, o)]);
    assert_eq!(detect(&col), OutcomeKind::Win(Player::Player2));
    let x = GameCell::Cross;
    let diag = board_with(&[(0, 0, x), (1, 1, x), (2, 2, x)]);
    assert_eq!(detect(&diag), OutcomeKind::Win(Player::Player1));
    let anti = board_with(&[(0, 2, x), (1, 1, x), (2, 0, x)]);
    assert_eq!(detect(&anti), OutcomeKind::Win(Player::Player1));
}

#[test]
fn detector_reports_no_win_without_a_full_line() {
    let x = GameCell::Cross;
    let o = GameCell::Circle;
    let open = board_with(&[(0, 0, x), (0, 1, x), (1, 1, o)]);
    assert_eq!(detect(&open), OutcomeKind::Undecided);
    let empty = Board::new();
    assert_eq!(detect(&empty), OutcomeKind::Undecided);
}

#[test]
fn detector_reports_draw_on_full_board_without_line() {
    let x = GameCell::Cross;
    let o = GameCell::Circle;
    let b = board_with(&[
        (0, 0, x),
        (0, 1, o),
        (0, 2, x),
        (1, 0, x),
        (1, 1, o),
        (1, 2, o),
        (2, 0, o),
        (2, 1, x),
        (2, 2, x),
    ]);
    assert_eq!(detect(&b), OutcomeKind::Draw);
}

#[test]
fn place_on_empty_cell_adds_exactly_one_mark() {
    let mut g = Game::new(Opponent::Human);
    assert_eq!(count_marks(g.get_board()), 0);
    g.place();
    assert_eq!(count_marks(g.get_board()), 1);
    assert_eq!(g.get_board().cell((0, 0)), GameCell::Cross);
    place_at(&mut g, 1, 1);
    assert_eq!(count_marks(g.get_board()), 2);
    assert_eq!(g.get_board().cell((1, 1)), GameCell::Circle);
}

#[test]
fn turn_alternates_after_successful_placement() {
    let mut g = Game::new(Opponent::Human);
    assert_eq!(g.get_current_player(), Player::Player1);
    g.place();
    assert_eq!(g.get_current_player(), Player::Player2);
    place_at(&mut g, 1, 0);
    assert_eq!(g.get_current_player(), Player::Player1);
}

#[test]
fn occupied_cell_keeps_turn_and_board() {
    let mut g = Game::new(Opponent::Human);
    g.place();
    g.place();
    assert_eq!(g.get_current_player(), Player::Player2);
    assert_eq!(count_marks(g.get_board()), 1);
    assert_eq!(
        g.get_warning_message().unwrap(),
        "This cell is already taken!"
    );
}

#[test]
fn repeated_place_on_occupied_cell_warns_both_times() {
    let mut g = Game::new(Opponent::Human);
    g.place();
    let _ = g.get_state();
    g.place();
    assert_eq!(count_marks(g.get_board()), 1);
    assert_eq!(
        g.get_warning_message().unwrap(),
        "This cell is already taken!"
    );
    g.place();
    assert_eq!(count_marks(g.get_board()), 1);
    assert_eq!(
        g.get_warning_message().unwrap(),
        "This cell is already taken!"
    );
    assert_eq!(g.get_board().cell((0, 0)), GameCell::Cross);
}

#[test]
fn get_state_is_edge_triggered() {
    let mut g = Game::new(Opponent::Human);
    assert!(g.get_state().is_some());
    assert!(g.get_state().is_none());
    assert!(g.get_state().is_none());
    g.on_right();
    assert!(g.get_state().is_some());
    assert!(g.get_state().is_none());
}

#[test]
fn cursor_clamps_at_edges_and_movement_reports_changes() {
    let mut g = Game::new(Opponent::Human);
    let _ = g.get_state();
    g.on_up();
    assert_eq!(g.get_position(), (0, 0));
    assert!(g.get_state().is_none());
    g.on_left();
    assert_eq!(g.get_position(), (0, 0));
    g.on_down();
    g.on_down();
    g.on_down();
    assert_eq!(g.get_position(), (2, 0));
    g.on_right();
    g.on_right();
    g.on_right();
    assert_eq!(g.get_position(), (2, 2));
}

#[test]
fn first_player_row_win_ends_game_exactly_on_third_mark() {
    let mut g = Game::new(Opponent::Human);
    place_at(&mut g, 0, 0);
    place_at(&mut g, 1, 0);
    place_at(&mut g, 0, 1);
    assert!(!g.is_over());
    place_at(&mut g, 1, 1);
    assert!(!g.is_over());
    place_at(&mut g, 0, 2);
    assert!(g.is_over());
    match g.get_state() {
        Some(GameState::GameOver(winner)) => assert_eq!(winner, Some(Player::Player1)),
        other => panic!("expected a game-over snapshot, got {:?}", other),
    }
    let score = g.get_score();
    assert_eq!(score.player1, 1);
    assert_eq!(score.player2, 0);
}

#[test]
fn full_board_without_line_is_a_draw() {
    let mut g = Game::new(Opponent::Human);
    let moves = [
        (0, 0),
        (0, 1),
        (0, 2),
        (1, 1),
        (1, 0),
        (1, 2),
        (2, 1),
        (2, 0),
        (2, 2),
    ];
    for &(r, c) in moves.iter() {
        place_at(&mut g, r, c);
    }
    assert!(g.is_over());
    match g.get_state() {
        Some(GameState::GameOver(winner)) => assert_eq!(winner, None),
        other => panic!("expected a game-over snapshot, got {:?}", other),
    }
    let score = g.get_score();
    assert_eq!(score.player1, 0);
    assert_eq!(score.player2, 0);
}

#[test]
fn actions_after_game_over_warn_and_change_nothing() {
    let mut g = Game::new(Opponent::Human);
    place_at(&mut g, 0, 0);
    place_at(&mut g, 1, 0);
    place_at(&mut g, 0, 1);
    place_at(&mut g, 1, 1);
    place_at(&mut g, 0, 2);
    assert!(g.is_over());
    let pos = g.get_position();
    g.on_down();
    assert_eq!(g.get_warning_message().unwrap(), "Game is over!");
    assert_eq!(g.get_position(), pos);
    g.place();
    assert_eq!(g.get_warning_message().unwrap(), "Game is over!");
    assert_eq!(count_marks(g.get_board()), 5);
}

#[test]
fn reset_starts_fresh_and_keeps_opponent() {
    let mut g = Game::new(Opponent::Minimax);
    g.reset(g.get_opponent());
    assert_eq!(g.get_opponent(), Opponent::Minimax);
    assert_eq!(count_marks(g.get_board()), 0);
    assert_eq!(g.get_position(), (0, 0));
    assert_eq!(g.get_current_player(), Player::Player1);
    assert!(!g.is_over());
}

#[test]
fn cell_text_shows_mark_letters() {
    assert_eq!(GameCell::Empty.to_text(None), "L");
    assert_eq!(GameCell::Cross.to_text(Some((0, 0))), "X");
    assert_eq!(GameCell::Circle.to_text(Some((2, 2))), "O");
}

#[test]
fn player_next_alternates() {
    assert_eq!(Player::Player1.next(), Player::Player2);
    assert_eq!(Player::Player2.next(), Player::Player1);
    assert_eq!(Player::Player1.next().next(), Player::Player1);
}

#[test]
fn board_get_is_none_out_of_range() {
    let b = Board::new();
    assert_eq!(b.get((0, 0)), Some(GameCell::Empty));
    assert_eq!(b.get((3, 0)), None);
    assert_eq!(b.get((0, 3)), None);
}
