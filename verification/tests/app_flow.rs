use tictactoe::app::{App, AppState, Score};
use tictactoe::game::GameState;
use tictactoe::update::Key;

#[test]
fn it_works() {
    let result = 2 + 2;
    assert_eq!(result, 4);
}

#[test]
fn test_start_menu() {
    let mut app = App::new("test".to_string());
    assert_eq!(app.state, AppState::StartMenu(0));
    app.next_row_menu(true);
    assert_eq!(app.state, AppState::StartMenu(1));
    app.next_row_menu(true);
    assert_eq!(app.state, AppState::StartMenu(2));
    app.next_row_menu(true);
    assert_eq!(app.state, AppState::StartMenu(0));
}

#[test]
fn menu_rows_step_backwards_too() {
    let mut app = App::new("test".to_string());
    app.next_row_menu(false);
    assert_eq!(app.state, AppState::StartMenu(2));
    app.next_row_menu(false);
    assert_eq!(app.state, AppState::StartMenu(1));
}

#[test]
fn enter_on_start_menu_starts_a_game() {
    let mut app = App::new("test".to_string());
    app.update(Key::Enter);
    match &app.state {
        AppState::Playing(GameState::GameInProgress(_, _, pos)) => assert_eq!(*pos, (0, 0)),
        other => panic!("expected a running game, got {:?}", other),
    }
}

#[test]
fn quit_key_leaves_the_start_menu() {
    let mut app = App::new("test".to_string());
    app.update(Key::Char('q'));
    assert_eq!(app.state, AppState::Quit);
}

#[test]
fn placing_updates_the_shown_snapshot_and_warning() {
    let mut app = App::new("test".to_string());
    app.update(Key::Enter);
    app.update(Key::Char('p'));
    match &app.state {
        AppState::Playing(GameState::GameInProgress(board, _, _)) => {
            assert_eq!(
                board.cell((0, 0)),
                tictactoe::game::GameCell::Cross
            );
        },
        other => panic!("expected a running game, got {:?}", other),
    }
    assert!(app.warning_message.is_none());
    app.update(Key::Char('p'));
    assert_eq!(
        app.warning_message.clone().unwrap(),
        "This cell is already taken!"
    );
}

#[test]
fn esc_toggles_the_game_menu_and_back() {
    let mut app = App::new("test".to_string());
    app.update(Key::Enter);
    app.update(Key::Esc);
    assert_eq!(app.state, AppState::GameMenu(0));
    app.update(Key::Char('m'));
    match &app.state {
        AppState::Playing(_) => {},
        other => panic!("expected a running game, got {:?}", other),
    }
}

#[test]
fn finished_game_adds_its_point_to_the_score() {
    let mut app = App::new("test".to_string());
    app.update(Key::Enter);
    let moves = [
        Key::Char('p'),
        Key::Down,
        Key::Char('p'),
        Key::Up,
        Key::Right,
        Key::Char('p'),
        Key::Down,
        Key::Char('p'),
        Key::Up,
        Key::Right,
        Key::Char('p'),
    ];
    for key in moves {
        app.update(key);
    }
    match &app.state {
        AppState::Playing(GameState::GameOver(winner)) => {
            assert_eq!(*winner, Some(tictactoe::game::Player::Player1));
        },
        other => panic!("expected a finished game, got {:?}", other),
    }
    assert_eq!(app.score.player1, 1);
    assert_eq!(app.score.player2, 0);
}

#[test]
fn score_accumulation_saturates() {
    let mut score = Score {
        player1: u32::MAX,
        player2: 5,
    };
    let delta = Score {
        player1: 1,
        player2: 1,
    };
    score.accumulate(&delta);
    assert_eq!(score.player1, u32::MAX);
    assert_eq!(score.player2, 6);
}

#[test]
fn score_new_is_zero() {
    let s = Score::new();
    assert_eq!(s.player1, 0);
    assert_eq!(s.player2, 0);
}
