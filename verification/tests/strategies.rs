use tictactoe::computer_player::{choose_move, minimax_move, random_move, Opponent};
use tictactoe::game::{Board, Game, GameCell, GameState, Player};

fn board_with(marks: &[(usize, usize, GameCell)]) -> Board {
    let mut b = Board::new();
    for &(r, c, m) in marks {
        b.set((r, c), m);
    }
    b
}

fn count_marks(b: &Board) -> usize {
    let mut n = 0;
    for r in 0..3 {
        for c in 0..3 {
            if b.cell((r, c)) != GameCell::Empty {
                n += 1;
            }
        }
    }
    n
}

fn move_to(g: &mut Game, r: usize, c: usize) {
    loop {
        let (cr, cc) = g.get_position();
        if cr < r {
            g.on_down();
        } else if cr > r {
            g.on_up();
        } else if cc < c {
            g.on_right();
        } else if cc > c {
            g.on_left();
        } else {
            break;
        }
    }
}

#[test]
fn random_move_lands_on_an_empty_cell_for_many_seeds() {
    let x = GameCell::Cross;
    let o = GameCell::Circle;
    let boards = [
        Board::new(),
        board_with(&[(0, 0, x)]),
        board_with(&[(0, 0, x), (1, 1, o), (2, 2, x)]),
        board_with(&[
            (0, 0, x),
            (0, 1, o),
            (0, 2, x),
            (1, 0, o),
            (1, 1, x),
            (1, 2, o),
            (2, 0, o),
            (2, 1, x),
        ]),
    ];
    for b in boards.iter() {
        for seed in 0..64u64 {
            let pos = random_move(b, seed);
            assert_eq!(b.cell(pos), GameCell::Empty);
        }
    }
}

#[test]
fn random_move_picks_the_drawn_empty_cell_in_row_major_order() {
    let b = Board::new();
    assert_eq!(random_move(&b, 0), (0, 0));
    assert_eq!(random_move(&b, 4), (1, 1));
    assert_eq!(random_move(&b, 8), (2, 2));
    assert_eq!(random_move(&b, 9), (0, 0));
    let x = GameCell::Cross;
    let part = board_with(&[(0, 0, x), (0, 1, x)]);
    assert_eq!(random_move(&part, 0), (0, 2));
    assert_eq!(random_move(&part, 1), (1, 0));
}

#[test]
fn minimax_never_returns_an_occupied_cell() {
    let x = GameCell::Cross;
    let o = GameCell::Circle;
    let boards = [
        Board::new(),
        board_with(&[(1, 1, x)]),
        board_with(&[(0, 0, x), (1, 1, o)]),
        board_with(&[(0, 0, x), (1, 1, o), (2, 2, x), (0, 2, o)]),
    ];
    for b in boards.iter() {
        for acting in [Player::Player1, Player::Player2] {
            let pos = minimax_move(b, acting);
            assert_eq!(b.cell(pos), GameCell::Empty);
        }
    }
}

#[test]
fn minimax_takes_an_immediate_win() {
    let x = GameCell::Cross;
    let o = GameCell::Circle;
    let b = board_with(&[(0, 0, x), (0, 1, x), (1, 0, o), (1, 1, o)]);
    assert_eq!(minimax_move(&b, Player::Player1), (0, 2));
    assert_eq!(minimax_move(&b, Player::Player2), (1, 2));
}

#[test]
fn minimax_blocks_an_immediate_threat() {
    let x = GameCell::Cross;
    let o = GameCell::Circle;
    let b = board_with(&[(0, 0, x), (0, 1, x), (1, 1, o)]);
    assert_eq!(minimax_move(&b, Player::Player2), (0, 2));
}

#[test]
fn choose_move_follows_the_configured_opponent() {
    let b = Board::new();
    assert_eq!(choose_move(Opponent::Human, &b, Player::Player2, 7), None);
    let r = choose_move(Opponent::Random, &b, Player::Player2, 7).unwrap();
    assert_eq!(b.cell(r), GameCell::Empty);
    let m = choose_move(Opponent::Minimax, &b, Player::Player2, 7).unwrap();
    assert_eq!(b.cell(m), GameCell::Empty);
}

#[test]
fn random_opponent_replies_once_per_placement() {
    let mut g = Game::new(Opponent::Random);
    g.set_seed(12345);
    g.place();
    assert_eq!(count_marks(g.get_board()), 2);
    assert_eq!(g.get_current_player(), Player::Player1);
    assert_eq!(g.get_board().cell((0, 0)), GameCell::Cross);
}

#[test]
fn minimax_opponent_never_loses_against_a_naive_first_player() {
    let mut g = Game::new(Opponent::Minimax);
    while !g.is_over() {
        let mut placed = false;
        'outer: for r in 0..3 {
            for c in 0..3 {
                if g.get_board().cell((r, c)) == GameCell::Empty {
                    move_to(&mut g, r, c);
                    g.place();
                    placed = true;
                    break 'outer;
                }
            }
        }
        assert!(placed);
    }
    match g.get_state() {
        Some(GameState::GameOver(winner)) => assert_ne!(winner, Some(Player::Player1)),
        other => panic!("expected a game-over snapshot, got {:?}", other),
    }
}

#[test]
fn minimax_punishes_a_forced_loss_left_by_the_first_player() {
    let mut g = Game::new(Opponent::Minimax);
    g.place();
    assert_eq!(count_marks(g.get_board()), 2);
    while !g.is_over() {
        let mut placed = false;
        'outer: for r in 0..3 {
            for c in 0..3 {
                if g.get_board().cell((r, c)) == GameCell::Empty {
                    move_to(&mut g, r, c);
                    g.place();
                    placed = true;
                    break 'outer;
                }
            }
        }
        assert!(placed);
    }
    match g.get_state() {
        Some(GameState::GameOver(winner)) => assert_ne!(winner, Some(Player::Player1)),
        other => panic!("expected a game-over snapshot, got {:?}", other),
    }
}
