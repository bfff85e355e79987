use djinn::games::tictactoe::{Board, Move, Tile, TicTacToe, TicTacToeState};
use djinn::games::{Game, WinState};
use djinn::minimax::{best_move, minimax, Player, State, Value};

fn at(x: usize, y: usize) -> Move {
    Move { x, y, tile: Tile::Empty }
}

#[test]
fn test_win_diagonal() {
    let initial_state = TicTacToeState::with_board(Board([
        [Tile::Empty, Tile::Nought, Tile::Cross],
        [Tile::Nought, Tile::Cross, Tile::Empty],
        [Tile::Empty, Tile::Empty, Tile::Empty],
    ]));

    let winning_move = Move {
        x: 0,
        y: 2,
        tile: Tile::Cross,
    };

    let state = initial_state.result(&winning_move);

    assert_eq!(state.winner(), Some(Player::Max));
}

#[test]
fn win_horizontal() {
    let _initial_state = TicTacToeState::with_board(Board([
        [Tile::Empty, Tile::Nought, Tile::Nought],
        [Tile::Nought, Tile::Cross, Tile::Nought],
        [Tile::Cross, Tile::Cross, Tile::Cross],
    ]));
}

/// Crosses hold a corner and are to move again. With a move in hand they win
/// whatever they play, so all eight keys are equal and the first action in
/// the order of the actions is taken: a2.
#[test]
fn ensure_draw() {
    let state = TicTacToeState::with_board(Board([
        [Tile::Cross, Tile::Empty, Tile::Empty],
        [Tile::Empty, Tile::Empty, Tile::Empty],
        [Tile::Empty, Tile::Empty, Tile::Empty],
    ]));
    let Move { x, y, .. } = best_move(&state, u32::MAX);
    assert_eq!((x, y), (0, 1));
}

/// Crosses have opened in a corner and noughts are to answer: only the
/// centre holds the draw.
#[test]
fn noughts_answer_a_corner_opening_in_the_centre() {
    let mut state = TicTacToeState::new();
    state.place(at(0, 0));
    assert_eq!(
        state.board().0,
        [
            [Tile::Cross, Tile::Empty, Tile::Empty],
            [Tile::Empty, Tile::Empty, Tile::Empty],
            [Tile::Empty, Tile::Empty, Tile::Empty],
        ]
    );
    let Move { x, y, .. } = best_move(&state, u32::MAX);
    assert_eq!((x, y), (1, 1));
}

#[test]
fn the_empty_board_is_a_draw_at_full_depth() {
    assert_eq!(minimax(&TicTacToeState::new(), u32::MAX), Value::zero());
}

#[test]
fn a_game_is_played_through_the_screen_interface() {
    let mut game = TicTacToe::default();
    assert_eq!(game.name(), "Tic Tac Toe");
    assert_eq!(game.display_size(), (16, 8));
    assert!(game.win_state().is_none());
    assert!(game.is_valid_move("a1"));
    assert!(!game.is_valid_move("d1"));
    assert!(!game.is_valid_move("a"));
    game.play_move("a1");
    assert!(!game.is_valid_move("a1"));
    assert_eq!(game.computer_move(), "b2");
    game.play_move("b2");
    assert_eq!(game.move_history(), vec!["a1".to_string(), "b2".to_string()]);
    assert_eq!(
        game.display(),
        "  ┌───┬───┬───┐\n1 │ X │   │   │\n  ├───┼───┼───┤\n2 │   │ O │   │\n  ├───┼───┼───┤\n3 │   │   │   │\n  └───┴───┴───┘\n    a   b   c"
    );
    game.reset();
    assert!(game.move_history().is_empty());
    assert!(matches!(WinState::from(true), WinState::Decisive));
}

#[test]
fn a_move_is_read_from_a_letter_and_a_digit() {
    assert_eq!(Move::from_str("a1"), Ok(at(0, 0)));
    assert_eq!(Move::from_str("c2"), Ok(at(2, 1)));
    assert_eq!(Move::from_str("b3"), Ok(at(1, 2)));
    assert_eq!(Move::from_str(""), Err("expected x-coordinate"));
    assert_eq!(Move::from_str("d1"), Err("invalid x-coordinate"));
    assert_eq!(Move::from_str("A1"), Err("invalid x-coordinate"));
    assert_eq!(Move::from_str("a"), Err("expected y-coordinate"));
    assert_eq!(Move::from_str("a4"), Err("invalid y-coordinate"));
    assert_eq!(Move::from_str("a0"), Err("invalid y-coordinate"));
    assert_eq!(Move::from_str("a11"), Err("too many coordinates"));
    // The column is judged before the row is missed.
    assert_eq!(Move::from_str("z"), Err("invalid x-coordinate"));
}

#[test]
fn a_move_is_written_as_it_is_read() {
    for x in 0..3 {
        for y in 0..3 {
            let text = at(x, y).to_string();
            assert_eq!(Move::from_str(&text), Ok(at(x, y)));
        }
    }
    assert_eq!(Move { x: 2, y: 0, tile: Tile::Cross }.to_string(), "c1");
}

#[test]
fn a_line_through_the_last_mark_wins() {
    let board = Board([
        [Tile::Cross, Tile::Cross, Tile::Cross],
        [Tile::Nought, Tile::Nought, Tile::Empty],
        [Tile::Empty, Tile::Empty, Tile::Empty],
    ]);
    assert!(board.check_win(&Move { x: 1, y: 0, tile: Tile::Cross }));
    assert!(!board.check_win(&Move { x: 1, y: 1, tile: Tile::Nought }));
    assert!(!board.check_win(&Move { x: 1, y: 0, tile: Tile::Nought }));
    let board = Board([
        [Tile::Nought, Tile::Cross, Tile::Empty],
        [Tile::Nought, Tile::Cross, Tile::Empty],
        [Tile::Nought, Tile::Empty, Tile::Cross],
    ]);
    assert!(board.check_win(&Move { x: 0, y: 2, tile: Tile::Nought }));
    assert!(!board.check_win(&Move { x: 1, y: 1, tile: Tile::Cross }));
    let board = Board([
        [Tile::Empty, Tile::Empty, Tile::Nought],
        [Tile::Empty, Tile::Nought, Tile::Empty],
        [Tile::Nought, Tile::Empty, Tile::Empty],
    ]);
    assert!(board.check_win(&Move { x: 1, y: 1, tile: Tile::Nought }));
    assert!(board.check_win(&Move { x: 0, y: 2, tile: Tile::Nought }));
    assert!(!board.check_win(&Move { x: 0, y: 0, tile: Tile::Nought }));
    assert!(!board.is_full());
}

#[test]
fn the_actions_are_the_empty_cells_column_by_column() {
    let state = TicTacToeState::with_board(Board([
        [Tile::Cross, Tile::Empty, Tile::Nought],
        [Tile::Empty, Tile::Cross, Tile::Empty],
        [Tile::Nought, Tile::Empty, Tile::Empty],
    ]));
    let cells: Vec<(usize, usize)> = state.actions().iter().map(|m| (m.x, m.y)).collect();
    assert_eq!(cells, vec![(0, 1), (1, 0), (1, 2), (2, 1), (2, 2)]);
    assert!(state.actions().iter().all(|m| m.tile == Tile::Cross));
    assert_eq!(state.current_player(), Player::Max);
    assert!(!state.is_terminal());
    assert_eq!(state.evaluation(), Value::zero());
}

#[test]
fn a_full_board_without_a_line_is_a_draw() {
    let mut state = TicTacToeState::new();
    for text in ["a1", "b1", "c1", "b2", "a2", "c2", "b3", "a3"] {
        state.place(Move::from_str(text).unwrap());
        assert!(!state.is_terminal());
    }
    state.place(Move::from_str("c3").unwrap());
    assert!(state.is_terminal());
    assert!(state.is_draw());
    assert_eq!(state.winner(), None);
    assert_eq!(state.evaluation(), Value::zero());
    assert!(state.board().is_full());
    assert_eq!(minimax(&state, 5), Value::zero());
}

#[test]
fn noughts_take_the_win_that_is_one_move_away() {
    // Noughts hold a1 and b1 and are to move; crosses threaten nothing.
    let mut state = TicTacToeState::new();
    for text in ["a3", "a1", "b2", "b1", "c2"] {
        state.place(Move::from_str(text).unwrap());
    }
    assert_eq!(state.current_player(), Player::Min);
    for depth in [1, 2, 3, u32::MAX] {
        let chosen = best_move(&state, depth);
        assert_eq!((chosen.x, chosen.y), (2, 0));
    }
    let won = state.result(&best_move(&state, 1));
    assert_eq!(won.winner(), Some(Player::Min));
    assert_eq!(won.evaluation(), Value::neg_infinity());
}

#[test]
fn crosses_are_judged_by_what_noughts_see() {
    // Crosses can complete the diagonal at a3; judged by the score of the
    // side that follows, the first cell that leaves the game open is taken.
    let state = TicTacToeState::with_board(Board([
        [Tile::Empty, Tile::Nought, Tile::Cross],
        [Tile::Nought, Tile::Cross, Tile::Empty],
        [Tile::Empty, Tile::Empty, Tile::Empty],
    ]));
    let chosen = best_move(&state, 1);
    assert_eq!((chosen.x, chosen.y), (0, 0));
}

#[test]
fn a_drawn_line_of_play_has_the_value_zero() {
    // Two cells are left and neither side can complete a line.
    let mut state = TicTacToeState::new();
    for text in ["a1", "b2", "c3", "b1", "b3", "a3", "c1"] {
        state.place(Move::from_str(text).unwrap());
    }
    assert!(!state.is_terminal());
    for depth in [2, 3, u32::MAX] {
        assert_eq!(minimax(&state, depth), Value::zero());
    }
}

#[test]
fn the_game_on_the_screen_ends_decided() {
    let mut game = TicTacToe::default();
    for text in ["a1", "a2", "b1", "b2"] {
        assert!(game.win_state().is_none());
        game.play_move(text);
    }
    game.play_move("c1");
    assert!(matches!(game.win_state(), Some(WinState::Decisive)));
    assert_eq!(
        game.move_history(),
        vec!["a1".to_string(), "a2".to_string(), "b1".to_string(), "b2".to_string(), "c1".to_string()]
    );
    assert_eq!(game.thumbnail(), " X │ O │\n───┼───┼───\n   │ X │\n───┼───┼───\n O │   │ X ");
}
