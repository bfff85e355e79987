use djinn::games::chess::{
    current_player, display, display_size, evaluate_board, evaluation, get_piece_char,
    get_piece_letter, heuristic_value, is_terminal, name, outcome_value, piece_square_tables,
    render, squares, win_state, win_state_of, Color, Outcome, Piece, Role, FLIP,
};
use djinn::games::WinState;
use djinn::minimax::{Player, Value};
use shakmaty::san::San;
use shakmaty::{Chess, Position};

fn after(moves: &[&str]) -> Chess {
    let mut position = Chess::default();
    for text in moves {
        let san: San = text.parse().expect("a move in algebraic notation");
        let chosen = san.to_move(&position).expect("a legal move");
        position = position.play(&chosen).expect("a legal move");
    }
    position
}

fn finite(x: i64) -> Value {
    Value::finite(x).expect("a score that can be negated")
}

#[test]
fn the_opening_position_is_balanced() {
    let position = Chess::default();
    assert_eq!(heuristic_value(&position), Value::zero());
    assert_eq!(evaluation(&position), Value::zero());
    assert!(!is_terminal(&position));
    assert!(win_state(&position).is_none());
    assert_eq!(current_player(&position), Player::Max);
}

#[test]
fn the_kings_pawn_gains_forty_by_two_steps() {
    let position = after(&["e4"]);
    assert_eq!(heuristic_value(&position), finite(40));
    assert_eq!(current_player(&position), Player::Min);
}

#[test]
fn a_captured_queen_counts_with_its_place() {
    // 1. e4 d5 2. exd5 Qxd5 3. Nc3 Qd8 4. Nb1 leaves white a pawn up.
    let position = after(&["e4", "d5", "exd5", "Qxd5", "Nc3", "Qd8", "Nb1"]);
    // White has lost the e-pawn (100 - 20 on e2), black the d-pawn (100 - 20 on d7).
    assert_eq!(heuristic_value(&position), Value::zero());
    let position = after(&["e4", "d5", "exd5"]);
    // White: pawn from e2 (-20) to d5 (25). Black: the d-pawn (100 - 20) is gone.
    assert_eq!(heuristic_value(&position), finite(45 + 80));
}

#[test]
fn a_mate_is_infinite_for_the_winner() {
    let position = after(&["f3", "e5", "g4", "Qh4#"]);
    assert!(is_terminal(&position));
    assert_eq!(evaluation(&position), Value::neg_infinity());
    assert!(matches!(win_state(&position), Some(WinState::Decisive)));
    assert_eq!(outcome_value(Outcome::Decisive { winner: Color::White }), Value::infinity());
    assert_eq!(outcome_value(Outcome::Draw), Value::zero());
    assert!(matches!(win_state_of(Some(Outcome::Draw)), Some(WinState::Draw)));
    assert!(win_state_of(None).is_none());
}

#[test]
fn a_board_is_scored_square_by_square() {
    let mut board: Vec<Option<Piece>> = vec![None; 64];
    assert_eq!(evaluate_board(&board), Value::zero());
    // A white knight on a1 reads the table at a8: 320 - 50.
    board[0] = Some(Piece { color: Color::White, role: Role::Knight });
    assert_eq!(evaluate_board(&board), finite(270));
    // A black queen on d8 reads the table as it stands: -(900 - 5).
    board[59] = Some(Piece { color: Color::Black, role: Role::Queen });
    assert_eq!(evaluate_board(&board), finite(270 - 895));
    // The king counts for its place only.
    board[4] = Some(Piece { color: Color::White, role: Role::King });
    assert_eq!(evaluate_board(&board), finite(270 - 895 + 0));
    board[6] = Some(Piece { color: Color::Black, role: Role::King });
    assert_eq!(evaluate_board(&board), finite(270 - 895 - (-40)));
}

#[test]
fn the_tables_mirror_across_the_middle() {
    for square in 0..64 {
        assert_eq!(FLIP[square], square ^ 56);
    }
    assert_eq!(piece_square_tables(Role::Pawn)[8], 50);
    assert_eq!(piece_square_tables(Role::King)[63], 20);
    assert_eq!(piece_square_tables(Role::Rook)[59], 5);
}

#[test]
fn pieces_have_figurines_and_letters() {
    let white_king = Piece { color: Color::White, role: Role::King };
    let black_pawn = Piece { color: Color::Black, role: Role::Pawn };
    assert_eq!(get_piece_char(white_king), '♔');
    assert_eq!(get_piece_char(black_pawn), '♟');
    assert_eq!(get_piece_letter(white_king), 'K');
    assert_eq!(get_piece_letter(black_pawn), 'p');
    assert_eq!(get_piece_letter(Piece { color: Color::Black, role: Role::Knight }), 'n');
}

#[test]
fn the_opening_position_is_drawn_rank_by_rank() {
    let position = Chess::default();
    let expected = "  ┌───┬───┬───┬───┬───┬───┬───┬───┐\n\
8 │ ♜ │ ♞ │ ♝ │ ♛ │ ♚ │ ♝ │ ♞ │ ♜ │\n  ├───┼───┼───┼───┼───┼───┼───┼───┤\n\
7 │ ♟ │ ♟ │ ♟ │ ♟ │ ♟ │ ♟ │ ♟ │ ♟ │\n  ├───┼───┼───┼───┼───┼───┼───┼───┤\n\
6 │   │   │   │   │   │   │   │   │\n  ├───┼───┼───┼───┼───┼───┼───┼───┤\n\
5 │   │   │   │   │   │   │   │   │\n  ├───┼───┼───┼───┼───┼───┼───┼───┤\n\
4 │   │   │   │   │   │   │   │   │\n  ├───┼───┼───┼───┼───┼───┼───┼───┤\n\
3 │   │   │   │   │   │   │   │   │\n  ├───┼───┼───┼───┼───┼───┼───┼───┤\n\
2 │ ♙ │ ♙ │ ♙ │ ♙ │ ♙ │ ♙ │ ♙ │ ♙ │\n  ├───┼───┼───┼───┼───┼───┼───┼───┤\n\
1 │ ♖ │ ♘ │ ♗ │ ♕ │ ♔ │ ♗ │ ♘ │ ♖ │\n  └───┴───┴───┴───┴───┴───┴───┴───┘\n    a   b   c   d   e   f   g   h";
    assert_eq!(display(&position), expected);
    assert_eq!(render(&squares(&position)), expected);
    assert_eq!(name(), "Chess");
    assert_eq!(display_size(), (36, 18));
}
