//! Chess: what a position is worth and how it is drawn. The rules of the game
//! are those of the crate `shakmaty`.

use vstd::prelude::*;
use shakmaty::Position;
use crate::games::WinState;
use crate::minimax::player::Player;
use crate::minimax::value::{Extended, Value};

verus! {

/// A position of chess, as the crate `shakmaty` holds it.
#[verifier::external_type_specification]
#[verifier::external_body]
pub struct ExChess(shakmaty::Chess);

/// The two sides.
#[derive(Clone, Copy, Debug, PartialEq, Eq, Structural)]
pub enum Color {
    White,
    Black,
}

/// The kinds of pieces.
#[derive(Clone, Copy, Debug, PartialEq, Eq, Structural)]
pub enum Role {
    Pawn,
    Knight,
    Bishop,
    Rook,
    Queen,
    King,
}

/// A piece of one side.
#[derive(Clone, Copy, Debug, PartialEq, Eq, Structural)]
pub struct Piece {
    pub color: Color,
    pub role: Role,
}

/// How a game has ended.
#[derive(Clone, Copy, Debug, PartialEq, Eq, Structural)]
pub enum Outcome {
    Decisive { winner: Color },
    Draw,
}

/// The figurine of `piece`.
pub open spec fn piece_char(piece: Piece) -> char {
    match piece {
        Piece { color: Color::White, role: Role::King } => '♔',
        Piece { color: Color::White, role: Role::Queen } => '♕',
        Piece { color: Color::White, role: Role::Rook } => '♖',
        Piece { color: Color::White, role: Role::Bishop } => '♗',
        Piece { color: Color::White, role: Role::Knight } => '♘',
        Piece { color: Color::White, role: Role::Pawn } => '♙',
        Piece { color: Color::Black, role: Role::King } => '♚',
        Piece { color: Color::Black, role: Role::Queen } => '♛',
        Piece { color: Color::Black, role: Role::Rook } => '♜',
        Piece { color: Color::Black, role: Role::Bishop } => '♝',
        Piece { color: Color::Black, role: Role::Knight } => '♞',
        Piece { color: Color::Black, role: Role::Pawn } => '♟',
    }
}

/// The letter of `piece`: a capital for white, a small letter for black.
pub open spec fn piece_letter(piece: Piece) -> char {
    match piece {
        Piece { color: Color::White, role: Role::King } => 'K',
        Piece { color: Color::White, role: Role::Queen } => 'Q',
        Piece { color: Color::White, role: Role::Rook } => 'R',
        Piece { color: Color::White, role: Role::Bishop } => 'B',
        Piece { color: Color::White, role: Role::Knight } => 'N',
        Piece { color: Color::White, role: Role::Pawn } => 'P',
        Piece { color: Color::Black, role: Role::King } => 'k',
        Piece { color: Color::Black, role: Role::Queen } => 'q',
        Piece { color: Color::Black, role: Role::Rook } => 'r',
        Piece { color: Color::Black, role: Role::Bishop } => 'b',
        Piece { color: Color::Black, role: Role::Knight } => 'n',
        Piece { color: Color::Black, role: Role::Pawn } => 'p',
    }
}

/// The figurine that shows `piece` on the board.
pub fn get_piece_char(piece: Piece) -> (c: char)
    ensures
        c == piece_char(piece),
{
    match piece {
        Piece { color: Color::White, role: Role::King } => '♔',
        Piece { color: Color::White, role: Role::Queen } => '♕',
        Piece { color: Color::White, role: Role::Rook } => '♖',
        Piece { color: Color::White, role: Role::Bishop } => '♗',
        Piece { color: Color::White, role: Role::Knight } => '♘',
        Piece { color: Color::White, role: Role::Pawn } => '♙',
        Piece { color: Color::Black, role: Role::King } => '♚',
        Piece { color: Color::Black, role: Role::Queen } => '♛',
        Piece { color: Color::Black, role: Role::Rook } => '♜',
        Piece { color: Color::Black, role: Role::Bishop } => '♝',
        Piece { color: Color::Black, role: Role::Knight } => '♞',
        Piece { color: Color::Black, role: Role::Pawn } => '♟',
    }
}

/// The letter that stands for `piece` in writing.
pub fn get_piece_letter(piece: Piece) -> (c: char)
    ensures
        c == piece_letter(piece),
{
    match piece {
        Piece { color: Color::White, role: Role::King } => 'K',
        Piece { color: Color::White, role: Role::Queen } => 'Q',
        Piece { color: Color::White, role: Role::Rook } => 'R',
        Piece { color: Color::White, role: Role::Bishop } => 'B',
        Piece { color: Color::White, role: Role::Knight } => 'N',
        Piece { color: Color::White, role: Role::Pawn } => 'P',
        Piece { color: Color::Black, role: Role::King } => 'k',
        Piece { color: Color::Black, role: Role::Queen } => 'q',
        Piece { color: Color::Black, role: Role::Rook } => 'r',
        Piece { color: Color::Black, role: Role::Bishop } => 'b',
        Piece { color: Color::Black, role: Role::Knight } => 'n',
        Piece { color: Color::Black, role: Role::Pawn } => 'p',
    }
}

/// For each square, the square that mirrors it across the middle of the board.
pub const FLIP: [usize; 64] = [
    56, 57, 58, 59, 60, 61, 62, 63,
    48, 49, 50, 51, 52, 53, 54, 55,
    40, 41, 42, 43, 44, 45, 46, 47,
    32, 33, 34, 35, 36, 37, 38, 39,
    24, 25, 26, 27, 28, 29, 30, 31,
    16, 17, 18, 19, 20, 21, 22, 23,
    8, 9, 10, 11, 12, 13, 14, 15,
    0, 1, 2, 3, 4, 5, 6, 7,
];

/// What a pawn is worth on each square beyond its material, seen from the
/// far side of the board.
pub const PAWN_TABLE: [i8; 64] = [
    0, 0, 0, 0, 0, 0, 0, 0,
    50, 50, 50, 50, 50, 50, 50, 50,
    10, 10, 20, 30, 30, 20, 10, 10,
    5, 5, 10, 25, 25, 10, 5, 5,
    0, 0, 0, 20, 20, 0, 0, 0,
    5, -5, -10, 0, 0, -10, -5, 5,
    5, 10, 10, -20, -20, 10, 10, 5,
    0, 0, 0, 0, 0, 0, 0, 0,
];

/// What a knight is worth on each square beyond its material, seen from the
/// far side of the board.
pub const KNIGHT_TABLE: [i8; 64] = [
    -50, -40, -30, -30, -30, -30, -40, -50,
    -40, -20, 0, 0, 0, 0, -20, -40,
    -30, 0, 10, 15, 15, 10, 0, -30,
    -30, 5, 15, 20, 20, 15, 5, -30,
    -30, 0, 15, 20, 20, 15, 0, -30,
    -30, 5, 10, 15, 15, 10, 5, -30,
    -40, -20, 0, 5, 5, 0, -20, -40,
    -50, -40, -30, -30, -30, -30, -40, -50,
];

/// What a bishop is worth on each square beyond its material, seen from the
/// far side of the board.
pub const BISHOP_TABLE: [i8; 64] = [
    -20, -10, -10, -10, -10, -10, -10, -20,
    -10, 0, 0, 0, 0, 0, 0, -10,
    -10, 0, 5, 10, 10, 5, 0, -10,
    -10, 5, 5, 10, 10, 5, 5, -10,
    -10, 0, 10, 10, 10, 10, 0, -10,
    -10, 10, 10, 10, 10, 10, 10, -10,
    -10, 5, 0, 0, 0, 0, 5, -10,
    -20, -10, -10, -10, -10, -10, -10, -20,
];

/// What a rook is worth on each square beyond its material, seen from the
/// far side of the board.
pub const ROOK_TABLE: [i8; 64] = [
    0, 0, 0, 0, 0, 0, 0, 0,
    5, 10, 10, 10, 10, 10, 10, 5,
    -5, 0, 0, 0, 0, 0, 0, -5,
    -5, 0, 0, 0, 0, 0, 0, -5,
    -5, 0, 0, 0, 0, 0, 0, -5,
    -5, 0, 0, 0, 0, 0, 0, -5,
    -5, 0, 0, 0, 0, 0, 0, -5,
    0, 0, 0, 5, 5, 0, 0, 0,
];

/// What a queen is worth on each square beyond its material, seen from the
/// far side of the board.
pub const QUEEN_TABLE: [i8; 64] = [
    -20, -10, -10, -5, -5, -10, -10, -20,
    -10, 0, 0, 0, 0, 0, 0, -10,
    -10, 0, 5, 5, 5, 5, 0, -10,
    -5, 0, 5, 5, 5, 5, 0, -5,
    0, 0, 5, 5, 5, 5, 0, -5,
    -10, 5, 5, 5, 5, 5, 0, -10,
    -10, 0, 5, 0, 0, 0, 0, -10,
    -20, -10, -10, -5, -5, -10, -10, -20,
];

/// What the king is worth on each square beyond its material, seen from the
/// far side of the board.
pub const KING_TABLE: [i8; 64] = [
    -30, -40, -40, -50, -50, -40, -40, -30,
    -30, -40, -40, -50, -50, -40, -40, -30,
    -30, -40, -40, -50, -50, -40, -40, -30,
    -30, -40, -40, -50, -50, -40, -40, -30,
    -20, -30, -30, -40, -40, -30, -30, -20,
    -10, -20, -20, -20, -20, -20, -20, -10,
    20, 20, 0, 0, 0, 0, 20, 20,
    20, 30, 10, 0, 0, 10, 30, 20,
];

/// What a piece of the kind `role` counts for in material. The king counts
/// for nothing: each side has one.
pub open spec fn material(role: Role) -> int {
    match role {
        Role::Pawn => 100,
        Role::Knight => 320,
        Role::Bishop => 330,
        Role::Rook => 550,
        Role::Queen => 900,
        Role::King => 0,
    }
}

/// What a piece of the kind `role` is worth on the square `index` beyond its
/// material, the squares being counted from the far side of the board.
pub open spec fn placement(role: Role, index: int) -> int {
    match role {
        Role::Pawn => PAWN_TABLE[index] as int,
        Role::Knight => KNIGHT_TABLE[index] as int,
        Role::Bishop => BISHOP_TABLE[index] as int,
        Role::Rook => ROOK_TABLE[index] as int,
        Role::Queen => QUEEN_TABLE[index] as int,
        Role::King => KING_TABLE[index] as int,
    }
}

/// What the square `square` adds to the score of white: the material of the
/// piece on it and the worth of its place, counted for white and against
/// black. A white piece reads its table mirrored, a black piece as it stands.
pub open spec fn square_score(board: Seq<Option<Piece>>, square: int) -> int {
    match board[square] {
        None => 0,
        Some(piece) => match piece.color {
            Color::White => material(piece.role) + placement(piece.role, FLIP[square] as int),
            Color::Black => -(material(piece.role) + placement(piece.role, square)),
        },
    }
}

/// The score of the first `n` squares of `board`.
pub open spec fn board_score(board: Seq<Option<Piece>>, n: nat) -> int
    decreases n,
{
    if n == 0 {
        0
    } else {
        board_score(board, (n - 1) as nat) + square_score(board, n - 1)
    }
}

/// The material of a piece of the kind `role`.
pub fn material_of(role: Role) -> (worth: i64)
    ensures
        worth == material(role),
{
    match role {
        Role::Pawn => 100,
        Role::Knight => 320,
        Role::Bishop => 330,
        Role::Rook => 550,
        Role::Queen => 900,
        Role::King => 0,
    }
}

/// The tables of the six kinds of pieces, one entry for each square.
pub fn piece_square_tables(role: Role) -> (table: [i8; 64])
    ensures
        forall|i: int| 0 <= i < 64 ==> table[i] as int == placement(role, i),
{
    match role {
        Role::Pawn => PAWN_TABLE,
        Role::Knight => KNIGHT_TABLE,
        Role::Bishop => BISHOP_TABLE,
        Role::Rook => ROOK_TABLE,
        Role::Queen => QUEEN_TABLE,
        Role::King => KING_TABLE,
    }
}

/// The score of a board of 64 squares, counted from a1 along the ranks: what
/// the white pieces are worth less what the black ones are.
pub fn evaluate_board(board: &Vec<Option<Piece>>) -> (value: Value)
    requires
        board.len() == 64,
    ensures
        value@ == Extended::Finite(board_score(board@, 64)),
{
    let mut total: i64 = 0;
    let mut square: usize = 0;
    while square < 64
        invariant
            square <= 64,
            board.len() == 64,
            total == board_score(board@, square as nat),
            -1100 * square <= total <= 1100 * square,
        decreases 64 - square,
    {
        match board[square] {
            None => {},
            Some(piece) => {
                let table = piece_square_tables(piece.role);
                let worth = material_of(piece.role);
                match piece.color {
                    Color::White => {
                        total = total + worth + table[FLIP[square]] as i64;
                    },
                    Color::Black => {
                        total = total - (worth + table[square] as i64);
                    },
                }
            },
        }
        square += 1;
    }
    match Value::finite(total) {
        Some(value) => value,
        None => Value::zero(),
    }
}

/// The pieces that a position of shakmaty holds: for each of its 64 squares,
/// counted from a1 along the ranks, the piece on it or nothing.
pub uninterp spec fn chess_board(position: shakmaty::Chess) -> Seq<Option<Piece>>;

/// The side to move at a position of shakmaty.
pub uninterp spec fn chess_turn(position: shakmaty::Chess) -> Color;

/// How the game has ended at a position of shakmaty, by the rules of chess as
/// shakmaty has them; nothing while it goes on.
pub uninterp spec fn chess_outcome(position: shakmaty::Chess) -> Option<Outcome>;

/// The 64 squares of a position of shakmaty, counted from a1 along the ranks.
pub open spec fn squares_of(position: shakmaty::Chess) -> Seq<Option<Piece>> {
    Seq::new(64, |square: int| chess_board(position)[square])
}

/// The side of a piece, if there is one.
pub open spec fn color_of(square: Option<Piece>) -> Option<Color> {
    match square {
        Some(piece) => Some(piece.color),
        None => None,
    }
}

/// The kind of a piece, if there is one.
pub open spec fn role_of(square: Option<Piece>) -> Option<Role> {
    match square {
        Some(piece) => Some(piece.role),
        None => None,
    }
}

/// `Board::color_at` of shakmaty, on the board of `position`: the side whose
/// piece stands on the square `square`, or nothing where the square is empty.
/// The contract says so over the name of what the board holds.
#[verifier::external_body]
fn color_at(position: &shakmaty::Chess, square: u32) -> (color: Option<Color>)
    requires
        square < 64,
    ensures
        color == color_of(chess_board(*position)[square as int]),
{
    position.board().color_at(shakmaty::Square::new(square)).map(
        |color| match color {
            shakmaty::Color::White => Color::White,
            shakmaty::Color::Black => Color::Black,
        },
    )
}

/// `Board::role_at` of shakmaty, on the board of `position`: the kind of the
/// piece on the square `square`, or nothing where the square is empty. The
/// contract says so over the name of what the board holds.
#[verifier::external_body]
fn role_at(position: &shakmaty::Chess, square: u32) -> (role: Option<Role>)
    requires
        square < 64,
    ensures
        role == role_of(chess_board(*position)[square as int]),
{
    position.board().role_at(shakmaty::Square::new(square)).map(
        |role| match role {
            shakmaty::Role::Pawn => Role::Pawn,
            shakmaty::Role::Knight => Role::Knight,
            shakmaty::Role::Bishop => Role::Bishop,
            shakmaty::Role::Rook => Role::Rook,
            shakmaty::Role::Queen => Role::Queen,
            shakmaty::Role::King => Role::King,
        },
    )
}

/// The piece on the square `square` of `position`, if there is one.
fn piece_at(position: &shakmaty::Chess, square: u32) -> (piece: Option<Piece>)
    requires
        square < 64,
    ensures
        piece == chess_board(*position)[square as int],
{
    match (color_at(position, square), role_at(position, square)) {
        (Some(color), Some(role)) => Some(Piece { color, role }),
        _ => None,
    }
}

/// `Position::outcome` of shakmaty: how the game has ended at `position`, or
/// nothing while it goes on. The contract only names the result.
#[verifier::external_body]
fn outcome_of(position: &shakmaty::Chess) -> (outcome: Option<Outcome>)
    ensures
        outcome == chess_outcome(*position),
{
    position.outcome().map(
        |outcome| match outcome {
            shakmaty::Outcome::Decisive { winner: shakmaty::Color::White } => Outcome::Decisive {
                winner: Color::White,
            },
            shakmaty::Outcome::Decisive { winner: shakmaty::Color::Black } => Outcome::Decisive {
                winner: Color::Black,
            },
            shakmaty::Outcome::Draw => Outcome::Draw,
        },
    )
}

/// `Position::turn` of shakmaty: the side to move at `position`. The contract
/// only names the result.
#[verifier::external_body]
fn turn_of(position: &shakmaty::Chess) -> (color: Color)
    ensures
        color == chess_turn(*position),
{
    match position.turn() {
        shakmaty::Color::White => Color::White,
        shakmaty::Color::Black => Color::Black,
    }
}

/// The 64 squares of `position`, counted from a1 along the ranks.
pub fn squares(position: &shakmaty::Chess) -> (board: Vec<Option<Piece>>)
    ensures
        board@ == squares_of(*position),
{
    let mut board: Vec<Option<Piece>> = Vec::new();
    let mut square: u32 = 0;
    while square < 64
        invariant
            square <= 64,
            board.len() == square,
            forall|i: int| 0 <= i < square ==> board[i] == chess_board(*position)[i],
        decreases 64 - square,
    {
        board.push(piece_at(position, square));
        square += 1;
    }
    assert(board@ =~= squares_of(*position));
    board
}

/// What a position that is not over is worth: the score of its board.
pub fn heuristic_value(position: &shakmaty::Chess) -> (value: Value)
    ensures
        value@ == Extended::Finite(board_score(squares_of(*position), 64)),
{
    let board = squares(position);
    evaluate_board(&board)
}

/// The score that an outcome stands for: infinity for a win of white, minus
/// infinity for a win of black, 0 for a draw.
pub open spec fn outcome_score(outcome: Outcome) -> Extended {
    match outcome {
        Outcome::Decisive { winner: Color::White } => Extended::Infinity,
        Outcome::Decisive { winner: Color::Black } => Extended::NegInfinity,
        Outcome::Draw => Extended::Finite(0),
    }
}

/// The score of a game that has ended with `outcome`.
pub fn outcome_value(outcome: Outcome) -> (value: Value)
    ensures
        value@ == outcome_score(outcome),
{
    match outcome {
        Outcome::Decisive { winner: Color::White } => Value::infinity(),
        Outcome::Decisive { winner: Color::Black } => Value::neg_infinity(),
        Outcome::Draw => Value::zero(),
    }
}

/// The evaluation in the absolute frame of a position with the given
/// outcome and board: the score of the outcome where the game is over, else
/// that of the board.
pub open spec fn position_score(outcome: Option<Outcome>, board: Seq<Option<Piece>>) -> Extended {
    match outcome {
        Some(outcome) => outcome_score(outcome),
        None => Extended::Finite(board_score(board, 64)),
    }
}

/// The evaluation of `position` in the absolute frame: that of its outcome
/// where the game is over, else that of its board.
pub fn evaluation(position: &shakmaty::Chess) -> (value: Value)
    ensures
        value@ == position_score(chess_outcome(*position), squares_of(*position)),
{
    match outcome_of(position) {
        Some(outcome) => outcome_value(outcome),
        None => heuristic_value(position),
    }
}

/// Whether the game is over at `position`: whether it has an outcome.
pub fn is_terminal(position: &shakmaty::Chess) -> (over: bool)
    ensures
        over == (chess_outcome(*position) is Some),
{
    outcome_of(position).is_some()
}

/// The side of the search that a colour plays: white maximises.
pub open spec fn side_of(color: Color) -> Player {
    match color {
        Color::White => Player::Max,
        Color::Black => Player::Min,
    }
}

/// The side of the search that a colour plays.
pub fn player_of(color: Color) -> (player: Player)
    ensures
        player == side_of(color),
{
    match color {
        Color::White => Player::Max,
        Color::Black => Player::Min,
    }
}

/// The side to move at `position`: the maximiser where white is to move.
pub fn current_player(position: &shakmaty::Chess) -> (player: Player)
    ensures
        player == side_of(chess_turn(*position)),
{
    player_of(turn_of(position))
}

/// How an outcome is told to the screen: decided or drawn.
pub open spec fn told(outcome: Option<Outcome>) -> Option<WinState> {
    match outcome {
        Some(Outcome::Decisive { .. }) => Some(WinState::Decisive),
        Some(Outcome::Draw) => Some(WinState::Draw),
        None => None,
    }
}

/// How an outcome is told to the screen.
pub fn win_state_of(outcome: Option<Outcome>) -> (state: Option<WinState>)
    ensures
        state == told(outcome),
{
    match outcome {
        Some(Outcome::Decisive { .. }) => Some(WinState::Decisive),
        Some(Outcome::Draw) => Some(WinState::Draw),
        None => None,
    }
}

/// How the game has ended at `position`, as the screen is told.
pub fn win_state(position: &shakmaty::Chess) -> (state: Option<WinState>)
    ensures
        state == told(chess_outcome(*position)),
{
    win_state_of(outcome_of(position))
}

/// The name of the game.
pub fn name() -> (name: String)
    ensures
        name@ == "Chess"@,
{
    String::from_str("Chess")
}

/// A small picture of the game for the menu.
pub fn thumbnail() -> (picture: String)
    ensures
        picture@ == "   │ ♚ │ ♞\n───┼───┼───\n ♟ │ ♕ │\n───┼───┼───\n ♔ │   │  "@,
{
    String::from_str("   │ ♚ │ ♞\n───┼───┼───\n ♟ │ ♕ │\n───┼───┼───\n ♔ │   │  ")
}

/// The width and height of the board as text.
pub fn display_size() -> (size: (u16, u16))
    ensures
        size == (36u16, 18u16),
{
    (36, 18)
}

/// `String::push` of std: appends one character.
#[verifier::external_body]
fn push_char(text: &mut String, c: char)
    ensures
        final(text)@ == old(text)@.push(c),
{
    text.push(c);
}

/// The character on a square: the figurine of its piece, or a space.
pub open spec fn square_char(square: Option<Piece>) -> char {
    match square {
        Some(piece) => piece_char(piece),
        None => ' ',
    }
}

/// The first `files` squares of the rank `rank` as the board shows them:
/// each between spaces and closed by a bar.
pub open spec fn rank_cells(board: Seq<Option<Piece>>, rank: int, files: nat) -> Seq<char>
    decreases files,
{
    if files == 0 {
        Seq::empty()
    } else {
        rank_cells(board, rank, (files - 1) as nat) + " "@ + seq![
            square_char(board[rank * 8 + files - 1]),
        ] + " │"@
    }
}

/// The rank `rank`, counted from 0, as the board shows it: its number, a
/// bar, its eight squares, and below every rank but the first the line that
/// parts it from the next.
pub open spec fn rank_text(board: Seq<Option<Piece>>, rank: int) -> Seq<char> {
    seq![crate::components::game_screen::digit((rank + 1) as nat)] + " │"@ + rank_cells(
        board,
        rank,
        8,
    ) + (if rank != 0 {
        "\n  ├───┼───┼───┼───┼───┼───┼───┼───┤\n"@
    } else {
        Seq::empty()
    })
}

/// The ranks from the eighth down to the one numbered `8 - shown + 1`.
pub open spec fn ranks_text(board: Seq<Option<Piece>>, shown: nat) -> Seq<char>
    decreases shown,
{
    if shown == 0 {
        Seq::empty()
    } else {
        ranks_text(board, (shown - 1) as nat) + rank_text(board, 8 - shown)
    }
}

/// The board as the screen shows it: a frame, the eighth rank on top, the
/// files lettered below.
pub open spec fn board_text(board: Seq<Option<Piece>>) -> Seq<char> {
    "  ┌───┬───┬───┬───┬───┬───┬───┬───┐\n"@ + ranks_text(board, 8)
        + "\n  └───┴───┴───┴───┴───┴───┴───┴───┘\n    a   b   c   d   e   f   g   h"@
}

/// Draws a board of 64 squares.
pub fn render(board: &Vec<Option<Piece>>) -> (text: String)
    requires
        board.len() == 64,
    ensures
        text@ == board_text(board@),
{
    let mut text = String::from_str("  ┌───┬───┬───┬───┬───┬───┬───┬───┐\n");
    let ghost top = text@;
    let mut shown: usize = 0;
    while shown < 8
        invariant
            shown <= 8,
            board.len() == 64,
            text@ == top + ranks_text(board@, shown as nat),
        decreases 8 - shown,
    {
        let rank = 7 - shown;
        let ghost before = text@;
        push_char(&mut text, digit_char(rank + 1));
        text.append(" │");
        let ghost start = text@;
        let mut file: usize = 0;
        while file < 8
            invariant
                file <= 8,
                rank < 8,
                board.len() == 64,
                text@ == start + rank_cells(board@, rank as int, file as nat),
            decreases 8 - file,
        {
            text.append(" ");
            let c = match board[rank * 8 + file] {
                Some(piece) => get_piece_char(piece),
                None => ' ',
            };
            push_char(&mut text, c);
            text.append(" │");
            assert(text@ =~= start + rank_cells(board@, rank as int, (file + 1) as nat));
            file += 1;
        }
        if rank != 0 {
            text.append("\n  ├───┼───┼───┼───┼───┼───┼───┼───┤\n");
        }
        assert(text@ =~= before + rank_text(board@, rank as int));
        assert(text@ =~= top + ranks_text(board@, (shown + 1) as nat));
        shown += 1;
    }
    text.append("\n  └───┴───┴───┴───┴───┴───┴───┴───┘\n    a   b   c   d   e   f   g   h");
    text
}

/// The character of the digit `d`.
fn digit_char(d: usize) -> (c: char)
    requires
        d < 10,
    ensures
        c == crate::components::game_screen::digit(d as nat),
{
    if d == 0 {
        '0'
    } else if d == 1 {
        '1'
    } else if d == 2 {
        '2'
    } else if d == 3 {
        '3'
    } else if d == 4 {
        '4'
    } else if d == 5 {
        '5'
    } else if d == 6 {
        '6'
    } else if d == 7 {
        '7'
    } else if d == 8 {
        '8'
    } else {
        '9'
    }
}

/// Draws the board of `position`.
pub fn display(position: &shakmaty::Chess) -> (text: String)
    ensures
        text@ == board_text(squares_of(*position)),
{
    let board = squares(position);
    render(&board)
}

} // verus!
