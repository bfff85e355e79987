//! Noughts and crosses on a board of three by three.

use vstd::prelude::*;
use crate::games::{Game, WinState};
use crate::minimax::player::Player;
use crate::minimax::search::{alternates, best_move, child, choice};
use crate::minimax::state::State;
use crate::minimax::value::{Extended, Value};

verus! {

/// What a cell of the board holds.
#[derive(Copy, Clone, Debug, PartialEq, Eq, Structural)]
pub enum Tile {
    Empty,
    Cross,
    Nought,
}

impl Default for Tile {
    fn default() -> (tile: Tile)
        ensures
            tile == Tile::Empty,
    {
        Tile::Empty
    }
}

impl From<Player> for Tile {
    /// The mark that a side plays: crosses maximise, noughts minimise.
    fn from(value: Player) -> (tile: Tile) {
        match value {
            Player::Max => Tile::Cross,
            Player::Min => Tile::Nought,
        }
    }
}

impl vstd::std_specs::convert::FromSpecImpl<Player> for Tile {
    open spec fn obeys_from_spec() -> bool {
        true
    }

    open spec fn from_spec(value: Player) -> Tile {
        match value {
            Player::Max => Tile::Cross,
            Player::Min => Tile::Nought,
        }
    }
}

impl Tile {
    /// The mark of `player`.
    pub open spec fn of(player: Player) -> Tile {
        match player {
            Player::Max => Tile::Cross,
            Player::Min => Tile::Nought,
        }
    }

    /// The character that shows this tile.
    pub open spec fn glyph(self) -> Seq<char> {
        match self {
            Tile::Empty => seq![' '],
            Tile::Nought => seq!['O'],
            Tile::Cross => seq!['X'],
        }
    }

    /// The tile as the board shows it.
    pub fn as_str(self) -> (text: &'static str)
        ensures
            text@ == self.glyph(),
    {
        proof {
            reveal_strlit(" ");
            reveal_strlit("O");
            reveal_strlit("X");
        }
        let text = match self {
            Tile::Empty => " ",
            Tile::Nought => "O",
            Tile::Cross => "X",
        };
        assert(text@ =~= self.glyph());
        text
    }
}

/// The column that a letter names: `a`, `b` or `c`.
pub open spec fn file_of(c: char) -> Option<usize> {
    if c == 'a' {
        Some(0)
    } else if c == 'b' {
        Some(1)
    } else if c == 'c' {
        Some(2)
    } else {
        None
    }
}

/// The row that a digit names: `1`, `2` or `3`.
pub open spec fn rank_of(c: char) -> Option<usize> {
    if c == '1' {
        Some(0)
    } else if c == '2' {
        Some(1)
    } else if c == '3' {
        Some(2)
    } else {
        None
    }
}

/// One mark on one cell: column `x`, row `y`, both counted from 0.
#[derive(Copy, Clone, Debug, PartialEq, Eq, Structural)]
pub struct Move {
    pub x: usize,
    pub y: usize,
    pub tile: Tile,
}

impl Move {
    /// Whether the move names a cell of the board.
    pub open spec fn on_board(self) -> bool {
        self.x < 3 && self.y < 3
    }

    /// What a text says as a move: a column letter, then a row digit, and
    /// nothing more. A text that is no move gives the reason.
    pub open spec fn parsed(s: Seq<char>) -> Result<Move, Seq<char>> {
        if s.len() == 0 {
            Err("expected x-coordinate"@)
        } else if file_of(s[0]) is None {
            Err("invalid x-coordinate"@)
        } else if s.len() == 1 {
            Err("expected y-coordinate"@)
        } else if rank_of(s[1]) is None {
            Err("invalid y-coordinate"@)
        } else if s.len() > 2 {
            Err("too many coordinates"@)
        } else {
            Ok(Move { x: file_of(s[0]).unwrap(), y: rank_of(s[1]).unwrap(), tile: Tile::Empty })
        }
    }

    /// The two characters that name the cell of this move.
    pub open spec fn text(self) -> Seq<char> {
        seq![
            if self.x == 0 {
                'a'
            } else if self.x == 1 {
                'b'
            } else {
                'c'
            },
            if self.y == 0 {
                '1'
            } else if self.y == 1 {
                '2'
            } else {
                '3'
            },
        ]
    }

    /// Reads a move, such as `b2`. The tile is left empty: it is set when the
    /// move is placed.
    pub fn from_str(s: &str) -> (outcome: Result<Move, &'static str>)
        ensures
            match outcome {
                Ok(m) => Move::parsed(s@) == Ok::<Move, Seq<char>>(m),
                Err(reason) => Move::parsed(s@) == Err::<Move, Seq<char>>(reason@),
            },
    {
        let len = s.unicode_len();
        if len == 0 {
            return Err("expected x-coordinate");
        }
        let file = s.get_char(0);
        let x: usize = if file == 'a' {
            0
        } else if file == 'b' {
            1
        } else if file == 'c' {
            2
        } else {
            return Err("invalid x-coordinate");
        };
        if len == 1 {
            return Err("expected y-coordinate");
        }
        let rank = s.get_char(1);
        let y: usize = if rank == '1' {
            0
        } else if rank == '2' {
            1
        } else if rank == '3' {
            2
        } else {
            return Err("invalid y-coordinate");
        };
        if len > 2 {
            return Err("too many coordinates");
        }
        Ok(Move { x, y, tile: Tile::Empty })
    }

    /// Writes the cell of the move, such as `b2`.
    pub fn to_string(&self) -> (text: String)
        requires
            self.on_board(),
        ensures
            text@ == self.text(),
    {
        proof {
            reveal_strlit("a");
            reveal_strlit("b");
            reveal_strlit("c");
            reveal_strlit("1");
            reveal_strlit("2");
            reveal_strlit("3");
        }
        let file = if self.x == 0 {
            "a"
        } else if self.x == 1 {
            "b"
        } else {
            "c"
        };
        let rank = if self.y == 0 {
            "1"
        } else if self.y == 1 {
            "2"
        } else {
            "3"
        };
        let mut text = String::from_str(file);
        text.append(rank);
        assert(text@ =~= self.text());
        text
    }

    /// Reading what was written gives the cell back, with no tile on it.
    pub proof fn written_reads_back(self)
        requires
            self.on_board(),
        ensures
            Move::parsed(self.text()) == Ok::<Move, Seq<char>>(
                Move { x: self.x, y: self.y, tile: Tile::Empty },
            ),
    {
    }
}

/// The board, row by row: `board.0[y][x]` is the cell in column `x` of row `y`.
#[derive(Copy, Clone, Debug)]
pub struct Board(pub [[Tile; 3]; 3]);

/// Whether the cells `a`, `b` and `c` all hold `tile`.
pub open spec fn line(cells: Seq<Tile>, a: int, b: int, c: int, tile: Tile) -> bool {
    cells[a] == tile && cells[b] == tile && cells[c] == tile
}

/// Whether a line through the cell in column `x` of row `y` is filled with
/// `tile`: its column, its row, or a diagonal that it lies on.
pub open spec fn wins_at(cells: Seq<Tile>, x: int, y: int, tile: Tile) -> bool {
    ||| line(cells, x, 3 + x, 6 + x, tile)
    ||| line(cells, 3 * y, 3 * y + 1, 3 * y + 2, tile)
    ||| (x == y && line(cells, 0, 4, 8, tile))
    ||| (x + y == 2 && line(cells, 2, 4, 6, tile))
}

/// Whether no cell is empty.
pub open spec fn full(cells: Seq<Tile>) -> bool {
    forall|k: int| 0 <= k < 9 ==> cells[k] != Tile::Empty
}

impl Default for Board {
    fn default() -> (board: Board)
        ensures
            board.cells() == Seq::new(9, |k: int| Tile::Empty),
    {
        Board::new()
    }
}

impl Board {
    /// The nine cells, row by row: the cell in column `x` of row `y` has the
    /// index `3 * y + x`.
    pub open spec fn cells(self) -> Seq<Tile> {
        Seq::new(9, |k: int| self.0[k / 3][k % 3])
    }

    /// The empty board.
    pub fn new() -> (board: Board)
        ensures
            board.cells() == Seq::new(9, |k: int| Tile::Empty),
    {
        let board = Board(
            [
                [Tile::Empty, Tile::Empty, Tile::Empty],
                [Tile::Empty, Tile::Empty, Tile::Empty],
                [Tile::Empty, Tile::Empty, Tile::Empty],
            ],
        );
        assert(board.cells() =~= Seq::new(9, |k: int| Tile::Empty));
        board
    }

    /// The tile in column `x` of row `y`.
    pub fn tile(&self, x: usize, y: usize) -> (tile: Tile)
        requires
            x < 3,
            y < 3,
        ensures
            tile == self.cells()[3 * y + x],
    {
        self.0[y][x]
    }

    /// The board with `tile` in column `x` of row `y`.
    pub fn with_tile(&self, x: usize, y: usize, tile: Tile) -> (board: Board)
        requires
            x < 3,
            y < 3,
        ensures
            board.cells() == self.cells().update(3 * y + x, tile),
    {
        let mut rows = self.0;
        let mut row = rows[y];
        row[x] = tile;
        rows[y] = row;
        let board = Board(rows);
        assert(board.cells() =~= self.cells().update(3 * y + x, tile));
        board
    }

    /// Whether the mark that `action` has just set completes a line.
    pub fn check_win(&self, action: &Move) -> (won: bool)
        requires
            action.on_board(),
        ensures
            won == wins_at(self.cells(), action.x as int, action.y as int, action.tile),
    {
        let x = action.x;
        let y = action.y;
        let tile = action.tile;
        let column = self.tile(x, 0) == tile && self.tile(x, 1) == tile && self.tile(x, 2) == tile;
        let row = self.tile(0, y) == tile && self.tile(1, y) == tile && self.tile(2, y) == tile;
        let main_diag = x == y && self.tile(0, 0) == tile && self.tile(1, 1) == tile && self.tile(
            2,
            2,
        ) == tile;
        let anti_diag = x + y == 2 && self.tile(2, 0) == tile && self.tile(1, 1) == tile
            && self.tile(0, 2) == tile;
        column || row || main_diag || anti_diag
    }

    /// Whether no cell is empty.
    pub fn is_full(&self) -> (none_empty: bool)
        ensures
            none_empty == full(self.cells()),
    {
        let mut k: usize = 0;
        while k < 9
            invariant
                k <= 9,
                forall|j: int| 0 <= j < k ==> self.cells()[j] != Tile::Empty,
            decreases 9 - k,
        {
            if self.tile(k % 3, k / 3) == Tile::Empty {
                return false;
            }
            k += 1;
        }
        true
    }
}

/// Nine cells as the screen shows them: a frame, the rows numbered from 1
/// downwards, the columns lettered from `a` below.
pub open spec fn board_text(cells: Seq<Tile>) -> Seq<char> {
    "  ┌───┬───┬───┐\n1 │ "@
        + cells[0].glyph() + " │ "@
        + cells[1].glyph() + " │ "@
        + cells[2].glyph() + " │\n  ├───┼───┼───┤\n2 │ "@
        + cells[3].glyph() + " │ "@
        + cells[4].glyph() + " │ "@
        + cells[5].glyph() + " │\n  ├───┼───┼───┤\n3 │ "@
        + cells[6].glyph() + " │ "@
        + cells[7].glyph() + " │ "@
        + cells[8].glyph() + " │\n  └───┴───┴───┘\n    a   b   c"@
}

impl Board {
    /// The board as the screen shows it.
    pub open spec fn text(self) -> Seq<char> {
        board_text(self.cells())
    }

    /// Draws the board.
    pub fn to_string(&self) -> (text: String)
        ensures
            text@ == self.text(),
    {
        let mut text = String::from_str("  ┌───┬───┬───┐\n1 │ ");
        text.append(self.tile(0, 0).as_str());
        text.append(" │ ");
        text.append(self.tile(1, 0).as_str());
        text.append(" │ ");
        text.append(self.tile(2, 0).as_str());
        text.append(" │\n  ├───┼───┼───┤\n2 │ ");
        text.append(self.tile(0, 1).as_str());
        text.append(" │ ");
        text.append(self.tile(1, 1).as_str());
        text.append(" │ ");
        text.append(self.tile(2, 1).as_str());
        text.append(" │\n  ├───┼───┼───┤\n3 │ ");
        text.append(self.tile(0, 2).as_str());
        text.append(" │ ");
        text.append(self.tile(1, 2).as_str());
        text.append(" │ ");
        text.append(self.tile(2, 2).as_str());
        text.append(" │\n  └───┴───┴───┘\n    a   b   c");
        text
    }
}

/// The actions among the first `n` cells, counted column by column and in
/// each column from the top: a move of `tile` for each cell that is empty.
pub open spec fn open_cells(cells: Seq<Tile>, tile: Tile, n: nat) -> Seq<Move>
    decreases n,
{
    if n == 0 {
        Seq::empty()
    } else {
        let earlier = open_cells(cells, tile, (n - 1) as nat);
        let x = (n - 1) / 3;
        let y = (n - 1) % 3;
        if cells[3 * y + x] == Tile::Empty {
            earlier.push(Move { x: x as usize, y: y as usize, tile })
        } else {
            earlier
        }
    }
}

/// An action among the first `n` cells names one of them, which is empty, and
/// carries the tile that was asked for.
pub proof fn open_cells_are_empty(cells: Seq<Tile>, tile: Tile, n: nat, m: Move)
    requires
        n <= 9,
        open_cells(cells, tile, n).contains(m),
    ensures
        m.on_board(),
        m.tile == tile,
        3 * m.x + m.y < n,
        cells[3 * m.y + m.x] == Tile::Empty,
    decreases n,
{
    if n > 0 {
        let earlier = open_cells(cells, tile, (n - 1) as nat);
        let now = open_cells(cells, tile, n);
        let i = choose|i: int| 0 <= i < now.len() && now[i] == m;
        if i < earlier.len() {
            assert(earlier[i] == m);
            open_cells_are_empty(cells, tile, (n - 1) as nat, m);
        }
    }
}

/// Each empty cell among the first `n` gives an action.
pub proof fn empty_cells_are_open(cells: Seq<Tile>, tile: Tile, n: nat, x: int, y: int)
    requires
        n <= 9,
        0 <= x < 3,
        0 <= y < 3,
        3 * x + y < n,
        cells[3 * y + x] == Tile::Empty,
    ensures
        open_cells(cells, tile, n).contains(Move { x: x as usize, y: y as usize, tile }),
    decreases n,
{
    let m = Move { x: x as usize, y: y as usize, tile };
    let earlier = open_cells(cells, tile, (n - 1) as nat);
    let now = open_cells(cells, tile, n);
    if 3 * x + y == n - 1 {
        assert(now == earlier.push(m));
        assert(now[earlier.len() as int] == m);
    } else {
        empty_cells_are_open(cells, tile, (n - 1) as nat, x, y);
        let i = choose|i: int| 0 <= i < earlier.len() && earlier[i] == m;
        assert(now[i] == m);
    }
}

/// A position of the game, as contracts see it.
pub struct Situation {
    /// The nine cells, row by row.
    pub cells: Seq<Tile>,
    /// The side to move.
    pub player: Player,
    /// The side that has completed a line, if one has.
    pub winner: Option<Player>,
    /// Whether the board is full with no line completed.
    pub draw: bool,
    /// The moves played, oldest first.
    pub history: Seq<Move>,
}

impl Situation {
    /// The position after `action`, by the rules of the game: the mark is set,
    /// the turn passes, and the game is won by a line through the new mark or
    /// drawn on a full board without one.
    pub open spec fn after(self, action: Move) -> Situation {
        let cells = self.cells.update(3 * action.y + action.x, action.tile);
        let win = wins_at(cells, action.x as int, action.y as int, action.tile);
        Situation {
            cells,
            player: self.player.other(),
            winner: if win {
                Some(self.player)
            } else {
                None
            },
            draw: full(cells) && !win,
            history: self.history.push(action),
        }
    }

    /// Whether `action` names an empty cell of the board.
    pub open spec fn allows(self, action: Move) -> bool {
        action.on_board() && self.cells[3 * action.y + action.x] == Tile::Empty
    }

    /// The opening position: an empty board, crosses to move.
    pub open spec fn opening() -> Situation {
        Situation {
            cells: Seq::new(9, |k: int| Tile::Empty),
            player: Player::Max,
            winner: None,
            draw: false,
            history: Seq::empty(),
        }
    }
}

/// A game of noughts and crosses in progress.
#[derive(Debug)]
pub struct TicTacToeState {
    board: Board,
    player: Player,
    winner: Option<Player>,
    draw: bool,
    move_history: Vec<Move>,
}

impl Default for TicTacToeState {
    fn default() -> (state: TicTacToeState)
        ensures
            state.position() == Situation::opening(),
    {
        TicTacToeState::with_board(Board::new())
    }
}

impl TicTacToeState {
    /// The opening position.
    pub fn new() -> (state: TicTacToeState)
        ensures
            state.position() == Situation::opening(),
    {
        TicTacToeState::with_board(Board::new())
    }

    /// The position with the given board in which crosses are to move, nobody
    /// has won and no move is on record.
    pub fn with_board(board: Board) -> (state: TicTacToeState)
        ensures
            state.position() == (Situation {
                cells: board.cells(),
                player: Player::Max,
                winner: None,
                draw: false,
                history: Seq::empty(),
            }),
    {
        TicTacToeState {
            board,
            player: Player::Max,
            winner: None,
            draw: false,
            move_history: Vec::new(),
        }
    }

    /// The board.
    pub fn board(&self) -> (board: Board)
        ensures
            board.cells() == self.position().cells,
    {
        self.board
    }

    /// The side that has won, if one has.
    pub fn winner(&self) -> (winner: Option<Player>)
        ensures
            winner == self.position().winner,
    {
        self.winner
    }

    /// Whether the game has ended without a winner.
    pub fn is_draw(&self) -> (draw: bool)
        ensures
            draw == self.position().draw,
    {
        self.draw
    }

    /// The position after `action`, whatever tile it carries.
    fn advanced(&self, action: &Move) -> (next: TicTacToeState)
        requires
            self.position().allows(*action),
        ensures
            next.position() == self.position().after(*action),
    {
        let board = self.board.with_tile(action.x, action.y, action.tile);
        let win = board.check_win(action);
        let draw = board.is_full() && !win;
        let mut move_history: Vec<Move> = Vec::new();
        let mut i: usize = 0;
        while i < self.move_history.len()
            invariant
                i <= self.move_history.len(),
                move_history@ == self.move_history@.take(i as int),
            decreases self.move_history.len() - i,
        {
            move_history.push(self.move_history[i]);
            assert(move_history@ =~= self.move_history@.take(i + 1));
            i += 1;
        }
        assert(self.move_history@.take(i as int) =~= self.move_history@);
        move_history.push(*action);
        TicTacToeState {
            board,
            player: self.player.opposite(),
            winner: if win {
                Some(self.player)
            } else {
                None
            },
            draw,
            move_history,
        }
    }

    /// Sets the mark of the side to move on the cell that `position` names.
    pub fn place(&mut self, position: Move)
        requires
            old(self).position().allows(position),
        ensures
            final(self).position() == old(self).position().after(
                Move { x: position.x, y: position.y, tile: Tile::of(old(self).position().player) },
            ),
    {
        let mut action = position;
        action.tile = Tile::from(self.player);
        self.play_move(action);
    }

    /// Plays `action` as it stands.
    pub fn play_move(&mut self, action: Move)
        requires
            old(self).position().allows(action),
        ensures
            final(self).position() == old(self).position().after(action),
    {
        *self = self.advanced(&action);
    }
}

impl State<Move> for TicTacToeState {
    type Position = Situation;

    closed spec fn position(&self) -> Situation {
        Situation {
            cells: self.board.cells(),
            player: self.player,
            winner: self.winner,
            draw: self.draw,
            history: self.move_history@,
        }
    }

    /// A board of nine cells on which an empty cell is left as long as the
    /// game goes on.
    open spec fn valid(p: Situation) -> bool {
        p.cells.len() == 9 && (p.winner is Some || p.draw || !full(p.cells))
    }

    open spec fn terminal(p: Situation) -> bool {
        p.winner is Some || p.draw
    }

    /// Infinity for the side that has won, 0 while nobody has.
    open spec fn score(p: Situation) -> Extended {
        match p.winner {
            Some(Player::Min) => Extended::NegInfinity,
            Some(Player::Max) => Extended::Infinity,
            None => Extended::Finite(0),
        }
    }

    open spec fn mover(p: Situation) -> Player {
        p.player
    }

    /// The empty cells, column by column, each with the mover's tile.
    open spec fn moves(p: Situation) -> Seq<Move> {
        open_cells(p.cells, Tile::of(p.player), 9)
    }

    open spec fn successor(p: Situation, action: Move) -> Situation {
        p.after(action)
    }

    fn is_terminal(&self) -> (over: bool) {
        self.winner.is_some() || self.draw
    }

    fn evaluation(&self) -> (value: Value) {
        match self.winner {
            Some(Player::Min) => Value::neg_infinity(),
            Some(Player::Max) => Value::infinity(),
            None => Value::zero(),
        }
    }

    fn current_player(&self) -> (player: Player) {
        self.player
    }

    fn actions(&self) -> (actions: Vec<Move>) {
        let tile = Tile::from(self.player);
        let mut actions: Vec<Move> = Vec::new();
        let mut n: usize = 0;
        while n < 9
            invariant
                n <= 9,
                tile == Tile::of(self.player),
                actions@ == open_cells(self.board.cells(), tile, n as nat),
            decreases 9 - n,
        {
            let x = n / 3;
            let y = n % 3;
            if self.board.tile(x, y) == Tile::Empty {
                actions.push(Move { x, y, tile });
            }
            n += 1;
        }
        proof {
            if !Self::terminal(self.position()) {
                let cells = self.position().cells;
                let k = choose|k: int| 0 <= k < 9 && cells[k] == Tile::Empty;
                empty_cells_are_open(cells, tile, 9, k % 3, k / 3);
            }
        }
        actions
    }

    fn result(&self, action: &Move) -> (next: Self) {
        proof {
            open_cells_are_empty(
                self.position().cells,
                Tile::of(self.position().player),
                9,
                *action,
            );
        }
        self.advanced(action)
    }
}

/// Crosses and noughts take turns, however long the game goes on.
pub proof fn turns_alternate(p: Situation, depth: nat)
    ensures
        alternates::<TicTacToeState, Move>(p, depth),
    decreases depth,
{
    if depth > 0 {
        assert forall|i: int| 0 <= i < TicTacToeState::moves(p).len() implies TicTacToeState::mover(
            #[trigger] child::<TicTacToeState, Move>(p, i),
        ) == TicTacToeState::mover(p).other() && alternates::<TicTacToeState, Move>(
            child::<TicTacToeState, Move>(p, i),
            (depth - 1) as nat,
        ) by {
            turns_alternate(child::<TicTacToeState, Move>(p, i), (depth - 1) as nat);
        }
    }
}

/// Noughts and crosses as the screen plays it: the player sets the crosses,
/// the computer the noughts.
#[derive(Debug)]
pub struct TicTacToe(TicTacToeState);

impl Default for TicTacToe {
    fn default() -> (game: TicTacToe)
        ensures
            game.sound(),
            game.state().position() == Situation::opening(),
    {
        let game = TicTacToe(TicTacToeState::new());
        assert(!full(game.0.position().cells)) by {
            assert(game.0.position().cells[0] == Tile::Empty);
        }
        game
    }
}

impl TicTacToe {
    /// The position that the game is in.
    pub closed spec fn state(&self) -> TicTacToeState {
        self.0
    }

    /// The cell that the text `move_` names, where it is a move.
    pub open spec fn cell(move_: Seq<char>) -> Option<Move> {
        match Move::parsed(move_) {
            Ok(m) => Some(m),
            Err(_) => None,
        }
    }
}

impl Game for TicTacToe {
    /// The position is one that play can reach, and the moves on record name
    /// cells of the board.
    open spec fn sound(&self) -> bool {
        &&& TicTacToeState::valid(self.state().position())
        &&& forall|i: int|
            0 <= i < self.state().position().history.len() ==> (
            #[trigger] self.state().position().history[i]).on_board()
    }

    /// A move is accepted where it names an empty cell.
    open spec fn accepts(&self, move_: Seq<char>) -> bool {
        match Move::parsed(move_) {
            Ok(m) => self.state().position().cells[3 * m.y + m.x] == Tile::Empty,
            Err(_) => false,
        }
    }

    /// Decisive once a side has completed a line, drawn on a full board
    /// without one.
    open spec fn outcome(&self) -> Option<WinState> {
        if self.state().position().winner is Some {
            Some(WinState::Decisive)
        } else if self.state().position().draw {
            Some(WinState::Draw)
        } else {
            None
        }
    }

    open spec fn title(&self) -> Seq<char> {
        "Tic Tac Toe"@
    }

    open spec fn picture(&self) -> Seq<char> {
        " X │ O │\n───┼───┼───\n   │ X │\n───┼───┼───\n O │   │ X "@
    }

    fn name(&self) -> (name: String) {
        String::from_str("Tic Tac Toe")
    }

    fn thumbnail(&self) -> (picture: String) {
        String::from_str(" X │ O │\n───┼───┼───\n   │ X │\n───┼───┼───\n O │   │ X ")
    }

    fn display(&self) -> (text: String)
        ensures
            text@ == board_text(self.state().position().cells),
    {
        self.0.board.to_string()
    }

    fn display_size(&self) -> (size: (u16, u16))
        ensures
            size == (16u16, 8u16),
    {
        (16, 8)
    }

    fn move_history(&self) -> (moves: Vec<String>)
        ensures
            moves.len() == self.state().position().history.len(),
            forall|i: int|
                0 <= i < moves.len() ==> (#[trigger] moves[i])@
                    == self.state().position().history[i].text(),
    {
        let mut moves: Vec<String> = Vec::new();
        let mut i: usize = 0;
        while i < self.0.move_history.len()
            invariant
                self.sound(),
                i <= self.0.move_history.len(),
                moves.len() == i,
                forall|j: int|
                    0 <= j < i ==> (#[trigger] moves[j])@ == self.0.move_history[j].text(),
            decreases self.0.move_history.len() - i,
        {
            assert(self.0.position().history[i as int].on_board());
            moves.push(self.0.move_history[i].to_string());
            i += 1;
        }
        moves
    }

    fn win_state(&self) -> (state: Option<WinState>) {
        if self.0.is_terminal() {
            if self.0.winner.is_some() {
                Some(WinState::Decisive)
            } else {
                Some(WinState::Draw)
            }
        } else {
            None
        }
    }

    fn is_valid_move(&self, move_: &str) -> (valid: bool) {
        match Move::from_str(move_) {
            Ok(m) => self.0.board.tile(m.x, m.y) == Tile::Empty,
            Err(_) => false,
        }
    }

    fn play_move(&mut self, move_: &str)
        ensures
            Self::cell(move_@) matches Some(m) && final(self).state().position() == old(
                self,
            ).state().position().after(
                Move { x: m.x, y: m.y, tile: Tile::of(old(self).state().position().player) },
            ),
    {
        match Move::from_str(move_) {
            Ok(m) => {
                self.0.place(m);
            },
            Err(_) => {},
        }
    }

    /// The reply is the cell of the action that the search chooses at full
    /// depth, and a move that is accepted.
    fn computer_move(&self) -> (reply: String)
        ensures
            reply@ == TicTacToeState::moves(self.state().position())[choice::<
                TicTacToeState,
                Move,
            >(self.state().position(), u32::MAX as nat)].text(),
            self.accepts(reply@),
    {
        proof {
            let typed = choose|typed: Seq<char>| self.accepts(typed);
            let m = Move::parsed(typed)->Ok_0;
            let p = self.0.position();
            empty_cells_are_open(p.cells, Tile::of(p.player), 9, m.x as int, m.y as int);
        }
        let action = best_move(&self.0, u32::MAX);
        proof {
            let p = self.0.position();
            assert(TicTacToeState::moves(p).contains(action));
            open_cells_are_empty(p.cells, Tile::of(p.player), 9, action);
            action.written_reads_back();
        }
        action.to_string()
    }

    fn reset(&mut self)
        ensures
            final(self).state().position() == Situation::opening(),
    {
        self.0 = TicTacToeState::new();
        assert(!full(self.0.position().cells)) by {
            assert(self.0.position().cells[0] == Tile::Empty);
        }
    }
}

} // verus!
