//! The screen of one game: what an entered move leads to, how the game is
//! found over, and the list of moves at the side.

use vstd::prelude::*;
use crate::games::{Game, WinState};

verus! {

/// How the game ended for the player in front of the screen.
#[derive(Clone, Copy, Debug, PartialEq, Eq, Structural)]
pub enum GameOver {
    Win,
    Lose,
    Draw,
}

/// Why the input line is marked.
#[derive(Clone, Copy, Debug, PartialEq, Eq, Structural)]
pub enum InputLabel {
    Invalid,
    Thinking,
}

impl Default for InputLabel {
    fn default() -> (label: InputLabel)
        ensures
            label == InputLabel::Invalid,
    {
        InputLabel::Invalid
    }
}

impl InputLabel {
    /// The words that mark the input line.
    pub fn text(self) -> (text: &'static str)
        ensures
            text@ == (match self {
                InputLabel::Invalid => "Invalid move"@,
                InputLabel::Thinking => "Computer is thinking"@,
            }),
    {
        match self {
            InputLabel::Invalid => "Invalid move",
            InputLabel::Thinking => "Computer is thinking",
        }
    }
}

impl GameOver {
    /// The end of a game that the player's own move has ended: decided, it is
    /// won.
    pub open spec fn after_own_move(state: WinState) -> GameOver {
        match state {
            WinState::Decisive => GameOver::Win,
            WinState::Draw => GameOver::Draw,
        }
    }

    /// The end of a game that the computer's move has ended: decided, it is
    /// lost.
    pub open spec fn after_reply(state: WinState) -> GameOver {
        match state {
            WinState::Decisive => GameOver::Lose,
            WinState::Draw => GameOver::Draw,
        }
    }

    /// The heading of the window that closes the game.
    pub fn title(self) -> (title: &'static str)
        ensures
            title@ == (match self {
                GameOver::Win => "You win!"@,
                GameOver::Lose => "You lost!"@,
                GameOver::Draw => "Draw"@,
            }),
    {
        match self {
            GameOver::Win => "You win!",
            GameOver::Lose => "You lost!",
            GameOver::Draw => "Draw",
        }
    }
}

/// What became of a line that the player entered.
#[derive(Clone, Copy, Debug, PartialEq, Eq, Structural)]
pub enum Entry {
    /// The computer is still thinking: nothing was played.
    Busy,
    /// The line is no move that can be played now.
    Rejected,
    /// The move was played. `think` says whether the game goes on, so that
    /// the computer has to answer.
    Played { think: bool },
}

/// What the screen of a game remembers between two keys, beside the game.
#[derive(Clone, Copy, Debug, PartialEq, Eq, Structural)]
pub struct GameScreen {
    pub input_label: Option<InputLabel>,
    pub game_over: Option<GameOver>,
}

impl Default for GameScreen {
    fn default() -> (screen: GameScreen)
        ensures
            screen == (GameScreen { input_label: None, game_over: None }),
    {
        GameScreen::new()
    }
}

impl GameScreen {
    /// The screen of a game that has not begun.
    pub fn new() -> (screen: GameScreen)
        ensures
            screen == (GameScreen { input_label: None, game_over: None }),
    {
        GameScreen { input_label: None, game_over: None }
    }

    /// Takes the line that the player has entered.
    ///
    /// While the computer is `thinking` the line is set aside and marked so.
    /// A line that is no move for now is marked invalid. A move is played,
    /// the mark on the input line is taken off, and where the game is over
    /// with it the player has won or drawn.
    pub fn enter_input<G: Game + ?Sized>(&mut self, game: &mut G, thinking: bool, input: &str) -> (entry:
        Entry)
        requires
            old(game).sound(),
        ensures
            final(game).sound(),
            match entry {
                Entry::Busy => {
                    &&& thinking
                    &&& *final(self) == (GameScreen {
                        input_label: Some(InputLabel::Thinking),
                        ..*old(self)
                    })
                },
                Entry::Rejected => {
                    &&& !thinking
                    &&& !old(game).accepts(input@)
                    &&& *final(self) == (GameScreen {
                        input_label: Some(InputLabel::Invalid),
                        ..*old(self)
                    })
                },
                Entry::Played { think } => {
                    &&& !thinking
                    &&& old(game).accepts(input@)
                    &&& final(self).input_label is None
                    &&& final(self).game_over == (match final(game).outcome() {
                        Some(state) => Some(GameOver::after_own_move(state)),
                        None => old(self).game_over,
                    })
                    &&& think == (final(self).game_over is None)
                },
            },
    {
        if thinking {
            self.input_label = Some(InputLabel::Thinking);
            return Entry::Busy;
        }
        if game.is_valid_move(input) {
            self.input_label = None;
            game.play_move(input);
            self.update_game_over(game);
            Entry::Played { think: self.game_over.is_none() }
        } else {
            self.input_label = Some(InputLabel::Invalid);
            Entry::Rejected
        }
    }

    /// Notes the end of the game where the player's move has ended it.
    pub fn update_game_over<G: Game + ?Sized>(&mut self, game: &G)
        requires
            game.sound(),
        ensures
            final(self).input_label == old(self).input_label,
            final(self).game_over == (match game.outcome() {
                Some(state) => Some(GameOver::after_own_move(state)),
                None => old(self).game_over,
            }),
    {
        match game.win_state() {
            Some(WinState::Decisive) => {
                self.game_over = Some(GameOver::Win);
            },
            Some(WinState::Draw) => {
                self.game_over = Some(GameOver::Draw);
            },
            None => {},
        }
    }

    /// Plays the move that the computer has found, and notes the end of the
    /// game where that move has ended it.
    pub fn computer_moved<G: Game + ?Sized>(&mut self, game: &mut G, reply: &str)
        requires
            old(game).sound(),
            old(game).accepts(reply@),
        ensures
            final(game).sound(),
            final(self).input_label == old(self).input_label,
            final(self).game_over == (match final(game).outcome() {
                Some(state) => Some(GameOver::after_reply(state)),
                None => old(self).game_over,
            }),
    {
        game.play_move(reply);
        match game.win_state() {
            Some(WinState::Decisive) => {
                self.game_over = Some(GameOver::Lose);
            },
            Some(WinState::Draw) => {
                self.game_over = Some(GameOver::Draw);
            },
            None => {},
        }
    }

    /// Starts the game afresh.
    pub fn restart<G: Game + ?Sized>(&mut self, game: &mut G)
        ensures
            final(game).sound(),
            final(self).game_over is None,
            final(self).input_label == old(self).input_label,
    {
        self.game_over = None;
        game.reset();
    }
}

/// The character of the digit `d`.
pub open spec fn digit(d: nat) -> char {
    if d == 0 {
        '0'
    } else if d == 1 {
        '1'
    } else if d == 2 {
        '2'
    } else if d == 3 {
        '3'
    } else if d == 4 {
        '4'
    } else if d == 5 {
        '5'
    } else if d == 6 {
        '6'
    } else if d == 7 {
        '7'
    } else if d == 8 {
        '8'
    } else {
        '9'
    }
}

/// The number `n` in decimal digits, without leading zeros.
pub open spec fn decimal(n: nat) -> Seq<char>
    decreases n,
{
    if n < 10 {
        seq![digit(n)]
    } else {
        decimal(n / 10) + seq![digit(n % 10)]
    }
}

/// The digit `d` as text.
fn digit_str(d: usize) -> (text: &'static str)
    requires
        d < 10,
    ensures
        text@ == seq![digit(d as nat)],
{
    proof {
        reveal_strlit("0");
        reveal_strlit("1");
        reveal_strlit("2");
        reveal_strlit("3");
        reveal_strlit("4");
        reveal_strlit("5");
        reveal_strlit("6");
        reveal_strlit("7");
        reveal_strlit("8");
        reveal_strlit("9");
    }
    let text = if d == 0 {
        "0"
    } else if d == 1 {
        "1"
    } else if d == 2 {
        "2"
    } else if d == 3 {
        "3"
    } else if d == 4 {
        "4"
    } else if d == 5 {
        "5"
    } else if d == 6 {
        "6"
    } else if d == 7 {
        "7"
    } else if d == 8 {
        "8"
    } else {
        "9"
    };
    assert(text@ =~= seq![digit(d as nat)]);
    text
}

/// Writes `n` in decimal digits.
pub fn decimal_string(n: usize) -> (text: String)
    ensures
        text@ == decimal(n as nat),
    decreases n,
{
    if n < 10 {
        String::from_str(digit_str(n))
    } else {
        let mut text = decimal_string(n / 10);
        text.append(digit_str(n % 10));
        text
    }
}

/// The line of the turn `n`, counted from 0: its number from 1, a full stop,
/// the first move of the turn, a space, and the answer if there is one.
pub open spec fn turn_line(moves: Seq<String>, n: int) -> Seq<char> {
    decimal((n + 1) as nat) + ". "@ + moves[2 * n]@ + " "@ + (if 2 * n + 1 < moves.len() {
        moves[2 * n + 1]@
    } else {
        Seq::empty()
    })
}

/// The lines of the first `turns` turns, one below the other.
pub open spec fn history_text(moves: Seq<String>, turns: nat) -> Seq<char>
    decreases turns,
{
    if turns == 0 {
        Seq::empty()
    } else if turns == 1 {
        turn_line(moves, 0)
    } else {
        history_text(moves, (turns - 1) as nat) + "\n"@ + turn_line(moves, turns - 1)
    }
}

/// The moves of a game as a numbered list, two moves to a line.
pub fn format_move_history(moves: &Vec<String>) -> (text: String)
    ensures
        text@ == history_text(moves@, ((moves.len() + 1) / 2) as nat),
{
    let turns = moves.len() / 2 + moves.len() % 2;
    let mut text = String::new();
    let mut n: usize = 0;
    while n < turns
        invariant
            n <= turns,
            turns == (moves.len() + 1) / 2,
            text@ == history_text(moves@, n as nat),
        decreases turns - n,
    {
        if n > 0 {
            text.append("\n");
        }
        let number = decimal_string(n + 1);
        text.append(number.as_str());
        text.append(". ");
        text.append(moves[2 * n].as_str());
        text.append(" ");
        if 2 * n + 1 < moves.len() {
            text.append(moves[2 * n + 1].as_str());
        }
        assert(text@ =~= history_text(moves@, (n + 1) as nat));
        n += 1;
    }
    text
}

} // verus!
