//! What a game shows of itself to the player in front of the screen.

pub mod chess;
pub mod tictactoe;

use vstd::prelude::*;

verus! {

/// How a finished game ended.
#[derive(Copy, Clone, Debug, PartialEq, Eq, Structural)]
pub enum WinState {
    Decisive,
    Draw,
}

impl From<bool> for WinState {
    /// A finished game is decisive or drawn.
    fn from(decisive: bool) -> (state: WinState) {
        if decisive {
            WinState::Decisive
        } else {
            WinState::Draw
        }
    }
}

impl vstd::std_specs::convert::FromSpecImpl<bool> for WinState {
    open spec fn obeys_from_spec() -> bool {
        true
    }

    open spec fn from_spec(decisive: bool) -> WinState {
        if decisive {
            WinState::Decisive
        } else {
            WinState::Draw
        }
    }
}

/// A game that can be shown and played, move by move, against the computer.
///
/// The spec functions have bodies that say nothing, so that a game outside
/// verified code has only the methods to write.
pub trait Game: Send + Sync {
    /// What the game keeps true of itself between calls.
    open spec fn sound(&self) -> bool {
        arbitrary()
    }

    /// Whether `move_`, as the player types it, can be played now.
    open spec fn accepts(&self, move_: Seq<char>) -> bool {
        arbitrary()
    }

    /// How the game has ended; nothing while it goes on.
    open spec fn outcome(&self) -> Option<WinState> {
        arbitrary()
    }

    /// The name of the game.
    open spec fn title(&self) -> Seq<char> {
        arbitrary()
    }

    /// A small picture of the game for the menu.
    open spec fn picture(&self) -> Seq<char> {
        arbitrary()
    }

    /// The name of the game.
    fn name(&self) -> (name: String)
        ensures
            name@ == self.title(),
    ;

    /// A small picture of the game for the menu.
    fn thumbnail(&self) -> (picture: String)
        ensures
            picture@ == self.picture(),
    ;

    /// The board as text.
    fn display(&self) -> String
        requires
            self.sound(),
    ;

    /// The width and height of what `display` returns.
    fn display_size(&self) -> (u16, u16);

    /// The moves played so far, oldest first.
    fn move_history(&self) -> Vec<String>
        requires
            self.sound(),
    ;

    /// How the game ended; nothing while it goes on.
    fn win_state(&self) -> (state: Option<WinState>)
        requires
            self.sound(),
        ensures
            state == self.outcome(),
    ;

    /// Whether `move_` can be played now.
    fn is_valid_move(&self, move_: &str) -> (valid: bool)
        requires
            self.sound(),
        ensures
            valid == self.accepts(move_@),
    ;

    /// Plays a move that can be played.
    fn play_move(&mut self, move_: &str)
        requires
            old(self).sound(),
            old(self).accepts(move_@),
        ensures
            final(self).sound(),
    ;

    /// The move that the computer answers with, where there is a move to play.
    fn computer_move(&self) -> String
        requires
            self.sound(),
            exists|move_: Seq<char>| self.accepts(move_),
    ;

    /// Back to the opening position.
    fn reset(&mut self)
        ensures
            final(self).sound(),
    ;
}

} // verus!
