//! What a game has to offer to be searched.

use vstd::prelude::*;
use crate::minimax::player::Player;
use crate::minimax::value::{Extended, Value};

verus! {

/// A position of a two-player, zero-sum game of perfect information, with
/// actions of type `A`.
///
/// A position is never changed in place: an action leads to a new position.
/// The game is given by spec functions over `Self::Position`, the position as
/// contracts see it, and each method answers as its spec function says, so
/// that a position answers the same way each time it is asked. Where the game
/// is not over there is an action to take.
///
/// The spec functions have bodies that say nothing, so that an implementation
/// outside verified code has only the methods to write. A verified
/// implementation gives each of them its meaning, and generic code knows of
/// them only what the methods' contracts say.
pub trait State<A: Clone>: Sized {
    /// The position as contracts see it.
    type Position;

    /// This position, as contracts see it.
    open spec fn position(&self) -> Self::Position {
        arbitrary()
    }

    /// The positions that the methods accept: those that play can reach.
    open spec fn valid(p: Self::Position) -> bool {
        arbitrary()
    }

    /// Whether the game is over at `p`.
    open spec fn terminal(p: Self::Position) -> bool {
        arbitrary()
    }

    /// The static evaluation of `p` in the absolute frame: larger is better
    /// for `Player::Max`, whoever is to move.
    open spec fn score(p: Self::Position) -> Extended {
        arbitrary()
    }

    /// The side to move at `p`.
    open spec fn mover(p: Self::Position) -> Player {
        arbitrary()
    }

    /// The legal actions at `p`, in the order in which they are tried.
    open spec fn moves(p: Self::Position) -> Seq<A> {
        arbitrary()
    }

    /// The position that `action` leads to from `p`.
    open spec fn successor(p: Self::Position, action: A) -> Self::Position {
        arbitrary()
    }

    /// True if and only if no further move is possible.
    fn is_terminal(&self) -> (over: bool)
        requires
            Self::valid(self.position()),
        ensures
            over == Self::terminal(self.position()),
    ;

    /// The static evaluation, in the absolute frame.
    fn evaluation(&self) -> (value: Value)
        requires
            Self::valid(self.position()),
        ensures
            value@ == Self::score(self.position()),
    ;

    /// Whose turn it is.
    fn current_player(&self) -> (player: Player)
        requires
            Self::valid(self.position()),
        ensures
            player == Self::mover(self.position()),
    ;

    /// All legal actions, in a fixed order.
    fn actions(&self) -> (actions: Vec<A>)
        requires
            Self::valid(self.position()),
        ensures
            actions@ == Self::moves(self.position()),
            !Self::terminal(self.position()) ==> actions.len() > 0,
    ;

    /// The position reached by one legal action.
    fn result(&self, action: &A) -> (next: Self)
        requires
            Self::valid(self.position()),
            Self::moves(self.position()).contains(*action),
        ensures
            next.position() == Self::successor(self.position(), *action),
            Self::valid(next.position()),
    ;
}

} // verus!
