//! The two sides of a zero-sum game.

use vstd::prelude::*;

verus! {

/// The side to move: one maximises the evaluation, the other minimises it.
#[derive(Clone, Copy, Debug, PartialEq, Eq, Structural)]
pub enum Player {
    Max,
    Min,
}

impl Default for Player {
    /// The side that opens the game.
    fn default() -> (p: Player)
        ensures
            p == Player::Max,
    {
        Player::Max
    }
}

impl Player {
    /// The other side.
    pub open spec fn other(self) -> Player {
        match self {
            Player::Max => Player::Min,
            Player::Min => Player::Max,
        }
    }

    /// The side that moves after this one.
    pub fn opposite(self) -> (p: Player)
        ensures
            p == self.other(),
    {
        match self {
            Player::Min => Player::Max,
            Player::Max => Player::Min,
        }
    }

    /// The side named by a flag that is set for the maximising one.
    pub fn from_maximising(maximising: bool) -> (p: Player)
        ensures
            p == (if maximising {
                Player::Max
            } else {
                Player::Min
            }),
    {
        if maximising {
            Player::Max
        } else {
            Player::Min
        }
    }

    /// The opposite of the opposite of a side is that side.
    pub proof fn opposite_is_an_involution(self)
        ensures
            self.other().other() == self,
            self.other() != self,
    {
    }
}

} // verus!
