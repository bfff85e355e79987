//! Scores: integers closed under negation, with an infinity at either end.

use vstd::prelude::*;
use crate::minimax::player::Player;

verus! {

/// What a [`Value`] stands for: an integer, or one of the two infinities.
pub enum Extended {
    NegInfinity,
    Finite(int),
    Infinity,
}

impl Extended {
    /// The total order: minus infinity lies below every integer, infinity above.
    pub open spec fn le(self, other: Extended) -> bool {
        match (self, other) {
            (Extended::NegInfinity, _) => true,
            (_, Extended::Infinity) => true,
            (Extended::Finite(a), Extended::Finite(b)) => a <= b,
            _ => false,
        }
    }

    pub open spec fn lt(self, other: Extended) -> bool {
        self.le(other) && self != other
    }

    /// The same amount in the other direction.
    pub open spec fn neg(self) -> Extended {
        match self {
            Extended::NegInfinity => Extended::Infinity,
            Extended::Finite(a) => Extended::Finite(-a),
            Extended::Infinity => Extended::NegInfinity,
        }
    }

    /// The larger of two.
    pub open spec fn max(self, other: Extended) -> Extended {
        if self.le(other) {
            other
        } else {
            self
        }
    }

    /// The smaller of two.
    pub open spec fn min(self, other: Extended) -> Extended {
        if self.le(other) {
            self
        } else {
            other
        }
    }

    /// A score in the absolute frame, larger being better for `Player::Max`,
    /// seen from `player`'s side, larger being better for `player`.
    pub open spec fn seen_by(self, player: Player) -> Extended {
        match player {
            Player::Max => self,
            Player::Min => self.neg(),
        }
    }
}

#[derive(Clone, Copy, Debug, PartialEq, Eq, Structural)]
enum Amount {
    NegInfinity,
    Finite(i64),
    Infinity,
}

/// The score of a position.
///
/// A finite score is any `i64` but the least one, so that every score has a
/// negation.
#[derive(Clone, Copy, Debug, PartialEq, Eq, Structural)]
pub struct Value {
    amount: Amount,
}

impl View for Value {
    type V = Extended;

    closed spec fn view(&self) -> Extended {
        match self.amount {
            Amount::NegInfinity => Extended::NegInfinity,
            Amount::Finite(x) => Extended::Finite(x as int),
            Amount::Infinity => Extended::Infinity,
        }
    }
}

impl Value {
    #[verifier::type_invariant]
    spec fn negatable(self) -> bool {
        match self.amount {
            Amount::Finite(x) => x > i64::MIN,
            _ => true,
        }
    }

    /// The finite scores are the integers `x` with `representable(x)`.
    pub open spec fn representable(x: int) -> bool {
        i64::MIN < x <= i64::MAX
    }

    /// Above every other score.
    pub fn infinity() -> (v: Value)
        ensures
            v@ == Extended::Infinity,
    {
        Value { amount: Amount::Infinity }
    }

    /// Below every other score.
    pub fn neg_infinity() -> (v: Value)
        ensures
            v@ == Extended::NegInfinity,
    {
        Value { amount: Amount::NegInfinity }
    }

    /// The score of a balanced position.
    pub fn zero() -> (v: Value)
        ensures
            v@ == Extended::Finite(0),
    {
        Value { amount: Amount::Finite(0) }
    }

    /// The unit score.
    pub fn one() -> (v: Value)
        ensures
            v@ == Extended::Finite(1),
    {
        Value { amount: Amount::Finite(1) }
    }

    /// The finite score `x`; none for the one `i64` that has no negation.
    pub fn finite(x: i64) -> (v: Option<Value>)
        ensures
            v is Some <==> Self::representable(x as int),
            v matches Some(value) ==> value@ == Extended::Finite(x as int),
    {
        if x == i64::MIN {
            None
        } else {
            Some(Value { amount: Amount::Finite(x) })
        }
    }

    /// The integer that a finite score holds.
    pub fn as_finite(self) -> (x: Option<i64>)
        ensures
            match self@ {
                Extended::Finite(a) => x == Some(a as i64) && Self::representable(a),
                _ => x is None,
            },
    {
        proof {
            use_type_invariant(&self);
        }
        match self.amount {
            Amount::Finite(x) => Some(x),
            _ => None,
        }
    }

    /// The negation.
    pub fn neg(self) -> (v: Value)
        ensures
            v@ == self@.neg(),
    {
        proof {
            use_type_invariant(&self);
        }
        match self.amount {
            Amount::NegInfinity => Value { amount: Amount::Infinity },
            Amount::Finite(x) => Value { amount: Amount::Finite(-x) },
            Amount::Infinity => Value { amount: Amount::NegInfinity },
        }
    }

    /// Whether `self` is at most `other`.
    pub fn le(self, other: Value) -> (b: bool)
        ensures
            b == self@.le(other@),
    {
        match (self.amount, other.amount) {
            (Amount::NegInfinity, _) => true,
            (_, Amount::Infinity) => true,
            (Amount::Finite(a), Amount::Finite(b)) => a <= b,
            _ => false,
        }
    }

    /// Whether `self` is below `other`.
    pub fn lt(self, other: Value) -> (b: bool)
        ensures
            b == self@.lt(other@),
    {
        !other.le(self)
    }

    /// The larger of two scores.
    pub fn max(self, other: Value) -> (v: Value)
        ensures
            v@ == self@.max(other@),
    {
        if self.le(other) {
            other
        } else {
            self
        }
    }

    /// An absolute score as `player` sees it: unchanged for `Player::Max`,
    /// negated for `Player::Min`.
    pub fn seen_by(self, player: Player) -> (v: Value)
        ensures
            v@ == self@.seen_by(player),
    {
        match player {
            Player::Max => self,
            Player::Min => self.neg(),
        }
    }
}

} // verus!
