//! Negamax search with alpha-beta pruning, and the choice of a move.
//!
//! A value is always that of a position as seen by the side to move there:
//! larger is better for whoever moves.

use vstd::prelude::*;
use crate::minimax::player::Player;
use crate::minimax::state::State;
use crate::minimax::value::{Extended, Value};

verus! {

/// The value of `p` searched `depth` plies deep over the full width of the
/// tree: the evaluation as the mover sees it where the game is over or the
/// horizon is reached, else the best that the mover can get by one action.
pub open spec fn negamax<S: State<A>, A: Clone>(p: S::Position, depth: nat) -> Extended
    decreases depth, S::moves(p).len() + 1,
{
    if S::terminal(p) || depth == 0 {
        S::score(p).seen_by(S::mover(p))
    } else {
        best_reply::<S, A>(p, depth, S::moves(p).len())
    }
}

/// What the action of index `i` at `p` is worth to the mover at `p`, the
/// position it leads to being searched `depth` plies deep.
pub open spec fn worth<S: State<A>, A: Clone>(p: S::Position, depth: nat, i: int) -> Extended {
    negamax::<S, A>(S::successor(p, S::moves(p)[i]), depth).neg()
}

/// The best that the first `n` actions at `p` are worth, each followed
/// `depth - 1` plies deep; minus infinity where `n` is 0.
pub open spec fn best_reply<S: State<A>, A: Clone>(p: S::Position, depth: nat, n: nat) -> Extended
    decreases depth, n,
{
    if depth == 0 || n == 0 {
        Extended::NegInfinity
    } else {
        best_reply::<S, A>(p, depth, (n - 1) as nat).max(
            negamax::<S, A>(S::successor(p, S::moves(p)[n - 1]), (depth - 1) as nat).neg(),
        )
    }
}

/// What the pruning search returns for `p` and the window from `alpha` to
/// `beta`.
pub open spec fn pruned<S: State<A>, A: Clone>(
    p: S::Position,
    alpha: Extended,
    beta: Extended,
    depth: nat,
) -> Extended
    decreases depth, S::moves(p).len() + 1,
{
    if S::terminal(p) || depth == 0 {
        S::score(p).seen_by(S::mover(p))
    } else {
        scan::<S, A>(p, Extended::NegInfinity, alpha, beta, depth, 0)
    }
}

/// The pruning search at `p` from the action of index `i` on, with `best` and
/// `alpha` as the earlier actions left them. Each action is searched in the
/// window swapped and negated; the scan stops once `alpha` reaches `beta`.
pub open spec fn scan<S: State<A>, A: Clone>(
    p: S::Position,
    best: Extended,
    alpha: Extended,
    beta: Extended,
    depth: nat,
    i: nat,
) -> Extended
    decreases depth, S::moves(p).len() - i,
{
    if depth == 0 || i >= S::moves(p).len() {
        best
    } else {
        let value = pruned::<S, A>(
            S::successor(p, S::moves(p)[i as int]),
            beta.neg(),
            alpha.neg(),
            (depth - 1) as nat,
        ).neg();
        let best = best.max(value);
        let alpha = alpha.max(value);
        if beta.le(alpha) {
            best
        } else {
            scan::<S, A>(p, best, alpha, beta, depth, i + 1)
        }
    }
}

/// How a result `found` of the pruning search in the window from `alpha` to
/// `beta` stands to the full-width value `exact`: below `beta` it is an upper
/// bound, above `alpha` a lower bound, so in between it is the value itself.
pub open spec fn answers(found: Extended, exact: Extended, alpha: Extended, beta: Extended) -> bool {
    &&& found.lt(beta) ==> exact.le(found)
    &&& alpha.lt(found) ==> found.le(exact)
}

/// The best of the first `n` actions is worth at least what each of them is.
proof fn best_reply_bounds_each<S: State<A>, A: Clone>(p: S::Position, depth: nat, n: nat, j: int)
    requires
        depth > 0,
        0 <= j < n,
    ensures
        worth::<S, A>(p, (depth - 1) as nat, j).le(best_reply::<S, A>(p, depth, n)),
    decreases n,
{
    if j < n - 1 {
        best_reply_bounds_each::<S, A>(p, depth, (n - 1) as nat, j);
    }
}

/// The pruning scan answers for the best of all actions, given that what it
/// carries answers for the best of the actions before `i`.
proof fn scan_answers<S: State<A>, A: Clone>(
    p: S::Position,
    best: Extended,
    alpha: Extended,
    floor: Extended,
    beta: Extended,
    depth: nat,
    i: nat,
)
    requires
        depth > 0,
        i <= S::moves(p).len(),
        alpha == floor.max(best),
        alpha.lt(beta),
        best_reply::<S, A>(p, depth, i).le(best),
        floor.lt(best) ==> best.le(best_reply::<S, A>(p, depth, i)),
    ensures
        answers(
            scan::<S, A>(p, best, alpha, beta, depth, i),
            best_reply::<S, A>(p, depth, S::moves(p).len()),
            floor,
            beta,
        ),
    decreases depth, 0nat, S::moves(p).len() - i,
{
    let n = S::moves(p).len();
    if i < n {
        let child = S::successor(p, S::moves(p)[i as int]);
        window_answers::<S, A>(child, beta.neg(), alpha.neg(), (depth - 1) as nat);
        let value = pruned::<S, A>(child, beta.neg(), alpha.neg(), (depth - 1) as nat).neg();
        let exact = worth::<S, A>(p, (depth - 1) as nat, i as int);
        assert(best_reply::<S, A>(p, depth, i + 1) == best_reply::<S, A>(p, depth, i).max(exact));
        let best2 = best.max(value);
        let alpha2 = alpha.max(value);
        if beta.le(alpha2) {
            best_reply_bounds_each::<S, A>(p, depth, n, i as int);
        } else {
            scan_answers::<S, A>(p, best2, alpha2, floor, beta, depth, i + 1);
        }
    }
}

/// Pruning in a window that is not empty answers for the full-width value.
pub proof fn window_answers<S: State<A>, A: Clone>(
    p: S::Position,
    alpha: Extended,
    beta: Extended,
    depth: nat,
)
    requires
        alpha.lt(beta),
    ensures
        answers(pruned::<S, A>(p, alpha, beta, depth), negamax::<S, A>(p, depth), alpha, beta),
    decreases depth, 1nat, 0nat,
{
    if !(S::terminal(p) || depth == 0) {
        scan_answers::<S, A>(p, Extended::NegInfinity, alpha, alpha, beta, depth, 0);
    }
}

/// Pruning never changes the result: searched in the full window, a position
/// has the value that the unpruned search over the full width of the same
/// tree gives it.
pub proof fn pruning_keeps_the_value<S: State<A>, A: Clone>(p: S::Position, depth: nat)
    ensures
        pruned::<S, A>(p, Extended::NegInfinity, Extended::Infinity, depth) == negamax::<S, A>(
            p,
            depth,
        ),
{
    window_answers::<S, A>(p, Extended::NegInfinity, Extended::Infinity, depth);
}

/// Where the game is over, the value is the evaluation as the mover sees it,
/// whatever the depth.
pub proof fn terminal_value_ignores_depth<S: State<A>, A: Clone>(p: S::Position, depth: nat)
    requires
        S::terminal(p),
    ensures
        negamax::<S, A>(p, depth) == S::score(p).seen_by(S::mover(p)),
{
}

/// At depth 0 the value is the evaluation as the mover sees it, whether or
/// not the game is over.
pub proof fn horizon_value_is_the_evaluation<S: State<A>, A: Clone>(p: S::Position)
    ensures
        negamax::<S, A>(p, 0) == S::score(p).seen_by(S::mover(p)),
{
}

/// The position that the action of index `i` leads to from `p`.
pub open spec fn child<S: State<A>, A: Clone>(p: S::Position, i: int) -> S::Position {
    S::successor(p, S::moves(p)[i])
}

/// Whether the sides take turns on every line of play from `p`, as far as
/// `depth` plies.
pub open spec fn alternates<S: State<A>, A: Clone>(p: S::Position, depth: nat) -> bool
    decreases depth,
{
    depth == 0 || S::terminal(p) || forall|i: int|
        0 <= i < S::moves(p).len() ==> S::mover(#[trigger] child::<S, A>(p, i)) == S::mover(
            p,
        ).other() && alternates::<S, A>(child::<S, A>(p, i), (depth - 1) as nat)
}

/// The value of `p` in the absolute frame, searched `depth` plies deep over
/// the full width of the tree: the evaluation where the game is over or the
/// horizon is reached, else the largest value of a successor where
/// `Player::Max` moves and the smallest where `Player::Min` does.
pub open spec fn full_width<S: State<A>, A: Clone>(p: S::Position, depth: nat) -> Extended
    decreases depth, S::moves(p).len() + 1,
{
    if S::terminal(p) || depth == 0 {
        S::score(p)
    } else {
        best_successor::<S, A>(p, depth, S::moves(p).len())
    }
}

/// The value that the mover at `p` picks among the first `n` successors, each
/// searched `depth - 1` plies deep.
pub open spec fn best_successor<S: State<A>, A: Clone>(p: S::Position, depth: nat, n: nat) -> Extended
    decreases depth, n,
{
    if depth == 0 || n == 0 {
        match S::mover(p) {
            Player::Max => Extended::NegInfinity,
            Player::Min => Extended::Infinity,
        }
    } else {
        let earlier = best_successor::<S, A>(p, depth, (n - 1) as nat);
        let value = full_width::<S, A>(child::<S, A>(p, n - 1), (depth - 1) as nat);
        match S::mover(p) {
            Player::Max => earlier.max(value),
            Player::Min => earlier.min(value),
        }
    }
}

/// Among the first `n` actions, what the mover can get is the value that the
/// mover picks among the successors, as the mover sees it.
proof fn best_reply_is_best_successor<S: State<A>, A: Clone>(p: S::Position, depth: nat, n: nat)
    requires
        depth > 0,
        !S::terminal(p),
        n <= S::moves(p).len(),
        alternates::<S, A>(p, depth),
    ensures
        best_reply::<S, A>(p, depth, n) == best_successor::<S, A>(p, depth, n).seen_by(
            S::mover(p),
        ),
    decreases depth, 0nat, n,
{
    if n > 0 {
        best_reply_is_best_successor::<S, A>(p, depth, (n - 1) as nat);
        let next = child::<S, A>(p, n - 1);
        assert(S::mover(next) == S::mover(p).other() && alternates::<S, A>(
            next,
            (depth - 1) as nat,
        ));
        negamax_is_full_width::<S, A>(next, (depth - 1) as nat);
    }
}

/// Where the sides take turns, the value that the search works with is the
/// value of the full-width search in the absolute frame, as the mover sees
/// it: the largest for `Player::Max`, the smallest, negated, for
/// `Player::Min`.
pub proof fn negamax_is_full_width<S: State<A>, A: Clone>(p: S::Position, depth: nat)
    requires
        alternates::<S, A>(p, depth),
    ensures
        negamax::<S, A>(p, depth) == full_width::<S, A>(p, depth).seen_by(S::mover(p)),
    decreases depth, 1nat, 0nat,
{
    if !(S::terminal(p) || depth == 0) {
        best_reply_is_best_successor::<S, A>(p, depth, S::moves(p).len());
    }
}

/// Where the sides take turns, the pruning search in the full window finds
/// the value of the unpruned search over the full width of the same tree, as
/// the mover sees it.
pub proof fn pruning_finds_the_full_width_value<S: State<A>, A: Clone>(p: S::Position, depth: nat)
    requires
        alternates::<S, A>(p, depth),
    ensures
        pruned::<S, A>(p, Extended::NegInfinity, Extended::Infinity, depth) == full_width::<S, A>(
            p,
            depth,
        ).seen_by(S::mover(p)),
{
    pruning_keeps_the_value::<S, A>(p, depth);
    negamax_is_full_width::<S, A>(p, depth);
}

/// The value of `state` in the window from `alpha` to `beta`, `depth` plies
/// deep, as the side to move sees it. In a window that is not empty the
/// result answers for the full-width value: below `beta` it is an upper
/// bound, above `alpha` a lower bound, and in between the value itself.
pub fn alpha_beta<S: State<A>, A: Clone>(state: &S, alpha: Value, beta: Value, depth: u32) -> (value:
    Value)
    requires
        S::valid(state.position()),
    ensures
        value@ == pruned::<S, A>(state.position(), alpha@, beta@, depth as nat),
        alpha@.lt(beta@) ==> answers(
            value@,
            negamax::<S, A>(state.position(), depth as nat),
            alpha@,
            beta@,
        ),
    decreases depth,
{
    proof {
        if alpha@.lt(beta@) {
            window_answers::<S, A>(state.position(), alpha@, beta@, depth as nat);
        }
    }
    if state.is_terminal() || depth == 0 {
        return state.evaluation().seen_by(state.current_player());
    }
    let ghost p = state.position();
    let actions = state.actions();
    let mut best = Value::neg_infinity();
    let mut lower = alpha;
    let mut i: usize = 0;
    while i < actions.len()
        invariant
            i <= actions.len(),
            actions@ == S::moves(p),
            p == state.position(),
            S::valid(p),
            depth > 0,
            scan::<S, A>(p, best@, lower@, beta@, depth as nat, i as nat) == pruned::<S, A>(
                p,
                alpha@,
                beta@,
                depth as nat,
            ),
            alpha@.lt(beta@) ==> answers(
                pruned::<S, A>(p, alpha@, beta@, depth as nat),
                negamax::<S, A>(p, depth as nat),
                alpha@,
                beta@,
            ),
        decreases actions.len() - i,
    {
        assert(S::moves(p)[i as int] == actions@[i as int]);
        let child = state.result(&actions[i]);
        let value = alpha_beta(&child, beta.neg(), lower.neg(), depth - 1).neg();
        best = best.max(value);
        lower = lower.max(value);
        if beta.le(lower) {
            return best;
        }
        i += 1;
    }
    best
}

/// The value of `state` searched `depth` plies deep, as the side to move
/// sees it: that of the full-width search, found with pruning.
pub fn minimax<S: State<A>, A: Clone>(state: &S, depth: u32) -> (value: Value)
    requires
        S::valid(state.position()),
    ensures
        value@ == negamax::<S, A>(state.position(), depth as nat),
{
    proof {
        pruning_keeps_the_value::<S, A>(state.position(), depth as nat);
    }
    alpha_beta(state, Value::neg_infinity(), Value::infinity(), depth)
}

/// The score by which the action of index `i` at `p` is judged: the value of
/// the position it leads to, searched `depth` plies deep, as the side to move
/// there sees it. It is not negated back into the frame of the side that
/// chooses.
pub open spec fn key<S: State<A>, A: Clone>(p: S::Position, depth: nat, i: int) -> Extended {
    negamax::<S, A>(S::successor(p, S::moves(p)[i]), depth)
}

/// Whether `player` would rather have the key `a` than the key `b`:
/// `Player::Max` wants the larger key, `Player::Min` the smaller.
pub open spec fn prefers(player: Player, a: Extended, b: Extended) -> bool {
    match player {
        Player::Max => b.lt(a),
        Player::Min => a.lt(b),
    }
}

/// Whether `i` is the index of the action chosen at `p`: the first one in
/// the order of the actions whose key the mover prefers to no other's.
pub open spec fn is_choice<S: State<A>, A: Clone>(p: S::Position, depth: nat, i: int) -> bool {
    &&& 0 <= i < S::moves(p).len()
    &&& forall|j: int|
        0 <= j < i ==> prefers(
            S::mover(p),
            key::<S, A>(p, depth, i),
            #[trigger] key::<S, A>(p, depth, j),
        )
    &&& forall|j: int|
        i < j < S::moves(p).len() ==> !prefers(
            S::mover(p),
            #[trigger] key::<S, A>(p, depth, j),
            key::<S, A>(p, depth, i),
        )
}

/// The index of the action chosen at `p`.
pub open spec fn choice<S: State<A>, A: Clone>(p: S::Position, depth: nat) -> int {
    choose|i: int| is_choice::<S, A>(p, depth, i)
}

/// A position and a depth fix the action that is chosen: no two indices are
/// both the choice.
pub proof fn choice_is_unique<S: State<A>, A: Clone>(p: S::Position, depth: nat, i: int, j: int)
    requires
        is_choice::<S, A>(p, depth, i),
        is_choice::<S, A>(p, depth, j),
    ensures
        i == j,
{
    if i < j {
        assert(prefers(S::mover(p), key::<S, A>(p, depth, j), key::<S, A>(p, depth, i)));
    } else if j < i {
        assert(prefers(S::mover(p), key::<S, A>(p, depth, i), key::<S, A>(p, depth, j)));
    }
}

/// Whether two positions, of one kind of game or of two, answer alike as far
/// as `depth` plies: they agree on whether the game is over, on the
/// evaluation and on the side to move, and where the game goes on and the
/// horizon is not reached, on their actions and on where each leads.
pub open spec fn alike<S: State<A>, T: State<A>, A: Clone>(
    p: S::Position,
    q: T::Position,
    depth: nat,
) -> bool
    decreases depth, 0nat,
{
    &&& S::terminal(p) == T::terminal(q)
    &&& S::score(p) == T::score(q)
    &&& S::mover(p) == T::mover(q)
    &&& depth > 0 && !S::terminal(p) ==> same_moves::<S, T, A>(p, q, (depth - 1) as nat)
}

/// Whether two positions have the same actions in the same order, each
/// leading to positions that answer alike as far as `depth` plies.
pub open spec fn same_moves<S: State<A>, T: State<A>, A: Clone>(
    p: S::Position,
    q: T::Position,
    depth: nat,
) -> bool
    decreases depth, 1nat,
{
    &&& S::moves(p) == T::moves(q)
    &&& forall|i: int|
        0 <= i < S::moves(p).len() ==> alike::<S, T, A>(
            #[trigger] child::<S, A>(p, i),
            child::<T, A>(q, i),
            depth,
        )
}

/// Positions with the same actions, each leading to positions that answer
/// alike, give the mover the same among the first `n` actions.
proof fn alike_positions_have_the_same_replies<S: State<A>, T: State<A>, A: Clone>(
    p: S::Position,
    q: T::Position,
    depth: nat,
    n: nat,
)
    requires
        depth > 0,
        n <= S::moves(p).len(),
        same_moves::<S, T, A>(p, q, (depth - 1) as nat),
    ensures
        best_reply::<S, A>(p, depth, n) == best_reply::<T, A>(q, depth, n),
    decreases depth, 0nat, n,
{
    if n > 0 {
        alike_positions_have_the_same_replies::<S, T, A>(p, q, depth, (n - 1) as nat);
        assert(alike::<S, T, A>(
            child::<S, A>(p, n - 1),
            child::<T, A>(q, n - 1),
            (depth - 1) as nat,
        ));
        alike_positions_have_the_same_value::<S, T, A>(
            child::<S, A>(p, n - 1),
            child::<T, A>(q, n - 1),
            (depth - 1) as nat,
        );
    }
}

/// Positions that answer alike have the same value, whatever kinds of
/// positions they are.
pub proof fn alike_positions_have_the_same_value<S: State<A>, T: State<A>, A: Clone>(
    p: S::Position,
    q: T::Position,
    depth: nat,
)
    requires
        alike::<S, T, A>(p, q, depth),
    ensures
        negamax::<S, A>(p, depth) == negamax::<T, A>(q, depth),
    decreases depth, 1nat, 0nat,
{
    if !(S::terminal(p) || depth == 0) {
        alike_positions_have_the_same_replies::<S, T, A>(p, q, depth, S::moves(p).len());
    }
}

/// The same action is chosen at two positions, whatever kinds of positions
/// they are, that have the same side to move and the same actions, each
/// leading to positions that answer alike as far as `depth` plies: a position
/// behind an adapter is played like the position that it stands for.
pub proof fn alike_positions_have_the_same_choice<S: State<A>, T: State<A>, A: Clone>(
    p: S::Position,
    q: T::Position,
    depth: nat,
)
    requires
        S::mover(p) == T::mover(q),
        same_moves::<S, T, A>(p, q, depth),
        is_choice::<S, A>(p, depth, choice::<S, A>(p, depth)),
    ensures
        is_choice::<T, A>(q, depth, choice::<T, A>(q, depth)),
        choice::<T, A>(q, depth) == choice::<S, A>(p, depth),
        T::moves(q)[choice::<T, A>(q, depth)] == S::moves(p)[choice::<S, A>(p, depth)],
{
    assert forall|j: int| 0 <= j < S::moves(p).len() implies #[trigger] key::<S, A>(p, depth, j)
        == key::<T, A>(q, depth, j) by {
        assert(alike::<S, T, A>(child::<S, A>(p, j), child::<T, A>(q, j), depth));
        alike_positions_have_the_same_value::<S, T, A>(
            child::<S, A>(p, j),
            child::<T, A>(q, j),
            depth,
        );
    }
    let i = choice::<S, A>(p, depth);
    assert(is_choice::<T, A>(q, depth, i)) by {
        assert forall|j: int| 0 <= j < i implies prefers(
            T::mover(q),
            key::<T, A>(q, depth, i),
            #[trigger] key::<T, A>(q, depth, j),
        ) by {
            assert(key::<S, A>(p, depth, j) == key::<T, A>(q, depth, j));
        }
        assert forall|j: int| i < j < T::moves(q).len() implies !prefers(
            T::mover(q),
            #[trigger] key::<T, A>(q, depth, j),
            key::<T, A>(q, depth, i),
        ) by {
            assert(key::<S, A>(p, depth, j) == key::<T, A>(q, depth, j));
        }
    }
    choice_is_unique::<T, A>(q, depth, i, choice::<T, A>(q, depth));
}

/// The action to take at `state`, each action being judged by the value of
/// the position it leads to, searched `depth` plies deep.
///
/// `Player::Max` takes the action with the largest key and `Player::Min` the
/// one with the smallest; among equals the first in the order of `actions`
/// wins. The key is the value as the side to move after the action sees it.
pub fn best_move<S: State<A>, A: Clone>(state: &S, depth: u32) -> (action: A)
    requires
        S::valid(state.position()),
        S::moves(state.position()).len() > 0,
    ensures
        is_choice::<S, A>(
            state.position(),
            depth as nat,
            choice::<S, A>(state.position(), depth as nat),
        ),
        action == S::moves(state.position())[choice::<S, A>(state.position(), depth as nat)],
{
    let ghost p = state.position();
    let player = state.current_player();
    let mut actions = state.actions();
    assert(S::moves(p)[0] == actions@[0]);
    let first = state.result(&actions[0]);
    let mut best: usize = 0;
    let mut best_key = minimax(&first, depth);
    let mut i: usize = 1;
    while i < actions.len()
        invariant
            1 <= i <= actions.len(),
            best < i,
            actions@ == S::moves(p),
            p == state.position(),
            S::valid(p),
            player == S::mover(p),
            best_key@ == key::<S, A>(p, depth as nat, best as int),
            forall|j: int|
                0 <= j < best ==> prefers(
                    player,
                    key::<S, A>(p, depth as nat, best as int),
                    #[trigger] key::<S, A>(p, depth as nat, j),
                ),
            forall|j: int|
                best < j < i ==> !prefers(
                    player,
                    #[trigger] key::<S, A>(p, depth as nat, j),
                    key::<S, A>(p, depth as nat, best as int),
                ),
        decreases actions.len() - i,
    {
        assert(S::moves(p)[i as int] == actions@[i as int]);
        let next = state.result(&actions[i]);
        let next_key = minimax(&next, depth);
        let better = match player {
            Player::Max => best_key.lt(next_key),
            Player::Min => next_key.lt(best_key),
        };
        if better {
            best = i;
            best_key = next_key;
        }
        i += 1;
    }
    proof {
        assert(is_choice::<S, A>(p, depth as nat, best as int));
        choice_is_unique::<S, A>(p, depth as nat, best as int, choice::<S, A>(p, depth as nat));
    }
    actions.remove(best)
}

} // verus!
