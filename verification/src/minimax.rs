//! An abstract model of the searcher's alpha-beta rule, and the proof
//! that it is equivalent to plain negamax.
//!
//! The searcher itself runs over opaque chess positions, so the true
//! minimax value of a position cannot be written down inside the crate.
//! This module states the pruning rule on the shape that matters — a
//! finite game tree with heuristic values at the leaves — using exactly
//! the update and cutoff steps of the move loop in `search`: a running
//! best score starting at -30000, a child searched with the negated,
//! possibly tightened window, and a cutoff as soon as the best score
//! reaches beta. The equivalence theorem is `lemma_alphabeta_equivalence`.

use vstd::prelude::*;

verus! {

/// A game tree: an inner node with the side to move choosing among its
/// children, or a leaf with a heuristic value from the perspective of
/// the side to move there.
pub enum GameTree {
    Leaf { value: i16 },
    Branch { children: Vec<GameTree> },
}

/// Well-formed trees have leaf values in the range static evaluation
/// produces, and no inner node without children (a node without moves
/// is a terminal, hence a leaf).
pub open spec fn tree_wf(t: GameTree) -> bool
    decreases t,
{
    match t {
        GameTree::Leaf { value } => -20000 <= value <= 20000,
        GameTree::Branch { children } => children@.len() >= 1 && (forall|i: int|
            0 <= i < children@.len() ==> tree_wf(#[trigger] children@[i])),
    }
}

/// The negamax value of a tree: a leaf is its own value; an inner node
/// is worth the best of its children's negated values.
pub open spec fn spec_value(t: GameTree) -> int
    decreases t, 0int, 0int,
{
    match t {
        GameTree::Leaf { value } => value as int,
        GameTree::Branch { children } => spec_best_from(children, 0),
    }
}

/// The best negated child value among the children from index `i` on
/// (the running-best seed -30000 when none are left).
pub open spec fn spec_best_from(children: Vec<GameTree>, i: int) -> int
    decreases children, 1int, children@.len() - i,
{
    if i < 0 || i >= children@.len() {
        -30000
    } else {
        let this = -spec_value(children@[i]);
        let rest = spec_best_from(children, i + 1);
        if this > rest {
            this
        } else {
            rest
        }
    }
}

/// Fail-hard alpha-beta over a tree, with the searcher's exact rules: a
/// leaf is returned as is; an inner node runs the move loop.
pub open spec fn spec_alphabeta(t: GameTree, alpha: int, beta: int) -> int
    decreases t, 0int, 0int,
{
    match t {
        GameTree::Leaf { value } => value as int,
        GameTree::Branch { children } => spec_ab_loop(children, 0, alpha, beta, -30000),
    }
}

/// The move loop from child `i` with running best `r`: stop on a beta
/// cutoff, otherwise search the child with the negated window tightened
/// by the running best, keep the maximum, and continue.
pub open spec fn spec_ab_loop(children: Vec<GameTree>, i: int, alpha: int, beta: int, r: int) -> int
    decreases children, 1int, children@.len() - i,
{
    if r >= beta {
        r
    } else if i < 0 || i >= children@.len() {
        r
    } else {
        let a = if r > alpha {
            r
        } else {
            alpha
        };
        let s = -spec_alphabeta(children@[i], -beta, -a);
        let r2 = if s > r {
            s
        } else {
            r
        };
        spec_ab_loop(children, i + 1, alpha, beta, r2)
    }
}

/// The loop's result, relative to the running best `r` and the true
/// best `m` of the remaining children: it never falls below `r`, it
/// never exceeds every bound that alpha, `r` and `m` allow, and it
/// only stays below `m` by failing high past beta.
proof fn lemma_ab_loop_bounds(children: Vec<GameTree>, i: int, alpha: int, beta: int, r: int)
    requires
        forall|k: int| 0 <= k < children@.len() ==> tree_wf(#[trigger] children@[k]),
        0 <= i <= children@.len(),
        -30000 < alpha < beta < 30000,
        -30000 <= r,
    ensures
        spec_ab_loop(children, i, alpha, beta, r) >= r,
        spec_ab_loop(children, i, alpha, beta, r) <= max3(
            alpha,
            r,
            spec_best_from(children, i),
        ),
        spec_ab_loop(children, i, alpha, beta, r) >= min2(
            beta,
            max2(r, spec_best_from(children, i)),
        ),
    decreases children, 1int, children@.len() - i,
{
    if r >= beta {
    } else if i >= children@.len() {
    } else {
        let a = if r > alpha {
            r
        } else {
            alpha
        };
        let child = children@[i];
        lemma_alphabeta_equivalence(child, -beta, -a);
        let rc = spec_alphabeta(child, -beta, -a);
        let s = -rc;
        let w = spec_value(child);
        // In every outcome of the child search, `s` is at most the
        // larger of the tightened alpha and the true contribution, and
        // at least the smaller of beta and the true contribution.
        assert(s <= max2(a, -w));
        assert(s >= min2(beta, -w));
        let r2 = if s > r {
            s
        } else {
            r
        };
        lemma_ab_loop_bounds(children, i + 1, alpha, beta, r2);
    }
}

/// The larger of two values.
pub open spec fn max2(a: int, b: int) -> int {
    if a > b {
        a
    } else {
        b
    }
}

/// The smaller of two values.
pub open spec fn min2(a: int, b: int) -> int {
    if a < b {
        a
    } else {
        b
    }
}

/// The largest of three values.
pub open spec fn max3(a: int, b: int, c: int) -> int {
    max2(a, max2(b, c))
}

/// The best-from fold never falls below its seed.
proof fn lemma_best_from_ge(children: Vec<GameTree>, i: int)
    ensures
        spec_best_from(children, i) >= -30000,
    decreases children, 1int, children@.len() - i,
{
    if 0 <= i < children@.len() {
        lemma_best_from_ge(children, i + 1);
    }
}

/// Computes the plain negamax value of a tree.
#[verifier::loop_isolation(false)]
pub fn tree_value(t: &GameTree) -> (r: i16)
    requires
        tree_wf(*t),
    ensures
        r as int == spec_value(*t),
        -30000 <= r <= 30000,
    decreases *t,
{
    match t {
        GameTree::Leaf { value } => *value,
        GameTree::Branch { children } => {
            let n: usize = children.len();
            let mut r: i16 = -30000;
            let mut i: usize = 0;
            proof {
                lemma_best_from_ge(*children, 0);
            }
            while i < n
                invariant
                    0 <= i <= n,
                    n == children@.len(),
                    forall|k: int| 0 <= k < n ==> tree_wf(#[trigger] children@[k]),
                    -30000 <= r <= 30000,
                    spec_best_from(*children, 0) == max2(r as int, spec_best_from(*children, i as int)),
                decreases n - i,
            {
                let s: i16 = -tree_value(&children[i]);
                if s > r {
                    r = s;
                }
                i = i + 1;
            }
            r
        },
    }
}

/// Computes the alpha-beta value of a tree with the searcher's rules.
#[verifier::loop_isolation(false)]
pub fn alphabeta(t: &GameTree, alpha: i16, beta: i16) -> (r: i16)
    requires
        tree_wf(*t),
        -30000 < alpha < beta < 30000,
    ensures
        r as int == spec_alphabeta(*t, alpha as int, beta as int),
        -30000 <= r <= 30000,
    decreases *t,
{
    match t {
        GameTree::Leaf { value } => *value,
        GameTree::Branch { children } => {
            let n: usize = children.len();
            let mut r: i16 = -30000;
            let mut i: usize = 0;
            while i < n && r < beta
                invariant
                    0 <= i <= n,
                    n == children@.len(),
                    forall|k: int| 0 <= k < n ==> tree_wf(#[trigger] children@[k]),
                    -30000 < alpha < beta < 30000,
                    -30000 <= r <= 30000,
                    spec_ab_loop(*children, 0, alpha as int, beta as int, -30000) == spec_ab_loop(
                        *children,
                        i as int,
                        alpha as int,
                        beta as int,
                        r as int,
                    ),
                decreases n - i,
            {
                let a: i16 = if r > alpha {
                    r
                } else {
                    alpha
                };
                let s: i16 = -alphabeta(&children[i], -beta, -a);
                if s > r {
                    r = s;
                }
                i = i + 1;
            }
            r
        },
    }
}

/// Alpha-beta equivalence: on any well-formed game tree and any open
/// window, the searcher's pruning rule agrees with plain negamax.
/// A result strictly inside the window is the exact negamax value; a
/// result at or above beta is a lower bound on it (a fail high); a
/// result at or below alpha is an upper bound on it (a fail low). In
/// particular, any window bracketing the true value yields it exactly
/// or bounds it from the correct side.
pub proof fn lemma_alphabeta_equivalence(t: GameTree, alpha: int, beta: int)
    requires
        tree_wf(t),
        -30000 < alpha < beta < 30000,
    ensures
        alpha < spec_alphabeta(t, alpha, beta) < beta ==> spec_alphabeta(t, alpha, beta)
            == spec_value(t),
        spec_alphabeta(t, alpha, beta) >= beta ==> spec_alphabeta(t, alpha, beta) <= spec_value(t),
        spec_alphabeta(t, alpha, beta) <= alpha ==> spec_alphabeta(t, alpha, beta) >= spec_value(
            t,
        ),
    decreases t, 0int, 0int,
{
    match t {
        GameTree::Leaf { value } => {},
        GameTree::Branch { children } => {
            lemma_ab_loop_bounds(children, 0, alpha, beta, -30000);
        },
    }
}

} // verus!
