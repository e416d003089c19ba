//! The negamax searcher: fail-hard alpha-beta over the game tree, with
//! transposition memoisation, draw detection, mate-distance bookkeeping
//! and heuristic move ordering.

use core::sync::atomic::AtomicBool;
use core::sync::atomic::Ordering;
use vstd::prelude::*;

use crate::board;
use crate::evaluate::evaluate;
use crate::moves::EngineMove;
use crate::moves::move_wf;
use crate::table::Node;
use crate::table::NodeType;
use crate::table::TranspositionTable;
use crate::table::spec_slot_index;

verus! {

/// The search was abandoned because the shared `searching` flag dropped.
#[derive(Clone, Copy, PartialEq, Eq, Structural, Debug)]
pub struct Cancelled;

/// Scores of completed nodes always lie within this bound: static
/// evaluations stay within +-20000 and a mate at the node scores -20000,
/// and a parent's score is the negation of a child's.
pub open spec fn score_in_range(s: i16) -> bool {
    -20000 <= s <= 20000
}

/// All moves of a listing are well-formed.
pub open spec fn moves_wf(s: Seq<EngineMove>) -> bool {
    forall|i: int| 0 <= i < s.len() ==> move_wf(#[trigger] s[i])
}

/// The node's best move is the one recorded in the given table state for
/// this hash (a transposition hit handed it back).
pub open spec fn best_move_from_table(n: Node, hash: u64, tt: Seq<Option<Node>>) -> bool {
    tt[spec_slot_index(hash, tt.len() as int)] matches Some(t) && t.hash == hash && t.best_move
        == n.best_move
}

/// No rule-based terminal applies to the position: it has legal moves,
/// material to play for, a halfmove clock below the fifty-move limit,
/// and its hash has not already occurred more than twice in the history
/// (given at least 8 plies since the last irreversible move).
pub open spec fn spec_search_live(
    board: shakmaty::Chess,
    plies_since_irreversible_move: u64,
    history: Seq<u64>,
    hash: u64,
) -> bool {
    &&& !board::spec_insufficient_material(board)
    &&& board::spec_legal_moves(board).len() > 0
    &&& board::spec_halfmoves(board) < 100
    &&& !(plies_since_irreversible_move >= 8 && spec_count_matches(history, hash) > 2)
}

/// The table slot this hash selects is empty or holds another hash, so
/// a probe cannot answer for this position.
pub open spec fn spec_slot_foreign(tt: Seq<Option<Node>>, hash: u64) -> bool {
    match tt[spec_slot_index(hash, tt.len() as int)] {
        Some(nd) => nd.hash != hash,
        None => true,
    }
}

/// The static score a depth-zero leaf receives, from White's
/// perspective: the evaluation of the position's pieces, or zero for a
/// piece listing no legal position can have (more than 16 pieces a
/// side).
pub open spec fn spec_leaf_eval(board: shakmaty::Chess) -> int {
    if crate::evaluate::spec_color_count(board::spec_pieces(board), true) <= 16
        && crate::evaluate::spec_color_count(board::spec_pieces(board), false) <= 16 {
        crate::evaluate::spec_evaluate(board::spec_pieces(board))
    } else {
        0
    }
}

/// One slot of `before` was never overwritten by a shallower node in
/// `after`.
pub open spec fn table_depths_kept(before: Seq<Option<Node>>, after: Seq<Option<Node>>) -> bool {
    &&& after.len() == before.len()
    &&& forall|j: int|
        0 <= j < before.len() ==> ((#[trigger] before[j]) matches Some(o) ==> (after[j] matches
        Some(n) && n.depth >= o.depth))
}

/// How many entries of the history equal the given hash.
pub open spec fn spec_count_matches(s: Seq<u64>, hash: u64) -> int
    decreases s.len(),
{
    if s.len() == 0 {
        0
    } else {
        spec_count_matches(s.drop_last(), hash) + if s.last() == hash {
            1int
        } else {
            0int
        }
    }
}

/// Counting a prefix one longer adds the new entry's match.
proof fn lemma_count_matches_take_step(s: Seq<u64>, hash: u64, i: int)
    requires
        0 <= i < s.len(),
    ensures
        spec_count_matches(s.take(i + 1), hash) == spec_count_matches(s.take(i), hash) + if s[i]
            == hash {
            1int
        } else {
            0int
        },
{
    assert(s.take(i + 1).drop_last() =~= s.take(i));
}

/// Match counts are never negative and never shrink along prefixes.
proof fn lemma_count_matches_take_bounds(s: Seq<u64>, hash: u64, i: int)
    requires
        0 <= i <= s.len(),
    ensures
        0 <= spec_count_matches(s.take(i), hash) <= spec_count_matches(s, hash),
    decreases s.len() - i,
{
    if i == s.len() {
        assert(s.take(i) =~= s);
        lemma_count_matches_nonneg(s, hash);
    } else {
        lemma_count_matches_take_step(s, hash, i);
        lemma_count_matches_take_bounds(s, hash, i + 1);
        lemma_count_matches_nonneg(s.take(i), hash);
    }
}

proof fn lemma_count_matches_nonneg(s: Seq<u64>, hash: u64)
    ensures
        0 <= spec_count_matches(s, hash),
    decreases s.len(),
{
    if s.len() > 0 {
        lemma_count_matches_nonneg(s.drop_last(), hash);
    }
}

/// Whether the hash already occurs strictly more than twice in the
/// history: together with the current position that makes at least a
/// threefold repetition.
pub fn repetition_exceeded(position_history: &Vec<u64>, hash: u64) -> (r: bool)
    ensures
        r == (spec_count_matches(position_history@, hash) > 2),
{
    let len: usize = position_history.len();
    let mut repetitions: u64 = 0;
    let mut h: usize = 0;
    while h < len
        invariant
            0 <= h <= len,
            len == position_history@.len(),
            repetitions as int == spec_count_matches(position_history@.take(h as int), hash),
            repetitions <= 2,
        decreases len - h,
    {
        proof {
            lemma_count_matches_take_step(position_history@, hash, h as int);
            lemma_count_matches_take_bounds(position_history@, hash, h as int + 1);
        }
        if position_history[h] == hash {
            repetitions = repetitions + 1;
            if repetitions > 2 {
                return true;
            }
        }
        h = h + 1;
    }
    proof {
        assert(position_history@.take(len as int) =~= position_history@);
    }
    false
}

/// Mate-distance propagation, one ply up the tree. A child mated on the
/// spot (`k == 0`) means we mate next ply; a child in which the opponent
/// mates in `k` plies means the opponent mates us in `k + 1`; a child
/// that mates in `-k` plies means we mate in `-k + 1`. The result
/// saturates at the extreme negative inputs, which no reachable search
/// produces (mate distances are bounded by the search depth).
pub fn bump_mate(k: i16) -> (r: i16)
    ensures
        k == 0 ==> r == 1,
        k > 0 ==> r as int == -(k as int) - 1,
        -32767 < k < 0 ==> r as int == -(k as int) + 1,
{
    if k == 0 {
        1
    } else if k > 0 {
        -k - 1
    } else if k > -32767 {
        -k + 1
    } else {
        32767
    }
}

/// Swaps two entries of a move list, keeping its contents.
fn swap_moves(v: &mut Vec<EngineMove>, i: usize, j: usize)
    requires
        i < old(v)@.len(),
        j < old(v)@.len(),
    ensures
        final(v)@ == old(v)@.update(i as int, old(v)@[j as int]).update(j as int, old(v)@[i as int]),
        final(v)@.to_multiset() == old(v)@.to_multiset(),
{
    let a: EngineMove = v[i];
    let b: EngineMove = v[j];
    v[i] = b;
    v[j] = a;
    proof {
        lemma_swap_preserves_multiset(old(v)@, i as int, j as int);
    }
}

/// Swapping two entries of a sequence keeps its multiset of elements.
proof fn lemma_swap_preserves_multiset(s: Seq<EngineMove>, i: int, j: int)
    requires
        0 <= i < s.len(),
        0 <= j < s.len(),
    ensures
        s.update(i, s[j]).update(j, s[i]).to_multiset() == s.to_multiset(),
{
    broadcast use vstd::seq_lib::to_multiset_update;
    broadcast use vstd::seq_lib::group_to_multiset_ensures;

    if i == j {
        assert(s.update(i, s[j]).update(j, s[i]) =~= s);
    } else {
        let s1 = s.update(i, s[j]);
        assert(s1[j] == s[j]);
        assert(s.to_multiset().contains(s[i]));
        assert(s1.update(j, s[i]).to_multiset() =~= s.to_multiset());
    }
}

/// The table's recorded best move for this hash stands at the front of
/// the ordered list, whenever the slot names one and the input list
/// holds it. (The slot is read without a hash check, as the ordering
/// heuristic does: a colliding entry can only cost efficiency.)
pub open spec fn spec_best_move_fronted(
    tt: Seq<Option<Node>>,
    hash: u64,
    input: Seq<EngineMove>,
    ordered: Seq<EngineMove>,
) -> bool {
    tt[spec_slot_index(hash, tt.len() as int)] matches Some(nd) ==> (nd.best_move matches Some(m)
        ==> (input.contains(m) ==> ordered.len() > 0 && ordered[0] == m))
}

/// Heuristic move ordering: hoist the table's recorded best move (if it
/// is in the list) to the front, then promote promotions and captures
/// ahead of quiet moves by a single partial selection pass. Only the
/// order changes: every move of the result was in the input list.
/// Correctness of the search does not depend on this order.
fn sort_legal_moves(
    legal_moves: &mut Vec<EngineMove>,
    hash: u64,
    transposition_table: &TranspositionTable,
)
    requires
        transposition_table.wf(),
        moves_wf(old(legal_moves)@),
    ensures
        final(legal_moves)@.len() == old(legal_moves)@.len(),
        final(legal_moves)@.to_multiset() == old(legal_moves)@.to_multiset(),
        forall|i: int|
            0 <= i < final(legal_moves)@.len() ==> old(legal_moves)@.contains(
                #[trigger] final(legal_moves)@[i],
            ),
        moves_wf(final(legal_moves)@),
        spec_best_move_fronted(
            transposition_table.view(),
            hash,
            old(legal_moves)@,
            final(legal_moves)@,
        ),
{
    let len: usize = legal_moves.len();
    if len == 0 {
        return ;
    }
    proof {
        assert(forall|i: int|
            0 <= i < old(legal_moves)@.len() ==> old(legal_moves)@.contains(
                #[trigger] old(legal_moves)@[i],
            ));
    }
    if let Some(pv_node) = transposition_table.lookup(hash) {
        if let Some(best_move) = pv_node.best_move {
            let mut k: usize = 0;
            let mut found: usize = len;
            while k < len
                invariant
                    0 <= k <= len,
                    len == legal_moves@.len(),
                    legal_moves@ == old(legal_moves)@,
                    found == len || (found < len && legal_moves@[found as int] == best_move),
                    forall|j: int| 0 <= j < k ==> legal_moves@[j] != best_move,
                ensures
                    found == len ==> forall|j: int| 0 <= j < len ==> legal_moves@[j] != best_move,
                decreases len - k,
            {
                if legal_moves[k] == best_move {
                    found = k;
                    break ;
                }
                k = k + 1;
            }
            if found < len {
                swap_moves(legal_moves, 0, found);
            } else {
                proof {
                    if old(legal_moves)@.contains(best_move) {
                        let j = choose|j: int|
                            0 <= j < old(legal_moves)@.len() && old(legal_moves)@[j] == best_move;
                        assert(false);
                    }
                }
            }
        }
    }
    let ghost fronted: Seq<EngineMove> = legal_moves@;
    proof {
        assert(spec_best_move_fronted(transposition_table.view(), hash, old(legal_moves)@, fronted));
    }
    if len < 3 {
        return ;
    }
    let mut move_index: usize = 1;
    while move_index < len - 1
        invariant
            1 <= move_index <= len - 1,
            len == legal_moves@.len(),
            3 <= len,
            legal_moves@.to_multiset() == old(legal_moves)@.to_multiset(),
            forall|i: int|
                0 <= i < len ==> old(legal_moves)@.contains(#[trigger] legal_moves@[i]),
            moves_wf(legal_moves@),
            legal_moves@[0] == fronted[0],
            spec_best_move_fronted(transposition_table.view(), hash, old(legal_moves)@, fronted),
        decreases len - move_index,
    {
        let mut inner_move_index: usize = move_index + 1;
        while inner_move_index < len
            invariant
                1 <= move_index,
                move_index < inner_move_index <= len,
                move_index < len,
                len == legal_moves@.len(),
                legal_moves@.to_multiset() == old(legal_moves)@.to_multiset(),
                forall|i: int|
                    0 <= i < len ==> old(legal_moves)@.contains(#[trigger] legal_moves@[i]),
                moves_wf(legal_moves@),
                legal_moves@[0] == fronted[0],
            decreases len - inner_move_index,
        {
            let inner_move: EngineMove = legal_moves[inner_move_index];
            if inner_move.promotion != 0 || inner_move.capture {
                swap_moves(legal_moves, inner_move_index, move_index);
                break ;
            }
            inner_move_index = inner_move_index + 1;
        }
        move_index = move_index + 1;
    }
}

/// Fail-hard alpha-beta negamax over `board`, whose legal moves and
/// hash the caller took from the rules library. Returns
/// `Err(Cancelled)` as soon as it observes the shared `searching` flag
/// cleared; a completed node carries this position's hash, a score
/// within +-20000 from the side to move's perspective, and a best move
/// taken from the legal-move list or from a transposition hit on this
/// hash. On a live position (no rule-based terminal applies) searched
/// to depth at least 1, a completed node always carries a best move.
/// Without legal moves the node is the exact mate or stalemate (or
/// insufficient-material) terminal at this depth; at depth zero with
/// no usable table entry it is exactly the static evaluation from the
/// side to move's perspective. The position history is restored on
/// completion (on cancellation the pushed tail of the current line
/// remains, and the caller discards the vector). The transposition
/// table keeps its length, keeps its invariant, and no slot is ever
/// overwritten by a shallower node.
pub fn negamax(
    board: &shakmaty::Chess,
    legal_moves: Vec<EngineMove>,
    depth: u8,
    alpha: &mut i16,
    beta: &mut i16,
    color: i16,
    searching: &AtomicBool,
    nodes: &mut u64,
    plies_since_irreversible_move: u64,
    position_history: &mut Vec<u64>,
    transposition_table: &mut TranspositionTable,
    hash: u64,
) -> (r: Result<Node, Cancelled>)
    requires
        old(transposition_table).wf(),
        -20000 <= *old(alpha) <= 20000,
        -20000 <= *old(beta) <= 20000,
        color == 1 || color == -1,
        moves_wf(legal_moves@),
        legal_moves@ == board::spec_legal_moves(*board),
        hash == board::spec_zobrist(*board),
        forall|i: int|
            0 <= i < legal_moves@.len() ==> board::spec_resolve_move(
                *board,
                #[trigger] legal_moves@[i],
            ) is Some,
    ensures
        final(transposition_table).wf(),
        table_depths_kept(old(transposition_table).view(), final(transposition_table).view()),
        -20000 <= *final(alpha) <= 20000,
        -20000 <= *final(beta) <= 20000,
        *final(alpha) >= *old(alpha),
        *final(beta) <= *old(beta),
        *final(nodes) >= *old(nodes),
        r matches Ok(n) ==> {
            &&& n.hash == hash
            &&& n.depth >= depth
            &&& score_in_range(n.score)
            &&& (n.best_move matches Some(m) ==> move_wf(m) && (legal_moves@.contains(m)
                || best_move_from_table(n, hash, old(transposition_table).view())))
            &&& (n.best_move is None ==> depth == 0 || (n.terminal && (n.score == 0 || (n.score
                == -20000 && n.mate_in_plies == Some(0i16)))))
            &&& (depth >= 1 && spec_search_live(
                *board,
                plies_since_irreversible_move,
                old(position_history)@,
                hash,
            ) ==> n.best_move is Some)
            &&& (legal_moves@.len() == 0 ==> {
                &&& n.best_move is None
                &&& n.terminal
                &&& n.depth == depth
                &&& n.node_type == NodeType::UPPERBOUND
                &&& (board::spec_insufficient_material(*board) ==> n.score == 0
                    && n.mate_in_plies is None)
                &&& (!board::spec_insufficient_material(*board)
                    && board::spec_in_check(*board) ==> n.score == -20000 && n.mate_in_plies
                    == Some(0i16))
                &&& (!board::spec_insufficient_material(*board)
                    && !board::spec_in_check(*board) ==> n.score == 0 && n.mate_in_plies is None)
            })
            &&& (depth == 0 && spec_search_live(
                *board,
                plies_since_irreversible_move,
                old(position_history)@,
                hash,
            ) && spec_slot_foreign(old(transposition_table).view(), hash) ==> {
                &&& n.score as int == (if color == 1 {
                    spec_leaf_eval(*board)
                } else {
                    -spec_leaf_eval(*board)
                })
                &&& !n.terminal
                &&& n.best_move is None
                &&& n.depth == 0
                &&& n.node_type == NodeType::UPPERBOUND
                &&& n.mate_in_plies is None
            })
        },
        r matches Ok(n) ==> final(position_history)@ == old(position_history)@,
        r is Err ==> old(position_history)@.is_prefix_of(final(position_history)@),
    decreases depth,
{
    if !searching.load(Ordering::Relaxed) {
        return Err(Cancelled);
    }
    let mut node: Node = Node {
        hash,
        score: 0,
        best_move: None,
        depth,
        node_type: NodeType::UPPERBOUND,
        mate_in_plies: None,
        terminal: true,
    };

    if board::insufficient_material(board) {
        return Ok(node);
    }

    // Checkmate or stalemate when no legal move exists; otherwise the
    // fifty-move rule may end the game first.
    if legal_moves.len() == 0 {
        if board::in_check(board) {
            node.score = -20000;
            node.mate_in_plies = Some(0);
        }
        return Ok(node);
    } else {
        if board::halfmoves(board) >= 100 {
            return Ok(node);
        }
    }

    // Threefold repetition: only possible once at least 8 plies passed
    // since the last irreversible move; more than two earlier
    // occurrences of this hash make this the third.
    if plies_since_irreversible_move >= 8 {
        if repetition_exceeded(position_history, hash) {
            return Ok(node);
        }
    }

    // Transposition probe: a stored result for this hash searched at
    // least as deep can answer immediately or tighten the window.
    let probe: Option<Node> = transposition_table.lookup(hash);
    if let Some(tt_node) = probe {
        if tt_node.hash == hash && tt_node.depth >= depth {
            node = tt_node;
            if node.node_type == NodeType::EXACT {
                return Ok(node);
            } else if node.node_type == NodeType::LOWERBOUND {
                if node.score > *alpha {
                    *alpha = node.score;
                }
            } else {
                if node.score < *beta {
                    *beta = node.score;
                }
            }
            if *alpha >= *beta {
                return Ok(node);
            }
        }
    }

    if depth == 0 {
        let pieces = board::extract_pieces(board);
        // Any position reachable by the rules has at most 16 pieces a
        // side, which keeps the evaluation within its score range; a
        // position beyond that is not chess and scores as level.
        let white_score: i16 = if crate::evaluate::count_color(&pieces, true) <= 16
            && crate::evaluate::count_color(&pieces, false) <= 16 {
            evaluate(&pieces)
        } else {
            0
        };
        node.score = if color == 1 {
            white_score
        } else {
            -white_score
        };
        node.terminal = false;
        node.best_move = None;
        return Ok(node);
    }

    node.score = -30000;
    node.best_move = None;

    let ghost input_moves: Seq<EngineMove> = legal_moves@;
    let mut ordered: Vec<EngineMove> = legal_moves;
    sort_legal_moves(&mut ordered, hash, transposition_table);

    let ghost tt_at_entry: Seq<Option<Node>> = transposition_table.view();
    let ghost history_at_entry: Seq<u64> = position_history@;
    let beta_in_loop: i16 = *beta;
    let move_count: usize = ordered.len();
    let mut i: usize = 0;
    while i < move_count
        invariant
            move_count == ordered@.len(),
            move_count == input_moves.len(),
            0 <= i <= move_count,
            moves_wf(ordered@),
            input_moves == legal_moves@,
            input_moves == board::spec_legal_moves(*board),
            forall|k: int| 0 <= k < move_count ==> input_moves.contains(#[trigger] ordered@[k]),
            forall|k: int|
                0 <= k < move_count ==> board::spec_resolve_move(
                    *board,
                    #[trigger] input_moves[k],
                ) is Some,
            i == 0 ==> node.score == -30000,
            i >= 1 ==> node.score >= -20000,
            transposition_table.wf(),
            tt_at_entry == old(transposition_table).view(),
            table_depths_kept(tt_at_entry, transposition_table.view()),
            history_at_entry == old(position_history)@,
            position_history@ == history_at_entry,
            -20000 <= *alpha <= 20000,
            *alpha >= *old(alpha),
            *beta == beta_in_loop,
            -20000 <= beta_in_loop <= 20000,
            beta_in_loop <= *old(beta),
            *nodes >= *old(nodes),
            color == 1 || color == -1,
            node.hash == hash,
            node.depth >= depth,
            1 <= depth,
            node.score == -30000 || (node.best_move matches Some(m) && move_wf(m)
                && input_moves.contains(m) && score_in_range(node.score)),
        ensures
            move_count == 0 || node.score >= -20000,
        decreases move_count - i,
    {
        let m: EngineMove = ordered[i];
        if *nodes < u64::MAX {
            *nodes = *nodes + 1;
        }

        proof {
            assert(input_moves.contains(m));
            let j = choose|j: int| 0 <= j < input_moves.len() && input_moves[j] == m;
            assert(board::spec_resolve_move(*board, input_moves[j]) is Some);
        }
        let resolved: Option<shakmaty::Move> = board::resolve_move(board, &m);
        if let Some(mv) = resolved {
            if let Some(child_board) = board::play_move(board, &mv) {
                let child_hash: u64 = board::zobrist_hash(&child_board);
                position_history.push(child_hash);

                let child_plies: u64 = if board::move_is_irreversible(board, &mv) {
                    0
                } else if plies_since_irreversible_move < u64::MAX {
                    plies_since_irreversible_move + 1
                } else {
                    plies_since_irreversible_move
                };

                let mut child_alpha: i16 = -beta_in_loop;
                let mut child_beta: i16 = -*alpha;
                let child_legal: Vec<EngineMove> = board::legal_moves_repr(&child_board);
                let ghost tt_before_child: Seq<Option<Node>> = transposition_table.view();
                let child_result: Result<Node, Cancelled> = negamax(
                    &child_board,
                    child_legal,
                    depth - 1,
                    &mut child_alpha,
                    &mut child_beta,
                    if color == 1 {
                        -1
                    } else {
                        1
                    },
                    searching,
                    nodes,
                    child_plies,
                    position_history,
                    transposition_table,
                    child_hash,
                );
                proof {
                    lemma_depths_kept_transitive(
                        tt_at_entry,
                        tt_before_child,
                        transposition_table.view(),
                    );
                }
                let child_node: Node = match child_result {
                    Ok(n) => n,
                    Err(c) => {
                        proof {
                            assert(history_at_entry.push(child_hash).is_prefix_of(
                                position_history@,
                            ));
                            assert(history_at_entry =~= position_history@.subrange(
                                0,
                                history_at_entry.len() as int,
                            ));
                        }
                        return Err(c);
                    },
                };
                position_history.pop();
                proof {
                    assert(position_history@ =~= history_at_entry);
                }

                if !child_node.terminal {
                    node.terminal = false;
                }

                let child_score: i16 = -child_node.score;
                if child_score > node.score {
                    node.score = child_score;
                    node.best_move = Some(m);

                    if node.score > *alpha {
                        *alpha = node.score;
                        node.node_type = NodeType::EXACT;
                    }

                    match child_node.mate_in_plies {
                        Some(child_mate) => {
                            node.mate_in_plies = Some(bump_mate(child_mate));
                            node.terminal = true;
                        },
                        None => {
                            node.mate_in_plies = None;
                        },
                    }
                }

                if node.score >= beta_in_loop {
                    node.node_type = NodeType::LOWERBOUND;
                    i = i + 1;
                    break ;
                }
            }
        }
        i = i + 1;
    }

    // Every move of a legal-move listing resolves and plays through the
    // rules library; the guard below only protects the table invariant
    // against a line where none did.
    if node.score < -20000 {
        node.score = 0;
        node.best_move = None;
        node.mate_in_plies = None;
        node.terminal = true;
        return Ok(node);
    }

    // Store the completed node, but never while cancelled and never over
    // a deeper occupant.
    if searching.load(Ordering::Relaxed) {
        let ghost tt_before_store: Seq<Option<Node>> = transposition_table.view();
        transposition_table.store(node);
        proof {
            lemma_depths_kept_transitive(tt_at_entry, tt_before_store, transposition_table.view());
        }
    }

    Ok(node)
}

/// The outcome of one `search` call: the protocol lines it produced (in
/// order, the `bestmove` line last) and the deepest fully completed
/// node, if any iteration completed.
pub struct SearchReport {
    pub lines: Vec<Vec<u8>>,
    pub best: Option<Node>,
}

/// One step of the principal-variation walk: the position after the
/// move, if the rules library resolves it as legal.
pub open spec fn spec_pv_step(b: shakmaty::Chess, m: EngineMove) -> Option<shakmaty::Chess> {
    match board::spec_resolve_move(b, m) {
        Some(mv) => board::spec_play_move(b, mv),
        None => None,
    }
}

/// The position reached after the first `i` moves of a variation.
pub open spec fn spec_pv_position(b: shakmaty::Chess, pv: Seq<EngineMove>, i: int) -> Option<
    shakmaty::Chess,
>
    decreases i,
{
    if i <= 0 {
        Some(b)
    } else {
        match spec_pv_position(b, pv, i - 1) {
            Some(p) => spec_pv_step(p, pv[i - 1]),
            None => None,
        }
    }
}

/// The walk only reads the first `i` moves of the variation.
proof fn lemma_pv_position_prefix(
    b: shakmaty::Chess,
    pv1: Seq<EngineMove>,
    pv2: Seq<EngineMove>,
    i: int,
)
    requires
        forall|j: int| 0 <= j < i ==> pv1[j] == pv2[j],
    ensures
        spec_pv_position(b, pv1, i) == spec_pv_position(b, pv2, i),
    decreases i,
{
    if i > 0 {
        lemma_pv_position_prefix(b, pv1, pv2, i - 1);
    }
}

/// The `i`-th move of the variation is the best move recorded in the
/// table slot that the hash of the position reached after `i` moves
/// selects, it is legal in that position, and it leads on to a next
/// position.
pub open spec fn spec_pv_link(
    b: shakmaty::Chess,
    pv: Seq<EngineMove>,
    i: int,
    tt: Seq<Option<Node>>,
) -> bool {
    spec_pv_position(b, pv, i) matches Some(p) && {
        &&& (tt[spec_slot_index(board::spec_zobrist(p), tt.len() as int)] matches Some(nd)
            && nd.best_move == Some(pv[i]))
        &&& board::spec_legal_moves(p).contains(pv[i])
        &&& spec_pv_step(p, pv[i]) is Some
    }
}

/// Walks the transposition table's recorded best moves from the root,
/// for at most `depth` steps, taking only moves that are legal in the
/// position reached so far: every returned move is the best move of
/// the table slot selected by the hash of the position its prefix
/// reaches.
pub fn get_principal_variation(
    board: &shakmaty::Chess,
    depth: u8,
    transposition_table: &TranspositionTable,
) -> (pv: Vec<EngineMove>)
    requires
        transposition_table.wf(),
    ensures
        pv@.len() <= depth,
        crate::text::pv_wf(pv@),
        forall|i: int|
            0 <= i < pv@.len() ==> spec_pv_link(*board, pv@, i, transposition_table.view()),
{
    let mut pv: Vec<EngineMove> = Vec::new();
    let mut current: shakmaty::Chess = board::clone_position(board);
    let mut step: u8 = 0;
    while step < depth
        invariant
            0 <= step <= depth,
            pv@.len() == step,
            crate::text::pv_wf(pv@),
            transposition_table.wf(),
            spec_pv_position(*board, pv@, step as int) == Some(current),
            forall|i: int|
                0 <= i < step ==> spec_pv_link(*board, pv@, i, transposition_table.view()),
        decreases depth - step,
    {
        let hash: u64 = board::zobrist_hash(&current);
        let probe: Option<Node> = transposition_table.lookup(hash);
        let pv_node: Node = match probe {
            Some(n) => n,
            None => {
                break ;
            },
        };
        let best_move: EngineMove = match pv_node.best_move {
            Some(m) => m,
            None => {
                break ;
            },
        };
        let legal: Vec<EngineMove> = board::legal_moves_repr(&current);
        let mut is_legal: bool = false;
        let legal_count: usize = legal.len();
        let mut k: usize = 0;
        while k < legal_count
            invariant
                0 <= k <= legal_count,
                legal_count == legal@.len(),
                legal@ == board::spec_legal_moves(current),
                is_legal ==> board::spec_legal_moves(current).contains(best_move),
            decreases legal_count - k,
        {
            if legal[k] == best_move {
                is_legal = true;
                proof {
                    assert(board::spec_legal_moves(current).contains(best_move));
                }
                break ;
            }
            k = k + 1;
        }
        if !is_legal {
            break ;
        }
        let resolved: Option<shakmaty::Move> = board::resolve_move(&current, &best_move);
        let mv: shakmaty::Move = match resolved {
            Some(mv) => mv,
            None => {
                break ;
            },
        };
        let next: shakmaty::Chess = match board::play_move(&current, &mv) {
            Some(b) => b,
            None => {
                break ;
            },
        };
        let ghost old_pv: Seq<EngineMove> = pv@;
        pv.push(best_move);
        proof {
            assert(pv@ == old_pv.push(best_move));
            lemma_pv_position_prefix(*board, pv@, old_pv, step as int);
            assert(spec_pv_position(*board, pv@, step as int + 1) == Some(next));
            assert forall|i: int| 0 <= i < step as int + 1 implies spec_pv_link(
                *board,
                pv@,
                i,
                transposition_table.view(),
            ) by {
                lemma_pv_position_prefix(*board, pv@, old_pv, i);
                if i < step as int {
                    assert(spec_pv_link(*board, old_pv, i, transposition_table.view()));
                }
            }
        }
        current = next;
        step = step + 1;
    }
    pv
}

/// The iterative-deepening driver: searches the root position at depths
/// 1, 2, 3, ... until the depth limit, a cancellation, or a fully
/// terminal result, keeping the deepest fully completed node. Each
/// completed iteration emits an `info` line when the debug flag is set;
/// at the end a `bestmove` line is emitted if any iteration completed
/// with a best move, and the `searching` flag is cleared. A reported
/// node carries the root position's hash, and on a live root (no
/// rule-based terminal applies) it always carries a move. The emitted
/// lines are returned in order along with the final node; no lines
/// exist when no iteration completed, and the `bestmove` line is always
/// last when present. The transposition table keeps its invariant and
/// no slot of it is ever overwritten by a shallower node.
pub fn search(
    board: &shakmaty::Chess,
    searching: &AtomicBool,
    debug: &AtomicBool,
    max_depth: Option<u8>,
    plies_since_irreversible_move: u64,
    position_history: &mut Vec<u64>,
    transposition_table: &mut TranspositionTable,
) -> (r: SearchReport)
    requires
        old(transposition_table).wf(),
    ensures
        final(transposition_table).wf(),
        table_depths_kept(old(transposition_table).view(), final(transposition_table).view()),
        r.best matches Some(n) ==> n.depth >= 1 && score_in_range(n.score) && n.hash
            == board::spec_zobrist(*board) && (n.best_move matches Some(m) ==> move_wf(m)),
        r.best matches Some(n) ==> (spec_search_live(
            *board,
            plies_since_irreversible_move,
            old(position_history)@,
            board::spec_zobrist(*board),
        ) ==> n.best_move is Some),
        r.best matches Some(n) ==> (n.best_move matches Some(m) ==> r.lines@.len() >= 1
            && r.lines@.last()@ == crate::text::spec_bestmove_line(m)),
        r.best is None ==> r.lines@.len() == 0,
        forall|i: int|
            0 <= i < r.lines@.len() ==> crate::text::spec_is_info_line(#[trigger] r.lines@[i]@) || (
            i == r.lines@.len() - 1 && (r.best matches Some(n) && n.best_move is Some)),
{
    let mut fully_searched_node: Option<Node> = None;
    let mut lines: Vec<Vec<u8>> = Vec::new();
    let start_time: u64 = crate::sys::now_millis();
    let hash: u64 = board::zobrist_hash(board);
    let color: i16 = if board::turn_is_white(board) {
        1
    } else {
        -1
    };

    let mut depth: u8 = 1;
    loop
        invariant_except_break
            position_history@ == old(position_history)@,
        invariant
            1 <= depth,
            color == 1 || color == -1,
            hash == board::spec_zobrist(*board),
            transposition_table.wf(),
            table_depths_kept(old(transposition_table).view(), transposition_table.view()),
            fully_searched_node matches Some(n) ==> n.depth >= 1 && score_in_range(n.score)
                && n.hash == hash && (n.best_move matches Some(m) ==> move_wf(m)),
            fully_searched_node matches Some(n) ==> (spec_search_live(
                *board,
                plies_since_irreversible_move,
                old(position_history)@,
                hash,
            ) ==> n.best_move is Some),
            fully_searched_node is None ==> lines@.len() == 0,
            forall|k: int|
                0 <= k < lines@.len() ==> crate::text::spec_is_info_line(#[trigger] lines@[k]@),
        decreases 255 - depth,
    {
        if depth == u8::MAX {
            break ;
        }
        if let Some(max) = max_depth {
            if depth > max {
                break ;
            }
        }
        if !searching.load(Ordering::Relaxed) {
            break ;
        }

        let mut alpha: i16 = -10000;
        let mut beta: i16 = 10000;
        let mut searched_nodes: u64 = 0;
        let root_moves: Vec<EngineMove> = board::legal_moves_repr(board);

        let outcome: Result<Node, Cancelled> = negamax(
            board,
            root_moves,
            depth,
            &mut alpha,
            &mut beta,
            color,
            searching,
            &mut searched_nodes,
            plies_since_irreversible_move,
            position_history,
            transposition_table,
            hash,
        );

        match outcome {
            Ok(node) => {
                fully_searched_node = Some(node);

                let principal_variation: Vec<EngineMove> = get_principal_variation(
                    board,
                    depth,
                    transposition_table,
                );

                if debug.load(Ordering::Relaxed) {
                    let now: u64 = crate::sys::now_millis();
                    let time_ms: u64 = if now >= start_time {
                        now - start_time
                    } else {
                        0
                    };
                    let line: Vec<u8> = crate::text::format_info(
                        depth,
                        &node,
                        time_ms,
                        searched_nodes,
                        &principal_variation,
                    );
                    proof {
                        assert(line@.subrange(0, crate::text::INFO_DEPTH_TEXT@.len() as int)
                            =~= crate::text::INFO_DEPTH_TEXT@);
                    }
                    crate::sys::emit_line(&line);
                    lines.push(line);
                }

                // Deepening cannot change a result whose every line hit
                // a rule-based terminal.
                if node.terminal {
                    break ;
                }
            },
            Err(_) => {
                break ;
            },
        }
        depth = depth + 1;
    }

    if let Some(node) = fully_searched_node {
        if let Some(best_move) = node.best_move {
            let line: Vec<u8> = crate::text::format_bestmove(&best_move);
            crate::sys::emit_line(&line);
            lines.push(line);
        }
    }

    searching.store(false, Ordering::Relaxed);

    SearchReport { lines, best: fully_searched_node }
}

/// Depth discipline composes across successive table states.
proof fn lemma_depths_kept_transitive(
    a: Seq<Option<Node>>,
    b: Seq<Option<Node>>,
    c: Seq<Option<Node>>,
)
    requires
        table_depths_kept(a, b),
        table_depths_kept(b, c),
    ensures
        table_depths_kept(a, c),
{
}

} // verus!
