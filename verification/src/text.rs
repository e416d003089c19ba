//! Rendering of the engine's output lines as ASCII bytes: decimal
//! numbers, the `info` line and the `bestmove` line of the UCI protocol.

use vstd::prelude::*;

use crate::moves::EngineMove;
use crate::moves::move_wf;
use crate::moves::spec_uci_bytes;
use crate::moves::uci_bytes;
use crate::table::Node;

verus! {

/// The decimal digits of a number, most significant first.
pub open spec fn spec_digits(n: nat) -> Seq<u8>
    decreases n,
{
    if n < 10 {
        seq![(48 + n) as u8]
    } else {
        spec_digits(n / 10).push((48 + n % 10) as u8)
    }
}

/// The decimal rendering of an integer, with a leading minus sign when
/// negative.
pub open spec fn spec_signed(n: int) -> Seq<u8> {
    if n >= 0 {
        spec_digits(n as nat)
    } else {
        seq![45u8] + spec_digits((-n) as nat)
    }
}

/// Appends the decimal digits of `n`.
pub fn push_u64(out: &mut Vec<u8>, n: u64)
    ensures
        final(out)@ == old(out)@ + spec_digits(n as nat),
    decreases n,
{
    if n < 10 {
        out.push(48 + (n as u8));
        proof {
            assert(out@ =~= old(out)@ + spec_digits(n as nat));
        }
    } else {
        push_u64(out, n / 10);
        out.push(48 + ((n % 10) as u8));
        proof {
            assert(out@ =~= old(out)@ + spec_digits(n as nat));
        }
    }
}

/// Appends the decimal rendering of a signed value.
pub fn push_i64(out: &mut Vec<u8>, n: i64)
    requires
        n > i64::MIN,
    ensures
        final(out)@ == old(out)@ + spec_signed(n as int),
{
    if n >= 0 {
        push_u64(out, n as u64);
    } else {
        out.push(45);
        push_u64(out, (-n) as u64);
        proof {
            assert(out@ =~= old(out)@ + spec_signed(n as int));
        }
    }
}

/// Appends a slice of bytes.
pub fn push_slice(out: &mut Vec<u8>, s: &[u8])
    ensures
        final(out)@ == old(out)@ + s@,
{
    let len: usize = s.len();
    let mut i: usize = 0;
    while i < len
        invariant
            0 <= i <= len,
            len == s@.len(),
            out@ == old(out)@ + s@.take(i as int),
        decreases len - i,
    {
        out.push(s[i]);
        proof {
            assert(old(out)@ + s@.take(i as int + 1) =~= (old(out)@ + s@.take(i as int)).push(
                s@[i as int],
            ));
        }
        i = i + 1;
    }
    proof {
        assert(old(out)@ + s@.take(len as int) =~= old(out)@ + s@);
    }
}

/// The ASCII bytes of `"info depth "`.
pub const INFO_DEPTH_TEXT: [u8; 11] = [105, 110, 102, 111, 32, 100, 101, 112, 116, 104, 32];

/// The ASCII bytes of `" score "`.
pub const SCORE_TEXT: [u8; 7] = [32, 115, 99, 111, 114, 101, 32];

/// The ASCII bytes of `"mate "`.
pub const MATE_TEXT: [u8; 5] = [109, 97, 116, 101, 32];

/// The ASCII bytes of `"cp "`.
pub const CP_TEXT: [u8; 3] = [99, 112, 32];

/// The ASCII bytes of `" time "`.
pub const TIME_TEXT: [u8; 6] = [32, 116, 105, 109, 101, 32];

/// The ASCII bytes of `" nodes "`.
pub const NODES_TEXT: [u8; 7] = [32, 110, 111, 100, 101, 115, 32];

/// The ASCII bytes of `" nps "`.
pub const NPS_TEXT: [u8; 5] = [32, 110, 112, 115, 32];

/// The ASCII bytes of `" pv "`.
pub const PV_TEXT: [u8; 4] = [32, 112, 118, 32];

/// The ASCII bytes of `"bestmove "`.
pub const BESTMOVE_TEXT: [u8; 9] = [98, 101, 115, 116, 109, 111, 118, 101, 32];

/// Half the mate distance in plies, rounded away from zero toward the
/// next full move: the move count shown by `score mate`.
pub open spec fn spec_ceil_half(k: int) -> int {
    if k % 2 == 0 {
        k / 2
    } else {
        (k + 1) / 2
    }
}

/// The `score ...` fragment of an info line: `mate <moves>` for a mate
/// distance, else `cp <centipawns>`.
pub open spec fn spec_score_text(node: Node) -> Seq<u8> {
    match node.mate_in_plies {
        Some(k) => MATE_TEXT@ + spec_signed(spec_ceil_half(k as int)),
        None => CP_TEXT@ + spec_signed(node.score as int),
    }
}

/// The space-separated rendering of a move list.
pub open spec fn spec_pv_text(pv: Seq<EngineMove>) -> Seq<u8>
    decreases pv.len(),
{
    if pv.len() == 0 {
        Seq::<u8>::empty()
    } else if pv.len() == 1 {
        spec_uci_bytes(pv[0])
    } else {
        spec_pv_text(pv.drop_last()) + seq![32u8] + spec_uci_bytes(pv.last())
    }
}

/// All moves of a listing are well-formed.
pub open spec fn pv_wf(pv: Seq<EngineMove>) -> bool {
    forall|i: int| 0 <= i < pv.len() ==> move_wf(#[trigger] pv[i])
}

/// Appends the space-separated rendering of a move list.
pub fn push_pv(out: &mut Vec<u8>, pv: &Vec<EngineMove>)
    requires
        pv_wf(pv@),
    ensures
        final(out)@ == old(out)@ + spec_pv_text(pv@),
{
    let len: usize = pv.len();
    let mut i: usize = 0;
    while i < len
        invariant
            0 <= i <= len,
            len == pv@.len(),
            pv_wf(pv@),
            out@ == old(out)@ + spec_pv_text(pv@.take(i as int)),
        decreases len - i,
    {
        if i > 0 {
            out.push(32);
        }
        let move_text: Vec<u8> = uci_bytes(&pv[i]);
        push_slice(out, move_text.as_slice());
        proof {
            lemma_pv_text_take_step(pv@, i as int);
        }
        i = i + 1;
    }
    proof {
        assert(pv@.take(len as int) =~= pv@);
    }
}

/// Extending a prefix of a move list by one move appends a separator
/// (except for the first move) and the move's rendering.
proof fn lemma_pv_text_take_step(pv: Seq<EngineMove>, i: int)
    requires
        0 <= i < pv.len(),
    ensures
        i == 0 ==> spec_pv_text(pv.take(1)) == spec_uci_bytes(pv[0]),
        i > 0 ==> spec_pv_text(pv.take(i + 1)) =~= spec_pv_text(pv.take(i)) + seq![32u8]
            + spec_uci_bytes(pv[i]),
{
    if i == 0 {
        assert(pv.take(1).len() == 1);
        assert(pv.take(1)[0] == pv[0]);
    } else {
        assert(pv.take(i + 1).drop_last() =~= pv.take(i));
        assert(pv.take(i + 1).last() == pv[i]);
        assert(pv.take(i + 1).len() == i + 1);
    }
}

/// The nodes-per-second figure reported on an info line: nodes divided
/// by the elapsed time plus one millisecond, scaled to a second. The
/// divisor and the product saturate at the extremes of `u64`.
pub open spec fn spec_nps(nodes: u64, time_ms: u64) -> int {
    let denom = if time_ms < u64::MAX {
        time_ms + 1
    } else {
        u64::MAX as int
    };
    let per_ms = nodes as int / denom;
    if per_ms * 1000 <= u64::MAX {
        per_ms * 1000
    } else {
        u64::MAX as int
    }
}

/// Computes the nodes-per-second figure.
pub fn nodes_per_second(nodes: u64, time_ms: u64) -> (r: u64)
    ensures
        r as int == spec_nps(nodes, time_ms),
{
    let denom: u64 = if time_ms < u64::MAX {
        time_ms + 1
    } else {
        u64::MAX
    };
    let per_ms: u64 = nodes / denom;
    if per_ms <= u64::MAX / 1000 {
        proof {
            assert(per_ms as int * 1000 <= (u64::MAX as int / 1000) * 1000 <= u64::MAX) by (nonlinear_arith)
                requires
                    per_ms as int <= u64::MAX as int / 1000,
            ;
        }
        per_ms * 1000
    } else {
        proof {
            assert(per_ms as int * 1000 > u64::MAX) by (nonlinear_arith)
                requires
                    per_ms as int > u64::MAX as int / 1000,
            ;
        }
        u64::MAX
    }
}

/// Whether a line is an `info depth ...` line.
pub open spec fn spec_is_info_line(s: Seq<u8>) -> bool {
    s.len() >= INFO_DEPTH_TEXT@.len() && s.subrange(0, INFO_DEPTH_TEXT@.len() as int)
        == INFO_DEPTH_TEXT@
}

/// The full `info` line for a completed iteration.
pub open spec fn spec_info_line(
    depth: u8,
    node: Node,
    time_ms: u64,
    nodes: u64,
    nps: u64,
    pv: Seq<EngineMove>,
) -> Seq<u8> {
    INFO_DEPTH_TEXT@ + spec_digits(depth as nat) + SCORE_TEXT@ + spec_score_text(node) + TIME_TEXT@
        + spec_digits(time_ms as nat) + NODES_TEXT@ + spec_digits(nodes as nat) + NPS_TEXT@
        + spec_digits(nps as nat) + PV_TEXT@ + spec_pv_text(pv)
}

/// Renders the `info` line for a completed iteration.
pub fn format_info(depth: u8, node: &Node, time_ms: u64, searched_nodes: u64, pv: &Vec<EngineMove>) -> (r:
    Vec<u8>)
    requires
        pv_wf(pv@),
    ensures
        r@ == spec_info_line(
            depth,
            *node,
            time_ms,
            searched_nodes,
            (spec_nps(searched_nodes, time_ms)) as u64,
            pv@,
        ),
{
    let mut out: Vec<u8> = Vec::new();
    push_slice(&mut out, INFO_DEPTH_TEXT.as_slice());
    push_u64(&mut out, depth as u64);
    push_slice(&mut out, SCORE_TEXT.as_slice());
    match node.mate_in_plies {
        Some(k) => {
            push_slice(&mut out, MATE_TEXT.as_slice());
            let moves: i64 = if k >= 0 {
                (((k as u64) + 1) / 2) as i64
            } else {
                let magnitude: u64 = (-(k as i64)) as u64;
                -((magnitude / 2) as i64)
            };
            proof {
                lemma_ceil_half(k as int);
            }
            push_i64(&mut out, moves);
        },
        None => {
            push_slice(&mut out, CP_TEXT.as_slice());
            push_i64(&mut out, node.score as i64);
        },
    }
    push_slice(&mut out, TIME_TEXT.as_slice());
    push_u64(&mut out, time_ms);
    push_slice(&mut out, NODES_TEXT.as_slice());
    push_u64(&mut out, searched_nodes);
    push_slice(&mut out, NPS_TEXT.as_slice());
    let nps: u64 = nodes_per_second(searched_nodes, time_ms);
    push_u64(&mut out, nps);
    push_slice(&mut out, PV_TEXT.as_slice());
    push_pv(&mut out, pv);
    proof {
        assert(out@ =~= spec_info_line(
            depth,
            *node,
            time_ms,
            searched_nodes,
            (spec_nps(searched_nodes, time_ms)) as u64,
            pv@,
        ));
    }
    out
}

/// Connects the exec rounding of a mate distance to its spec.
proof fn lemma_ceil_half(k: int)
    requires
        -32768 <= k <= 32767,
    ensures
        k >= 0 ==> spec_ceil_half(k) == (k + 1) / 2,
        k < 0 ==> spec_ceil_half(k) == -((-k) / 2),
{
    vstd::arithmetic::div_mod::lemma_fundamental_div_mod(k, 2);
    vstd::arithmetic::div_mod::lemma_mod_bound(k, 2);
    if k % 2 == 0 {
        vstd::arithmetic::div_mod::lemma_fundamental_div_mod_converse(k + 1, 2, k / 2, 1);
        if k < 0 {
            vstd::arithmetic::div_mod::lemma_fundamental_div_mod_converse(-k, 2, -(k / 2), 0);
        }
    } else {
        vstd::arithmetic::div_mod::lemma_fundamental_div_mod_converse(k + 1, 2, k / 2 + 1, 0);
        if k < 0 {
            vstd::arithmetic::div_mod::lemma_fundamental_div_mod_converse(-k, 2, -(k / 2) - 1, 1);
        }
    }
}

/// The `bestmove` line.
pub open spec fn spec_bestmove_line(m: EngineMove) -> Seq<u8> {
    BESTMOVE_TEXT@ + spec_uci_bytes(m)
}

/// Renders the `bestmove` line.
pub fn format_bestmove(m: &EngineMove) -> (r: Vec<u8>)
    requires
        move_wf(*m),
    ensures
        r@ == spec_bestmove_line(*m),
{
    let mut out: Vec<u8> = Vec::new();
    push_slice(&mut out, BESTMOVE_TEXT.as_slice());
    let move_text: Vec<u8> = uci_bytes(m);
    push_slice(&mut out, move_text.as_slice());
    out
}

} // verus!
